//! The CPU: owns all machine state (memory, registers, program counter,
//! stack, framebuffer, timers, key state) and applies one decoded
//! instruction per cycle.

use vstd::prelude::*;

use crate::opcode::OpCode;
use crate::draw::draw_collision;
use crate::draw::draw_collision_upto;
use crate::draw::draw_screen;
use crate::draw::draw_screen_upto;
use crate::draw::drawn_bit_at;
use crate::draw::drawn_bit_upto_at;
use crate::draw::lemma_cell_coords;
use crate::draw::lemma_collision_col_step;
use crate::draw::lemma_upto_col_step;
use crate::draw::lemma_upto_full;
use crate::draw::lemma_upto_row_end;
use crate::draw::lemma_upto_zero;
use crate::draw::sprite_row_bit;

use std::collections::HashSet;

verus! {

broadcast use vstd::std_specs::hash::group_hash_axioms;

/// The mathematical model of the machine state: what every contract of the
/// CPU speaks about.
#[verifier::ext_equal]
pub ghost struct MachineV {
    /// The 4096 memory cells, one byte each.
    pub mem: Seq<u8>,
    /// The program counter: address of the next instruction to fetch.
    pub pc: u16,
    /// The sixteen 8-bit registers V0..=VF.
    pub v: Seq<u8>,
    /// The 16-bit index register.
    pub i: u16,
    /// The call stack of return addresses, most recent last.
    pub stack: Seq<u16>,
    /// The 64 x 32 framebuffer, row-major: the pixel at (x, y) is entry
    /// y * 64 + x.
    pub screen: Seq<bool>,
    /// Whether the framebuffer changed since the renderer last read it.
    pub should_render: bool,
    /// The delay timer.
    pub delay: u8,
    /// The sound timer.
    pub sound: u8,
    /// Whether a key-down event was the most recent key event.
    pub is_key_pressed: bool,
    /// The key code of the most recent key-down event, if any.
    pub key_pressed: Option<u16>,
    /// The set of key codes currently reported pressed.
    pub keys: Set<u8>,
}

impl MachineV {
    /// The sizes the machine is built with: 4096 memory cells, 16 registers,
    /// 64 x 32 = 2048 pixels.
    pub open spec fn inv(self) -> bool {
        &&& self.mem.len() == 4096
        &&& self.v.len() == 16
        &&& self.screen.len() == 2048
    }
}

/// The CHIP-8 machine state.
#[derive(Debug)]
pub struct Cpu {
    /// 4096 byte cells; ROM conventionally loads at 0x200, fonts at 0x50.
    pub memory: Vec<u8>,
    /// Program counter.
    pub pc: u16,
    /// Registers V0..=VF. VF doubles as the carry/borrow/collision flag.
    pub v: Vec<u8>,
    /// Index register.
    pub i: u16,
    /// Call stack of return addresses.
    pub stack: Vec<u16>,
    /// Framebuffer, row-major, 2048 cells.
    pub screen: Vec<bool>,
    /// Dirty flag: set when clear or draw changed the framebuffer.
    pub should_render: bool,
    /// Delay timer.
    pub delay_timer: u8,
    /// Sound timer.
    pub sound_timer: u8,
    /// Whether the most recent key event was a press.
    pub is_key_pressed: bool,
    /// The most recently pressed key, if any.
    pub key_pressed: Option<u16>,
    /// The keys currently reported pressed by the input collaborator.
    pub keys_pressed: HashSet<u8>,
}

impl View for Cpu {
    type V = MachineV;

    open spec fn view(&self) -> MachineV {
        MachineV {
            mem: self.memory@,
            pc: self.pc,
            v: self.v@,
            i: self.i,
            stack: self.stack@,
            screen: self.screen@,
            should_render: self.should_render,
            delay: self.delay_timer,
            sound: self.sound_timer,
            is_key_pressed: self.is_key_pressed,
            key_pressed: self.key_pressed,
            keys: self.keys_pressed@,
        }
    }
}

impl Cpu {
    /// Well-formed: the backing vectors have the sizes the machine is built
    /// with.
    pub open spec fn wf(self) -> bool {
        self@.inv()
    }
}

/// A vector of `n` copies of `val`.
fn filled_vec<T: Copy>(n: usize, val: T) -> (r: Vec<T>)
    ensures
        r@.len() == n,
        forall|k: int| 0 <= k < n ==> r@[k] == val,
{
    let mut r: Vec<T> = Vec::new();
    let mut idx: usize = 0;
    while idx < n
        invariant
            idx <= n,
            r@.len() == idx,
            forall|k: int| 0 <= k < idx ==> r@[k] == val,
        decreases n - idx,
    {
        r.push(val);
        idx = idx + 1;
    }
    r
}

/// The machine state at initialization: zeroed memory and registers, empty
/// stack, blank framebuffer, timers at zero, no key pressed.
pub open spec fn init_state() -> MachineV {
    MachineV {
        mem: Seq::new(4096, |k: int| 0u8),
        pc: 0,
        v: Seq::new(16, |k: int| 0u8),
        i: 0,
        stack: Seq::empty(),
        screen: Seq::new(2048, |k: int| false),
        should_render: false,
        delay: 0,
        sound: 0,
        is_key_pressed: false,
        key_pressed: None,
        keys: Set::empty(),
    }
}

/// Create a machine in its initial state.
pub fn new() -> (c: Cpu)
    ensures
        c.wf(),
        c@ == init_state(),
{
    let c = Cpu {
        memory: filled_vec(4096, 0u8),
        pc: 0,
        v: filled_vec(16, 0u8),
        i: 0,
        stack: Vec::new(),
        screen: filled_vec(2048, false),
        should_render: false,
        delay_timer: 0,
        sound_timer: 0,
        is_key_pressed: false,
        key_pressed: None,
        keys_pressed: HashSet::new(),
    };
    proof {
        assert(c@ =~= init_state());
    }
    c
}

impl Default for Cpu {
    /// Same as [`new`]: a machine in its initial state.
    fn default() -> (c: Self)
        ensures
            c.wf(),
            c@ == init_state(),
    {
        new()
    }
}

impl Cpu {
    /// Copy `bytes` into memory consecutively, byte `j` at address
    /// `offset + j`; every other memory address and all other state is left
    /// untouched.
    pub fn load_into_memory(&mut self, bytes: Vec<u8>, offset: usize)
        requires
            old(self).wf(),
            offset + bytes@.len() <= 4096,
        ensures
            final(self).wf(),
            final(self)@.mem.len() == 4096,
            forall|j: int|
                0 <= j < bytes@.len() ==> final(self)@.mem[offset + j] == bytes@[j],
            forall|a: int|
                0 <= a < 4096 && !(offset <= a < offset + bytes@.len())
                    ==> final(self)@.mem[a] == old(self)@.mem[a],
            final(self)@ == (MachineV { mem: final(self)@.mem, ..old(self)@ }),
    {
        let mut j: usize = 0;
        while j < bytes.len()
            invariant
                self.wf(),
                offset + bytes@.len() <= 4096,
                j <= bytes@.len(),
                forall|k: int| 0 <= k < j ==> self@.mem[offset + k] == bytes@[k],
                forall|a: int|
                    0 <= a < 4096 && !(offset <= a < offset + j) ==> self@.mem[a] == old(
                        self,
                    )@.mem[a],
                self@ == (MachineV { mem: self@.mem, ..old(self)@ }),
            decreases bytes@.len() - j,
        {
            self.memory.set(offset + j, bytes[j]);
            j = j + 1;
        }
    }

    /// The big-endian 16-bit instruction word at the program counter:
    /// high byte first.
    pub fn fetch_next_instruction(&self) -> (w: u16)
        requires
            self.wf(),
            self@.pc + 1 < 4096,
        ensures
            w == fetched_word(self@),
    {
        let first_part = self.memory[self.pc as usize];
        let second_part = self.memory[(self.pc + 1) as usize];
        ((first_part as u16) << 8) | (second_part as u16)
    }

    /// Decrement both hardware timers by one, saturating at zero. The timer
    /// driver collaborator calls this at its own fixed cadence.
    pub fn tick_timers(&mut self)
        requires
            old(self).wf(),
        ensures
            final(self).wf(),
            final(self)@ == (MachineV {
                delay: dec_sat(old(self)@.delay),
                sound: dec_sat(old(self)@.sound),
                ..old(self)@
            }),
    {
        self.sound_timer = if self.sound_timer > 0 {
            self.sound_timer - 1
        } else {
            0
        };
        self.delay_timer = if self.delay_timer > 0 {
            self.delay_timer - 1
        } else {
            0
        };
    }

    /// Record a key-down event for `key`.
    pub fn set_key_pressed(&mut self, key: u16)
        ensures
            final(self)@ == (MachineV {
                is_key_pressed: true,
                key_pressed: Some(key),
                ..old(self)@
            }),
    {
        self.is_key_pressed = true;
        self.key_pressed = Some(key);
    }

    /// Record a key-up event.
    pub fn set_key_released(&mut self)
        ensures
            final(self)@ == (MachineV { is_key_pressed: false, ..old(self)@ }),
    {
        self.is_key_pressed = false;
    }

    /// Replace the set of currently pressed keys with the snapshot the input
    /// collaborator supplies for this cycle.
    pub fn set_keys_pressed(&mut self, keys: HashSet<u8>)
        ensures
            final(self)@ == (MachineV { keys: keys@, ..old(self)@ }),
    {
        self.keys_pressed = keys;
    }
}

impl Cpu {
    /// Set the index register.
    pub fn set_index(&mut self, index: u16)
        ensures
            final(self)@ == (MachineV { i: index, ..old(self)@ }),
    {
        self.i = index;
    }

    /// Add `value` to a register with 8-bit wraparound, without touching VF.
    pub fn add_to_register(&mut self, register: usize, value: u8)
        requires
            old(self).wf(),
            register < 16,
        ensures
            final(self).wf(),
            final(self)@ == (MachineV {
                v: old(self)@.v.update(
                    register as int,
                    wrap_add8(old(self)@.v[register as int], value),
                ),
                ..old(self)@
            }),
    {
        self.v.set(register, self.v[register].wrapping_add(value));
    }

    /// Set a register to `value`.
    pub fn set_to_register(&mut self, register: usize, value: u8)
        requires
            old(self).wf(),
            register < 16,
        ensures
            final(self).wf(),
            final(self)@ == (MachineV {
                v: old(self)@.v.update(register as int, value),
                ..old(self)@
            }),
    {
        self.v.set(register, value);
    }

    /// Reset every framebuffer cell to unset and mark the display dirty.
    pub fn clear_screen(&mut self)
        requires
            old(self).wf(),
        ensures
            final(self).wf(),
            final(self)@ == (MachineV {
                screen: blank_screen(),
                should_render: true,
                ..old(self)@
            }),
    {
        let ghost m0 = self@;
        let mut k: usize = 0;
        while k < 2048
            invariant
                self.wf(),
                k <= 2048,
                forall|j: int| 0 <= j < k ==> self@.screen[j] == false,
                self@ == (MachineV { screen: self@.screen, ..m0 }),
            decreases 2048 - k,
        {
            self.screen.set(k, false);
            k = k + 1;
        }
        self.should_render = true;
        proof {
            assert(self@.screen =~= blank_screen());
            assert(self@ =~= (MachineV { screen: blank_screen(), should_render: true, ..m0 }));
        }
    }

    /// XOR-toggle the framebuffer cell at column `x`, row `y` with `value`;
    /// report a collision when a set cell is turned off.
    pub fn draw_pixel(&mut self, x: usize, y: usize, value: bool) -> (collision: bool)
        requires
            old(self).wf(),
            x < 64,
            y < 32,
        ensures
            final(self).wf(),
            collision == (old(self)@.screen[y * 64 + x] && value),
            final(self)@ == (MachineV {
                screen: old(self)@.screen.update(
                    y * 64 + x,
                    old(self)@.screen[y * 64 + x] != value,
                ),
                ..old(self)@
            }),
    {
        let idx: usize = y * 64 + x;
        let current_value = self.screen[idx];
        let new_value = current_value != value;
        self.screen.set(idx, new_value);
        current_value && !new_value
    }

    /// Draw the `nibble`-row sprite at `memory[I]` with origin
    /// `(V[x] % 64, V[y] % 32)`: each sprite bit XOR-toggles its cell, the
    /// sprite body is clipped at the right and bottom edges, VF becomes 1
    /// exactly when a set cell was turned off, and the display is marked
    /// dirty.
    pub fn display(&mut self, x: usize, y: usize, nibble: u8)
        requires
            old(self).wf(),
            x < 16,
            y < 16,
            nibble < 16,
            old(self)@.i + rows_drawn(old(self)@, y as int, nibble as int) <= 4096,
        ensures
            final(self).wf(),
            final(self)@ == draw_result(old(self)@, x as int, y as int, nibble as int),
    {
        let ghost m0 = self@;
        let x0: u8 = self.v[x] % 64;
        let y0: u8 = self.v[y] % 32;
        let rows: u8 = if nibble <= 32 - y0 {
            nibble
        } else {
            32 - y0
        };
        let cols: u8 = if x0 <= 56 {
            8
        } else {
            64 - x0
        };
        let ghost x0i = x0 as int;
        let ghost y0i = y0 as int;
        let ghost ni = nibble as int;
        let ghost ii = m0.i as int;
        let ghost rowsi = rows as int;
        let ghost colsi = cols as int;
        self.v.set(0xF, 0);
        proof {
            lemma_upto_zero(m0.screen, m0.mem, ii, x0i, y0i, ni);
            assert(rowsi == vstd::math::min(ni, 32 - y0i));
            assert(colsi == vstd::math::min(8, 64 - x0i));
        }
        let mut rr: u8 = 0;
        while rr < rows
            invariant
                self.wf(),
                m0.inv(),
                x < 16,
                y < 16,
                nibble < 16,
                x0i == (m0.v[x as int] as int) % 64,
                y0i == (m0.v[y as int] as int) % 32,
                0 <= x0i < 64,
                0 <= y0i < 32,
                ni == nibble as int,
                ii == m0.i as int,
                rowsi == vstd::math::min(ni, 32 - y0i),
                colsi == vstd::math::min(8, 64 - x0i),
                x0 as int == x0i,
                y0 as int == y0i,
                rows as int == rowsi,
                cols as int == colsi,
                rr <= rows,
                ii + rowsi <= 4096,
                self@.screen == draw_screen_upto(m0.screen, m0.mem, ii, x0i, y0i, ni, rr as int, 0),
                self@.v == m0.v.update(
                    15,
                    if draw_collision_upto(m0.screen, m0.mem, ii, x0i, y0i, ni, rr as int, 0) {
                        1u8
                    } else {
                        0u8
                    },
                ),
                self@ == (MachineV { screen: self@.screen, v: self@.v, ..m0 }),
            decreases rows - rr,
        {
            let sprite_data: u8 = self.memory[(self.i + rr as u16) as usize];
            proof {
                assert(sprite_data == m0.mem[ii + rr as int]);
            }
            let mut cc: u8 = 0;
            while cc < cols
                invariant
                    self.wf(),
                    m0.inv(),
                    x0i == (m0.v[x as int] as int) % 64,
                    y0i == (m0.v[y as int] as int) % 32,
                    0 <= x0i < 64,
                    0 <= y0i < 32,
                    ni == nibble as int,
                    nibble < 16,
                    ii == m0.i as int,
                    rowsi == vstd::math::min(ni, 32 - y0i),
                    colsi == vstd::math::min(8, 64 - x0i),
                    x0 as int == x0i,
                    y0 as int == y0i,
                    rows as int == rowsi,
                    cols as int == colsi,
                    rr < rows,
                    cc <= cols,
                    ii + rowsi <= 4096,
                    sprite_data == m0.mem[ii + rr as int],
                    self@.screen == draw_screen_upto(
                        m0.screen,
                        m0.mem,
                        ii,
                        x0i,
                        y0i,
                        ni,
                        rr as int,
                        cc as int,
                    ),
                    self@.v == m0.v.update(
                        15,
                        if draw_collision_upto(
                            m0.screen,
                            m0.mem,
                            ii,
                            x0i,
                            y0i,
                            ni,
                            rr as int,
                            cc as int,
                        ) {
                            1u8
                        } else {
                            0u8
                        },
                    ),
                    self@ == (MachineV { screen: self@.screen, v: self@.v, ..m0 }),
                decreases cols - cc,
            {
                let bit_on: bool = ((sprite_data >> (7 - cc)) & 1) == 1;
                let px: u8 = x0 + cc;
                let py: u8 = y0 + rr;
                let ghost k0 = (y0i + rr as int) * 64 + (x0i + cc as int);
                proof {
                    lemma_cell_coords(x0i + cc as int, y0i + rr as int);
                    lemma_upto_col_step(m0.mem, ii, x0i, y0i, ni, rr as int, cc as int);
                    lemma_collision_col_step(
                        m0.screen,
                        m0.mem,
                        ii,
                        x0i,
                        y0i,
                        ni,
                        rr as int,
                        cc as int,
                    );
                    assert(bit_on == sprite_row_bit(m0.mem[ii + rr as int], cc as int));
                }
                let ghost screen_before = self@.screen;
                let ghost v_before = self@.v;
                let ghost coll_before = draw_collision_upto(
                    m0.screen,
                    m0.mem,
                    ii,
                    x0i,
                    y0i,
                    ni,
                    rr as int,
                    cc as int,
                );
                let collision = self.draw_pixel(px as usize, py as usize, bit_on);
                if collision {
                    self.v.set(0xF, 1);
                }
                proof {
                    assert(self@.screen =~= draw_screen_upto(
                        m0.screen,
                        m0.mem,
                        ii,
                        x0i,
                        y0i,
                        ni,
                        rr as int,
                        cc as int + 1,
                    ));
                    assert(self@.v =~= m0.v.update(
                        15,
                        if draw_collision_upto(
                            m0.screen,
                            m0.mem,
                            ii,
                            x0i,
                            y0i,
                            ni,
                            rr as int,
                            cc as int + 1,
                        ) {
                            1u8
                        } else {
                            0u8
                        },
                    ));
                }
                cc = cc + 1;
            }
            proof {
                lemma_upto_row_end(m0.mem, ii, x0i, y0i, ni, rr as int, colsi);
                assert(self@.screen =~= draw_screen_upto(
                    m0.screen,
                    m0.mem,
                    ii,
                    x0i,
                    y0i,
                    ni,
                    rr as int + 1,
                    0,
                ));
                if draw_collision_upto(m0.screen, m0.mem, ii, x0i, y0i, ni, rr as int, colsi) {
                    let kw = choose|k: int|
                        0 <= k < 2048 && m0.screen[k] && #[trigger] drawn_bit_upto_at(
                            m0.mem,
                            ii,
                            x0i,
                            y0i,
                            ni,
                            rr as int,
                            colsi,
                            k,
                        );
                    assert(drawn_bit_upto_at(m0.mem, ii, x0i, y0i, ni, rr as int + 1, 0, kw));
                }
                if draw_collision_upto(m0.screen, m0.mem, ii, x0i, y0i, ni, rr as int + 1, 0) {
                    let kw = choose|k: int|
                        0 <= k < 2048 && m0.screen[k] && #[trigger] drawn_bit_upto_at(
                            m0.mem,
                            ii,
                            x0i,
                            y0i,
                            ni,
                            rr as int + 1,
                            0,
                            k,
                        );
                    assert(drawn_bit_upto_at(m0.mem, ii, x0i, y0i, ni, rr as int, colsi, kw));
                }
            }
            rr = rr + 1;
        }
        self.should_render = true;
        proof {
            lemma_upto_full(m0.mem, ii, x0i, y0i, ni, rowsi);
            assert(self@.screen =~= draw_screen(m0.screen, m0.mem, ii, x0i, y0i, ni));
            if draw_collision_upto(m0.screen, m0.mem, ii, x0i, y0i, ni, rowsi, 0) {
                let kw = choose|k: int|
                    0 <= k < 2048 && m0.screen[k] && #[trigger] drawn_bit_upto_at(
                        m0.mem,
                        ii,
                        x0i,
                        y0i,
                        ni,
                        rowsi,
                        0,
                        k,
                    );
                assert(drawn_bit_at(m0.mem, ii, x0i, y0i, ni, kw));
            }
            if draw_collision(m0.screen, m0.mem, ii, x0i, y0i, ni) {
                let kw = choose|k: int|
                    0 <= k < 2048 && m0.screen[k] && #[trigger] drawn_bit_at(
                        m0.mem,
                        ii,
                        x0i,
                        y0i,
                        ni,
                        k,
                    );
                assert(drawn_bit_upto_at(m0.mem, ii, x0i, y0i, ni, rowsi, 0, kw));
            }
            assert(self@ =~= draw_result(m0, x as int, y as int, nibble as int));
        }
    }
}

/// 8-bit wraparound sum.
pub open spec fn wrap_add8(a: u8, b: u8) -> u8 {
    ((a + b) % 256) as u8
}

/// 8-bit wraparound difference.
pub open spec fn wrap_sub8(a: u8, b: u8) -> u8 {
    ((a - b) % 256) as u8
}

/// The framebuffer with every cell unset.
pub open spec fn blank_screen() -> Seq<bool> {
    Seq::new(2048, |k: int| false)
}

/// The sprite rows a draw of an `n`-row sprite whose origin row is
/// `V[y] % 32` actually reads and draws: the height clipped at the bottom
/// edge.
pub open spec fn rows_drawn(m: MachineV, y: int, n: int) -> int {
    vstd::math::min(n, 32 - ((m.v[y] as int) % 32))
}

/// The machine after a draw instruction: the framebuffer XOR-toggled by the
/// sprite, VF set to the collision flag, the display marked dirty.
pub open spec fn draw_result(m: MachineV, x: int, y: int, n: int) -> MachineV {
    let x0 = (m.v[x] as int) % 64;
    let y0 = (m.v[y] as int) % 32;
    MachineV {
        screen: draw_screen(m.screen, m.mem, m.i as int, x0, y0, n),
        v: m.v.update(
            15,
            if draw_collision(m.screen, m.mem, m.i as int, x0, y0, n) {
                1u8
            } else {
                0u8
            },
        ),
        should_render: true,
        ..m
    }
}

/// One saturating timer decrement: toward zero, never below.
pub open spec fn dec_sat(t: u8) -> u8 {
    if t > 0 {
        (t - 1) as u8
    } else {
        0
    }
}

/// The big-endian instruction word assembled from the two bytes at the
/// program counter.
pub open spec fn fetched_word(m: MachineV) -> u16 {
    ((m.mem[m.pc as int] as u16) << 8) | (m.mem[m.pc as int + 1] as u16)
}


/// The fatal failure of an execution step.
#[derive(Copy, Clone, Debug, PartialEq, Eq, Structural)]
pub enum CpuError {
    /// A return instruction found the call stack empty: continuing would
    /// execute from an undefined address.
    StackUnderflow,
}

/// Relies on rand::random: draws one uniformly random byte from the thread
/// RNG. Nothing is promised of the value.
#[verifier::external_body]
fn random_byte() -> u8 {
    rand::random::<u8>()
}

/// The machine with the next instruction skipped: the program counter moved
/// past one more two-byte instruction.
pub open spec fn skip_next(m: MachineV) -> MachineV {
    MachineV { pc: (m.pc + 2) as u16, ..m }
}

/// The decimal digits of a byte: hundreds, tens, ones.
pub open spec fn bcd_hundreds(val: u8) -> u8 {
    (val / 100) as u8
}

/// See [`bcd_hundreds`].
pub open spec fn bcd_tens(val: u8) -> u8 {
    ((val / 10) % 10) as u8
}

/// See [`bcd_hundreds`].
pub open spec fn bcd_ones(val: u8) -> u8 {
    (val % 10) as u8
}

/// One decoded instruction applied to the machine state: the post-state, or
/// `None` when a return finds the call stack empty (the one fatal case).
/// `rnd` is the random byte that a set-register-with-random instruction
/// masks; every other instruction ignores it.
pub open spec fn step(m: MachineV, op: OpCode, rnd: u8) -> Option<MachineV> {
    match op {
        OpCode::ClearScreen => Some(
            MachineV { screen: blank_screen(), should_render: true, ..m },
        ),
        OpCode::RetFromSubroutine => if m.stack.len() == 0 {
            None
        } else {
            Some(MachineV { pc: m.stack.last(), stack: m.stack.drop_last(), ..m })
        },
        OpCode::Jump(nnn) => Some(MachineV { pc: nnn, ..m }),
        OpCode::JumpWithV0Offset(nnn) => Some(MachineV { pc: (nnn + m.v[0]) as u16, ..m }),
        OpCode::CallSubroutine(nnn) => Some(MachineV { stack: m.stack.push(m.pc), pc: nnn, ..m }),
        OpCode::SetRegister { register, value } => Some(
            MachineV { v: m.v.update(register as int, value), ..m },
        ),
        OpCode::AddRegister { register, value } => Some(
            MachineV { v: m.v.update(register as int, wrap_add8(m.v[register as int], value)), ..m },
        ),
        OpCode::SetIndex(nnn) => Some(MachineV { i: nnn, ..m }),
        OpCode::SetRegisterWithRandom(x, nn) => Some(
            MachineV { v: m.v.update(x as int, rnd & nn), ..m },
        ),
        OpCode::Draw(x, y, n) => Some(draw_result(m, x as int, y as int, n as int)),
        OpCode::SkipIfRegisterEquals(x, nn) => Some(
            if m.v[x as int] == nn {
                skip_next(m)
            } else {
                m
            },
        ),
        OpCode::SkipIfRegisterNotEquals(x, nn) => Some(
            if m.v[x as int] != nn {
                skip_next(m)
            } else {
                m
            },
        ),
        OpCode::SkipIfBothRegistersEqual(x, y) => Some(
            if m.v[x as int] == m.v[y as int] {
                skip_next(m)
            } else {
                m
            },
        ),
        OpCode::SkipIfBothRegistersNotEqual(x, y) => Some(
            if m.v[x as int] != m.v[y as int] {
                skip_next(m)
            } else {
                m
            },
        ),
        OpCode::SetRegisterToRegisterValue(x, y) => Some(
            MachineV { v: m.v.update(x as int, m.v[y as int]), ..m },
        ),
        OpCode::SetRegisterToRegisterValueUsingOR(x, y) => Some(
            MachineV { v: m.v.update(x as int, m.v[x as int] | m.v[y as int]), ..m },
        ),
        OpCode::SetRegisterToRegisterValueUsingAND(x, y) => Some(
            MachineV { v: m.v.update(x as int, m.v[x as int] & m.v[y as int]), ..m },
        ),
        OpCode::SetRegisterToRegisterValueUsingXOR(x, y) => Some(
            MachineV { v: m.v.update(x as int, m.v[x as int] ^ m.v[y as int]), ..m },
        ),
        OpCode::AddRegisterToRegister(x, y) => Some(
            MachineV {
                v: m.v.update(x as int, wrap_add8(m.v[x as int], m.v[y as int])).update(
                    15,
                    if m.v[x as int] + m.v[y as int] > 255 {
                        1u8
                    } else {
                        0u8
                    },
                ),
                ..m
            },
        ),
        OpCode::SubRegisterToRegister(x, y) => Some(
            MachineV {
                v: m.v.update(x as int, wrap_sub8(m.v[x as int], m.v[y as int])).update(
                    15,
                    if m.v[x as int] < m.v[y as int] {
                        0u8
                    } else {
                        1u8
                    },
                ),
                ..m
            },
        ),
        OpCode::ShiftRightRegisterFromRegister(x, y) => Some(
            MachineV {
                v: m.v.update(x as int, m.v[x as int] >> 1u8).update(
                    15,
                    if m.v[x as int] & 0x1 == 1 {
                        1u8
                    } else {
                        0u8
                    },
                ),
                ..m
            },
        ),
        OpCode::ShiftLeftRegisterFromRegister(x, y) => Some(
            MachineV {
                v: m.v.update(x as int, m.v[x as int] << 1u8).update(
                    15,
                    if m.v[x as int] & 0x80 == 128 {
                        1u8
                    } else {
                        0u8
                    },
                ),
                ..m
            },
        ),
        OpCode::SubRegisterToRegisterReverse(x, y) => Some(
            MachineV {
                v: m.v.update(x as int, wrap_sub8(m.v[y as int], m.v[x as int])).update(
                    15,
                    if m.v[y as int] < m.v[x as int] {
                        0u8
                    } else {
                        1u8
                    },
                ),
                ..m
            },
        ),
        OpCode::LoadFromMemoryToRegisters(x) => Some(
            MachineV {
                v: Seq::new(
                    16,
                    |j: int|
                        if 0 <= j <= x {
                            m.mem[m.i as int + j]
                        } else {
                            m.v[j]
                        },
                ),
                ..m
            },
        ),
        OpCode::LoadFromRegistersToMemory(x) => Some(
            MachineV {
                mem: Seq::new(
                    4096,
                    |a: int|
                        if m.i as int <= a <= m.i as int + x {
                            m.v[a - m.i as int]
                        } else {
                            m.mem[a]
                        },
                ),
                ..m
            },
        ),
        OpCode::StoreBCDRepresentationOfRegister(x) => Some(
            MachineV {
                mem: m.mem.update(m.i as int, bcd_hundreds(m.v[x as int])).update(
                    m.i as int + 1,
                    bcd_tens(m.v[x as int]),
                ).update(m.i as int + 2, bcd_ones(m.v[x as int])),
                ..m
            },
        ),
        OpCode::AddRegisterValueToIndex(x) => Some(
            MachineV { i: (m.i + m.v[x as int]) as u16, ..m },
        ),
        OpCode::SetRegisterFromDelayTimer(x) => Some(
            MachineV { v: m.v.update(x as int, m.delay), ..m },
        ),
        OpCode::SetSoundTimerFromRegister(x) => Some(MachineV { sound: m.v[x as int], ..m }),
        OpCode::SetDelayTimerFromRegister(x) => Some(MachineV { delay: m.v[x as int], ..m }),
        OpCode::GetKey(x) => Some(
            if m.keys.contains(m.v[x as int]) {
                m
            } else {
                MachineV { pc: (m.pc - 2) as u16, ..m }
            },
        ),
        OpCode::SkipIfKey(x) => Some(
            if m.keys.contains(m.v[x as int]) {
                skip_next(m)
            } else {
                m
            },
        ),
        OpCode::SkipIfNotKey(x) => Some(
            if !m.keys.contains(m.v[x as int]) {
                skip_next(m)
            } else {
                m
            },
        ),
        OpCode::LoadSpriteRepresentationInMemory(x) => Some(
            MachineV { i: (0x50 + m.v[x as int] * 5) as u16, ..m },
        ),
        OpCode::Unknown => Some(m),
    }
}

/// The machine-limit preconditions of applying one instruction: every memory
/// cell read or written lies inside the 4096, no 16-bit address arithmetic
/// overflows, and a key wait has room to rewind the program counter.
pub open spec fn exec_safe(m: MachineV, op: OpCode) -> bool {
    match op {
        OpCode::Draw(x, y, n) => m.i + rows_drawn(m, y as int, n as int) <= 4096,
        OpCode::StoreBCDRepresentationOfRegister(x) => m.i + 2 < 4096,
        OpCode::LoadFromRegistersToMemory(x) => m.i + x < 4096,
        OpCode::LoadFromMemoryToRegisters(x) => m.i + x < 4096,
        OpCode::AddRegisterValueToIndex(x) => m.i + m.v[x as int] <= 0xFFFF,
        OpCode::GetKey(x) => m.pc >= 2,
        OpCode::SkipIfRegisterEquals(x, nn) => m.pc + 2 <= 0xFFFF,
        OpCode::SkipIfRegisterNotEquals(x, nn) => m.pc + 2 <= 0xFFFF,
        OpCode::SkipIfBothRegistersEqual(x, y) => m.pc + 2 <= 0xFFFF,
        OpCode::SkipIfBothRegistersNotEqual(x, y) => m.pc + 2 <= 0xFFFF,
        OpCode::SkipIfKey(x) => m.pc + 2 <= 0xFFFF,
        OpCode::SkipIfNotKey(x) => m.pc + 2 <= 0xFFFF,
        _ => true,
    }
}

/// The control-flow instructions: jumps, call, return, and the four
/// compare-skips.
pub open spec fn is_branch_op(op: OpCode) -> bool {
    ||| op is Jump
    ||| op is JumpWithV0Offset
    ||| op is CallSubroutine
    ||| op is RetFromSubroutine
    ||| op is SkipIfRegisterEquals
    ||| op is SkipIfRegisterNotEquals
    ||| op is SkipIfBothRegistersEqual
    ||| op is SkipIfBothRegistersNotEqual
}

/// The register-to-register ALU instructions.
pub open spec fn is_alu_op(op: OpCode) -> bool {
    ||| op is SetRegisterToRegisterValue
    ||| op is SetRegisterToRegisterValueUsingOR
    ||| op is SetRegisterToRegisterValueUsingAND
    ||| op is SetRegisterToRegisterValueUsingXOR
    ||| op is AddRegisterToRegister
    ||| op is SubRegisterToRegister
    ||| op is ShiftRightRegisterFromRegister
    ||| op is ShiftLeftRegisterFromRegister
    ||| op is SubRegisterToRegisterReverse
}

/// The immediate and timer loads: instructions that set one register, the
/// index, or a timer from an immediate, a register, or the random byte.
pub open spec fn is_load_op(op: OpCode) -> bool {
    ||| op is SetRegister
    ||| op is AddRegister
    ||| op is SetIndex
    ||| op is SetRegisterWithRandom
    ||| op is SetRegisterFromDelayTimer
    ||| op is SetDelayTimerFromRegister
    ||| op is SetSoundTimerFromRegister
    ||| op is LoadSpriteRepresentationInMemory
    ||| op is AddRegisterValueToIndex
}

/// The memory-block instructions: bulk register transfer and BCD store.
pub open spec fn is_mem_op(op: OpCode) -> bool {
    ||| op is LoadFromMemoryToRegisters
    ||| op is LoadFromRegistersToMemory
    ||| op is StoreBCDRepresentationOfRegister
}

/// The key-state instructions: the blocking wait and the two key skips.
pub open spec fn is_key_op(op: OpCode) -> bool {
    ||| op is GetKey
    ||| op is SkipIfKey
    ||| op is SkipIfNotKey
}

impl Cpu {
    /// The control-flow instructions. Fails exactly when a return finds the
    /// call stack empty, and then changes nothing.
    #[verifier::rlimit(100)]
    #[verifier::spinoff_prover]
    fn execute_branch(&mut self, op: OpCode, rnd: u8) -> (r: Result<(), CpuError>)
        requires
            old(self).wf(),
            is_branch_op(op),
            crate::opcode::op_wf(op),
            exec_safe(old(self)@, op),
        ensures
            final(self).wf(),
            r is Ok <==> step(old(self)@, op, rnd) is Some,
            r is Ok ==> step(old(self)@, op, rnd) == Some(final(self)@),
            r is Err ==> final(self)@ == old(self)@ && r == Result::<(), CpuError>::Err(
                CpuError::StackUnderflow,
            ),
    {
        match op {
            OpCode::Jump(next_pc) => {
                self.pc = next_pc;
                Ok(())
            },
            OpCode::JumpWithV0Offset(next_pc) => {
                self.pc = next_pc + (self.v[0] as u16);
                Ok(())
            },
            OpCode::CallSubroutine(next_pc) => {
                self.stack.push(self.pc);
                self.pc = next_pc;
                Ok(())
            },
            OpCode::RetFromSubroutine => {
                if self.stack.len() > 0 {
                    let return_address = self.stack.pop().unwrap();
                    self.pc = return_address;
                    Ok(())
                } else {
                    Err(CpuError::StackUnderflow)
                }
            },
            OpCode::SkipIfRegisterEquals(x, nn) => {
                if self.v[x as usize] == nn {
                    self.pc = self.pc + 2;
                }
                Ok(())
            },
            OpCode::SkipIfRegisterNotEquals(x, nn) => {
                if self.v[x as usize] != nn {
                    self.pc = self.pc + 2;
                }
                Ok(())
            },
            OpCode::SkipIfBothRegistersEqual(x, y) => {
                if self.v[x as usize] == self.v[y as usize] {
                    self.pc = self.pc + 2;
                }
                Ok(())
            },
            OpCode::SkipIfBothRegistersNotEqual(x, y) => {
                if self.v[x as usize] != self.v[y as usize] {
                    self.pc = self.pc + 2;
                }
                Ok(())
            },
            _ => {
                proof {
                    assert(false);
                }
                Ok(())
            },
        }
    }

    /// The register-to-register ALU instructions; all are total.
    #[verifier::rlimit(100)]
    #[verifier::spinoff_prover]
    fn execute_alu(&mut self, op: OpCode, rnd: u8) -> (r: Result<(), CpuError>)
        requires
            old(self).wf(),
            is_alu_op(op),
            crate::opcode::op_wf(op),
            exec_safe(old(self)@, op),
        ensures
            final(self).wf(),
            r is Ok,
            step(old(self)@, op, rnd) == Some(final(self)@),
    {
        match op {
            OpCode::SetRegisterToRegisterValue(x, y) => {
                let value = self.v[y as usize];
                self.v.set(x as usize, value);
            },
            OpCode::SetRegisterToRegisterValueUsingOR(x, y) => {
                let value = self.v[x as usize] | self.v[y as usize];
                self.v.set(x as usize, value);
            },
            OpCode::SetRegisterToRegisterValueUsingAND(x, y) => {
                let value = self.v[x as usize] & self.v[y as usize];
                self.v.set(x as usize, value);
            },
            OpCode::SetRegisterToRegisterValueUsingXOR(x, y) => {
                let value = self.v[x as usize] ^ self.v[y as usize];
                self.v.set(x as usize, value);
            },
            OpCode::AddRegisterToRegister(x, y) => {
                let a = self.v[x as usize];
                let b = self.v[y as usize];
                self.v.set(x as usize, a.wrapping_add(b));
                self.v.set(
                    15,
                    if (a as u16) + (b as u16) > 255 {
                        1
                    } else {
                        0
                    },
                );
            },
            OpCode::SubRegisterToRegister(x, y) => {
                let a = self.v[x as usize];
                let b = self.v[y as usize];
                self.v.set(x as usize, a.wrapping_sub(b));
                self.v.set(
                    15,
                    if a < b {
                        0
                    } else {
                        1
                    },
                );
            },
            OpCode::ShiftRightRegisterFromRegister(x, _y) => {
                let a = self.v[x as usize];
                let least_significant_bit: u8 = if a & 0x1 == 1 {
                    1
                } else {
                    0
                };
                self.v.set(x as usize, a >> 1u8);
                self.v.set(15, least_significant_bit);
            },
            OpCode::ShiftLeftRegisterFromRegister(x, _y) => {
                let a = self.v[x as usize];
                let most_significant_bit: u8 = if a & 0x80 == 128 {
                    1
                } else {
                    0
                };
                self.v.set(x as usize, a << 1u8);
                self.v.set(15, most_significant_bit);
            },
            OpCode::SubRegisterToRegisterReverse(x, y) => {
                let a = self.v[x as usize];
                let b = self.v[y as usize];
                self.v.set(x as usize, b.wrapping_sub(a));
                self.v.set(
                    15,
                    if b < a {
                        0
                    } else {
                        1
                    },
                );
            },
            _ => {
                proof {
                    assert(false);
                }
            },
        }
        Ok(())
    }

    /// The immediate and timer loads; all are total.
    #[verifier::rlimit(100)]
    #[verifier::spinoff_prover]
    fn execute_load(&mut self, op: OpCode, rnd: u8) -> (r: Result<(), CpuError>)
        requires
            old(self).wf(),
            is_load_op(op),
            crate::opcode::op_wf(op),
            exec_safe(old(self)@, op),
        ensures
            final(self).wf(),
            r is Ok,
            step(old(self)@, op, rnd) == Some(final(self)@),
    {
        match op {
            OpCode::SetRegister { register, value } => {
                self.set_to_register(register, value);
            },
            OpCode::AddRegister { register, value } => {
                self.add_to_register(register, value);
            },
            OpCode::SetIndex(index) => {
                self.set_index(index);
            },
            OpCode::SetRegisterWithRandom(x, nn) => {
                self.v.set(x, rnd & nn);
            },
            OpCode::SetRegisterFromDelayTimer(x) => {
                let value = self.delay_timer;
                self.v.set(x as usize, value);
            },
            OpCode::SetDelayTimerFromRegister(x) => {
                self.delay_timer = self.v[x as usize];
            },
            OpCode::SetSoundTimerFromRegister(x) => {
                self.sound_timer = self.v[x as usize];
            },
            OpCode::LoadSpriteRepresentationInMemory(x) => {
                self.i = 0x50 + (self.v[x as usize] as u16) * 5;
            },
            OpCode::AddRegisterValueToIndex(x) => {
                self.i = self.i + (self.v[x as usize] as u16);
            },
            _ => {
                proof {
                    assert(false);
                }
            },
        }
        Ok(())
    }

    /// The memory-block instructions; all are total.
    #[verifier::rlimit(100)]
    #[verifier::spinoff_prover]
    fn execute_mem(&mut self, op: OpCode, rnd: u8) -> (r: Result<(), CpuError>)
        requires
            old(self).wf(),
            is_mem_op(op),
            crate::opcode::op_wf(op),
            exec_safe(old(self)@, op),
        ensures
            final(self).wf(),
            r is Ok,
            step(old(self)@, op, rnd) == Some(final(self)@),
    {
        let ghost m0 = self@;
        match op {
            OpCode::LoadFromMemoryToRegisters(x) => {
                let mut j: usize = 0;
                while j <= x as usize
                    invariant
                        self.wf(),
                        m0.inv(),
                        x < 16,
                        j <= x as usize + 1,
                        m0.i + x < 4096,
                        self@.i == m0.i,
                        self@.mem == m0.mem,
                        forall|t: int| 0 <= t < j ==> self@.v[t] == m0.mem[m0.i as int + t],
                        forall|t: int| j <= t < 16 ==> self@.v[t] == m0.v[t],
                        self@ == (MachineV { v: self@.v, ..m0 }),
                    decreases x as int + 1 - j,
                {
                    let value = self.memory[self.i as usize + j];
                    self.v.set(j, value);
                    j = j + 1;
                }
                proof {
                    assert(self@.v =~= Seq::new(
                        16,
                        |t: int|
                            if 0 <= t <= x {
                                m0.mem[m0.i as int + t]
                            } else {
                                m0.v[t]
                            },
                    ));
                }
            },
            OpCode::LoadFromRegistersToMemory(x) => {
                let mut j: usize = 0;
                while j <= x as usize
                    invariant
                        self.wf(),
                        m0.inv(),
                        x < 16,
                        j <= x as usize + 1,
                        m0.i + x < 4096,
                        self@.i == m0.i,
                        self@.v == m0.v,
                        forall|a: int|
                            m0.i as int <= a < m0.i as int + j ==> self@.mem[a] == m0.v[a
                                - m0.i as int],
                        forall|a: int|
                            0 <= a < 4096 && !(m0.i as int <= a < m0.i as int + j)
                                ==> self@.mem[a] == m0.mem[a],
                        self@ == (MachineV { mem: self@.mem, ..m0 }),
                    decreases x as int + 1 - j,
                {
                    let value = self.v[j];
                    self.memory.set(self.i as usize + j, value);
                    j = j + 1;
                }
                proof {
                    assert(self@.mem =~= Seq::new(
                        4096,
                        |a: int|
                            if m0.i as int <= a <= m0.i as int + x {
                                m0.v[a - m0.i as int]
                            } else {
                                m0.mem[a]
                            },
                    ));
                }
            },
            OpCode::StoreBCDRepresentationOfRegister(x) => {
                let value = self.v[x as usize];
                let hundreds = value / 100;
                let tens = (value / 10) % 10;
                let ones = value % 10;
                self.memory.set(self.i as usize, hundreds);
                self.memory.set(self.i as usize + 1, tens);
                self.memory.set(self.i as usize + 2, ones);
            },
            _ => {
                proof {
                    assert(false);
                }
            },
        }
        Ok(())
    }

    /// The key-state instructions; all are total.
    #[verifier::rlimit(100)]
    #[verifier::spinoff_prover]
    fn execute_key(&mut self, op: OpCode, rnd: u8) -> (r: Result<(), CpuError>)
        requires
            old(self).wf(),
            is_key_op(op),
            crate::opcode::op_wf(op),
            exec_safe(old(self)@, op),
        ensures
            final(self).wf(),
            r is Ok,
            step(old(self)@, op, rnd) == Some(final(self)@),
    {
        match op {
            OpCode::GetKey(x) => {
                let key = self.v[x];
                if !self.keys_pressed.contains(&key) {
                    self.pc = self.pc - 2;
                }
            },
            OpCode::SkipIfKey(x) => {
                let key = self.v[x];
                if self.keys_pressed.contains(&key) {
                    self.pc = self.pc + 2;
                }
            },
            OpCode::SkipIfNotKey(x) => {
                let key = self.v[x];
                if !self.keys_pressed.contains(&key) {
                    self.pc = self.pc + 2;
                }
            },
            _ => {
                proof {
                    assert(false);
                }
            },
        }
        Ok(())
    }

    /// Apply one decoded instruction. `rnd` supplies the byte that a
    /// set-register-with-random instruction masks; every other instruction
    /// ignores it. Fails exactly when a return finds the call stack empty,
    /// and then changes nothing.
    #[verifier::rlimit(100)]
    #[verifier::spinoff_prover]
    pub fn execute(&mut self, op: OpCode, rnd: u8) -> (r: Result<(), CpuError>)
        requires
            old(self).wf(),
            crate::opcode::op_wf(op),
            exec_safe(old(self)@, op),
        ensures
            final(self).wf(),
            r is Ok <==> step(old(self)@, op, rnd) is Some,
            r is Ok ==> step(old(self)@, op, rnd) == Some(final(self)@),
            r is Err ==> final(self)@ == old(self)@ && r == Result::<(), CpuError>::Err(
                CpuError::StackUnderflow,
            ),
    {
        match op {
            OpCode::ClearScreen => {
                self.clear_screen();
                Ok(())
            },
            OpCode::Draw(x, y, n) => {
                self.display(x, y, n);
                Ok(())
            },
            OpCode::Unknown => Ok(()),
            OpCode::Jump(..) => self.execute_branch(op, rnd),
            OpCode::JumpWithV0Offset(..) => self.execute_branch(op, rnd),
            OpCode::CallSubroutine(..) => self.execute_branch(op, rnd),
            OpCode::RetFromSubroutine => self.execute_branch(op, rnd),
            OpCode::SkipIfRegisterEquals(..) => self.execute_branch(op, rnd),
            OpCode::SkipIfRegisterNotEquals(..) => self.execute_branch(op, rnd),
            OpCode::SkipIfBothRegistersEqual(..) => self.execute_branch(op, rnd),
            OpCode::SkipIfBothRegistersNotEqual(..) => self.execute_branch(op, rnd),
            OpCode::SetRegisterToRegisterValue(..) => self.execute_alu(op, rnd),
            OpCode::SetRegisterToRegisterValueUsingOR(..) => self.execute_alu(op, rnd),
            OpCode::SetRegisterToRegisterValueUsingAND(..) => self.execute_alu(op, rnd),
            OpCode::SetRegisterToRegisterValueUsingXOR(..) => self.execute_alu(op, rnd),
            OpCode::AddRegisterToRegister(..) => self.execute_alu(op, rnd),
            OpCode::SubRegisterToRegister(..) => self.execute_alu(op, rnd),
            OpCode::ShiftRightRegisterFromRegister(..) => self.execute_alu(op, rnd),
            OpCode::ShiftLeftRegisterFromRegister(..) => self.execute_alu(op, rnd),
            OpCode::SubRegisterToRegisterReverse(..) => self.execute_alu(op, rnd),
            OpCode::SetRegister { .. } => self.execute_load(op, rnd),
            OpCode::AddRegister { .. } => self.execute_load(op, rnd),
            OpCode::SetIndex(..) => self.execute_load(op, rnd),
            OpCode::SetRegisterWithRandom(..) => self.execute_load(op, rnd),
            OpCode::SetRegisterFromDelayTimer(..) => self.execute_load(op, rnd),
            OpCode::SetDelayTimerFromRegister(..) => self.execute_load(op, rnd),
            OpCode::SetSoundTimerFromRegister(..) => self.execute_load(op, rnd),
            OpCode::LoadSpriteRepresentationInMemory(..) => self.execute_load(op, rnd),
            OpCode::AddRegisterValueToIndex(..) => self.execute_load(op, rnd),
            OpCode::LoadFromMemoryToRegisters(..) => self.execute_mem(op, rnd),
            OpCode::LoadFromRegistersToMemory(..) => self.execute_mem(op, rnd),
            OpCode::StoreBCDRepresentationOfRegister(..) => self.execute_mem(op, rnd),
            OpCode::GetKey(..) => self.execute_key(op, rnd),
            OpCode::SkipIfKey(..) => self.execute_key(op, rnd),
            OpCode::SkipIfNotKey(..) => self.execute_key(op, rnd),
        }
    }
}

/// The machine with the program counter advanced past the fetched word.
pub open spec fn advanced(m: MachineV) -> MachineV {
    MachineV { pc: (m.pc + 2) as u16, ..m }
}

/// Whether the next fetch-decode-execute cycle stays inside machine limits:
/// the fetch reads inside memory and the decoded instruction passes
/// [`exec_safe`] once the program counter has advanced.
pub open spec fn tick_safe(m: MachineV) -> bool {
    &&& m.pc + 1 < 4096
    &&& exec_safe(advanced(m), crate::decoder::spec_decode(fetched_word(m)))
}

/// One full cycle: fetch the word at the program counter, advance the
/// counter by two, decode, and apply the instruction.
pub open spec fn cycle(m: MachineV, rnd: u8) -> Option<MachineV> {
    step(advanced(m), crate::decoder::spec_decode(fetched_word(m)), rnd)
}

impl Cpu {
    /// Whether the next cycle stays inside machine limits: the executable
    /// test of [`tick_safe`]. Callers outside the library check this before
    /// calling [`Cpu::tick`].
    pub fn tick_ready(&self) -> (r: bool)
        requires
            self.wf(),
        ensures
            r == tick_safe(self@),
    {
        if self.pc >= 4095 {
            return false;
        }
        let w = self.fetch_next_instruction();
        let op = crate::decoder::decode_instruction(w);
        proof {
            assert(advanced(self@).i == self@.i);
            assert(advanced(self@).v == self@.v);
        }
        match op {
            OpCode::Draw(x, y, n) => {
                let y0 = self.v[y] % 32;
                let clipped_rows = if n <= 32 - y0 {
                    n
                } else {
                    32 - y0
                };
                proof {
                    assert(clipped_rows as int == rows_drawn(advanced(self@), y as int, n as int));
                }
                (self.i as usize) + (clipped_rows as usize) <= 4096
            },
            OpCode::StoreBCDRepresentationOfRegister(x) => (self.i as usize) + 2 < 4096,
            OpCode::LoadFromRegistersToMemory(x) => (self.i as usize) + (x as usize) < 4096,
            OpCode::LoadFromMemoryToRegisters(x) => (self.i as usize) + (x as usize) < 4096,
            OpCode::AddRegisterValueToIndex(x) => (self.i as usize) + (self.v[x as usize] as usize)
                <= 0xFFFF,
            _ => true,
        }
    }

    /// One cycle: fetch the two bytes at the program counter, advance it by
    /// two, decode, and apply the decoded instruction. Fails exactly when a
    /// return finds the call stack empty, and then changes nothing. For
    /// every instruction but set-register-with-random the cycle is
    /// deterministic; for that one, some byte was drawn and masked.
    pub fn tick(&mut self) -> (r: Result<(), CpuError>)
        requires
            old(self).wf(),
            tick_safe(old(self)@),
        ensures
            final(self).wf(),
            r is Ok <==> cycle(old(self)@, 0) is Some,
            r is Ok ==> exists|rb: u8| cycle(old(self)@, rb) == Some(final(self)@),
            r is Ok && !(crate::decoder::spec_decode(fetched_word(old(self)@))
                is SetRegisterWithRandom) ==> cycle(old(self)@, 0) == Some(final(self)@),
            r is Err ==> final(self)@ == old(self)@ && r == Result::<(), CpuError>::Err(
                CpuError::StackUnderflow,
            ),
    {
        let ghost m0 = self@;
        let instruction = self.fetch_next_instruction();
        self.pc = self.pc + 2;
        proof {
            assert(self@ =~= advanced(m0));
        }
        let op = crate::decoder::decode_instruction(instruction);
        let rnd: u8 = if matches!(op, OpCode::SetRegisterWithRandom(_, _)) {
            random_byte()
        } else {
            0
        };
        let result = self.execute(op, rnd);
        if result.is_err() {
            self.pc = self.pc - 2;
            proof {
                assert(self@ =~= m0);
            }
        }
        proof {
            if result is Ok {
                assert(cycle(m0, rnd) == Some(self@));
            }
            assert(cycle(m0, 0) is Some <==> cycle(m0, rnd) is Some);
        }
        result
    }
}

} // verus!