//! Laws of the machine semantics: properties that hold of every state and
//! every input, proved once and for all against the specifications that the
//! CPU's contracts use.

use vstd::prelude::*;

use crate::cpu::MachineV;
use crate::cpu::cycle;
use crate::cpu::dec_sat;
use crate::cpu::draw_result;
use crate::cpu::fetched_word;
use crate::cpu::step;
use crate::decoder::spec_decode;
use crate::draw::draw_collision;
use crate::draw::draw_screen;
use crate::draw::drawn_bit_at;
use crate::opcode::OpCode;

verus! {

/// Add-with-carry: for every register pair and all register contents, VF
/// becomes 1 exactly when the unsigned sum exceeds 255, else 0; and
/// whenever the destination register is not VF itself (whose stored sum the
/// flag write overwrites), the stored result is the sum mod 256.
pub proof fn lemma_add_with_carry(m: MachineV, x: u8, y: u8, rnd: u8)
    requires
        m.inv(),
        x < 16,
        y < 16,
    ensures
        step(m, OpCode::AddRegisterToRegister(x, y), rnd) is Some,
        ({
            let m2 = step(m, OpCode::AddRegisterToRegister(x, y), rnd).unwrap();
            &&& (m2.v[15] == 1u8 <==> m.v[x as int] + m.v[y as int] > 255)
            &&& (m2.v[15] == 1u8 || m2.v[15] == 0u8)
            &&& (x != 15 ==> m2.v[x as int] == (m.v[x as int] + m.v[y as int]) % 256)
        }),
{
}

/// Subtract-with-borrow: for every register pair and all register contents,
/// VF becomes 0 exactly when the minuend is less than the subtrahend, else
/// 1; and whenever the destination register is not VF itself, the stored
/// result is the difference mod 256.
pub proof fn lemma_sub_with_borrow(m: MachineV, x: u8, y: u8, rnd: u8)
    requires
        m.inv(),
        x < 16,
        y < 16,
    ensures
        step(m, OpCode::SubRegisterToRegister(x, y), rnd) is Some,
        ({
            let m2 = step(m, OpCode::SubRegisterToRegister(x, y), rnd).unwrap();
            &&& (m2.v[15] == 0u8 <==> m.v[x as int] < m.v[y as int])
            &&& (m2.v[15] == 1u8 || m2.v[15] == 0u8)
            &&& (x != 15 ==> m2.v[x as int] == (m.v[x as int] - m.v[y as int]) % 256)
        }),
{
}

/// XOR-drawing is self-inverse: drawing the same sprite twice at the same
/// origin with no intervening clear restores the framebuffer, and the
/// second draw collides exactly when the first draw turned some cell on.
pub proof fn lemma_draw_twice_restores(
    screen: Seq<bool>,
    mem: Seq<u8>,
    i: int,
    x0: int,
    y0: int,
    n: int,
)
    requires
        screen.len() == 2048,
    ensures
        draw_screen(draw_screen(screen, mem, i, x0, y0, n), mem, i, x0, y0, n) == screen,
        draw_collision(draw_screen(screen, mem, i, x0, y0, n), mem, i, x0, y0, n) <==> (exists|
            k: int,
        |
            0 <= k < 2048 && !screen[k] && #[trigger] drawn_bit_at(mem, i, x0, y0, n, k)),
{
    let s1 = draw_screen(screen, mem, i, x0, y0, n);
    assert(draw_screen(s1, mem, i, x0, y0, n) =~= screen);
    if draw_collision(s1, mem, i, x0, y0, n) {
        let kw = choose|k: int|
            0 <= k < 2048 && s1[k] && #[trigger] drawn_bit_at(mem, i, x0, y0, n, k);
        assert(!screen[kw] && drawn_bit_at(mem, i, x0, y0, n, kw));
    }
    if exists|k: int| 0 <= k < 2048 && !screen[k] && #[trigger] drawn_bit_at(mem, i, x0, y0, n, k) {
        let kw = choose|k: int|
            0 <= k < 2048 && !screen[k] && #[trigger] drawn_bit_at(mem, i, x0, y0, n, k);
        assert(s1[kw] && drawn_bit_at(mem, i, x0, y0, n, kw));
    }
}

/// The same law at the machine level: a draw instruction applied twice with
/// the same operands restores the framebuffer and sets VF on the second
/// draw exactly when the first draw turned some cell on. The origin
/// registers must not be VF itself, which the first draw overwrites.
pub proof fn lemma_draw_twice_machine(m: MachineV, x: int, y: int, n: int)
    requires
        m.inv(),
        0 <= x < 16,
        0 <= y < 16,
        x != 15,
        y != 15,
    ensures
        ({
            let m2 = draw_result(draw_result(m, x, y, n), x, y, n);
            &&& m2.screen == m.screen
            &&& (m2.v[15] == 1u8 <==> (exists|k: int|
                0 <= k < 2048 && !m.screen[k] && #[trigger] drawn_bit_at(
                    m.mem,
                    m.i as int,
                    (m.v[x] as int) % 64,
                    (m.v[y] as int) % 32,
                    n,
                    k,
                )))
        }),
{
    let x0 = (m.v[x] as int) % 64;
    let y0 = (m.v[y] as int) % 32;
    let m1 = draw_result(m, x, y, n);
    assert(m1.v[x] == m.v[x]);
    assert(m1.v[y] == m.v[y]);
    lemma_draw_twice_restores(m.screen, m.mem, m.i as int, x0, y0, n);
}

/// A call followed immediately by a return leaves the program counter at
/// the instruction right after the call, and the call stack exactly as it
/// was before the call.
pub proof fn lemma_call_then_return(m: MachineV, nnn: u16, rnd1: u8, rnd2: u8)
    requires
        m.inv(),
        m.pc + 1 < 4096,
        spec_decode(fetched_word(m)) == OpCode::CallSubroutine(nnn),
        nnn + 1 < 4096,
        m.mem[nnn as int] == 0x00u8,
        m.mem[nnn as int + 1] == 0xEEu8,
    ensures
        cycle(m, rnd1) is Some,
        cycle(cycle(m, rnd1).unwrap(), rnd2) is Some,
        cycle(cycle(m, rnd1).unwrap(), rnd2).unwrap().pc == m.pc + 2,
        cycle(cycle(m, rnd1).unwrap(), rnd2).unwrap().stack == m.stack,
{
    let m1 = cycle(m, rnd1).unwrap();
    assert(m1.pc == nnn);
    assert(m1.stack == m.stack.push((m.pc + 2) as u16));
    assert(fetched_word(m1) == ((0x00u8 as u16) << 8) | (0xEEu8 as u16));
    assert(((0x00u8 as u16) << 8) | (0xEEu8 as u16) == 0x00EEu16) by (bit_vector);
    assert((0x00EEu16 & 0xF000) >> 12 == 0) by (bit_vector);
    assert((0x00EEu16 & 0x0F00) >> 8 == 0) by (bit_vector);
    assert((0x00EEu16 & 0x00F0) >> 4 == 0xE) by (bit_vector);
    assert(0x00EEu16 & 0x000F == 0xE) by (bit_vector);
    assert(spec_decode(0x00EE) == OpCode::RetFromSubroutine);
    let m2 = cycle(m1, rnd2).unwrap();
    assert(m1.stack.len() > 0);
    assert(m2.pc == m.pc + 2);
    assert(m1.stack.drop_last() =~= m.stack);
}

/// The value of a timer after `n` decrement invocations from the initial
/// value `v0`: each invocation applies one saturating decrement.
pub open spec fn timer_after(v0: u8, n: nat) -> u8
    decreases n,
{
    if n == 0 {
        v0
    } else {
        dec_sat(timer_after(v0, (n - 1) as nat))
    }
}

/// After `n` timer-decrement invocations from initial value `v0`, a timer
/// reads `max(0, v0 - n)`.
pub proof fn lemma_timer_after(v0: u8, n: nat)
    ensures
        timer_after(v0, n) == vstd::math::max(0, v0 - n),
    decreases n,
{
    if n > 0 {
        lemma_timer_after(v0, (n - 1) as nat);
    }
}

} // verus!
