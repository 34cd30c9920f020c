//! The pixel-level model of sprite drawing: which framebuffer cells an
//! XOR-draw toggles, and when it collides. The framebuffer is a row-major
//! sequence of 2048 booleans; the cell at column `cx`, row `cy` is entry
//! `cy * 64 + cx`.

use vstd::prelude::*;

verus! {

/// Bit `7 - col` of a sprite row byte: the sprite pixel `col` places to the
/// right of the sprite origin (the most significant bit is drawn first).
pub open spec fn sprite_row_bit(b: u8, col: int) -> bool {
    (b >> ((7 - col) as u8)) & 1 == 1
}

/// Whether drawing an `n`-row sprite read from `mem[i]` with origin
/// `(x0, y0)` toggles the framebuffer cell `(cx, cy)`. The origin is already
/// wrapped into the grid; the sprite body is clipped at the right and bottom
/// edges, not wrapped.
pub open spec fn drawn_bit(
    mem: Seq<u8>,
    i: int,
    x0: int,
    y0: int,
    n: int,
    cx: int,
    cy: int,
) -> bool {
    &&& x0 <= cx < x0 + 8
    &&& cx < 64
    &&& y0 <= cy < y0 + n
    &&& cy < 32
    &&& sprite_row_bit(mem[i + (cy - y0)], cx - x0)
}

/// [`drawn_bit`] at the row-major cell index `k`.
pub open spec fn drawn_bit_at(mem: Seq<u8>, i: int, x0: int, y0: int, n: int, k: int) -> bool {
    drawn_bit(mem, i, x0, y0, n, k % 64, k / 64)
}

/// The framebuffer after the draw: each cell XOR-toggled by the sprite bit
/// that lands on it.
pub open spec fn draw_screen(
    screen: Seq<bool>,
    mem: Seq<u8>,
    i: int,
    x0: int,
    y0: int,
    n: int,
) -> Seq<bool> {
    Seq::new(2048, |k: int| screen[k] != drawn_bit_at(mem, i, x0, y0, n, k))
}

/// Whether the draw turns any previously-set cell off: a set sprite bit
/// lands on a set cell.
pub open spec fn draw_collision(
    screen: Seq<bool>,
    mem: Seq<u8>,
    i: int,
    x0: int,
    y0: int,
    n: int,
) -> bool {
    exists|k: int| 0 <= k < 2048 && screen[k] && #[trigger] drawn_bit_at(mem, i, x0, y0, n, k)
}

/// [`drawn_bit`] restricted to the cells a partial draw has already
/// processed: the first `rr` full sprite rows, plus the first `cc` columns
/// of row `rr`.
pub open spec fn drawn_bit_upto(
    mem: Seq<u8>,
    i: int,
    x0: int,
    y0: int,
    n: int,
    rr: int,
    cc: int,
    cx: int,
    cy: int,
) -> bool {
    &&& drawn_bit(mem, i, x0, y0, n, cx, cy)
    &&& (cy - y0 < rr || (cy - y0 == rr && cx - x0 < cc))
}

/// [`drawn_bit_upto`] at the row-major cell index `k`.
pub open spec fn drawn_bit_upto_at(
    mem: Seq<u8>,
    i: int,
    x0: int,
    y0: int,
    n: int,
    rr: int,
    cc: int,
    k: int,
) -> bool {
    drawn_bit_upto(mem, i, x0, y0, n, rr, cc, k % 64, k / 64)
}

/// The framebuffer after a partial draw.
pub open spec fn draw_screen_upto(
    screen: Seq<bool>,
    mem: Seq<u8>,
    i: int,
    x0: int,
    y0: int,
    n: int,
    rr: int,
    cc: int,
) -> Seq<bool> {
    Seq::new(2048, |k: int| screen[k] != drawn_bit_upto_at(mem, i, x0, y0, n, rr, cc, k))
}

/// Whether a partial draw has collided so far.
pub open spec fn draw_collision_upto(
    screen: Seq<bool>,
    mem: Seq<u8>,
    i: int,
    x0: int,
    y0: int,
    n: int,
    rr: int,
    cc: int,
) -> bool {
    exists|k: int|
        0 <= k < 2048 && screen[k] && #[trigger] drawn_bit_upto_at(mem, i, x0, y0, n, rr, cc, k)
}

/// Row-major indexing: the cell index of column `cx`, row `cy`.
pub proof fn lemma_cell_coords(cx: int, cy: int)
    requires
        0 <= cx < 64,
        0 <= cy < 32,
    ensures
        0 <= cy * 64 + cx < 2048,
        (cy * 64 + cx) % 64 == cx,
        (cy * 64 + cx) / 64 == cy,
{
    vstd::arithmetic::div_mod::lemma_fundamental_div_mod_converse(cy * 64 + cx, 64, cy, cx);
}

/// Row-major indexing, the other way: the coordinates of a cell index.
pub proof fn lemma_k_coords(k: int)
    requires
        0 <= k < 2048,
    ensures
        0 <= k % 64 < 64,
        0 <= k / 64 < 32,
        k == (k / 64) * 64 + (k % 64),
{
    vstd::arithmetic::div_mod::lemma_fundamental_div_mod(k, 64);
}

/// A draw that has processed nothing yet has toggled nothing and collided
/// with nothing.
pub proof fn lemma_upto_zero(screen: Seq<bool>, mem: Seq<u8>, i: int, x0: int, y0: int, n: int)
    requires
        screen.len() == 2048,
        0 <= x0,
        0 <= y0,
    ensures
        draw_screen_upto(screen, mem, i, x0, y0, n, 0, 0) == screen,
        !draw_collision_upto(screen, mem, i, x0, y0, n, 0, 0),
{
    assert forall|k: int| 0 <= k < 2048 implies !(#[trigger] drawn_bit_upto_at(
        mem,
        i,
        x0,
        y0,
        n,
        0,
        0,
        k,
    )) by {
        lemma_k_coords(k);
    }
    assert(draw_screen_upto(screen, mem, i, x0, y0, n, 0, 0) =~= screen);
}

/// Processing one more column extends the processed region by exactly the
/// cell `(x0 + cc, y0 + rr)`, toggled iff sprite bit `cc` of row `rr` is set.
pub proof fn lemma_upto_col_step(
    mem: Seq<u8>,
    i: int,
    x0: int,
    y0: int,
    n: int,
    rr: int,
    cc: int,
)
    requires
        0 <= x0 < 64,
        0 <= y0 < 32,
        0 <= rr < n,
        y0 + rr < 32,
        0 <= cc < 8,
        x0 + cc < 64,
    ensures
        forall|k: int|
            #![trigger drawn_bit_upto_at(mem, i, x0, y0, n, rr, cc + 1, k)]
            #![trigger drawn_bit_upto_at(mem, i, x0, y0, n, rr, cc, k)]
            0 <= k < 2048 ==> drawn_bit_upto_at(mem, i, x0, y0, n, rr, cc + 1, k) == (drawn_bit_upto_at(
                mem,
                i,
                x0,
                y0,
                n,
                rr,
                cc,
                k,
            ) || (k == (y0 + rr) * 64 + (x0 + cc) && sprite_row_bit(mem[i + rr], cc))),
{
    lemma_cell_coords(x0 + cc, y0 + rr);
    assert forall|k: int|
        #![trigger drawn_bit_upto_at(mem, i, x0, y0, n, rr, cc + 1, k)]
        #![trigger drawn_bit_upto_at(mem, i, x0, y0, n, rr, cc, k)]
        0 <= k < 2048 implies drawn_bit_upto_at(mem, i, x0, y0, n, rr, cc + 1, k) == (drawn_bit_upto_at(
        mem,
        i,
        x0,
        y0,
        n,
        rr,
        cc,
        k,
    ) || (k == (y0 + rr) * 64 + (x0 + cc) && sprite_row_bit(mem[i + rr], cc))) by {
        lemma_k_coords(k);
    }
}

/// Cumulative collision across one more column: the old collisions, plus a
/// new one iff the newly-processed cell was set and its sprite bit is set.
pub proof fn lemma_collision_col_step(
    screen: Seq<bool>,
    mem: Seq<u8>,
    i: int,
    x0: int,
    y0: int,
    n: int,
    rr: int,
    cc: int,
)
    requires
        screen.len() == 2048,
        0 <= x0 < 64,
        0 <= y0 < 32,
        0 <= rr < n,
        y0 + rr < 32,
        0 <= cc < 8,
        x0 + cc < 64,
    ensures
        draw_collision_upto(screen, mem, i, x0, y0, n, rr, cc + 1) == (draw_collision_upto(
            screen,
            mem,
            i,
            x0,
            y0,
            n,
            rr,
            cc,
        ) || (screen[(y0 + rr) * 64 + (x0 + cc)] && sprite_row_bit(mem[i + rr], cc))),
{
    lemma_upto_col_step(mem, i, x0, y0, n, rr, cc);
    lemma_cell_coords(x0 + cc, y0 + rr);
    let k0 = (y0 + rr) * 64 + (x0 + cc);
    if draw_collision_upto(screen, mem, i, x0, y0, n, rr, cc + 1) {
        let kw = choose|k: int|
            0 <= k < 2048 && screen[k] && #[trigger] drawn_bit_upto_at(
                mem,
                i,
                x0,
                y0,
                n,
                rr,
                cc + 1,
                k,
            );
        assert(drawn_bit_upto_at(mem, i, x0, y0, n, rr, cc, kw) || (kw == k0 && sprite_row_bit(
            mem[i + rr],
            cc,
        )));
    }
    if draw_collision_upto(screen, mem, i, x0, y0, n, rr, cc) {
        let kw = choose|k: int|
            0 <= k < 2048 && screen[k] && #[trigger] drawn_bit_upto_at(
                mem,
                i,
                x0,
                y0,
                n,
                rr,
                cc,
                k,
            );
        assert(drawn_bit_upto_at(mem, i, x0, y0, n, rr, cc + 1, kw));
    }
    if screen[k0] && sprite_row_bit(mem[i + rr], cc) {
        assert(drawn_bit_upto_at(mem, i, x0, y0, n, rr, cc + 1, k0));
    }
}

/// After the last column of a row that the clipped draw visits, the
/// processed region is the same as at the start of the next row.
pub proof fn lemma_upto_row_end(
    mem: Seq<u8>,
    i: int,
    x0: int,
    y0: int,
    n: int,
    rr: int,
    cols: int,
)
    requires
        0 <= x0 < 64,
        cols == vstd::math::min(8, 64 - x0),
        0 <= rr,
    ensures
        forall|k: int|
            #![trigger drawn_bit_upto_at(mem, i, x0, y0, n, rr, cols, k)]
            #![trigger drawn_bit_upto_at(mem, i, x0, y0, n, rr + 1, 0, k)]
            0 <= k < 2048 ==> drawn_bit_upto_at(mem, i, x0, y0, n, rr, cols, k) == drawn_bit_upto_at(
                mem,
                i,
                x0,
                y0,
                n,
                rr + 1,
                0,
                k,
            ),
{
    assert forall|k: int|
        #![trigger drawn_bit_upto_at(mem, i, x0, y0, n, rr, cols, k)]
        #![trigger drawn_bit_upto_at(mem, i, x0, y0, n, rr + 1, 0, k)]
        0 <= k < 2048 implies drawn_bit_upto_at(mem, i, x0, y0, n, rr, cols, k) == drawn_bit_upto_at(
        mem,
        i,
        x0,
        y0,
        n,
        rr + 1,
        0,
        k,
    ) by {
        lemma_k_coords(k);
    }
}

/// Once the clipped draw has processed all the rows it visits, the processed
/// region is the whole drawn sprite.
pub proof fn lemma_upto_full(mem: Seq<u8>, i: int, x0: int, y0: int, n: int, rows: int)
    requires
        0 <= y0 < 32,
        0 <= n,
        rows == vstd::math::min(n, 32 - y0),
    ensures
        forall|k: int|
            #![trigger drawn_bit_upto_at(mem, i, x0, y0, n, rows, 0, k)]
            #![trigger drawn_bit_at(mem, i, x0, y0, n, k)]
            0 <= k < 2048 ==> drawn_bit_upto_at(mem, i, x0, y0, n, rows, 0, k) == drawn_bit_at(mem, i, x0, y0, n, k),
{
    assert forall|k: int|
        #![trigger drawn_bit_upto_at(mem, i, x0, y0, n, rows, 0, k)]
        #![trigger drawn_bit_at(mem, i, x0, y0, n, k)]
        0 <= k < 2048 implies drawn_bit_upto_at(mem, i, x0, y0, n, rows, 0, k) == drawn_bit_at(mem, i, x0, y0, n, k) by {
        lemma_k_coords(k);
    }
}

} // verus!
