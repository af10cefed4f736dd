//! Generations calculation ruleset.
use vstd::prelude::*;

use crate::cell::Cell;
use crate::generation::Generation;

verus! {

/// One step of toroidal wrapping: below `lower` goes to `upper`, above
/// `upper` goes to `lower`, anything else stays.
pub open spec fn wrap(c: int, lower: int, upper: int) -> int {
    if c < lower {
        upper
    } else if c > upper {
        lower
    } else {
        c
    }
}

/// 1 if the cell reached from (x, y) by the offset (dx, dy), wrapping round
/// the edges, is alive, else 0.
pub open spec fn neighbor<T: Cell>(gen: &Generation<T>, x: int, y: int, dx: int, dy: int) -> nat {
    let nx = wrap(x + dx, 0, gen.spec_width() - 1);
    let ny = wrap(y + dy, 0, gen.spec_height() - 1);
    if gen.alive_at(nx, ny) {
        1
    } else {
        0
    }
}

/// The number of live cells among the eight that surround (x, y) on the torus.
pub open spec fn live_neighbors<T: Cell>(gen: &Generation<T>, x: int, y: int) -> nat {
    neighbor(gen, x, y, -1, -1) + neighbor(gen, x, y, -1, 0) + neighbor(gen, x, y, -1, 1)
        + neighbor(gen, x, y, 0, -1) + neighbor(gen, x, y, 0, 1)
        + neighbor(gen, x, y, 1, -1) + neighbor(gen, x, y, 1, 0) + neighbor(gen, x, y, 1, 1)
}

/// Conway's rule: a cell lives on with two live neighbors, and any cell with
/// three live neighbors is alive in the next generation.
pub open spec fn conway_next<T: Cell>(gen: &Generation<T>, x: int, y: int) -> bool {
    let n = live_neighbors(gen, x, y);
    (gen.alive_at(x, y) && n == 2) || n == 3
}

/// Whether the k-th cell of the 3x3 block around (x, y), taken column by
/// column, is a live cell other than (x, y) itself.
spec fn block_step<T: Cell>(gen: &Generation<T>, x: int, y: int, k: int) -> nat {
    let nx = wrap(x - 1 + k / 3, 0, gen.spec_width() - 1);
    let ny = wrap(y - 1 + k % 3, 0, gen.spec_height() - 1);
    if (nx != x || ny != y) && gen.alive_at(nx, ny) {
        1
    } else {
        0
    }
}

/// The count of live cells other than (x, y) among the first k cells of its
/// 3x3 block.
spec fn block_count<T: Cell>(gen: &Generation<T>, x: int, y: int, k: nat) -> nat
    decreases k,
{
    if k == 0 {
        0
    } else {
        block_count(gen, x, y, (k - 1) as nat) + block_step(gen, x, y, k - 1)
    }
}

/// Applies Conway's evolution rules: whether the cell at (x, y) is alive in
/// the next generation. A coordinate outside the grid (x >= width or
/// y >= height) is dead. Any function of this shape, `(x, y, &Generation)`
/// to `bool`, can serve as a ruleset.
pub fn apply_conway_ruleset<T>(x: u64, y: u64, gen: &Generation<T>) -> (r: bool)
    where
        T: Cell,
    requires
        gen.wf(),
    ensures
        r == (x < gen.spec_width() && y < gen.spec_height() && conway_next(gen, x as int, y as int)),
{
    if x >= gen.width() || y >= gen.height() {
        return false;
    }
    proof {
        gen.lemma_inside_holds(x as int, y as int);
    }
    let anc = alive_neighbors(x, y, gen);
    if let Some(cell) = gen.cell(x, y) {
        (cell.is_alive() && anc == 2) || anc == 3
    } else {
        false
    }
}

/// Counts alive neighbor cells of (x, y), wrapping round the edges.
pub fn alive_neighbors<T>(x: u64, y: u64, gen: &Generation<T>) -> (r: usize)
    where
        T: Cell,
    requires
        gen.wf(),
        x < gen.spec_width(),
        y < gen.spec_height(),
    ensures
        r == live_neighbors(gen, x as int, y as int),
{
    let w = gen.width();
    let h = gen.height();
    proof {
        assert(w * 3 <= w * h && h * 3 <= w * h) by (nonlinear_arith)
            requires
                w >= 3,
                h >= 3,
        ;
        assert(usize::MAX <= u64::MAX);
    }
    let cx = x as i64;
    let cy = y as i64;
    let mut count: usize = 0;
    let mut k: u64 = 0;
    while k < 9
        invariant
            gen.wf(),
            w == gen.spec_width(),
            h == gen.spec_height(),
            x < w,
            y < h,
            x < i64::MAX - 1,
            y < i64::MAX - 1,
            cx == x,
            cy == y,
            k <= 9,
            count <= k,
            count == block_count(gen, x as int, y as int, k as nat),
        decreases 9 - k,
    {
        let ix = cx - 1 + (k / 3) as i64;
        let iy = cy - 1 + (k % 3) as i64;
        let fx = fix_coord(ix, 0, w - 1);
        let fy = fix_coord(iy, 0, h - 1);
        proof {
            gen.lemma_inside_holds(fx as int, fy as int);
        }
        let cell = gen.cell(fx, fy).unwrap();
        if (fx != x || fy != y) && cell.is_alive() {
            count += 1;
        }
        k += 1;
    }
    proof {
        reveal_with_fuel(block_count, 10);
    }
    count
}

/// Fixes i64 relative coords to u64 absolute ones, wrapping one step round
/// the bounds.
pub fn fix_coord(c: i64, lower: u64, upper: u64) -> (r: u64)
    ensures
        r == wrap(c as int, lower as int, upper as int),
{
    if (c as i128) < (lower as i128) {
        upper
    } else if (c as i128) > (upper as i128) {
        lower
    } else {
        c as u64
    }
}

} // verus!
