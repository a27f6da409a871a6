use vstd::prelude::*;
use vstd::arithmetic::div_mod::{lemma_fundamental_div_mod, lemma_mod_multiples_basic, lemma_mod_bound};
use crate::arith::{floor_div, isqrt, is_root_of, lemma_root_unique, ROOT_BOUND};
use crate::grid::{Grid, clamp, clamp_index, MAX_CELL_SIZE};

verus! {

/// Most grid lines one march examines before it falls back to its last point.
pub const MAX_STEPS: i64 = 8;

/// Largest coordinate of a ray origin, in world units.
pub const MAX_COORD: i64 = 0x1000_0000;

/// Largest magnitude of either component of a ray direction.
pub const MAX_DIR: i64 = 65536;

/// A point in world units; y grows downward.
#[derive(Clone, Copy, Debug, PartialEq, Eq, Structural)]
pub struct Point {
    pub x: i64,
    pub y: i64,
}

/// The direction of a ray as a vector; its length does not matter.
#[derive(Clone, Copy, Debug, PartialEq, Eq, Structural)]
pub struct Direction {
    pub dx: i64,
    pub dy: i64,
}

/// The family of grid lines a march crosses: horizontal lines `y = k * cell_size`
/// or vertical lines `x = k * cell_size`.
#[derive(Clone, Copy, Debug, PartialEq, Eq, Structural)]
pub enum Axis {
    Horizontal,
    Vertical,
}

/// Where one march stopped, and after how many steps past its first line.
#[derive(Clone, Copy, Debug, PartialEq, Eq, Structural)]
pub struct Crossing {
    pub point: Point,
    pub steps: i64,
}

/// The outcome of one cast: the nearer of the two marches.
#[derive(Clone, Copy, Debug, PartialEq, Eq, Structural)]
pub struct Ray {
    pub origin: Point,
    pub hit: Point,
    pub axis: Axis,
    pub steps: i64,
    /// Exact squared distance from `origin` to `hit`.
    pub dist_sq: u128,
    /// Euclidean distance from `origin` to `hit`, rounded down.
    pub distance: u64,
}

/// An origin a ray may start from.
pub open spec fn valid_origin(o: Point) -> bool {
    -MAX_COORD <= o.x <= MAX_COORD && -MAX_COORD <= o.y <= MAX_COORD
}

/// A direction within bounds (possibly zero).
pub open spec fn bounded_direction(d: Direction) -> bool {
    -MAX_DIR <= d.dx <= MAX_DIR && -MAX_DIR <= d.dy <= MAX_DIR
}

/// A direction a ray may be cast along.
pub open spec fn valid_direction(d: Direction) -> bool {
    bounded_direction(d) && (d.dx != 0 || d.dy != 0)
}

/// The magnitude of `v`.
pub open spec fn abs(v: int) -> int {
    if v < 0 {
        -v
    } else {
        v
    }
}

/// The coordinate of `p` that an `axis` march steps along.
pub open spec fn along(p: Point, axis: Axis) -> int {
    match axis {
        Axis::Horizontal => p.y as int,
        Axis::Vertical => p.x as int,
    }
}

/// The coordinate of `p` that an `axis` march solves for.
pub open spec fn across(p: Point, axis: Axis) -> int {
    match axis {
        Axis::Horizontal => p.x as int,
        Axis::Vertical => p.y as int,
    }
}

/// The component of `d` along the stepped coordinate.
pub open spec fn d_along(d: Direction, axis: Axis) -> int {
    match axis {
        Axis::Horizontal => d.dy as int,
        Axis::Vertical => d.dx as int,
    }
}

/// The component of `d` along the solved coordinate.
pub open spec fn d_across(d: Direction, axis: Axis) -> int {
    match axis {
        Axis::Horizontal => d.dx as int,
        Axis::Vertical => d.dy as int,
    }
}

/// The first grid line ahead of `a0` when moving with sign `da`: the line at or
/// behind `a0` when moving backward, the next one when moving forward.
pub open spec fn first_line(a0: int, c: int, da: int) -> int {
    if da > 0 {
        (a0 / c) * c + c
    } else {
        (a0 / c) * c
    }
}

/// The `k`-th grid line after the first, as a number of cells: the line at
/// `grid_line(a0, c, da, k) * c`.
pub open spec fn grid_line(a0: int, c: int, da: int, k: int) -> int {
    if da > 0 {
        a0 / c + 1 + k
    } else {
        a0 / c - k
    }
}

/// The `k`-th grid line after the first.
pub open spec fn line_at(a0: int, c: int, da: int, k: int) -> int {
    if da > 0 {
        first_line(a0, c, da) + k * c
    } else {
        first_line(a0, c, da) - k * c
    }
}

/// The solved coordinate where the ray from `(a0, b0)` meets the line `line`,
/// rounded down.
pub open spec fn solved_at(a0: int, b0: int, da: int, db: int, line: int) -> int {
    b0 + (abs(line - a0) * db) / abs(da)
}

/// The cell index beyond `line` in the direction of travel: the cell below the
/// line, or the one above it (after clamping) when moving backward.
pub open spec fn line_cell(line: int, c: int, n: int, da: int) -> int {
    let k = clamp(line / c, n - 1);
    if da < 0 && k != 0 {
        k - 1
    } else {
        k
    }
}

/// Number of cells along the stepped coordinate.
pub open spec fn cells_along(g: Grid, axis: Axis) -> int {
    match axis {
        Axis::Horizontal => g.height as int,
        Axis::Vertical => g.width as int,
    }
}

/// The `(x, y)` point where the `axis` march meets its `k`-th line.
pub open spec fn crossing_xy(c: int, o: Point, d: Direction, axis: Axis, k: int) -> (int, int) {
    let a0 = along(o, axis);
    let da = d_along(d, axis);
    let line = line_at(a0, c, da, k);
    let b = solved_at(a0, across(o, axis), da, d_across(d, axis), line);
    match axis {
        Axis::Horizontal => (b, line),
        Axis::Vertical => (line, b),
    }
}

/// Whether the cell beyond the `k`-th line of the `axis` march is a wall.
pub open spec fn blocked_at(g: Grid, o: Point, d: Direction, axis: Axis, k: int) -> bool {
    let c = g.cell_size as int;
    let p = crossing_xy(c, o, d, axis, k);
    let da = d_along(d, axis);
    match axis {
        Axis::Horizontal => g.wall_clamped(p.0 / c, line_cell(p.1, c, g.height as int, da)),
        Axis::Vertical => g.wall_clamped(line_cell(p.0, c, g.width as int, da), p.1 / c),
    }
}

/// The step at which the `axis` march stops, looking from step `k` on: the first
/// blocked line before `MAX_STEPS`, else `MAX_STEPS`.
pub open spec fn stop_step(g: Grid, o: Point, d: Direction, axis: Axis, k: int) -> int
    decreases MAX_STEPS - k,
{
    if k >= MAX_STEPS {
        MAX_STEPS as int
    } else if blocked_at(g, o, d, axis, k) {
        k
    } else {
        stop_step(g, o, d, axis, k + 1)
    }
}

/// Whether the `axis` march crosses any line at all: not when the ray runs parallel
/// to the lines.
pub open spec fn marches(d: Direction, axis: Axis) -> bool {
    d_along(d, axis) != 0
}

/// The point where the `axis` march stops.
pub open spec fn march_point(g: Grid, o: Point, d: Direction, axis: Axis) -> (int, int) {
    crossing_xy(g.cell_size as int, o, d, axis, stop_step(g, o, d, axis, 0))
}

/// Squared distance from `o` to `p`.
pub open spec fn sq_dist(o: Point, p: (int, int)) -> int {
    (p.0 - o.x) * (p.0 - o.x) + (p.1 - o.y) * (p.1 - o.y)
}

/// The axis whose march gives the nearer point; equal distances go to the
/// horizontal march.
pub open spec fn nearest_axis(g: Grid, o: Point, d: Direction) -> Axis {
    if !marches(d, Axis::Vertical) {
        Axis::Horizontal
    } else if !marches(d, Axis::Horizontal) {
        Axis::Vertical
    } else if sq_dist(o, march_point(g, o, d, Axis::Horizontal)) <= sq_dist(
        o,
        march_point(g, o, d, Axis::Vertical),
    ) {
        Axis::Horizontal
    } else {
        Axis::Vertical
    }
}

impl Ray {
    /// This ray is the cast from `o` along `d` in `g`.
    pub open spec fn is_cast_of(&self, g: Grid, o: Point, d: Direction) -> bool {
        let axis = nearest_axis(g, o, d);
        let p = march_point(g, o, d, axis);
        &&& self.origin == o
        &&& self.axis == axis
        &&& self.steps == stop_step(g, o, d, axis, 0)
        &&& self.hit.x == p.0
        &&& self.hit.y == p.1
        &&& self.dist_sq == sq_dist(o, p)
        &&& is_root_of(self.distance as int, self.dist_sq as int)
    }
}

/// Largest magnitude of a coordinate that a march can reach.
pub const REACH: i64 = 0x20_0000_0000;

/// A point no farther out than a march can reach.
pub open spec fn within_reach(p: Point) -> bool {
    -REACH <= p.x <= REACH && -REACH <= p.y <= REACH
}

/// The point where the `axis` march meets its `k`-th line.
fn crossing_at(c: i64, o: Point, d: Direction, axis: Axis, k: i64) -> (r: Point)
    requires
        1 <= c <= MAX_CELL_SIZE,
        valid_origin(o),
        bounded_direction(d),
        marches(d, axis),
        0 <= k <= MAX_STEPS,
    ensures
        (r.x as int, r.y as int) == crossing_xy(c as int, o, d, axis, k as int),
        along(r, axis) % (c as int) == 0,
        along(r, axis) == grid_line(along(o, axis), c as int, d_along(d, axis), k as int) * c,
        within_reach(r),
{
    let (a0, b0, da, db) = match axis {
        Axis::Horizontal => (o.y, o.x, d.dy, d.dx),
        Axis::Vertical => (o.x, o.y, d.dx, d.dy),
    };
    let q = floor_div(a0, c);
    proof {
        lemma_fundamental_div_mod(a0 as int, c as int);
        lemma_mod_bound(a0 as int, c as int);
        assert(q * c <= a0 && a0 < q * c + c) by (nonlinear_arith)
            requires
                a0 == c * q + (a0 as int) % (c as int),
                0 <= (a0 as int) % (c as int) < c,
        ;
        assert(k * c <= MAX_STEPS * MAX_CELL_SIZE) by (nonlinear_arith)
            requires
                0 <= k <= MAX_STEPS,
                1 <= c <= MAX_CELL_SIZE,
        ;
    }
    let base = q * c;
    let first = if da > 0 {
        base + c
    } else {
        base
    };
    let line = if da > 0 {
        first + k * c
    } else {
        first - k * c
    };
    let s = if line >= a0 {
        line - a0
    } else {
        a0 - line
    };
    let den = if da > 0 {
        da
    } else {
        -da
    };
    proof {
        assert(s * db <= 9 * MAX_CELL_SIZE * MAX_DIR && s * db >= -9 * MAX_CELL_SIZE * MAX_DIR)
            by (nonlinear_arith)
            requires
                0 <= s <= 9 * MAX_CELL_SIZE,
                -MAX_DIR <= db <= MAX_DIR,
        ;
        let m: int = if da > 0 {
            q + 1 + k
        } else {
            q - k
        };
        assert(line == m * c) by (nonlinear_arith)
            requires
                m == (if da > 0 {
                    q + 1 + k
                } else {
                    q - k
                }),
                line == (if da > 0 {
                    q * c + c + k * c
                } else {
                    q * c - k * c
                }),
        ;
        lemma_mod_multiples_basic(m, c as int);
    }
    let b = b0 + floor_div(s * db, den);
    match axis {
        Axis::Horizontal => Point { x: b, y: line },
        Axis::Vertical => Point { x: line, y: b },
    }
}

/// The index of the cell beyond `line` among `n` cells, as `line_cell` gives it.
fn cell_beyond(line: i64, c: i64, n: usize, da: i64) -> (r: i64)
    requires
        1 <= c,
        1 <= n <= crate::grid::MAX_CELLS,
    ensures
        r == line_cell(line as int, c as int, n as int, da as int),
{
    let k = clamp_index(floor_div(line, c), n);
    if da < 0 && k != 0 {
        k - 1
    } else {
        k
    }
}

/// Whether the cell beyond the `k`-th line of the `axis` march is a wall.
fn blocked(g: &Grid, o: Point, d: Direction, axis: Axis, k: i64) -> (r: bool)
    requires
        g.wf(),
        valid_origin(o),
        bounded_direction(d),
        marches(d, axis),
        0 <= k <= MAX_STEPS,
    ensures
        r == blocked_at(*g, o, d, axis, k as int),
{
    let c = g.cell_size;
    let p = crossing_at(c, o, d, axis, k);
    match axis {
        Axis::Horizontal => g.is_wall(g.column_of(p.x), cell_beyond(p.y, c, g.height, d.dy)),
        Axis::Vertical => g.is_wall(cell_beyond(p.x, c, g.width, d.dx), g.row_of(p.y)),
    }
}

/// Marches the ray from `o` along `d` across the grid lines of one family,
/// stopping at the first line beyond which lies a wall, or after `MAX_STEPS`
/// lines without one. `None` when the ray runs parallel to those lines.
pub fn march(g: &Grid, o: Point, d: Direction, axis: Axis) -> (r: Option<Crossing>)
    requires
        g.wf(),
        valid_origin(o),
        bounded_direction(d),
    ensures
        r is Some <==> marches(d, axis),
        r matches Some(cr) ==> {
            &&& cr.steps == stop_step(*g, o, d, axis, 0)
            &&& 0 <= cr.steps <= MAX_STEPS
            &&& (cr.point.x as int, cr.point.y as int) == march_point(*g, o, d, axis)
            &&& along(cr.point, axis) % (g.cell_size as int) == 0
            &&& along(cr.point, axis) == grid_line(
                along(o, axis),
                g.cell_size as int,
                d_along(d, axis),
                cr.steps as int,
            ) * g.cell_size
            &&& axis == Axis::Horizontal ==> cr.point.y % g.cell_size == 0
            &&& axis == Axis::Vertical ==> cr.point.x % g.cell_size == 0
            &&& within_reach(cr.point)
        },
{
    let da = match axis {
        Axis::Horizontal => d.dy,
        Axis::Vertical => d.dx,
    };
    if da == 0 {
        return None;
    }
    let mut k: i64 = 0;
    loop
        invariant
            g.wf(),
            valid_origin(o),
            bounded_direction(d),
            marches(d, axis),
            0 <= k <= MAX_STEPS,
            stop_step(*g, o, d, axis, 0) == stop_step(*g, o, d, axis, k as int),
        decreases MAX_STEPS - k,
    {
        if k == MAX_STEPS || blocked(g, o, d, axis, k) {
            let p = crossing_at(g.cell_size, o, d, axis, k);
            return Some(Crossing { point: p, steps: k });
        }
        k = k + 1;
    }
}

/// Whether `d` is a direction a ray may be cast along.
pub fn valid_direction_of(d: Direction) -> (r: bool)
    ensures
        r == valid_direction(d),
{
    -MAX_DIR <= d.dx && d.dx <= MAX_DIR && -MAX_DIR <= d.dy && d.dy <= MAX_DIR && (d.dx != 0
        || d.dy != 0)
}

/// Squared distance between two points within reach.
fn squared_distance(o: Point, p: Point) -> (r: u128)
    requires
        within_reach(o),
        within_reach(p),
    ensures
        r == sq_dist(o, (p.x as int, p.y as int)),
        r < ROOT_BOUND,
{
    let ex = (p.x as i128) - (o.x as i128);
    let ey = (p.y as i128) - (o.y as i128);
    proof {
        assert(ex * ex <= 4 * REACH * REACH && ey * ey <= 4 * REACH * REACH) by (nonlinear_arith)
            requires
                -2 * REACH <= ex <= 2 * REACH,
                -2 * REACH <= ey <= 2 * REACH,
        ;
        assert(ex * ex >= 0 && ey * ey >= 0) by (nonlinear_arith);
    }
    (ex * ex + ey * ey) as u128
}

/// Casts a ray from `o` along `d`: marches across horizontal and across vertical
/// grid lines, and keeps the nearer stopping point, the horizontal one on a tie.
pub fn cast(g: &Grid, o: Point, d: Direction) -> (r: Ray)
    requires
        g.wf(),
        valid_origin(o),
        valid_direction(d),
    ensures
        r.is_cast_of(*g, o, d),
        0 <= r.steps <= MAX_STEPS,
        r.axis == Axis::Horizontal ==> r.hit.y % g.cell_size == 0,
        r.axis == Axis::Vertical ==> r.hit.x % g.cell_size == 0,
        d.dy == 0 ==> r.axis == Axis::Vertical,
        d.dx == 0 ==> r.axis == Axis::Horizontal,
{
    let h = march(g, o, d, Axis::Horizontal);
    let v = march(g, o, d, Axis::Vertical);
    let (axis, cr) = match h {
        Some(hc) => match v {
            Some(vc) => {
                if squared_distance(o, hc.point) <= squared_distance(o, vc.point) {
                    (Axis::Horizontal, hc)
                } else {
                    (Axis::Vertical, vc)
                }
            },
            None => (Axis::Horizontal, hc),
        },
        None => (Axis::Vertical, v.unwrap()),
    };
    let dist_sq = squared_distance(o, cr.point);
    let distance = isqrt(dist_sq);
    Ray { origin: o, hit: cr.point, axis, steps: cr.steps, dist_sq, distance }
}

/// A cast is a function of its inputs: two rays cast from the same origin along
/// the same direction in the same grid are the same ray, hit point included.
pub proof fn lemma_cast_deterministic(g: Grid, o: Point, d: Direction, r1: Ray, r2: Ray)
    requires
        r1.is_cast_of(g, o, d),
        r2.is_cast_of(g, o, d),
    ensures
        r1 == r2,
{
    lemma_root_unique(r1.distance as int, r2.distance as int, r1.dist_sq as int);
}

/// When both marches stop at the same distance, the cast keeps the horizontal
/// march's point.
pub proof fn lemma_tie_goes_horizontal(g: Grid, o: Point, d: Direction, r: Ray)
    requires
        r.is_cast_of(g, o, d),
        marches(d, Axis::Horizontal),
        marches(d, Axis::Vertical),
        sq_dist(o, march_point(g, o, d, Axis::Horizontal)) == sq_dist(
            o,
            march_point(g, o, d, Axis::Vertical),
        ),
    ensures
        r.axis == Axis::Horizontal,
        (r.hit.x as int, r.hit.y as int) == march_point(g, o, d, Axis::Horizontal),
{
}

} // verus!
