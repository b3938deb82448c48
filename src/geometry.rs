//! Points in normalized image coordinates and the geometry used to pick them.
//!
//! A coordinate is a fixed-point number: `UNITS_PER_EXTENT` units make up the
//! full width (or height) of the image, so `0.25` is stored as `250_000`.
//! All comparisons are made on exact squared distances.

use vstd::prelude::*;

verus! {

/// Number of fixed-point units in one image extent (normalized coordinate 1.0).
pub const UNITS_PER_EXTENT: u32 = 1_000_000;

/// A point in normalized fixed-point coordinates.
#[derive(Debug, Clone, Copy, PartialEq, Eq, Structural)]
pub struct Point {
    pub x: u32,
    pub y: u32,
}

/// Squared Euclidean distance between two points.
pub open spec fn dist_sq(a: Point, b: Point) -> int {
    (a.x as int - b.x as int) * (a.x as int - b.x as int) + (a.y as int - b.y as int) * (a.y
        as int - b.y as int)
}

/// `r` is the integer square root of `n`, rounded down.
pub open spec fn is_floor_sqrt(r: int, n: int) -> bool {
    0 <= r && r * r <= n && n < (r + 1) * (r + 1)
}

/// The integer square root of `n`, rounded down.
pub open spec fn floor_sqrt(n: nat) -> nat
    decreases n,
{
    if n == 0 {
        0
    } else {
        let r = floor_sqrt((n - 1) as nat);
        if (r + 1) * (r + 1) <= n {
            (r + 1) as nat
        } else {
            r
        }
    }
}

/// Euclidean distance, rounded down to a whole unit.
pub open spec fn distance_spec(a: Point, b: Point) -> nat {
    floor_sqrt(dist_sq(a, b) as nat)
}

proof fn lemma_dist_sq_nonneg(a: Point, b: Point)
    ensures
        dist_sq(a, b) >= 0,
{
    let dx = a.x as int - b.x as int;
    let dy = a.y as int - b.y as int;
    assert(dx * dx >= 0) by (nonlinear_arith);
    assert(dy * dy >= 0) by (nonlinear_arith);
}

proof fn lemma_floor_sqrt_bounds(n: nat)
    ensures
        is_floor_sqrt(floor_sqrt(n) as int, n as int),
    decreases n,
{
    if n > 0 {
        lemma_floor_sqrt_bounds((n - 1) as nat);
        let r = floor_sqrt((n - 1) as nat) as int;
        if (r + 1) * (r + 1) <= n {
            assert((r + 2) * (r + 2) == (r + 1) * (r + 1) + 2 * r + 3) by (nonlinear_arith);
        }
    }
}

proof fn lemma_floor_sqrt_unique(r1: int, r2: int, n: int)
    requires
        is_floor_sqrt(r1, n),
        is_floor_sqrt(r2, n),
    ensures
        r1 == r2,
{
    if r1 < r2 {
        assert((r1 + 1) * (r1 + 1) <= r2 * r2) by (nonlinear_arith)
            requires
                0 <= r1 + 1 <= r2,
        ;
    } else if r2 < r1 {
        assert((r2 + 1) * (r2 + 1) <= r1 * r1) by (nonlinear_arith)
            requires
                0 <= r2 + 1 <= r1,
        ;
    }
}

/// The floor square root is the only value that brackets `n`.
pub proof fn lemma_floor_sqrt_exact(r: int, n: nat)
    requires
        is_floor_sqrt(r, n as int),
    ensures
        r == floor_sqrt(n),
{
    lemma_floor_sqrt_bounds(n);
    lemma_floor_sqrt_unique(r, floor_sqrt(n) as int, n as int);
}

/// Distance is symmetric, and a point is at distance zero from itself.
pub proof fn lemma_distance_symmetric(a: Point, b: Point, p: Point)
    ensures
        dist_sq(a, b) == dist_sq(b, a),
        distance_spec(a, b) == distance_spec(b, a),
        dist_sq(p, p) == 0,
        distance_spec(p, p) == 0,
{
    assert(dist_sq(a, b) == dist_sq(b, a)) by (nonlinear_arith);
}

fn abs_diff(a: u32, b: u32) -> (r: u64)
    ensures
        r as int == if a >= b {
            a as int - b as int
        } else {
            b as int - a as int
        },
{
    if a >= b {
        (a - b) as u64
    } else {
        (b - a) as u64
    }
}

/// Integer square root of `n`, rounded down.
fn isqrt(n: u128) -> (r: u64)
    ensures
        is_floor_sqrt(r as int, n as int),
{
    let mut lo: u128 = 0;
    let mut hi: u128 = 0x1_0000_0000_0000_0000;
    assert(hi * hi > n) by (nonlinear_arith)
        requires
            hi == 0x1_0000_0000_0000_0000,
            n <= 0xffff_ffff_ffff_ffff_ffff_ffff_ffff_ffff,
    ;
    while hi - lo > 1
        invariant
            lo < hi <= 0x1_0000_0000_0000_0000,
            lo * lo <= n,
            n < hi * hi,
        decreases hi - lo,
    {
        let mid = lo + (hi - lo) / 2;
        assert(mid * mid <= 0xffff_ffff_ffff_ffff * 0xffff_ffff_ffff_ffff) by (nonlinear_arith)
            requires
                mid <= 0xffff_ffff_ffff_ffff,
        ;
        if mid * mid <= n {
            lo = mid;
        } else {
            hi = mid;
        }
    }
    lo as u64
}

impl Point {
    /// A point at the given fixed-point coordinates.
    pub fn new(x: u32, y: u32) -> (r: Point)
        ensures
            r.x == x,
            r.y == y,
    {
        Point { x, y }
    }

    /// Squared distance to `other`; exact, so it orders points without a square root.
    pub fn distance_squared(&self, other: &Point) -> (r: u128)
        ensures
            r as int == dist_sq(*self, *other),
    {
        let dx = abs_diff(self.x, other.x);
        let dy = abs_diff(self.y, other.y);
        assert(dx * dx <= 0xffff_ffff * 0xffff_ffff) by (nonlinear_arith)
            requires
                dx <= 0xffff_ffff,
        ;
        assert(dy * dy <= 0xffff_ffff * 0xffff_ffff) by (nonlinear_arith)
            requires
                dy <= 0xffff_ffff,
        ;
        let sx = (dx * dx) as u128;
        let sy = (dy * dy) as u128;
        proof {
            let ex = self.x as int - other.x as int;
            let ey = self.y as int - other.y as int;
            assert(dx * dx == ex * ex) by (nonlinear_arith)
                requires
                    dx == ex || dx == -ex,
            ;
            assert(dy * dy == ey * ey) by (nonlinear_arith)
                requires
                    dy == ey || dy == -ey,
            ;
        }
        sx + sy
    }

    /// Euclidean distance to `other`, rounded down to a whole unit.
    pub fn distance(&self, other: &Point) -> (r: u64)
        ensures
            r as nat == distance_spec(*self, *other),
    {
        let d = self.distance_squared(other);
        let r = isqrt(d);
        proof {
            lemma_dist_sq_nonneg(*self, *other);
            lemma_floor_sqrt_exact(r as int, d as nat);
        }
        r
    }
}

/// `i` is the first index at which `pts` comes closest to `q`: no point is
/// closer, and every earlier point is strictly farther.
pub open spec fn is_first_nearest(pts: Seq<Point>, q: Point, i: int) -> bool {
    &&& 0 <= i < pts.len()
    &&& forall|j: int| 0 <= j < pts.len() ==> dist_sq(pts[i], q) <= #[trigger] dist_sq(pts[j], q)
    &&& forall|j: int| 0 <= j < i ==> dist_sq(pts[i], q) < #[trigger] dist_sq(pts[j], q)
}

/// Index of the point of `points` closest to `query`; on a tie the lowest
/// index wins. `None` when `points` is empty.
pub fn nearest_vertex(points: &Vec<Point>, query: &Point) -> (r: Option<usize>)
    ensures
        r is None <==> points@.len() == 0,
        r matches Some(i) ==> is_first_nearest(points@, *query, i as int),
{
    if points.len() == 0 {
        return None;
    }
    let mut best: usize = 0;
    let mut best_d: u128 = points[0].distance_squared(query);
    let mut i: usize = 1;
    while i < points.len()
        invariant
            1 <= i <= points@.len(),
            best < i,
            best_d as int == dist_sq(points@[best as int], *query),
            forall|j: int| 0 <= j < i ==> best_d <= #[trigger] dist_sq(points@[j], *query),
            forall|j: int| 0 <= j < best ==> best_d < #[trigger] dist_sq(points@[j], *query),
        decreases points@.len() - i,
    {
        let d = points[i].distance_squared(query);
        if d < best_d {
            best = i;
            best_d = d;
        }
        i += 1;
    }
    Some(best)
}

/// Index of the point of `points` closest to `query` among those whose
/// squared distance is at most `threshold * threshold`; on a tie the lowest
/// index wins. `None` when no point is that close.
pub fn vertex_within_threshold(points: &Vec<Point>, query: &Point, threshold: u32) -> (r: Option<
    usize,
>)
    ensures
        r is None <==> forall|j: int|
            0 <= j < points@.len() ==> #[trigger] dist_sq(points@[j], *query) > threshold
                * threshold,
        r matches Some(i) ==> is_first_nearest(points@, *query, i as int) && dist_sq(
            points@[i as int],
            *query,
        ) <= threshold * threshold,
{
    let t = threshold as u128;
    assert(t * t <= 0xffff_ffff * 0xffff_ffff) by (nonlinear_arith)
        requires
            t <= 0xffff_ffff,
    ;
    let limit = t * t;
    match nearest_vertex(points, query) {
        None => None,
        Some(i) => {
            if points[i].distance_squared(query) <= limit {
                Some(i)
            } else {
                None
            }
        },
    }
}

/// Converts a pixel position, given in millionths of a pixel, to normalized
/// coordinates in an image of `width` by `height` pixels (rounding down).
pub fn normalize_coordinates(pixel_x: u64, pixel_y: u64, width: u32, height: u32) -> (r: Point)
    requires
        width > 0,
        height > 0,
        pixel_x / (width as u64) <= u32::MAX,
        pixel_y / (height as u64) <= u32::MAX,
    ensures
        r.x == pixel_x / (width as u64),
        r.y == pixel_y / (height as u64),
{
    Point { x: (pixel_x / width as u64) as u32, y: (pixel_y / height as u64) as u32 }
}

/// Converts a point to a pixel position, in millionths of a pixel, in an
/// image of `width` by `height` pixels.
pub fn denormalize_coordinates(point: &Point, width: u32, height: u32) -> (r: (u64, u64))
    ensures
        r.0 == point.x * width,
        r.1 == point.y * height,
{
    assert(point.x * width <= 0xffff_ffff * 0xffff_ffff) by (nonlinear_arith)
        requires
            point.x <= 0xffff_ffff,
            width <= 0xffff_ffff,
    ;
    assert(point.y * height <= 0xffff_ffff * 0xffff_ffff) by (nonlinear_arith)
        requires
            point.y <= 0xffff_ffff,
            height <= 0xffff_ffff,
    ;
    (point.x as u64 * width as u64, point.y as u64 * height as u64)
}

/// The edge from `a` to `b` crosses the ray that leaves `p` towards
/// increasing `x` (half-open in `y`, so a vertex on the ray counts once).
pub open spec fn crosses_ray(a: Point, b: Point, p: Point) -> bool {
    let (ax, ay, bx, by, px, py) = (
        a.x as int,
        a.y as int,
        b.x as int,
        b.y as int,
        p.x as int,
        p.y as int,
    );
    &&& (ay > py) != (by > py)
    &&& if by > ay {
        (px - ax) * (by - ay) < (py - ay) * (bx - ax)
    } else {
        (px - ax) * (by - ay) > (py - ay) * (bx - ax)
    }
}

/// Number of the first `n` edges of the closed polygon `pts` that cross the
/// ray from `p`.
pub open spec fn crossing_count(pts: Seq<Point>, p: Point, n: int) -> nat
    decreases n,
{
    if n <= 0 || pts.len() == 0 {
        0
    } else {
        let i = n - 1;
        let next = if i + 1 == pts.len() {
            0
        } else {
            i + 1
        };
        crossing_count(pts, p, n - 1) + if crosses_ray(pts[i], pts[next], p) {
            1nat
        } else {
            0nat
        }
    }
}

/// `p` lies inside the closed polygon `pts` by the even-odd rule.
pub open spec fn inside_polygon(pts: Seq<Point>, p: Point) -> bool {
    crossing_count(pts, p, pts.len() as int) % 2 == 1
}

fn crosses_ray_exec(a: &Point, b: &Point, p: &Point) -> (r: bool)
    ensures
        r == crosses_ray(*a, *b, *p),
{
    let a_above = a.y > p.y;
    let b_above = b.y > p.y;
    if a_above == b_above {
        return false;
    }
    let (ax, ay, bx, by, px, py) = (
        a.x as i128,
        a.y as i128,
        b.x as i128,
        b.y as i128,
        p.x as i128,
        p.y as i128,
    );
    assert(-0x1_0000_0000 * 0x1_0000_0000 <= (px - ax) * (by - ay) <= 0x1_0000_0000
        * 0x1_0000_0000) by (nonlinear_arith)
        requires
            -0x1_0000_0000 <= px - ax <= 0x1_0000_0000,
            -0x1_0000_0000 <= by - ay <= 0x1_0000_0000,
    ;
    assert(-0x1_0000_0000 * 0x1_0000_0000 <= (py - ay) * (bx - ax) <= 0x1_0000_0000
        * 0x1_0000_0000) by (nonlinear_arith)
        requires
            -0x1_0000_0000 <= py - ay <= 0x1_0000_0000,
            -0x1_0000_0000 <= bx - ax <= 0x1_0000_0000,
    ;
    let lhs = (px - ax) * (by - ay);
    let rhs = (py - ay) * (bx - ax);
    if by > ay {
        lhs < rhs
    } else {
        lhs > rhs
    }
}

/// Whether `p` lies inside the closed polygon `points` by the even-odd rule.
pub fn point_in_polygon(points: &Vec<Point>, p: &Point) -> (r: bool)
    ensures
        r == inside_polygon(points@, *p),
{
    let n = points.len();
    let mut inside = false;
    let mut i: usize = 0;
    while i < n
        invariant
            i <= n == points@.len(),
            inside == (crossing_count(points@, *p, i as int) % 2 == 1),
        decreases n - i,
    {
        let next = if i + 1 == n {
            0
        } else {
            i + 1
        };
        if crosses_ray_exec(&points[i], &points[next], p) {
            inside = !inside;
        }
        i += 1;
    }
    inside
}

} // verus!
