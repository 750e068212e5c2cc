use vstd::prelude::*;

verus! {

/// A point of the circuit layout, in hundredths of a layout unit. The layout
/// lies in the positive quadrant, so both coordinates are non-negative.
#[derive(Clone, Copy, Debug, PartialEq, Eq, Structural)]
pub struct Point {
    pub x: u32,
    pub y: u32,
}

/// The three named, contiguous sections of the circuit.
#[derive(Clone, Copy, Debug, PartialEq, Eq, Structural)]
pub enum Sector {
    _1,
    _2,
    _3,
}

/// `r` is the integer square root of `n`: the largest `r` with `r * r <= n`.
pub open spec fn is_floor_sqrt(n: nat, r: nat) -> bool {
    r * r <= n < (r + 1) * (r + 1)
}

/// The integer square root of `n`.
pub open spec fn floor_sqrt(n: nat) -> nat {
    choose|r: nat| is_floor_sqrt(n, r)
}

/// Squared Euclidean distance between two points.
pub open spec fn squared_distance(a: Point, b: Point) -> nat {
    let dx = a.x - b.x;
    let dy = a.y - b.y;
    (dx * dx + dy * dy) as nat
}

/// Euclidean distance between two points, rounded down.
pub open spec fn distance(a: Point, b: Point) -> nat {
    floor_sqrt(squared_distance(a, b))
}

/// Sum of the x coordinates.
pub open spec fn sum_x(s: Seq<Point>) -> nat
    decreases s.len(),
{
    if s.len() == 0 {
        0
    } else {
        sum_x(s.drop_last()) + s.last().x as nat
    }
}

/// Sum of the y coordinates.
pub open spec fn sum_y(s: Seq<Point>) -> nat
    decreases s.len(),
{
    if s.len() == 0 {
        0
    } else {
        sum_y(s.drop_last()) + s.last().y as nat
    }
}

/// The centroid: the mean of each coordinate, rounded down; the origin for
/// an empty layout.
pub open spec fn centroid(s: Seq<Point>) -> Point {
    if s.len() == 0 {
        Point { x: 0, y: 0 }
    } else {
        Point { x: (sum_x(s) / s.len()) as u32, y: (sum_y(s) / s.len()) as u32 }
    }
}

pub open spec fn min_x(s: Seq<Point>) -> nat
    decreases s.len(),
{
    if s.len() == 0 {
        u32::MAX as nat
    } else {
        let m = min_x(s.drop_last());
        if s.last().x < m { s.last().x as nat } else { m }
    }
}

pub open spec fn max_x(s: Seq<Point>) -> nat
    decreases s.len(),
{
    if s.len() == 0 {
        0
    } else {
        let m = max_x(s.drop_last());
        if s.last().x > m { s.last().x as nat } else { m }
    }
}

pub open spec fn min_y(s: Seq<Point>) -> nat
    decreases s.len(),
{
    if s.len() == 0 {
        u32::MAX as nat
    } else {
        let m = min_y(s.drop_last());
        if s.last().y < m { s.last().y as nat } else { m }
    }
}

pub open spec fn max_y(s: Seq<Point>) -> nat
    decreases s.len(),
{
    if s.len() == 0 {
        0
    } else {
        let m = max_y(s.drop_last());
        if s.last().y > m { s.last().y as nat } else { m }
    }
}

/// The middle of the bounding box, rounded down; the origin for an empty layout.
pub open spec fn box_middle(s: Seq<Point>) -> Point {
    if s.len() == 0 {
        Point { x: 0, y: 0 }
    } else {
        Point { x: ((min_x(s) + max_x(s)) / 2) as u32, y: ((min_y(s) + max_y(s)) / 2) as u32 }
    }
}

/// The largest distance from `c` to a point of `s`; zero for an empty layout.
pub open spec fn max_distance_to(s: Seq<Point>, c: Point) -> nat
    decreases s.len(),
{
    if s.len() == 0 {
        0
    } else {
        let m = max_distance_to(s.drop_last(), c);
        let d = distance(s.last(), c);
        if d > m { d } else { m }
    }
}

/// The radius of the layout: the largest distance from its centroid to a point.
pub open spec fn layout_radius(s: Seq<Point>) -> nat {
    max_distance_to(s, centroid(s))
}

proof fn lemma_floor_sqrt_unique(n: nat, r: nat)
    requires
        is_floor_sqrt(n, r),
    ensures
        floor_sqrt(n) == r,
{
    let q = floor_sqrt(n);
    assert(is_floor_sqrt(n, q));
    if q < r {
        assert((q + 1) * (q + 1) <= r * r) by (nonlinear_arith)
            requires
                q + 1 <= r,
        ;
    } else if r < q {
        assert((r + 1) * (r + 1) <= q * q) by (nonlinear_arith)
            requires
                r + 1 <= q,
        ;
    }
}

/// Integer square root by bisection.
fn isqrt(n: u128) -> (r: u64)
    requires
        n < 0x4_0000_0000_0000_0000,
    ensures
        r as nat == floor_sqrt(n as nat),
        r < 0x2_0000_0000,
{
    let mut lo: u64 = 0;
    let mut hi: u64 = 0x2_0000_0000;
    assert(0x2_0000_0000 * 0x2_0000_0000 == 0x4_0000_0000_0000_0000);
    while hi - lo > 1
        invariant
            lo < hi <= 0x2_0000_0000,
            lo * lo <= n,
            n < hi * hi,
        decreases hi - lo,
    {
        let mid = lo + (hi - lo) / 2;
        assert(mid * mid <= 0x2_0000_0000 * 0x2_0000_0000) by (nonlinear_arith)
            requires
                mid <= 0x2_0000_0000,
        ;
        if (mid as u128) * (mid as u128) <= n {
            lo = mid;
        } else {
            hi = mid;
        }
    }
    proof {
        lemma_floor_sqrt_unique(n as nat, lo as nat);
    }
    lo
}

impl Point {
    pub fn new(x: u32, y: u32) -> (r: Point)
        ensures
            r == (Point { x, y }),
    {
        Point { x, y }
    }

    fn squared_distance_to(&self, other: &Point) -> (r: u128)
        ensures
            r as nat == squared_distance(*self, *other),
            r < 0x4_0000_0000_0000_0000,
    {
        let dx: u64 = if self.x >= other.x {
            (self.x - other.x) as u64
        } else {
            (other.x - self.x) as u64
        };
        let dy: u64 = if self.y >= other.y {
            (self.y - other.y) as u64
        } else {
            (other.y - self.y) as u64
        };
        assert(dx * dx <= 0x1_0000_0000 * 0x1_0000_0000) by (nonlinear_arith)
            requires
                dx <= 0x1_0000_0000,
        ;
        assert(dy * dy <= 0x1_0000_0000 * 0x1_0000_0000) by (nonlinear_arith)
            requires
                dy <= 0x1_0000_0000,
        ;
        assert((self.x - other.x) * (self.x - other.x) == dx * dx) by (nonlinear_arith)
            requires
                dx == self.x - other.x || dx == other.x - self.x,
        ;
        assert((self.y - other.y) * (self.y - other.y) == dy * dy) by (nonlinear_arith)
            requires
                dy == self.y - other.y || dy == other.y - self.y,
        ;
        (dx as u128) * (dx as u128) + (dy as u128) * (dy as u128)
    }

    /// Euclidean distance to `other`, rounded down.
    pub fn distance_to(&self, other: &Point) -> (r: u64)
        ensures
            r as nat == distance(*self, *other),
            r < 0x2_0000_0000,
    {
        isqrt(self.squared_distance_to(other))
    }
}

proof fn lemma_mean_fits(sum: nat, len: nat)
    requires
        len > 0,
        sum <= len * 0xFFFF_FFFF,
    ensures
        sum / len <= 0xFFFF_FFFF,
{
    assert(sum / len <= (len * 0xFFFF_FFFF) / len) by (nonlinear_arith)
        requires
            len > 0,
            sum <= len * 0xFFFF_FFFF,
    ;
    assert((len * 0xFFFF_FFFF) / len == 0xFFFF_FFFF) by (nonlinear_arith)
        requires
            len > 0,
    ;
}

/// The centroid of a layout: the mean of each coordinate.
pub fn calculate_center(led_positions: &[Point]) -> (r: Point)
    ensures
        r == centroid(led_positions@),
{
    let n = led_positions.len();
    if n == 0 {
        return Point { x: 0, y: 0 };
    }
    let mut sx: u128 = 0;
    let mut sy: u128 = 0;
    let mut i: usize = 0;
    while i < n
        invariant
            n == led_positions@.len(),
            i <= n,
            sx as nat == sum_x(led_positions@.take(i as int)),
            sy as nat == sum_y(led_positions@.take(i as int)),
            sx <= i * 0xFFFF_FFFF,
            sy <= i * 0xFFFF_FFFF,
        decreases n - i,
    {
        let p = led_positions[i];
        assert(led_positions@.take(i + 1).drop_last() =~= led_positions@.take(i as int));
        sx = sx + p.x as u128;
        sy = sy + p.y as u128;
        i = i + 1;
    }
    assert(led_positions@.take(n as int) =~= led_positions@);
    proof {
        lemma_mean_fits(sx as nat, n as nat);
        lemma_mean_fits(sy as nat, n as nat);
    }
    Point { x: (sx / n as u128) as u32, y: (sy / n as u128) as u32 }
}

/// The middle of the bounding box of a layout.
pub fn calculate_center_middle(led_positions: &[Point]) -> (r: Point)
    ensures
        r == box_middle(led_positions@),
{
    let n = led_positions.len();
    if n == 0 {
        return Point { x: 0, y: 0 };
    }
    let mut lx: u32 = u32::MAX;
    let mut ly: u32 = u32::MAX;
    let mut hx: u32 = 0;
    let mut hy: u32 = 0;
    let mut i: usize = 0;
    while i < n
        invariant
            n == led_positions@.len(),
            i <= n,
            lx as nat == min_x(led_positions@.take(i as int)),
            ly as nat == min_y(led_positions@.take(i as int)),
            hx as nat == max_x(led_positions@.take(i as int)),
            hy as nat == max_y(led_positions@.take(i as int)),
        decreases n - i,
    {
        let p = led_positions[i];
        assert(led_positions@.take(i + 1).drop_last() =~= led_positions@.take(i as int));
        if p.x < lx {
            lx = p.x;
        }
        if p.y < ly {
            ly = p.y;
        }
        if p.x > hx {
            hx = p.x;
        }
        if p.y > hy {
            hy = p.y;
        }
        i = i + 1;
    }
    assert(led_positions@.take(n as int) =~= led_positions@);
    Point {
        x: ((lx as u64 + hx as u64) / 2) as u32,
        y: ((ly as u64 + hy as u64) / 2) as u32,
    }
}

/// Every point lies within the vertical extent of the layout.
pub proof fn lemma_within_y_bounds(s: Seq<Point>, i: int)
    requires
        0 <= i < s.len(),
    ensures
        min_y(s) <= s[i].y <= max_y(s),
    decreases s.len(),
{
    if i < s.len() - 1 {
        lemma_within_y_bounds(s.drop_last(), i);
    }
}

/// The lowest and highest y coordinate of a layout.
pub fn y_range(led_positions: &[Point]) -> (r: (u32, u32))
    ensures
        r.0 == min_y(led_positions@),
        r.1 == max_y(led_positions@),
{
    let n = led_positions.len();
    let mut ly: u32 = u32::MAX;
    let mut hy: u32 = 0;
    let mut i: usize = 0;
    while i < n
        invariant
            n == led_positions@.len(),
            i <= n,
            ly as nat == min_y(led_positions@.take(i as int)),
            hy as nat == max_y(led_positions@.take(i as int)),
        decreases n - i,
    {
        let p = led_positions[i];
        assert(led_positions@.take(i + 1).drop_last() =~= led_positions@.take(i as int));
        if p.y < ly {
            ly = p.y;
        }
        if p.y > hy {
            hy = p.y;
        }
        i = i + 1;
    }
    assert(led_positions@.take(n as int) =~= led_positions@);
    (ly, hy)
}

/// The largest distance from the centroid of a layout to one of its points.
pub fn max_distance_from_center(led_positions: &[Point]) -> (r: u64)
    ensures
        r as nat == layout_radius(led_positions@),
        r < 0x2_0000_0000,
{
    let center = calculate_center(led_positions);
    let n = led_positions.len();
    let mut best: u64 = 0;
    let mut i: usize = 0;
    while i < n
        invariant
            n == led_positions@.len(),
            i <= n,
            center == centroid(led_positions@),
            best as nat == max_distance_to(led_positions@.take(i as int), center),
            best < 0x2_0000_0000,
        decreases n - i,
    {
        assert(led_positions@.take(i + 1).drop_last() =~= led_positions@.take(i as int));
        let d = led_positions[i].distance_to(&center);
        if d > best {
            best = d;
        }
        i = i + 1;
    }
    assert(led_positions@.take(n as int) =~= led_positions@);
    best
}

} // verus!
