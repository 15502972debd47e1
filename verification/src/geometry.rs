use vstd::prelude::*;

verus! {

/// Canvas coordinates are confined to this range so that squared distances,
/// doubled deltas and grid arithmetic all stay well inside `i64`.
pub const COORD_LIMIT: i64 = 1048576;

/// Mathematical (unbounded) counterpart of `Point`, used in specifications.
#[verifier::ext_equal]
pub ghost struct PointV {
    pub x: int,
    pub y: int,
}

/// A 2D coordinate in canvas space.
#[derive(Clone, Copy, PartialEq, Eq, Structural, Debug)]
pub struct Point {
    pub x: i64,
    pub y: i64,
}

impl View for Point {
    type V = PointV;

    open spec fn view(&self) -> PointV {
        PointV { x: self.x as int, y: self.y as int }
    }
}

impl DeepView for Point {
    type V = PointV;

    open spec fn deep_view(&self) -> PointV {
        self.view()
    }
}

/// A point lies inside the supported canvas range.
pub open spec fn pt_in_range(p: PointV) -> bool {
    &&& -COORD_LIMIT <= p.x <= COORD_LIMIT
    &&& -COORD_LIMIT <= p.y <= COORD_LIMIT
}

impl Point {
    pub fn new(x: i64, y: i64) -> (r: Point)
        ensures
            r@ == (PointV { x: x as int, y: y as int }),
    {
        Point { x, y }
    }
}

/// Absolute value, in specifications.
pub open spec fn abs_i(x: int) -> int {
    if x < 0 {
        -x
    } else {
        x
    }
}

/// Square, in specifications.
pub open spec fn sq(x: int) -> int {
    x * x
}

/// Clamp a radicand to zero so that no square root of a negative number is
/// ever taken.
pub open spec fn clamp0(x: int) -> int {
    if x < 0 {
        0
    } else {
        x
    }
}

/// Absolute value of an `i64`, for canvas deltas.
pub fn abs_i64(x: i64) -> (r: i64)
    requires
        x > i64::MIN,
    ensures
        r == abs_i(x as int),
{
    if x < 0 {
        -x
    } else {
        x
    }
}

/// `r` is the integer nearest to the (real) square root of `n`.
///
/// For a non-negative integer `n` the real number `sqrt(n) + 1/2` is never an
/// integer, so rounding to the nearest integer is unambiguous: `r` rounds
/// `sqrt(n)` exactly when `(2r - 1)^2 < 4n < (2r + 1)^2` (with the lower bound
/// waived for `r == 0`).
pub open spec fn is_rounded_sqrt(n: int, r: int) -> bool {
    &&& 0 <= r
    &&& 4 * n < (2 * r + 1) * (2 * r + 1)
    &&& r > 0 ==> (2 * r - 1) * (2 * r - 1) < 4 * n
}

/// The rounded square root as a value, for use inside other specifications.
pub open spec fn rt_round(n: int) -> int {
    choose|r: int| #[trigger] is_rounded_sqrt(n, r)
}

/// Every non-negative integer has a rounded square root.
pub proof fn lemma_rounded_sqrt_exists(n: int)
    requires
        n >= 0,
    ensures
        exists|r: int| #[trigger] is_rounded_sqrt(n, r),
    decreases n,
{
    if n == 0 {
        assert((2 * 0 + 1) * (2 * 0 + 1) == 1) by (nonlinear_arith);
        assert(is_rounded_sqrt(0, 0));
    } else {
        lemma_rounded_sqrt_exists(n - 1);
        let p = choose|r: int| #[trigger] is_rounded_sqrt(n - 1, r);
        if 4 * n < (2 * p + 1) * (2 * p + 1) {
            assert(is_rounded_sqrt(n, p));
        } else {
            // Expand the three squares around p; the rest is linear. In
            // particular 4n is a multiple of 4 while (2p + 1)^2 is odd, so
            // the bound 4n >= (2p + 1)^2 is strict.
            assert((2 * p + 1) * (2 * p + 1) == 4 * (p * p) + 4 * p + 1) by (nonlinear_arith);
            assert((2 * (p + 1) - 1) * (2 * (p + 1) - 1) == 4 * (p * p) + 4 * p + 1)
                by (nonlinear_arith);
            assert((2 * (p + 1) + 1) * (2 * (p + 1) + 1) == 4 * (p * p) + 12 * p + 9)
                by (nonlinear_arith);
            assert(is_rounded_sqrt(n, p + 1));
        }
    }
}

/// The rounded square root is unique.
pub proof fn lemma_rounded_sqrt_unique(n: int, a: int, b: int)
    requires
        is_rounded_sqrt(n, a),
        is_rounded_sqrt(n, b),
    ensures
        a == b,
{
    if a < b {
        assert((2 * a + 1) * (2 * a + 1) <= (2 * b - 1) * (2 * b - 1)) by (nonlinear_arith)
            requires
                0 <= a,
                a < b,
        ;
    }
    if b < a {
        assert((2 * b + 1) * (2 * b + 1) <= (2 * a - 1) * (2 * a - 1)) by (nonlinear_arith)
            requires
                0 <= b,
                b < a,
        ;
    }
}

/// `rt_round` returns the witness whenever one is supplied.
pub proof fn lemma_rt_round_is(n: int, r: int)
    requires
        n >= 0,
        is_rounded_sqrt(n, r),
    ensures
        rt_round(n) == r,
{
    assert(exists|x: int| #[trigger] is_rounded_sqrt(n, x));
    let c = choose|x: int| #[trigger] is_rounded_sqrt(n, x);
    lemma_rounded_sqrt_unique(n, c, r);
}

/// The square root of a perfect square rounds to its root.
pub proof fn lemma_rounded_sqrt_of_square(a: int)
    requires
        a >= 0,
    ensures
        is_rounded_sqrt(a * a, a),
{
    assert(4 * (a * a) < (2 * a + 1) * (2 * a + 1)) by (nonlinear_arith)
        requires
            a >= 0,
    ;
    if a > 0 {
        assert((2 * a - 1) * (2 * a - 1) < 4 * (a * a)) by (nonlinear_arith)
            requires
                a > 0,
        ;
    }
}

/// The rounded square root of a non-negative integer is non-negative.
pub proof fn lemma_rt_round_nonneg(n: int)
    requires
        n >= 0,
    ensures
        rt_round(n) >= 0,
{
    lemma_rounded_sqrt_exists(n);
    assert(is_rounded_sqrt(n, rt_round(n)));
}

/// A rounded square root of a value no larger than `b^2` is at most `b`.
pub proof fn lemma_rounded_sqrt_le(n: int, r: int, b: int)
    requires
        is_rounded_sqrt(n, r),
        0 <= b,
        n <= b * b,
    ensures
        r <= b,
{
    if r > b {
        assert((2 * b + 1) * (2 * b + 1) <= (2 * r - 1) * (2 * r - 1)) by (nonlinear_arith)
            requires
                0 <= b,
                b < r,
        ;
        assert(4 * (b * b) < (2 * b + 1) * (2 * b + 1)) by (nonlinear_arith)
            requires
                b >= 0,
        ;
    }
}

/// Integer square root, rounded down.
fn isqrt_floor(n: u64) -> (r: u64)
    requires
        n < 0x4000000000000000u64,
    ensures
        (r as int) * (r as int) <= n as int,
        (n as int) < ((r as int) + 1) * ((r as int) + 1),
{
    let mut lo: u64 = 0;
    let mut hi: u64 = 0x80000000u64;
    while lo + 1 < hi
        invariant
            lo < hi <= 0x80000000u64,
            (lo as int) * (lo as int) <= n as int,
            (n as int) < (hi as int) * (hi as int),
            n < 0x4000000000000000u64,
        decreases hi - lo,
    {
        let mid: u64 = lo + (hi - lo) / 2;
        assert(lo < mid < hi);
        assert((mid as int) * (mid as int) <= 0x4000000000000000) by (nonlinear_arith)
            requires
                0 <= mid <= 0x80000000u64,
        ;
        let sq_val: u64 = mid * mid;
        if sq_val <= n {
            lo = mid;
        } else {
            hi = mid;
        }
    }
    lo
}

/// Integer square root, rounded to the nearest integer.
pub fn sqrt_round(n: u64) -> (r: u64)
    requires
        n < 0x4000000000000000u64,
    ensures
        is_rounded_sqrt(n as int, r as int),
        r as int == rt_round(n as int),
{
    let s = isqrt_floor(n);
    assert(s < 0x80000000u64) by (nonlinear_arith)
        requires
            (s as int) * (s as int) <= n as int,
            n < 0x4000000000000000u64,
    ;
    let sq_val: u64 = s * s;
    let rem: u64 = n - sq_val;
    let r: u64 = if rem > s {
        s + 1
    } else {
        s
    };
    proof {
        let si = s as int;
        let ni = n as int;
        if rem > s {
            // n >= s^2 + s + 1, so sqrt(n) rounds up to s + 1.
            assert((2 * (si + 1) - 1) * (2 * (si + 1) - 1) < 4 * ni) by (nonlinear_arith)
                requires
                    ni >= si * si + si + 1,
                    si >= 0,
            ;
            assert(4 * ni < (2 * (si + 1) + 1) * (2 * (si + 1) + 1)) by (nonlinear_arith)
                requires
                    ni < (si + 1) * (si + 1),
                    si >= 0,
            ;
            assert(is_rounded_sqrt(ni, r as int));
        } else {
            // n <= s^2 + s, so sqrt(n) rounds down to s.
            assert(4 * ni < (2 * si + 1) * (2 * si + 1)) by (nonlinear_arith)
                requires
                    ni <= si * si + si,
                    si >= 0,
            ;
            if s > 0 {
                assert((2 * si - 1) * (2 * si - 1) < 4 * ni) by (nonlinear_arith)
                    requires
                        si * si <= ni,
                        si > 0,
                ;
            }
            assert(is_rounded_sqrt(ni, r as int));
        }
        lemma_rt_round_is(ni, r as int);
    }
    r
}

/// A point lies inside four times the supported canvas range; derived
/// rectangle corners stay inside this wider band.
pub open spec fn pt_in_wide_range(p: PointV) -> bool {
    &&& -4 * COORD_LIMIT <= p.x <= 4 * COORD_LIMIT
    &&& -4 * COORD_LIMIT <= p.y <= 4 * COORD_LIMIT
}

/// Euclidean distance between two canvas points, rounded to the nearest
/// integer.
pub fn dist_round(a: Point, b: Point) -> (r: u64)
    requires
        pt_in_wide_range(a@),
        pt_in_wide_range(b@),
    ensures
        is_rounded_sqrt(sq(a@.x - b@.x) + sq(a@.y - b@.y), r as int),
{
    let dx: i64 = a.x - b.x;
    let dy: i64 = a.y - b.y;
    assert(dx * dx <= 0x4000000000000i64 && dx * dx >= 0) by (nonlinear_arith)
        requires
            -8388608 <= dx <= 8388608,
    ;
    assert(dy * dy <= 0x4000000000000i64 && dy * dy >= 0) by (nonlinear_arith)
        requires
            -8388608 <= dy <= 8388608,
    ;
    let sum: i64 = dx * dx + dy * dy;
    sqrt_round(sum as u64)
}

/// True when `p` lies inside the axis-aligned square of half-width `r`
/// centered at `m` (lower bounds inclusive, upper bounds exclusive).
pub open spec fn in_square_range(p: PointV, m: PointV, r: int) -> bool {
    &&& m.x - r <= p.x < m.x + r
    &&& m.y - r <= p.y < m.y + r
}

/// Axis-aligned square hit test around a pointer position.
pub fn check_range(p: &Point, m: Point, r: i64) -> (res: bool)
    requires
        pt_in_range(p@),
        pt_in_range(m@),
        0 <= r <= COORD_LIMIT,
    ensures
        res == in_square_range(p@, m@, r as int),
{
    let x_ok = m.x - r <= p.x && p.x < m.x + r;
    let y_ok = m.y - r <= p.y && p.y < m.y + r;
    x_ok && y_ok
}

} // verus!
