use vstd::prelude::*;

verus! {

/// Impact threshold, in thousandths of standard gravity (1.6 g).
pub const IMPACT_THRESHOLD_G: u64 = 1600;

/// `x^2 + y^2 + z^2`.
pub open spec fn squared_magnitude(x: int, y: int, z: int) -> int {
    x * x + y * y + z * z
}

/// `g` is `1000 * sqrt(x^2 + y^2 + z^2) / 9800` rounded down: the magnitude of
/// an acceleration given in thousandths of m/s^2, as thousandths of standard
/// gravity (9.8 m/s^2). Squaring `98 g <= 10 sqrt(..) < 98 (g + 1)` gives the
/// two bounds.
pub open spec fn is_g_force(x: int, y: int, z: int, g: int) -> bool {
    &&& 0 <= g
    &&& (98 * g) * (98 * g) <= 100 * squared_magnitude(x, y, z)
    &&& 100 * squared_magnitude(x, y, z) < (98 * (g + 1)) * (98 * (g + 1))
}

/// The g-force of an acceleration: the one `g` with `is_g_force(x, y, z, g)`.
pub open spec fn g_force(x: int, y: int, z: int) -> int {
    choose|g: int| is_g_force(x, y, z, g)
}

/// Whether a g-force, in thousandths of standard gravity, is above the
/// impact threshold.
pub open spec fn above_threshold(g: int) -> bool {
    g > IMPACT_THRESHOLD_G as int
}

/// Whether an acceleration is an impact: its magnitude, in standard gravity,
/// is strictly above the threshold. `sqrt(x^2 + y^2 + z^2) / 9800 > 1600 / 1000`,
/// squared, with no rounding.
pub open spec fn is_impact(x: int, y: int, z: int) -> bool {
    100 * squared_magnitude(x, y, z) > (98 * IMPACT_THRESHOLD_G) * (98 * IMPACT_THRESHOLD_G)
}

/// Squaring keeps the order of numbers that are not negative.
pub proof fn lemma_square_monotone(a: int, b: int)
    requires
        0 <= a <= b,
    ensures
        a * a <= b * b,
{
    assert(a * a <= b * b) by (nonlinear_arith)
        requires
            0 <= a <= b,
    ;
}

/// At most one `g` is the g-force of an acceleration.
pub proof fn lemma_g_force_unique(x: int, y: int, z: int, g1: int, g2: int)
    requires
        is_g_force(x, y, z, g1),
        is_g_force(x, y, z, g2),
    ensures
        g1 == g2,
{
    if g1 < g2 {
        lemma_square_monotone(98 * (g1 + 1), 98 * g2);
    }
    if g2 < g1 {
        lemma_square_monotone(98 * (g2 + 1), 98 * g1);
    }
}

/// A `g` that meets the two bounds is the g-force.
pub proof fn lemma_g_force_is(x: int, y: int, z: int, g: int)
    requires
        is_g_force(x, y, z, g),
    ensures
        g_force(x, y, z) == g,
{
    lemma_g_force_unique(x, y, z, g, g_force(x, y, z));
}

/// From a `g` that is not above the g-force, counting upwards reaches it.
proof fn lemma_g_force_above(x: int, y: int, z: int, g: int)
    requires
        0 <= g,
        (98 * g) * (98 * g) <= 100 * squared_magnitude(x, y, z),
    ensures
        exists|h: int| is_g_force(x, y, z, h),
    decreases 100 * squared_magnitude(x, y, z) - (98 * g) * (98 * g),
{
    if 100 * squared_magnitude(x, y, z) < (98 * (g + 1)) * (98 * (g + 1)) {
        assert(is_g_force(x, y, z, g));
    } else {
        assert((98 * g) * (98 * g) < (98 * (g + 1)) * (98 * (g + 1))) by (nonlinear_arith)
            requires
                0 <= g,
        ;
        lemma_g_force_above(x, y, z, g + 1);
    }
}

/// Every acceleration has a g-force: `g_force` meets the two bounds.
pub proof fn lemma_g_force_bounds(x: int, y: int, z: int)
    ensures
        is_g_force(x, y, z, g_force(x, y, z)),
{
    assert(0 <= squared_magnitude(x, y, z)) by (nonlinear_arith);
    assert((98 * 0) * (98 * 0) == 0) by (nonlinear_arith);
    lemma_g_force_above(x, y, z, 0);
}

fn square(v: i32) -> (r: u64)
    ensures
        r as int == (v as int) * (v as int),
        r <= 0x4000_0000_0000_0000,
{
    let w: i64 = v as i64;
    assert(0 <= w * w <= 0x4000_0000_0000_0000) by (nonlinear_arith)
        requires
            -0x8000_0000 <= w <= 0x8000_0000,
    ;
    let p: i64 = w * w;
    p as u64
}

/// A hundred times the squared magnitude of an acceleration.
fn scaled_square(x: i32, y: i32, z: i32) -> (n: u128)
    ensures
        n as int == 100 * squared_magnitude(x as int, y as int, z as int),
        n <= 300 * 0x4000_0000_0000_0000,
{
    let xx: u64 = square(x);
    let yy: u64 = square(y);
    let zz: u64 = square(z);
    100 * (xx as u128 + yy as u128 + zz as u128)
}

/// Whether the acceleration `(x, y, z)` is an impact.
pub fn detect_impact(x: i32, y: i32, z: i32) -> (r: bool)
    ensures
        r == is_impact(x as int, y as int, z as int),
{
    let bound: u128 = 98 * (IMPACT_THRESHOLD_G as u128);
    assert(bound * bound == (98 * IMPACT_THRESHOLD_G) * (98 * IMPACT_THRESHOLD_G)
        && bound * bound < 0x1_0000_0000_0000) by (nonlinear_arith)
        requires
            bound == 98 * 1600,
            IMPACT_THRESHOLD_G == 1600,
    ;
    scaled_square(x, y, z) > bound * bound
}

/// The g-force of the acceleration `(x, y, z)`, in thousandths of standard
/// gravity, rounded down.
pub fn calculate_g_force(x: i32, y: i32, z: i32) -> (g: u64)
    ensures
        g as int == g_force(x as int, y as int, z as int),
        is_g_force(x as int, y as int, z as int, g as int),
        g < 0x8000_0000,
{
    let n: u128 = scaled_square(x, y, z);
    let mut lo: u64 = 0;
    let mut hi: u64 = 0x8000_0000;
    assert((98 * 0x8000_0000int) * (98 * 0x8000_0000int) > 300 * 0x4000_0000_0000_0000int);
    while hi - lo > 1
        invariant
            lo < hi <= 0x8000_0000,
            (98 * lo) * (98 * lo) <= n,
            n < (98 * hi) * (98 * hi),
        decreases hi - lo,
    {
        let mid: u64 = lo + (hi - lo) / 2;
        let m: u128 = 98 * (mid as u128);
        assert(m * m < 0x1000_0000_0000_0000_0000) by (nonlinear_arith)
            requires
                0 <= m < 0x40_0000_0000,
        ;
        if m * m <= n {
            lo = mid;
        } else {
            hi = mid;
        }
    }
    proof {
        lemma_g_force_is(x as int, y as int, z as int, lo as int);
    }
    lo
}

/// Whether a g-force, in thousandths of standard gravity, is above the impact
/// threshold.
pub fn is_fall(g_force: u64) -> (r: bool)
    ensures
        r == above_threshold(g_force as int),
{
    g_force > IMPACT_THRESHOLD_G
}

} // verus!
