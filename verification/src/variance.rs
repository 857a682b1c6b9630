use vstd::prelude::*;
use std::collections::VecDeque;
use crate::model::{Axis, SensorData};

verus! {

/// Stillness threshold, in millionths of (m/s^2)^2 (3.5).
pub const STILLNESS_THRESHOLD_VARIANCE: u128 = 3_500_000;

/// The longest window whose variance is computed: beyond it the sums would
/// not fit in 128 bits.
pub const MAX_BUFFER_LEN: usize = 0xFFFF_FFFF;

/// The sum of the first `n` readings of `buf` along `axis`.
pub open spec fn axis_sum(buf: Seq<SensorData>, axis: Axis, n: nat) -> int
    decreases n,
{
    if n == 0 {
        0
    } else {
        axis_sum(buf, axis, (n - 1) as nat) + buf[n - 1].along(axis)
    }
}

/// The sum of the squares of the first `n` readings of `buf` along `axis`.
pub open spec fn axis_sum_squares(buf: Seq<SensorData>, axis: Axis, n: nat) -> int
    decreases n,
{
    if n == 0 {
        0
    } else {
        axis_sum_squares(buf, axis, (n - 1) as nat) + buf[n - 1].along(axis) * buf[n - 1].along(
            axis,
        )
    }
}

/// `n` times the sum of the squared deviations from the mean of the first `n`
/// readings along `axis`: with mean `m = S / n`, `sum (v - m)^2` is
/// `Q - S^2 / n`, where `S` is the sum and `Q` the sum of squares, so `n` times
/// it is `n Q - S^2`, a whole number.
pub open spec fn prefix_spread(buf: Seq<SensorData>, axis: Axis, n: nat) -> int {
    n * axis_sum_squares(buf, axis, n) - axis_sum(buf, axis, n) * axis_sum(buf, axis, n)
}

/// `len^2` times the population variance of `buf` along `axis`.
pub open spec fn axis_spread(buf: Seq<SensorData>, axis: Axis) -> int {
    prefix_spread(buf, axis, buf.len())
}

/// The stillness variance of a window: the population variances of its three
/// axes, added up, rounded down; 0 for an empty window.
pub open spec fn variance(buf: Seq<SensorData>) -> int {
    let n = buf.len() as int;
    if n == 0 {
        0
    } else {
        (axis_spread(buf, Axis::X) + axis_spread(buf, Axis::Y) + axis_spread(buf, Axis::Z)) / (n
            * n)
    }
}

/// Whether a window is still: its variance is strictly below the threshold.
pub open spec fn is_still(buf: Seq<SensorData>) -> bool {
    variance(buf) < STILLNESS_THRESHOLD_VARIANCE as int
}

/// The squared distances of the first `n` readings from any value `v` add up
/// to `Q - 2 S v + n v^2`, which is therefore not negative.
proof fn lemma_distance_nonnegative(buf: Seq<SensorData>, axis: Axis, n: nat, v: int)
    ensures
        axis_sum_squares(buf, axis, n) - 2 * axis_sum(buf, axis, n) * v + n * v * v >= 0,
    decreases n,
{
    if n > 0 {
        let m = (n - 1) as nat;
        lemma_distance_nonnegative(buf, axis, m, v);
        let a = buf[n - 1].along(axis);
        let q = axis_sum_squares(buf, axis, m);
        let s = axis_sum(buf, axis, m);
        let q1 = axis_sum_squares(buf, axis, n);
        let s1 = axis_sum(buf, axis, n);
        assert(q1 - 2 * s1 * v + n * v * v >= 0) by (nonlinear_arith)
            requires
                q - 2 * s * v + m * v * v >= 0,
                q1 == q + a * a,
                s1 == s + a,
                n == m + 1,
        ;
    } else {
        assert(axis_sum(buf, axis, n) == 0);
        assert(axis_sum_squares(buf, axis, n) == 0);
        assert(0 - 2 * 0 * v + n * v * v >= 0) by (nonlinear_arith)
            requires
                n == 0,
        ;
    }
}

/// The spread of a prefix is never negative, and never shrinks as the prefix
/// grows.
pub proof fn lemma_spread_nonnegative(buf: Seq<SensorData>, axis: Axis, n: nat)
    ensures
        prefix_spread(buf, axis, n) >= 0,
    decreases n,
{
    if n > 0 {
        let m = (n - 1) as nat;
        lemma_spread_nonnegative(buf, axis, m);
        let a = buf[n - 1].along(axis);
        let q = axis_sum_squares(buf, axis, m);
        let s = axis_sum(buf, axis, m);
        lemma_distance_nonnegative(buf, axis, m, a);
        let q1 = axis_sum_squares(buf, axis, n);
        let s1 = axis_sum(buf, axis, n);
        assert(n * q1 - s1 * s1 >= 0) by (nonlinear_arith)
            requires
                m * q - s * s >= 0,
                q - 2 * s * a + m * a * a >= 0,
                q1 == q + a * a,
                s1 == s + a,
                n == m + 1,
        ;
    }
}

/// `len^2` times the population variance of the window along one axis.
fn spread_along(buffer: &VecDeque<SensorData>, axis: Axis) -> (d: u128)
    requires
        buffer@.len() <= MAX_BUFFER_LEN,
    ensures
        d as int == axis_spread(buffer@, axis),
        d <= 0x4000_0000_0000_0000_0000_0000_0000_0000,
{
    let n: usize = buffer.len();
    let mut s: i64 = 0;
    let mut q: u128 = 0;
    let mut i: usize = 0;
    while i < n
        invariant
            i <= n,
            n == buffer@.len(),
            n <= MAX_BUFFER_LEN,
            s as int == axis_sum(buffer@, axis, i as nat),
            q as int == axis_sum_squares(buffer@, axis, i as nat),
            -0x8000_0000 * i <= s <= 0x8000_0000 * i,
            q <= 0x4000_0000_0000_0000 * i,
        decreases n - i,
    {
        let v: i64 = buffer[i].component(axis) as i64;
        assert(0 <= v * v <= 0x4000_0000_0000_0000) by (nonlinear_arith)
            requires
                -0x8000_0000 <= v <= 0x8000_0000,
        ;
        let vv: i64 = v * v;
        s = s + v;
        q = q + vv as u128;
        i = i + 1;
    }
    proof {
        lemma_spread_nonnegative(buffer@, axis, n as nat);
        assert(0 <= s * s <= 0x4000_0000_0000_0000_0000_0000_0000_0000) by (nonlinear_arith)
            requires
                -0x8000_0000 * 0x1_0000_0000 <= s <= 0x8000_0000 * 0x1_0000_0000,
        ;
        assert(0 <= n * q <= 0x4000_0000_0000_0000_0000_0000_0000_0000) by (nonlinear_arith)
            requires
                0 <= n <= 0x1_0000_0000,
                0 <= q <= 0x4000_0000_0000_0000 * 0x1_0000_0000,
        ;
    }
    let wide: i128 = s as i128;
    let square: i128 = wide * wide;
    let scaled: u128 = (n as u128) * q;
    scaled - square as u128
}

/// The stillness variance of a window, in millionths of (m/s^2)^2, rounded
/// down; 0 for an empty window.
pub fn calculate_variance(buffer: &VecDeque<SensorData>) -> (v: u128)
    requires
        buffer@.len() <= MAX_BUFFER_LEN,
    ensures
        v as int == variance(buffer@),
{
    let n: usize = buffer.len();
    if n == 0 {
        return 0;
    }
    let dx: u128 = spread_along(buffer, Axis::X);
    let dy: u128 = spread_along(buffer, Axis::Y);
    let dz: u128 = spread_along(buffer, Axis::Z);
    let count: u128 = n as u128;
    assert(0 < count * count <= 0x1_0000_0000_0000_0000) by (nonlinear_arith)
        requires
            0 < count <= 0x1_0000_0000,
    ;
    (dx + dy + dz) / (count * count)
}

} // verus!
