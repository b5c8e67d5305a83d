//! Calibration arithmetic: accelerometer offsets from a series of samples taken at rest, and
//! the magnetometer's range tracking while the device is turned.
use vstd::prelude::*;
use crate::sensor::{AccelerometerData, GyroscopeData, MagnetometerData};

verus! {

/// Raw accelerometer reading of 1 g at the +/- 2 g full scale.
pub const ONE_G_FOR_2_G_FULL_SCALE: i64 = 16385;

/// Integer division rounding toward zero, as Rust's `/` on signed integers.
pub open spec fn spec_div_toward_zero(a: int, b: int) -> int {
    if a >= 0 {
        a / b
    } else {
        -((-a) / b)
    }
}

/// The sum of one axis of a series of accelerometer samples (0 for x, 1 for y, 2 for z).
pub open spec fn spec_axis_sum(samples: Seq<AccelerometerData>, axis: int) -> int
    decreases samples.len(),
{
    if samples.len() == 0 {
        0
    } else {
        spec_axis_sum(samples.drop_last(), axis) + (if axis == 0 {
            samples.last().x as int
        } else if axis == 1 {
            samples.last().y as int
        } else {
            samples.last().z as int
        })
    }
}

/// The mean of one axis, rounded toward zero.
pub open spec fn spec_axis_mean(samples: Seq<AccelerometerData>, axis: int) -> int {
    spec_div_toward_zero(spec_axis_sum(samples, axis), samples.len() as int)
}

/// The z offset: the mean less 1 g when the z axis points up (positive mean), plus 1 g
/// otherwise.
pub open spec fn spec_z_offset(mean_z: int) -> int {
    if mean_z > 0 {
        mean_z - ONE_G_FOR_2_G_FULL_SCALE
    } else {
        mean_z + ONE_G_FOR_2_G_FULL_SCALE
    }
}

proof fn lemma_sum_bounds(samples: Seq<AccelerometerData>, axis: int)
    ensures
        -32768 * samples.len() <= spec_axis_sum(samples, axis) <= 32767 * samples.len(),
    decreases samples.len(),
{
    if samples.len() > 0 {
        lemma_sum_bounds(samples.drop_last(), axis);
    }
}

proof fn lemma_mean_bounds(sum: int, n: int)
    requires
        n > 0,
        -32768 * n <= sum <= 32767 * n,
    ensures
        -32768 <= spec_div_toward_zero(sum, n) <= 32767,
{
    if sum >= 0 {
        assert(sum / n <= 32767) by (nonlinear_arith)
            requires
                n > 0,
                0 <= sum <= 32767 * n,
        ;
        assert(sum / n >= 0) by (nonlinear_arith)
            requires
                n > 0,
                0 <= sum,
        ;
    } else {
        assert((-sum) / n <= 32768) by (nonlinear_arith)
            requires
                n > 0,
                0 < -sum <= 32768 * n,
        ;
        assert((-sum) / n >= 0) by (nonlinear_arith)
            requires
                n > 0,
                0 < -sum,
        ;
    }
}

fn div_toward_zero(a: i64, n: i64) -> (q: i64)
    requires
        n > 0,
        a > i64::MIN,
    ensures
        q == spec_div_toward_zero(a as int, n as int),
{
    if a >= 0 {
        a / n
    } else {
        -((-a) / n)
    }
}

/// Accelerometer offsets from samples taken with the device at rest and its z axis vertical:
/// the mean of each axis (rounded toward zero), with 1 g taken off the z axis, up or down.
pub fn calibrate_accelerometer(samples: &Vec<AccelerometerData>) -> (offset: AccelerometerData)
    requires
        0 < samples.len() <= 0x1_0000_0000,
    ensures
        offset.x == spec_axis_mean(samples@, 0),
        offset.y == spec_axis_mean(samples@, 1),
        offset.z == spec_z_offset(spec_axis_mean(samples@, 2)),
{
    let mut sum_x: i64 = 0;
    let mut sum_y: i64 = 0;
    let mut sum_z: i64 = 0;
    let mut i: usize = 0;
    while i < samples.len()
        invariant
            i <= samples.len(),
            samples.len() <= 0x1_0000_0000,
            sum_x == spec_axis_sum(samples@.take(i as int), 0),
            sum_y == spec_axis_sum(samples@.take(i as int), 1),
            sum_z == spec_axis_sum(samples@.take(i as int), 2),
        decreases samples.len() - i,
    {
        proof {
            lemma_sum_bounds(samples@.take(i as int), 0);
            lemma_sum_bounds(samples@.take(i as int), 1);
            lemma_sum_bounds(samples@.take(i as int), 2);
            assert(samples@.take(i + 1).drop_last() =~= samples@.take(i as int));
        }
        let s = samples[i];
        sum_x = sum_x + s.x as i64;
        sum_y = sum_y + s.y as i64;
        sum_z = sum_z + s.z as i64;
        i = i + 1;
    }
    assert(samples@.take(samples.len() as int) =~= samples@);
    let n: i64 = samples.len() as i64;
    proof {
        lemma_sum_bounds(samples@, 0);
        lemma_sum_bounds(samples@, 1);
        lemma_sum_bounds(samples@, 2);
        lemma_mean_bounds(sum_x as int, n as int);
        lemma_mean_bounds(sum_y as int, n as int);
        lemma_mean_bounds(sum_z as int, n as int);
    }
    let mean_x = div_toward_zero(sum_x, n);
    let mean_y = div_toward_zero(sum_y, n);
    let mean_z = div_toward_zero(sum_z, n);
    let z = if mean_z > 0 {
        mean_z - ONE_G_FOR_2_G_FULL_SCALE
    } else {
        mean_z + ONE_G_FOR_2_G_FULL_SCALE
    };
    AccelerometerData { x: mean_x as i16, y: mean_y as i16, z: z as i16 }
}

/// The sum of one axis of a series of gyroscope samples (0 for x, 1 for y, 2 for z).
pub open spec fn spec_gyro_axis_sum(samples: Seq<GyroscopeData>, axis: int) -> int
    decreases samples.len(),
{
    if samples.len() == 0 {
        0
    } else {
        spec_gyro_axis_sum(samples.drop_last(), axis) + (if axis == 0 {
            samples.last().x as int
        } else if axis == 1 {
            samples.last().y as int
        } else {
            samples.last().z as int
        })
    }
}

proof fn lemma_gyro_sum_bounds(samples: Seq<GyroscopeData>, axis: int)
    ensures
        -32768 * samples.len() <= spec_gyro_axis_sum(samples, axis) <= 32767 * samples.len(),
    decreases samples.len(),
{
    if samples.len() > 0 {
        lemma_gyro_sum_bounds(samples.drop_last(), axis);
    }
}

/// The sums of the x, y and z rates of gyroscope samples taken with the device at rest, from
/// which the gyroscope offsets are computed.
pub fn sum_gyroscope(samples: &Vec<GyroscopeData>) -> (sums: (i64, i64, i64))
    requires
        samples.len() <= 0x1_0000_0000,
    ensures
        sums.0 == spec_gyro_axis_sum(samples@, 0),
        sums.1 == spec_gyro_axis_sum(samples@, 1),
        sums.2 == spec_gyro_axis_sum(samples@, 2),
{
    let mut sum_x: i64 = 0;
    let mut sum_y: i64 = 0;
    let mut sum_z: i64 = 0;
    let mut i: usize = 0;
    while i < samples.len()
        invariant
            i <= samples.len(),
            samples.len() <= 0x1_0000_0000,
            sum_x == spec_gyro_axis_sum(samples@.take(i as int), 0),
            sum_y == spec_gyro_axis_sum(samples@.take(i as int), 1),
            sum_z == spec_gyro_axis_sum(samples@.take(i as int), 2),
        decreases samples.len() - i,
    {
        proof {
            lemma_gyro_sum_bounds(samples@.take(i as int), 0);
            lemma_gyro_sum_bounds(samples@.take(i as int), 1);
            lemma_gyro_sum_bounds(samples@.take(i as int), 2);
            assert(samples@.take(i + 1).drop_last() =~= samples@.take(i as int));
        }
        let s = samples[i];
        sum_x = sum_x + s.x as i64;
        sum_y = sum_y + s.y as i64;
        sum_z = sum_z + s.z as i64;
        i = i + 1;
    }
    assert(samples@.take(samples.len() as int) =~= samples@);
    (sum_x, sum_y, sum_z)
}

/// Adding a sample to a series adds its x, y and z readings to the x, y and z sums of the
/// accelerometer samples.
pub proof fn lemma_axis_sum_push(samples: Seq<AccelerometerData>, s: AccelerometerData)
    ensures
        spec_axis_sum(samples.push(s), 0) == spec_axis_sum(samples, 0) + s.x,
        spec_axis_sum(samples.push(s), 1) == spec_axis_sum(samples, 1) + s.y,
        spec_axis_sum(samples.push(s), 2) == spec_axis_sum(samples, 2) + s.z,
{
    assert(samples.push(s).drop_last() =~= samples);
}

/// The sums of no accelerometer samples are 0.
pub proof fn lemma_axis_sum_empty(axis: int)
    ensures
        spec_axis_sum(Seq::<AccelerometerData>::empty(), axis) == 0,
{
}

/// When every accelerometer sample reads the same on an axis, the mean on that axis is that
/// reading.
pub proof fn lemma_axis_mean_of_equal_samples(samples: Seq<AccelerometerData>, v: i16)
    requires
        samples.len() > 0,
        forall|k: int| 0 <= k < samples.len() ==> #[trigger] samples[k].x == v,
        forall|k: int| 0 <= k < samples.len() ==> #[trigger] samples[k].y == v,
        forall|k: int| 0 <= k < samples.len() ==> #[trigger] samples[k].z == v,
    ensures
        spec_axis_mean(samples, 0) == v,
        spec_axis_mean(samples, 1) == v,
        spec_axis_mean(samples, 2) == v,
{
    lemma_axis_sum_of_equal(samples, v);
    let n = samples.len() as int;
    lemma_div_of_multiple(n, v as int);
}

proof fn lemma_axis_sum_of_equal(samples: Seq<AccelerometerData>, v: i16)
    requires
        forall|k: int| 0 <= k < samples.len() ==> #[trigger] samples[k].x == v,
        forall|k: int| 0 <= k < samples.len() ==> #[trigger] samples[k].y == v,
        forall|k: int| 0 <= k < samples.len() ==> #[trigger] samples[k].z == v,
    ensures
        spec_axis_sum(samples, 0) == samples.len() * v,
        spec_axis_sum(samples, 1) == samples.len() * v,
        spec_axis_sum(samples, 2) == samples.len() * v,
    decreases samples.len(),
{
    if samples.len() > 0 {
        let front = samples.drop_last();
        assert forall|k: int| 0 <= k < front.len() implies #[trigger] front[k].x == v
            && front[k].y == v && front[k].z == v by {
            assert(front[k] == samples[k]);
        }
        lemma_axis_sum_of_equal(front, v);
        assert(samples.last() == samples[samples.len() - 1]);
        assert(front.len() * v + v == samples.len() * v) by (nonlinear_arith)
            requires
                front.len() + 1 == samples.len(),
        ;
    }
}

proof fn lemma_div_of_multiple(n: int, v: int)
    requires
        n > 0,
    ensures
        spec_div_toward_zero(n * v, n) == v,
{
    if v >= 0 {
        assert(n * v >= 0) by (nonlinear_arith)
            requires
                n > 0,
                v >= 0,
        ;
        assert((n * v) / n == v) by (nonlinear_arith)
            requires
                n > 0,
        ;
    } else {
        assert(n * v < 0 && -(n * v) == n * (-v)) by (nonlinear_arith)
            requires
                n > 0,
                v < 0,
        ;
        assert((n * (-v)) / n == -v) by (nonlinear_arith)
            requires
                n > 0,
        ;
    }
}

/// The mean is rounded toward zero: for a sum `a` of `n` samples, the mean `q` satisfies
/// n * q <= a < n * (q + 1) when `a` is zero or above, and n * (q - 1) < a <= n * q below zero.
pub proof fn lemma_mean_rounds_toward_zero(a: int, n: int)
    requires
        n > 0,
    ensures
        a >= 0 ==> n * spec_div_toward_zero(a, n) <= a < n * (spec_div_toward_zero(a, n) + 1),
        a < 0 ==> n * (spec_div_toward_zero(a, n) - 1) < a <= n * spec_div_toward_zero(a, n),
{
    let q = spec_div_toward_zero(a, n);
    if a >= 0 {
        assert(n * (a / n) <= a < n * (a / n + 1)) by (nonlinear_arith)
            requires
                n > 0,
                a >= 0,
        ;
    } else {
        let b = -a;
        assert(n * (b / n) <= b < n * (b / n + 1)) by (nonlinear_arith)
            requires
                n > 0,
                b > 0,
        ;
        assert(q == -(b / n));
        assert(n * (q - 1) == -(n * (b / n + 1)) && n * q == -(n * (b / n))) by (nonlinear_arith)
            requires
                q == -(b / n),
        ;
    }
}

/// The z offset removes 1 g (16385) toward zero: a positive z mean (z axis up) loses 1 g and a
/// z mean of zero or below (z axis down) gains 1 g, so a device at rest reading exactly 1 g on
/// z, up or down, gets a zero offset.
pub proof fn lemma_z_offset_removes_one_g(mean_z: int)
    ensures
        mean_z > 0 ==> spec_z_offset(mean_z) == mean_z - 16385,
        mean_z <= 0 ==> spec_z_offset(mean_z) == mean_z + 16385,
        spec_z_offset(16385) == 0,
        spec_z_offset(-16385) == 0,
{
}

/// Adding a sample to a series adds its x, y and z rates to the x, y and z sums of the
/// gyroscope samples.
pub proof fn lemma_gyro_axis_sum_push(samples: Seq<GyroscopeData>, s: GyroscopeData)
    ensures
        spec_gyro_axis_sum(samples.push(s), 0) == spec_gyro_axis_sum(samples, 0) + s.x,
        spec_gyro_axis_sum(samples.push(s), 1) == spec_gyro_axis_sum(samples, 1) + s.y,
        spec_gyro_axis_sum(samples.push(s), 2) == spec_gyro_axis_sum(samples, 2) + s.z,
{
    assert(samples.push(s).drop_last() =~= samples);
}

/// The sums of one gyroscope sample are its x, y and z rates, and those of no samples are 0.
pub proof fn lemma_gyro_axis_sum_single(s: GyroscopeData)
    ensures
        spec_gyro_axis_sum(Seq::<GyroscopeData>::empty(), 0) == 0,
        spec_gyro_axis_sum(Seq::<GyroscopeData>::empty(), 1) == 0,
        spec_gyro_axis_sum(Seq::<GyroscopeData>::empty(), 2) == 0,
        spec_gyro_axis_sum(seq![s], 0) == s.x,
        spec_gyro_axis_sum(seq![s], 1) == s.y,
        spec_gyro_axis_sum(seq![s], 2) == s.z,
{
    lemma_gyro_axis_sum_push(Seq::<GyroscopeData>::empty(), s);
    assert(Seq::<GyroscopeData>::empty().push(s) =~= seq![s]);
}

/// The smallest and largest magnetometer readings seen so far on each axis (both starting at
/// 0), and which axes have been seen beyond the target scale on both sides.
#[derive(Clone, Copy, Debug, PartialEq, Eq)]
pub struct MagnetometerRange {
    pub min: MagnetometerData,
    pub max: MagnetometerData,
    pub x_done: bool,
    pub y_done: bool,
    pub z_done: bool,
}

/// The smaller of two readings.
pub open spec fn spec_min(a: i16, b: i16) -> i16 {
    if a <= b {
        a
    } else {
        b
    }
}

/// The larger of two readings.
pub open spec fn spec_max(a: i16, b: i16) -> i16 {
    if a >= b {
        a
    } else {
        b
    }
}

/// The tracked minimum is the smaller reading and the tracked maximum the larger one: each is
/// one of the two readings, the minimum at most both and the maximum at least both.
pub proof fn lemma_min_max_bounds(a: i16, b: i16)
    ensures
        spec_min(a, b) <= a && spec_min(a, b) <= b,
        spec_min(a, b) == a || spec_min(a, b) == b,
        spec_max(a, b) >= a && spec_max(a, b) >= b,
        spec_max(a, b) == a || spec_max(a, b) == b,
{
}

fn min_i16(a: i16, b: i16) -> (r: i16)
    ensures
        r == spec_min(a, b),
{
    if a <= b {
        a
    } else {
        b
    }
}

fn max_i16(a: i16, b: i16) -> (r: i16)
    ensures
        r == spec_max(a, b),
{
    if a >= b {
        a
    } else {
        b
    }
}

impl MagnetometerRange {
    /// The range tracking stays around 0: every minimum is at most 0 and every maximum at
    /// least 0.
    pub open spec fn wf(self) -> bool {
        &&& self.min.x <= 0 && self.min.y <= 0 && self.min.z <= 0
        &&& self.max.x >= 0 && self.max.y >= 0 && self.max.z >= 0
    }

    /// No reading seen yet.
    pub fn new() -> (r: Self)
        ensures
            r.min == (MagnetometerData { x: 0, y: 0, z: 0 }),
            r.max == (MagnetometerData { x: 0, y: 0, z: 0 }),
            !r.x_done && !r.y_done && !r.z_done,
            r.wf(),
    {
        MagnetometerRange {
            min: MagnetometerData { x: 0, y: 0, z: 0 },
            max: MagnetometerData { x: 0, y: 0, z: 0 },
            x_done: false,
            y_done: false,
            z_done: false,
        }
    }

    /// Takes in one reading; an axis is done once its minimum is below `-target_scale` and
    /// its maximum above `target_scale`. Returns whether all three axes are done.
    pub fn update(&mut self, sample: MagnetometerData, target_scale: i16) -> (all_done: bool)
        requires
            target_scale > i16::MIN,
        ensures
            final(self).min.x == spec_min(sample.x, old(self).min.x),
            final(self).min.y == spec_min(sample.y, old(self).min.y),
            final(self).min.z == spec_min(sample.z, old(self).min.z),
            final(self).max.x == spec_max(sample.x, old(self).max.x),
            final(self).max.y == spec_max(sample.y, old(self).max.y),
            final(self).max.z == spec_max(sample.z, old(self).max.z),
            final(self).x_done == (old(self).x_done || (final(self).min.x < -target_scale
                && final(self).max.x > target_scale)),
            final(self).y_done == (old(self).y_done || (final(self).min.y < -target_scale
                && final(self).max.y > target_scale)),
            final(self).z_done == (old(self).z_done || (final(self).min.z < -target_scale
                && final(self).max.z > target_scale)),
            all_done == (final(self).x_done && final(self).y_done && final(self).z_done),
            old(self).wf() ==> final(self).wf(),
    {
        self.min.x = min_i16(sample.x, self.min.x);
        self.max.x = max_i16(sample.x, self.max.x);
        self.min.y = min_i16(sample.y, self.min.y);
        self.max.y = max_i16(sample.y, self.max.y);
        self.min.z = min_i16(sample.z, self.min.z);
        self.max.z = max_i16(sample.z, self.max.z);
        let t = -target_scale;
        if !self.x_done && self.min.x < t && self.max.x > target_scale {
            self.x_done = true;
        }
        if !self.y_done && self.min.y < t && self.max.y > target_scale {
            self.y_done = true;
        }
        if !self.z_done && self.min.z < t && self.max.z > target_scale {
            self.z_done = true;
        }
        self.x_done && self.y_done && self.z_done
    }

    /// The hard-iron offset: the middle of the range of each axis, rounded toward zero.
    pub fn offset(&self) -> (offset: MagnetometerData)
        requires
            self.wf(),
        ensures
            offset.x == spec_div_toward_zero(self.max.x + self.min.x, 2),
            offset.y == spec_div_toward_zero(self.max.y + self.min.y, 2),
            offset.z == spec_div_toward_zero(self.max.z + self.min.z, 2),
    {
        MagnetometerData {
            x: div_toward_zero((self.max.x as i64) + (self.min.x as i64), 2) as i16,
            y: div_toward_zero((self.max.y as i64) + (self.min.y as i64), 2) as i16,
            z: div_toward_zero((self.max.z as i64) + (self.min.z as i64), 2) as i16,
        }
    }
}

} // verus!
