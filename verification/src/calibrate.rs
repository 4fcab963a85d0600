//! Axis calibration: integer factors that bring a device's axis range to the canonical one.

use crate::codes::{ABS_RZ, ABS_Z};
use vstd::prelude::*;

verus! {

/// Lowest value of a canonical stick axis.
pub const MIN_OUT_ANALOG: i32 = -32768;

/// Highest value of a canonical stick axis.
pub const MAX_OUT_ANALOG: i32 = 32767;

/// Lowest value of a canonical trigger axis.
pub const MIN_OUT_TRIG: i32 = 0;

/// Highest value of a canonical trigger axis.
pub const MAX_OUT_TRIG: i32 = 255;

/// Lowest value of a canonical hat axis.
pub const MIN_OUT_HAT: i32 = -1;

/// Highest value of a canonical hat axis.
pub const MAX_OUT_HAT: i32 = 1;

/// A raw bound closer than this to its canonical target counts as calibrated already.
pub const TOLERANCE: i32 = 100;

/// The number of axes that are calibrated: codes 0 up to, but not including, this.
pub const TRACKED_AXES: usize = 6;

/// The distance of `x` from zero.
pub open spec fn magnitude(x: int) -> int {
    if x < 0 {
        -x
    } else {
        x
    }
}

/// Division that rounds toward zero, for a divisor other than zero.
pub open spec fn quotient_toward_zero(a: int, b: int) -> int {
    if a >= 0 && b > 0 {
        a / b
    } else if a >= 0 {
        -(a / (-b))
    } else if b > 0 {
        -((-a) / b)
    } else {
        (-a) / (-b)
    }
}

/// Whether the axis with this code is a trigger.
pub open spec fn is_trigger(axis: int) -> bool {
    axis == ABS_Z || axis == ABS_RZ
}

/// The canonical lower bound of a tracked axis.
pub open spec fn low_target(axis: int) -> int {
    if is_trigger(axis) {
        MIN_OUT_TRIG as int
    } else {
        MIN_OUT_ANALOG as int
    }
}

/// The canonical upper bound of a tracked axis.
pub open spec fn high_target(axis: int) -> int {
    if is_trigger(axis) {
        MAX_OUT_TRIG as int
    } else {
        MAX_OUT_ANALOG as int
    }
}

/// The factor for one raw bound: 1 where the bound is zero or already within
/// the tolerance of its target, else the target divided by the bound, rounded
/// toward zero.
pub open spec fn spec_multiplier(bound: int, target: int) -> int {
    if bound == 0 || magnitude(bound - target) < TOLERANCE {
        1
    } else {
        quotient_toward_zero(target, bound)
    }
}

/// The factor for one raw bound and its canonical target.
pub fn multiplier(bound: i32, target: i32) -> (m: i32)
    requires
        MIN_OUT_ANALOG <= target <= MAX_OUT_ANALOG,
    ensures
        m == spec_multiplier(bound as int, target as int),
{
    let distance: i64 = bound as i64 - target as i64;
    if bound == 0 || (-(TOLERANCE as i64) < distance && distance < TOLERANCE as i64) {
        return 1;
    }
    let bound_size: i64 = if bound < 0 { -(bound as i64) } else { bound as i64 };
    let target_size: i64 = if target < 0 { -(target as i64) } else { target as i64 };
    let size: i64 = target_size / bound_size;
    assert(0 <= size <= target_size) by (nonlinear_arith)
        requires
            size == target_size / bound_size,
            0 <= target_size,
            0 < bound_size,
    ;
    if (target < 0) != (bound < 0) {
        (-size) as i32
    } else {
        size as i32
    }
}

/// The raw range of one axis, as its device reports it.
#[derive(Clone, Copy, Debug, PartialEq, Eq, Structural)]
pub struct AxisRange {
    pub minimum: i32,
    pub maximum: i32,
}

/// The factors of one device: per tracked axis, one for samples below zero and
/// one for samples from zero up.
#[derive(Clone, Copy, Debug, PartialEq, Eq)]
pub struct CalibrationTable {
    negative: [i32; 6],
    positive: [i32; 6],
}

/// Whether a product can be held in an `i32`.
pub open spec fn fits_i32(x: int) -> bool {
    i32::MIN <= x <= i32::MAX
}

impl CalibrationTable {
    /// The factor of a tracked axis for samples below zero.
    pub closed spec fn negative_factor(self, axis: int) -> int {
        self.negative[axis] as int
    }

    /// The factor of a tracked axis for samples from zero up.
    pub closed spec fn positive_factor(self, axis: int) -> int {
        self.positive[axis] as int
    }

    /// The factor that applies to a sample: chosen by the sample's sign.
    pub open spec fn factor(self, axis: int, raw: int) -> int {
        if raw < 0 {
            self.negative_factor(axis)
        } else {
            self.positive_factor(axis)
        }
    }

    /// A sample of a tracked axis, brought to the canonical range.
    pub open spec fn scaled(self, axis: int, raw: int) -> int {
        raw * self.factor(axis, raw)
    }

    /// Whether this is the table of a device with the given axis ranges: every
    /// factor is the one its bound and target call for.
    pub open spec fn is_calibration_of(self, ranges: Seq<AxisRange>) -> bool {
        forall|axis: int|
            #![trigger self.negative_factor(axis)]
            #![trigger self.positive_factor(axis)]
            0 <= axis < TRACKED_AXES ==> {
                &&& self.negative_factor(axis) == spec_multiplier(
                    ranges[axis].minimum as int,
                    low_target(axis),
                )
                &&& self.positive_factor(axis) == spec_multiplier(
                    ranges[axis].maximum as int,
                    high_target(axis),
                )
            }
    }

    /// The factor of a tracked axis for samples below zero.
    pub fn negative(&self, axis: u16) -> (m: i32)
        requires
            axis < TRACKED_AXES,
        ensures
            m == self.negative_factor(axis as int),
    {
        self.negative[axis as usize]
    }

    /// The factor of a tracked axis for samples from zero up.
    pub fn positive(&self, axis: u16) -> (m: i32)
        requires
            axis < TRACKED_AXES,
        ensures
            m == self.positive_factor(axis as int),
    {
        self.positive[axis as usize]
    }

    /// Scales a sample of a tracked axis by the factor its sign selects.
    pub fn scale(&self, axis: u16, raw: i32) -> (out: i32)
        requires
            axis < TRACKED_AXES,
            fits_i32(self.scaled(axis as int, raw as int)),
        ensures
            out == self.scaled(axis as int, raw as int),
    {
        if raw < 0 {
            raw * self.negative[axis as usize]
        } else {
            raw * self.positive[axis as usize]
        }
    }

    /// Scales a sample where that can be done: the axis is tracked and the
    /// product fits.
    pub fn checked_scale(&self, axis: u16, raw: i32) -> (out: Option<i32>)
        ensures
            out is Some <==> axis < TRACKED_AXES && fits_i32(self.scaled(axis as int, raw as int)),
            out matches Some(v) ==> v == self.scaled(axis as int, raw as int),
    {
        if axis as usize >= TRACKED_AXES {
            return None;
        }
        let m: i32 = if raw < 0 {
            self.negative[axis as usize]
        } else {
            self.positive[axis as usize]
        };
        raw.checked_mul(m)
    }
}

/// Whether the axis with this code is a trigger.
pub fn axis_is_trigger(axis: u16) -> (b: bool)
    ensures
        b == is_trigger(axis as int),
{
    axis == ABS_Z || axis == ABS_RZ
}

/// Builds the table of a device from the ranges of its six tracked axes.
pub fn calibrate(ranges: &[AxisRange; 6]) -> (table: CalibrationTable)
    ensures
        table.is_calibration_of(ranges@),
{
    let mut negative: [i32; 6] = [1; 6];
    let mut positive: [i32; 6] = [1; 6];
    let mut axis: usize = 0;
    while axis < TRACKED_AXES
        invariant
            axis <= TRACKED_AXES,
            forall|done: int|
                0 <= done < axis ==> #[trigger] negative[done] == spec_multiplier(
                    ranges[done].minimum as int,
                    low_target(done),
                ),
            forall|done: int|
                0 <= done < axis ==> #[trigger] positive[done] == spec_multiplier(
                    ranges[done].maximum as int,
                    high_target(done),
                ),
        decreases TRACKED_AXES - axis,
    {
        let trigger = axis_is_trigger(axis as u16);
        let low: i32 = if trigger { MIN_OUT_TRIG } else { MIN_OUT_ANALOG };
        let high: i32 = if trigger { MAX_OUT_TRIG } else { MAX_OUT_ANALOG };
        negative[axis] = multiplier(ranges[axis].minimum, low);
        positive[axis] = multiplier(ranges[axis].maximum, high);
        axis += 1;
    }
    CalibrationTable { negative, positive }
}

/// A bound at most the tolerance short of its target, or beyond it by less than
/// the tolerance, gets the factor 1.
pub proof fn lemma_near_bound_is_unit(bound: int, target: int)
    requires
        magnitude(bound - target) < TOLERANCE,
    ensures
        spec_multiplier(bound, target) == 1,
{
}

/// A bound other than zero, at least the tolerance away from its target, gets
/// the target divided by it, rounded toward zero; and the bound times that
/// factor lies no farther from zero than the target.
pub proof fn lemma_far_bound_divides(bound: int, target: int)
    requires
        bound != 0,
        magnitude(bound - target) >= TOLERANCE,
    ensures
        spec_multiplier(bound, target) == quotient_toward_zero(target, bound),
        magnitude(bound * spec_multiplier(bound, target)) <= magnitude(target),
{
    lemma_quotient_times_divisor(target, bound);
}

/// Dividing toward zero and multiplying back never leaves the span between
/// zero and the dividend.
pub proof fn lemma_quotient_times_divisor(a: int, b: int)
    requires
        b != 0,
    ensures
        magnitude(b * quotient_toward_zero(a, b)) <= magnitude(a),
        a >= 0 ==> b * quotient_toward_zero(a, b) >= 0,
        a <= 0 ==> b * quotient_toward_zero(a, b) <= 0,
{
    let x = magnitude(a);
    let y = magnitude(b);
    let q = x / y;
    assert(0 <= y * q <= x) by (nonlinear_arith)
        requires
            q == x / y,
            0 <= x,
            0 < y,
    ;
    let signed = quotient_toward_zero(a, b);
    assert(b * signed == y * q || b * signed == -(y * q)) by (nonlinear_arith)
        requires
            b == y || b == -y,
            signed == q || signed == -q,
    ;
    assert(a >= 0 ==> b * signed == y * q) by (nonlinear_arith)
        requires
            (b == y && b > 0) || (b == -y && b < 0),
            a >= 0 ==> (b < 0 ==> signed == -q) && (b > 0 ==> signed == q),
    ;
    assert(a < 0 ==> b * signed == -(y * q)) by (nonlinear_arith)
        requires
            (b == y && b > 0) || (b == -y && b < 0),
            a < 0 ==> (b < 0 ==> signed == q) && (b > 0 ==> signed == -q),
    ;
}

/// Whether samples up to this bound stay within the target once scaled: the
/// bound lies no farther from zero than the target, or at least the tolerance
/// away from it.
pub open spec fn bound_is_sound(bound: int, target: int) -> bool {
    magnitude(bound) <= magnitude(target) || magnitude(bound - target) >= TOLERANCE
}

/// A sample between zero and a sound bound, scaled by that bound's factor, lies
/// between zero and the target.
pub proof fn lemma_scaled_stays_within_target(raw: int, bound: int, target: int)
    requires
        (0 <= raw <= bound && 0 <= target) || (bound <= raw <= 0 && target <= 0),
        bound_is_sound(bound, target),
    ensures
        0 <= target ==> 0 <= raw * spec_multiplier(bound, target) <= target,
        target <= 0 ==> target <= raw * spec_multiplier(bound, target) <= 0,
{
    let m = spec_multiplier(bound, target);
    if bound != 0 && magnitude(bound - target) >= TOLERANCE {
        lemma_quotient_times_divisor(target, bound);
        assert(magnitude(raw * m) <= magnitude(bound * m) && (bound * m >= 0 ==> raw * m >= 0) && (
        bound * m <= 0 ==> raw * m <= 0)) by (nonlinear_arith)
            requires
                0 <= raw <= bound || bound <= raw <= 0,
        ;
    } else {
        assert(raw * m == raw) by (nonlinear_arith)
            requires
                m == 1,
        ;
    }
}

/// A sample within the range its device reports for a tracked axis comes out
/// within the canonical range of that axis, where the bound on the sample's
/// side is sound.
pub proof fn lemma_sample_in_range_stays_canonical(
    table: CalibrationTable,
    ranges: Seq<AxisRange>,
    axis: int,
    raw: int,
)
    requires
        table.is_calibration_of(ranges),
        0 <= axis < TRACKED_AXES,
        ranges[axis].minimum <= raw <= ranges[axis].maximum,
        raw < 0 ==> bound_is_sound(ranges[axis].minimum as int, low_target(axis)),
        raw >= 0 ==> bound_is_sound(ranges[axis].maximum as int, high_target(axis)),
    ensures
        low_target(axis) <= table.scaled(axis, raw) <= high_target(axis),
{
    if raw < 0 {
        assert(table.negative_factor(axis) == spec_multiplier(
            ranges[axis].minimum as int,
            low_target(axis),
        ));
        lemma_scaled_stays_within_target(raw, ranges[axis].minimum as int, low_target(axis));
    } else {
        assert(table.positive_factor(axis) == spec_multiplier(
            ranges[axis].maximum as int,
            high_target(axis),
        ));
        lemma_scaled_stays_within_target(raw, ranges[axis].maximum as int, high_target(axis));
    }
}

} // verus!
