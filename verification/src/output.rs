//! The output contract: what the virtual pad declares, and so what every event
//! it emits has to respect.

use crate::calibrate::{
    bound_is_sound, high_target, lemma_sample_in_range_stays_canonical, low_target, AxisRange,
    MAX_OUT_ANALOG, MAX_OUT_HAT, MAX_OUT_TRIG, MIN_OUT_ANALOG, MIN_OUT_HAT, MIN_OUT_TRIG,
    TRACKED_AXES,
};
use crate::codes::{
    ABS_HAT0X, ABS_HAT0Y, ABS_RX, ABS_RY, ABS_RZ, ABS_X, ABS_Y, ABS_Z, BTN_EAST, BTN_MODE,
    BTN_NORTH, BTN_SELECT, BTN_SOUTH, BTN_START, BTN_THUMBL, BTN_THUMBR, BTN_TL, BTN_TR, BTN_WEST,
};
use crate::event::{Event, EventKind};
use crate::quirk::{dac_axis, rg351m_remaps, rg351m_trigger, spec_generic_dac, spec_rg351m};
use crate::session::{is_hat, DeviceSession};
use vstd::prelude::*;

verus! {

/// The name of the virtual pad.
pub const OUTPUT_NAME: &'static str = "Microsoft X-Box 360 pad";

/// The bus the virtual pad declares: USB.
pub const OUTPUT_BUS: u16 = 0x03;

/// The vendor the virtual pad declares.
pub const OUTPUT_VENDOR: u16 = 0x045e;

/// The product the virtual pad declares.
pub const OUTPUT_PRODUCT: u16 = 0x028e;

/// The version by which the virtual pad marks itself.
pub const OUTPUT_VERSION: u16 = 0x2137;

/// The buttons the virtual pad declares.
pub const OUTPUT_BUTTONS: [u16; 11] = [
    BTN_SOUTH,
    BTN_EAST,
    BTN_NORTH,
    BTN_WEST,
    BTN_TL,
    BTN_TR,
    BTN_SELECT,
    BTN_START,
    BTN_MODE,
    BTN_THUMBL,
    BTN_THUMBR,
];

/// The axes the virtual pad declares: four stick axes, two triggers, two hats.
pub const OUTPUT_AXES: [u16; 8] = [ABS_X, ABS_Y, ABS_RX, ABS_RY, ABS_Z, ABS_RZ, ABS_HAT0X, ABS_HAT0Y];

/// Whether the virtual pad declares the button with this code.
pub open spec fn is_output_button(code: u16) -> bool {
    OUTPUT_BUTTONS@.contains(code)
}

/// The range that the virtual pad declares for the axis with this code, lowest
/// value first, or `None` for an axis it does not declare.
pub open spec fn output_range(code: u16) -> Option<(int, int)> {
    if code == ABS_HAT0X || code == ABS_HAT0Y {
        Some((MIN_OUT_HAT as int, MAX_OUT_HAT as int))
    } else if code == ABS_Z || code == ABS_RZ {
        Some((MIN_OUT_TRIG as int, MAX_OUT_TRIG as int))
    } else if code == ABS_X || code == ABS_Y || code == ABS_RX || code == ABS_RY {
        Some((MIN_OUT_ANALOG as int, MAX_OUT_ANALOG as int))
    } else {
        None
    }
}

/// Whether an event respects the output contract: a declared button with the
/// value 0 or 1, or a declared axis with a value in its range.
pub open spec fn is_canonical(ev: Event) -> bool {
    match ev.kind {
        EventKind::Key => is_output_button(ev.code) && (ev.value == 0 || ev.value == 1),
        EventKind::AbsAxis => match output_range(ev.code) {
            Some((low, high)) => low <= ev.value <= high,
            None => false,
        },
        EventKind::Other => false,
    }
}

/// Whether the virtual pad declares the button with this code.
pub fn declares_button(code: u16) -> (found: bool)
    ensures
        found == is_output_button(code),
{
    let mut at: usize = 0;
    while at < 11
        invariant
            at <= 11,
            forall|i: int| 0 <= i < at ==> OUTPUT_BUTTONS@[i] != code,
        decreases 11 - at,
    {
        if OUTPUT_BUTTONS[at] == code {
            return true;
        }
        at += 1;
    }
    false
}

/// The range that the virtual pad declares for the axis with this code, lowest
/// value first.
pub fn declared_range(code: u16) -> (range: Option<(i32, i32)>)
    ensures
        match range {
            Some((low, high)) => output_range(code) == Some((low as int, high as int)),
            None => output_range(code) is None,
        },
{
    match code {
        ABS_HAT0X | ABS_HAT0Y => Some((MIN_OUT_HAT, MAX_OUT_HAT)),
        ABS_Z | ABS_RZ => Some((MIN_OUT_TRIG, MAX_OUT_TRIG)),
        ABS_X | ABS_Y | ABS_RX | ABS_RY => Some((MIN_OUT_ANALOG, MAX_OUT_ANALOG)),
        _ => None,
    }
}

/// Whether an event respects the output contract.
pub fn conforms(ev: &Event) -> (ok: bool)
    ensures
        ok == is_canonical(*ev),
{
    match ev.kind {
        EventKind::Key => declares_button(ev.code) && (ev.value == 0 || ev.value == 1),
        EventKind::AbsAxis => match declared_range(ev.code) {
            Some((low, high)) => low <= ev.value && ev.value <= high,
            None => false,
        },
        EventKind::Other => false,
    }
}

/// The axes for which the virtual pad declares a range are the axes it
/// declares.
pub proof fn lemma_declared_axes_have_ranges(code: u16)
    ensures
        OUTPUT_AXES@.contains(code) <==> output_range(code) is Some,
{
    assert(OUTPUT_AXES@[0] == ABS_X && OUTPUT_AXES@[1] == ABS_Y && OUTPUT_AXES@[2] == ABS_RX
        && OUTPUT_AXES@[3] == ABS_RY);
    assert(OUTPUT_AXES@[4] == ABS_Z && OUTPUT_AXES@[5] == ABS_RZ && OUTPUT_AXES@[6] == ABS_HAT0X
        && OUTPUT_AXES@[7] == ABS_HAT0Y);
}

/// The targets that a tracked axis is calibrated for are the bounds that the
/// virtual pad declares for that axis.
pub proof fn lemma_targets_are_declared_bounds(axis: u16)
    requires
        axis < TRACKED_AXES,
    ensures
        output_range(axis) == Some((low_target(axis as int), high_target(axis as int))),
{
}

/// A sample within the range its device reports for a tracked axis, on a side
/// whose bound is sound, is normalised to an event that respects the output
/// contract.
pub proof fn lemma_sample_in_range_is_canonical(
    session: DeviceSession,
    ranges: Seq<AxisRange>,
    ev: Event,
)
    requires
        session.table().is_calibration_of(ranges),
        ev.kind == EventKind::AbsAxis,
        ev.code < TRACKED_AXES,
        ranges[ev.code as int].minimum <= ev.value <= ranges[ev.code as int].maximum,
        ev.value < 0 ==> bound_is_sound(
            ranges[ev.code as int].minimum as int,
            low_target(ev.code as int),
        ),
        ev.value >= 0 ==> bound_is_sound(
            ranges[ev.code as int].maximum as int,
            high_target(ev.code as int),
        ),
    ensures
        session.fault(ev) is None,
        session.normalized(ev) matches Some(out) && is_canonical(out),
{
    lemma_sample_in_range_stays_canonical(
        session.table(),
        ranges,
        ev.code as int,
        ev.value as int,
    );
}

/// A hat sample is normalised to an event that respects the output contract
/// exactly when it is -1, 0 or 1 itself.
pub proof fn lemma_hat_is_canonical_as_reported(session: DeviceSession, ev: Event)
    requires
        ev.kind == EventKind::AbsAxis,
        is_hat(ev.code),
    ensures
        session.normalized(ev) matches Some(out) && (is_canonical(out) <==> -1 <= ev.value <= 1),
{
}

/// Whatever the generic rewrite makes of a button it knows respects the
/// output contract.
pub proof fn lemma_generic_dac_is_canonical(ev: Event)
    requires
        ev.kind == EventKind::Key,
        dac_axis(ev.code) is Some,
    ensures
        is_canonical(spec_generic_dac(ev)),
{
}

/// Whatever the handheld's rewrite makes of a button it names is an event of
/// a button that the virtual pad declares, with the value it came with, or an
/// event of a trigger axis with a value in the trigger's range.
pub proof fn lemma_rg351m_output_is_declared(ev: Event)
    requires
        ev.kind == EventKind::Key,
        rg351m_remaps(ev.code),
    ensures
        rg351m_trigger(ev.code) is None ==> spec_rg351m(ev).kind == EventKind::Key
            && is_output_button(spec_rg351m(ev).code) && spec_rg351m(ev).value == ev.value,
        rg351m_trigger(ev.code) is Some ==> (spec_rg351m(ev).code == ABS_Z || spec_rg351m(ev).code
            == ABS_RZ) && is_canonical(spec_rg351m(ev)),
{
    assert(OUTPUT_BUTTONS@[0] == BTN_SOUTH && OUTPUT_BUTTONS@[1] == BTN_EAST && OUTPUT_BUTTONS@[2]
        == BTN_NORTH && OUTPUT_BUTTONS@[3] == BTN_WEST);
    assert(OUTPUT_BUTTONS@[4] == BTN_TL && OUTPUT_BUTTONS@[5] == BTN_TR && OUTPUT_BUTTONS@[6]
        == BTN_SELECT && OUTPUT_BUTTONS@[7] == BTN_START);
    assert(OUTPUT_BUTTONS@[9] == BTN_THUMBL && OUTPUT_BUTTONS@[10] == BTN_THUMBR);
}

/// Whatever the handheld's rewrite makes of a button it names respects the
/// output contract: for a button that becomes a trigger whatever its value,
/// for a renamed button where its value is 0 or 1.
pub proof fn lemma_rg351m_is_canonical(ev: Event)
    requires
        ev.kind == EventKind::Key,
        rg351m_remaps(ev.code),
        rg351m_trigger(ev.code) is Some || ev.value == 0 || ev.value == 1,
    ensures
        is_canonical(spec_rg351m(ev)),
{
    lemma_rg351m_output_is_declared(ev);
}

} // verus!
