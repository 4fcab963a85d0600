//! Quirks: fixed rewrites of button events for devices that report them in a
//! non-standard way.

use crate::calibrate::{MAX_OUT_TRIG, MIN_OUT_TRIG};
use crate::codes::{
    ABS_HAT0X, ABS_HAT0Y, ABS_RZ, ABS_Z, BTN_C, BTN_DPAD_DOWN, BTN_DPAD_LEFT, BTN_DPAD_RIGHT,
    BTN_DPAD_UP, BTN_EAST, BTN_NORTH, BTN_SELECT, BTN_SOUTH, BTN_START, BTN_THUMBL, BTN_THUMBR,
    BTN_TL, BTN_TL2, BTN_TR, BTN_TR2, BTN_WEST, BTN_Z,
};
use crate::device::{codes_of, has_key, DeviceIdentity};
use crate::event::{Event, EventKind};
use evdev::{AttributeSetRef, Key};
use vstd::prelude::*;

verus! {

/// Vendor of the handheld whose buttons are wired wrongly.
pub const RG351M_VENDOR: u16 = 0x1209;

/// Product of the handheld whose buttons are wired wrongly.
pub const RG351M_PRODUCT: u16 = 0x3100;

/// The rewrite bound to a device.
#[derive(Clone, Copy, Debug, PartialEq, Eq, Structural)]
pub enum Quirk {
    /// For a device that reports its directional pad and its second pair of
    /// shoulder buttons as plain buttons: turns them into hat and trigger axes.
    GenericDac,
    /// For the one known handheld: puts its buttons where they belong.
    Rg351m,
}

/// For a button that the generic rewrite turns into an axis: that axis, and
/// the value it takes while the button is held.
pub open spec fn dac_axis(code: u16) -> Option<(u16, int)> {
    if code == BTN_DPAD_UP {
        Some((ABS_HAT0Y, -1))
    } else if code == BTN_DPAD_DOWN {
        Some((ABS_HAT0Y, 1))
    } else if code == BTN_DPAD_LEFT {
        Some((ABS_HAT0X, -1))
    } else if code == BTN_DPAD_RIGHT {
        Some((ABS_HAT0X, 1))
    } else if code == BTN_TL2 {
        Some((ABS_Z, MAX_OUT_TRIG as int))
    } else if code == BTN_TR2 {
        Some((ABS_RZ, MAX_OUT_TRIG as int))
    } else {
        None
    }
}

/// What the generic rewrite makes of an event: a button it knows becomes an
/// axis event, at rest for the value 0 and at its held value for any other;
/// every other event stays as it is.
pub open spec fn spec_generic_dac(ev: Event) -> Event {
    match dac_axis(ev.code) {
        Some((axis, held)) if ev.kind == EventKind::Key => Event {
            kind: EventKind::AbsAxis,
            code: axis,
            value: if ev.value == 0 {
                0
            } else {
                held as i32
            },
        },
        _ => ev,
    }
}

/// The generic rewrite: synthesises hat and trigger axes from buttons.
pub fn generic_dac(ev: &mut Event)
    ensures
        *final(ev) == spec_generic_dac(*old(ev)),
{
    if ev.kind != EventKind::Key {
        return ;
    }
    let pressed = ev.value != 0;
    let (axis, value): (u16, i32) = match ev.code {
        BTN_DPAD_UP => (ABS_HAT0Y, if pressed { -1 } else { 0 }),
        BTN_DPAD_DOWN => (ABS_HAT0Y, if pressed { 1 } else { 0 }),
        BTN_DPAD_LEFT => (ABS_HAT0X, if pressed { -1 } else { 0 }),
        BTN_DPAD_RIGHT => (ABS_HAT0X, if pressed { 1 } else { 0 }),
        BTN_TL2 => (ABS_Z, if pressed { MAX_OUT_TRIG } else { MIN_OUT_TRIG }),
        BTN_TR2 => (ABS_RZ, if pressed { MAX_OUT_TRIG } else { MIN_OUT_TRIG }),
        _ => { return ; },
    };
    *ev = Event { kind: EventKind::AbsAxis, code: axis, value };
}

/// For a button that the handheld's rewrite renames: the button it becomes.
pub open spec fn rg351m_button(code: u16) -> Option<u16> {
    if code == BTN_EAST {
        Some(BTN_SOUTH)
    } else if code == BTN_SOUTH {
        Some(BTN_EAST)
    } else if code == BTN_NORTH {
        Some(BTN_WEST)
    } else if code == BTN_C {
        Some(BTN_NORTH)
    } else if code == BTN_TL2 {
        Some(BTN_THUMBL)
    } else if code == BTN_TR2 {
        Some(BTN_THUMBR)
    } else if code == BTN_WEST {
        Some(BTN_TL)
    } else if code == BTN_Z {
        Some(BTN_TR)
    } else if code == BTN_TR {
        Some(BTN_SELECT)
    } else if code == BTN_TL {
        Some(BTN_START)
    } else {
        None
    }
}

/// For a button that the handheld's rewrite turns into a trigger: that
/// trigger's axis.
pub open spec fn rg351m_trigger(code: u16) -> Option<u16> {
    if code == BTN_SELECT {
        Some(ABS_Z)
    } else if code == BTN_START {
        Some(ABS_RZ)
    } else {
        None
    }
}

/// The buttons that the handheld's rewrite changes.
pub open spec fn rg351m_remaps(code: u16) -> bool {
    code == BTN_EAST || code == BTN_SOUTH || code == BTN_NORTH || code == BTN_C || code == BTN_TL2
        || code == BTN_TR2 || code == BTN_WEST || code == BTN_Z || code == BTN_SELECT || code
        == BTN_START || code == BTN_TR || code == BTN_TL
}

/// What the handheld's rewrite makes of an event: a renamed button keeps its
/// value; a button that becomes a trigger gives the trigger at rest for the
/// value 0 and at full scale for any other; every other event stays as it is.
pub open spec fn spec_rg351m(ev: Event) -> Event {
    if ev.kind != EventKind::Key {
        ev
    } else if let Some(button) = rg351m_button(ev.code) {
        Event { kind: EventKind::Key, code: button, value: ev.value }
    } else if let Some(axis) = rg351m_trigger(ev.code) {
        Event {
            kind: EventKind::AbsAxis,
            code: axis,
            value: if ev.value == 0 {
                MIN_OUT_TRIG
            } else {
                MAX_OUT_TRIG
            },
        }
    } else {
        ev
    }
}

/// The rewrite for the one known handheld.
pub fn rg351m(ev: &mut Event)
    ensures
        *final(ev) == spec_rg351m(*old(ev)),
{
    if ev.kind != EventKind::Key {
        return ;
    }
    let value = ev.value;
    let level = if value == 0 { MIN_OUT_TRIG } else { MAX_OUT_TRIG };
    let rewritten = match ev.code {
        BTN_EAST => Event::key(BTN_SOUTH, value),
        BTN_SOUTH => Event::key(BTN_EAST, value),
        BTN_NORTH => Event::key(BTN_WEST, value),
        BTN_C => Event::key(BTN_NORTH, value),
        BTN_TL2 => Event::key(BTN_THUMBL, value),
        BTN_TR2 => Event::key(BTN_THUMBR, value),
        BTN_WEST => Event::key(BTN_TL, value),
        BTN_Z => Event::key(BTN_TR, value),
        BTN_SELECT => Event::axis(ABS_Z, level),
        BTN_START => Event::axis(ABS_RZ, level),
        BTN_TR => Event::key(BTN_SELECT, value),
        BTN_TL => Event::key(BTN_START, value),
        _ => { return ; },
    };
    *ev = rewritten;
}

/// The handheld's rewrite is defined on each button it names, in exactly one
/// way and for every value: the button is renamed or becomes a trigger, never
/// both. A button it does not name is left alone.
pub proof fn lemma_rg351m_table_is_total(ev: Event)
    requires
        ev.kind == EventKind::Key,
    ensures
        rg351m_remaps(ev.code) <==> (rg351m_button(ev.code) is Some) != (rg351m_trigger(ev.code)
            is Some),
        rg351m_button(ev.code) matches Some(button) ==> spec_rg351m(ev) == (Event {
            kind: EventKind::Key,
            code: button,
            value: ev.value,
        }),
        rg351m_trigger(ev.code) matches Some(axis) ==> spec_rg351m(ev).kind == EventKind::AbsAxis
            && spec_rg351m(ev).code == axis,
        !rg351m_remaps(ev.code) ==> spec_rg351m(ev) == ev,
{
}

/// No two buttons that the handheld's rewrite names come out as the same
/// button or the same axis.
pub proof fn lemma_rg351m_table_is_injective(first: Event, second: Event)
    requires
        first.kind == EventKind::Key,
        second.kind == EventKind::Key,
        rg351m_remaps(first.code),
        rg351m_remaps(second.code),
        first.code != second.code,
    ensures
        spec_rg351m(first).kind != spec_rg351m(second).kind || spec_rg351m(first).code
            != spec_rg351m(second).code,
{
}

/// A button that the handheld's rewrite turns into a trigger gives 0 for the
/// value 0 and the trigger's full scale for any other value.
pub proof fn lemma_rg351m_trigger_levels(ev: Event)
    requires
        ev.kind == EventKind::Key,
        rg351m_trigger(ev.code) is Some,
    ensures
        ev.value == 0 ==> spec_rg351m(ev).value == MIN_OUT_TRIG,
        ev.value != 0 ==> spec_rg351m(ev).value == MAX_OUT_TRIG,
{
}

/// The two face buttons that the handheld has swapped are swapped back by a
/// second pass: on them the rewrite is its own inverse.
pub proof fn lemma_rg351m_swap_is_involution(ev: Event)
    requires
        ev.kind == EventKind::Key,
        ev.code == BTN_SOUTH || ev.code == BTN_EAST,
    ensures
        spec_rg351m(ev).code != ev.code,
        spec_rg351m(spec_rg351m(ev)) == ev,
{
}

/// The generic rewrite gives a released button the value 0, whatever the
/// button; a held one -1 for up and left, 1 for down and right, and the
/// trigger's full scale for a shoulder button. It gives no other value.
pub proof fn lemma_generic_dac_levels(ev: Event)
    requires
        ev.kind == EventKind::Key,
        dac_axis(ev.code) is Some,
    ensures
        spec_generic_dac(ev).kind == EventKind::AbsAxis,
        ev.value == 0 ==> spec_generic_dac(ev).value == 0,
        ev.value != 0 && (ev.code == BTN_DPAD_UP || ev.code == BTN_DPAD_LEFT) ==> spec_generic_dac(
            ev,
        ).value == -1,
        ev.value != 0 && (ev.code == BTN_DPAD_DOWN || ev.code == BTN_DPAD_RIGHT)
            ==> spec_generic_dac(ev).value == 1,
        ev.value != 0 && (ev.code == BTN_TL2 || ev.code == BTN_TR2) ==> spec_generic_dac(ev).value
            == MAX_OUT_TRIG,
{
}

impl Quirk {
    /// What this rewrite makes of an event.
    pub open spec fn rewritten(self, ev: Event) -> Event {
        match self {
            Quirk::GenericDac => spec_generic_dac(ev),
            Quirk::Rg351m => spec_rg351m(ev),
        }
    }

    /// Rewrites the event in place.
    pub fn apply(&self, ev: &mut Event)
        ensures
            *final(ev) == self.rewritten(*old(ev)),
    {
        match self {
            Quirk::GenericDac => generic_dac(ev),
            Quirk::Rg351m => rg351m(ev),
        }
    }
}

/// The rewrite that a device with this vendor, product and set of buttons
/// gets: the handheld's for the known handheld; else the generic one for a
/// device with directional buttons; else none.
pub open spec fn spec_remap(vendor: u16, product: u16, codes: Set<u16>) -> Option<Quirk> {
    if vendor == RG351M_VENDOR && product == RG351M_PRODUCT {
        Some(Quirk::Rg351m)
    } else if codes.contains(BTN_DPAD_LEFT) {
        Some(Quirk::GenericDac)
    } else {
        None
    }
}

/// Resolves the rewrite for a device, from its identity and its buttons.
pub fn get_remap_fn(identity: &DeviceIdentity, keys: Option<&AttributeSetRef<Key>>) -> (quirk:
    Option<Quirk>)
    ensures
        quirk == spec_remap(identity.vendor, identity.product, codes_of(keys)),
{
    if identity.vendor == RG351M_VENDOR && identity.product == RG351M_PRODUCT {
        return Some(Quirk::Rg351m);
    }
    if has_key(keys, BTN_DPAD_LEFT) {
        return Some(Quirk::GenericDac);
    }
    None
}

} // verus!
