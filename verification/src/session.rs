//! A device session: the calibration table and the quirk bound to one device,
//! and what they make of each event the device reports.

use crate::calibrate::{calibrate, fits_i32, AxisRange, CalibrationTable, TRACKED_AXES};
use crate::codes::{ABS_HAT0X, ABS_HAT0Y};
use crate::device::{codes_of, DeviceIdentity};
use crate::event::{Event, EventKind};
use crate::quirk::{get_remap_fn, spec_remap, Quirk};
use evdev::{AttributeSetRef, Key};
use vstd::prelude::*;

verus! {

/// Why an event cannot be normalised.
#[derive(Clone, Copy, Debug, PartialEq, Eq, Structural)]
pub enum Fault {
    /// The sample of a tracked axis, multiplied by its factor, does not fit
    /// the value of an event.
    Overflow,
}

/// What binds one device to its calibration table and its quirk. Both are
/// fixed when the session is made.
#[derive(Clone, Copy, Debug, PartialEq, Eq)]
pub struct DeviceSession {
    table: CalibrationTable,
    quirk: Option<Quirk>,
}

/// Whether the axis with this code is a hat axis.
pub open spec fn is_hat(code: u16) -> bool {
    code == ABS_HAT0X || code == ABS_HAT0Y
}

/// Whether the axis with this code is one of the calibrated axes.
pub open spec fn is_tracked(code: u16) -> bool {
    code < TRACKED_AXES
}

/// The ranges a session is calibrated for: those the device reported, or all
/// zero where it reported none.
pub open spec fn ranges_or_zero(ranges: Option<[AxisRange; 6]>) -> Seq<AxisRange> {
    match ranges {
        Some(reported) => reported@,
        None => Seq::new(TRACKED_AXES as nat, |axis: int| AxisRange { minimum: 0, maximum: 0 }),
    }
}

impl DeviceSession {
    /// The calibration table of this session.
    pub closed spec fn table(self) -> CalibrationTable {
        self.table
    }

    /// The quirk of this session, if it has one.
    pub closed spec fn quirk(self) -> Option<Quirk> {
        self.quirk
    }

    /// Whether this is the session of a device with these axis ranges, this
    /// identity and these buttons.
    pub open spec fn is_session_of(
        self,
        ranges: Option<[AxisRange; 6]>,
        identity: DeviceIdentity,
        codes: Set<u16>,
    ) -> bool {
        &&& self.table().is_calibration_of(ranges_or_zero(ranges))
        &&& self.quirk() == spec_remap(identity.vendor, identity.product, codes)
    }

    /// Why this session cannot normalise the event, if it cannot: the only
    /// such event is a sample of a tracked axis whose product with its factor
    /// does not fit.
    pub open spec fn fault(self, ev: Event) -> Option<Fault> {
        if ev.kind == EventKind::AbsAxis && is_tracked(ev.code) && !fits_i32(
            self.table().scaled(ev.code as int, ev.value as int),
        ) {
            Some(Fault::Overflow)
        } else {
            None
        }
    }

    /// The canonical event for a raw one, or `None` for an event that is
    /// dropped. A hat sample passes as it is; a sample of a tracked axis is
    /// scaled; a button event goes through the quirk, if there is one, and is
    /// passed on whatever became of it; any other event is dropped, a sample
    /// of any other axis among them.
    pub open spec fn normalized(self, ev: Event) -> Option<Event> {
        match ev.kind {
            EventKind::AbsAxis => if is_hat(ev.code) {
                Some(ev)
            } else if is_tracked(ev.code) {
                Some(
                    Event {
                        kind: EventKind::AbsAxis,
                        code: ev.code,
                        value: self.table().scaled(ev.code as int, ev.value as int) as i32,
                    },
                )
            } else {
                None
            },
            EventKind::Key => match self.quirk() {
                Some(quirk) => Some(quirk.rewritten(ev)),
                None => Some(ev),
            },
            EventKind::Other => None,
        }
    }

    /// Makes the session of a device: calibrates for the ranges it reported,
    /// or for all-zero ranges where it reported none, and resolves its quirk.
    pub fn open(
        ranges: Option<[AxisRange; 6]>,
        identity: &DeviceIdentity,
        keys: Option<&AttributeSetRef<Key>>,
    ) -> (session: DeviceSession)
        ensures
            session.is_session_of(ranges, *identity, codes_of(keys)),
    {
        let table = match ranges {
            Some(reported) => calibrate(&reported),
            None => {
                let zero = [AxisRange { minimum: 0, maximum: 0 };6];
                calibrate(&zero)
            },
        };
        DeviceSession { table, quirk: get_remap_fn(identity, keys) }
    }

    /// The calibration table of this session.
    pub fn calibration(&self) -> (table: &CalibrationTable)
        ensures
            *table == self.table(),
    {
        &self.table
    }

    /// The quirk of this session, if it has one.
    pub fn remap(&self) -> (quirk: Option<Quirk>)
        ensures
            quirk == self.quirk(),
    {
        self.quirk
    }

    /// The canonical event for a raw one that this session can normalise, or
    /// `None` for an event that is dropped.
    pub fn normalize(&self, ev: Event) -> (out: Option<Event>)
        requires
            self.fault(ev) is None,
        ensures
            out == self.normalized(ev),
    {
        match ev.kind {
            EventKind::AbsAxis => {
                if ev.code == ABS_HAT0X || ev.code == ABS_HAT0Y {
                    Some(ev)
                } else if (ev.code as usize) < TRACKED_AXES {
                    Some(Event::axis(ev.code, self.table.scale(ev.code, ev.value)))
                } else {
                    None
                }
            },
            EventKind::Key => {
                let mut out = ev;
                match self.quirk {
                    Some(quirk) => quirk.apply(&mut out),
                    None => {},
                }
                Some(out)
            },
            EventKind::Other => None,
        }
    }

    /// The canonical event for a raw one, `Ok(None)` for an event that is
    /// dropped, or the reason why the event cannot be normalised.
    pub fn try_normalize(&self, ev: Event) -> (out: Result<Option<Event>, Fault>)
        ensures
            out == match self.fault(ev) {
                Some(fault) => Err::<Option<Event>, Fault>(fault),
                None => Ok(self.normalized(ev)),
            },
    {
        match ev.kind {
            EventKind::AbsAxis => {
                if ev.code == ABS_HAT0X || ev.code == ABS_HAT0Y {
                    Ok(Some(ev))
                } else if ev.code as usize >= TRACKED_AXES {
                    Ok(None)
                } else {
                    match self.table.checked_scale(ev.code, ev.value) {
                        Some(value) => Ok(Some(Event::axis(ev.code, value))),
                        None => Err(Fault::Overflow),
                    }
                }
            },
            EventKind::Key => {
                let mut out = ev;
                match self.quirk {
                    Some(quirk) => quirk.apply(&mut out),
                    None => {},
                }
                Ok(Some(out))
            },
            EventKind::Other => Ok(None),
        }
    }
}

/// A hat sample passes through every session as it is, whatever the session's
/// table and quirk.
pub proof fn lemma_hat_passes_unchanged(session: DeviceSession, ev: Event)
    requires
        ev.kind == EventKind::AbsAxis,
        is_hat(ev.code),
    ensures
        session.fault(ev) is None,
        session.normalized(ev) == Some(ev),
{
}

/// A session passes on every button event and every sample of a hat or a
/// tracked axis, and nothing else. A button event stays one or becomes an axis
/// event; an axis event keeps its axis.
pub proof fn lemma_normalized_is_button_or_axis(session: DeviceSession, ev: Event)
    ensures
        session.normalized(ev) is Some <==> ev.kind == EventKind::Key || (ev.kind
            == EventKind::AbsAxis && (is_hat(ev.code) || is_tracked(ev.code))),
        session.normalized(ev) matches Some(out) ==> out.kind != EventKind::Other && (ev.kind
            == EventKind::AbsAxis ==> out.kind == EventKind::AbsAxis && out.code == ev.code),
{
}

/// A sample of an axis that is neither a hat nor tracked is dropped, without
/// a fault, whatever its value.
pub proof fn lemma_untracked_axis_is_dropped(session: DeviceSession, ev: Event)
    requires
        ev.kind == EventKind::AbsAxis,
        !is_hat(ev.code),
        !is_tracked(ev.code),
    ensures
        session.fault(ev) is None,
        session.normalized(ev) is None,
{
}

/// Every button event is passed on, whatever the quirk and whatever the
/// value: no button event is a fault.
pub proof fn lemma_button_is_always_passed_on(session: DeviceSession, ev: Event)
    requires
        ev.kind == EventKind::Key,
    ensures
        session.fault(ev) is None,
        session.normalized(ev) is Some,
        session.quirk() is None ==> session.normalized(ev) == Some(ev),
{
}

} // verus!
