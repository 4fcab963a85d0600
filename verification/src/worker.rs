//! The life of one worker: from a device just discovered to a stream of
//! canonical events, as a function from state and input to next state and
//! action. Whoever drives the worker performs each action and hands back what
//! came of it.

use crate::calibrate::AxisRange;
use crate::device::{codes_of, DeviceIdentity};
use crate::event::Event;
use crate::filter::{is_suitable, spec_suitable};
use crate::event::EventKind;
use crate::session::{is_hat, is_tracked, DeviceSession, Fault};
use evdev::{AttributeSetRef, Key};
use vstd::prelude::*;

verus! {

/// The seconds between two scans for devices. A scan starts a worker for every
/// device it sees and keeps no list of those that have one already: a worker
/// for a device that is held is refused exclusive access and ends.
pub const RESCAN_INTERVAL_SECS: u64 = 1;

/// Where a worker stands. The filter's verdict is acted on in the step that
/// reaches it, so a worker is never seen between the verdict and the attempt
/// to acquire the device.
#[derive(Clone, Copy, Debug, PartialEq, Eq)]
pub enum WorkerState {
    /// The device has been found; nothing is known of it yet.
    Discovered,
    /// The filter turned the device down. Final.
    Rejected,
    /// Exclusive access has been asked for.
    Acquiring,
    /// Exclusive access was refused: someone else holds the device. Final.
    AcquisitionFailed,
    /// The device is held; its axis ranges have been asked for.
    Calibrating,
    /// Events are read and passed on under the session.
    Streaming(DeviceSession),
    /// Reading or passing on failed. Final.
    Terminated,
}

/// What the driver reports to the worker.
#[derive(Clone, Copy, Debug)]
pub enum Input<'a> {
    /// What the device says of itself.
    Described { keys: Option<&'a AttributeSetRef<Key>>, identity: &'a DeviceIdentity },
    /// Exclusive access was granted.
    Grabbed,
    /// Exclusive access was refused.
    GrabRefused,
    /// The ranges of the six tracked axes, or `None` where they could not be
    /// had, together with what the device says of itself.
    Snapshot {
        ranges: Option<[AxisRange; 6]>,
        keys: Option<&'a AttributeSetRef<Key>>,
        identity: &'a DeviceIdentity,
    },
    /// An event read from the device.
    Raw(Event),
    /// Reading from the device failed.
    ReadFailed,
    /// An event could not be passed on: the consumer is gone.
    SendFailed,
}

/// What the worker asks of the driver.
#[derive(Clone, Copy, Debug, PartialEq, Eq, Structural)]
pub enum Action {
    /// Report what the device says of itself.
    Describe,
    /// Ask for exclusive access and report the answer.
    Grab,
    /// Ask for the axis ranges and report them.
    QueryAxes,
    /// Read on.
    Read,
    /// Pass this event on, then read on.
    Forward(Event),
    /// Release the device and end.
    Stop,
}

impl WorkerState {
    /// Whether the worker has ended.
    pub open spec fn is_final(self) -> bool {
        self is Rejected || self is AcquisitionFailed || self is Terminated
    }

    /// What a worker in this state is waiting for the driver to do.
    pub open spec fn pending(self) -> Action {
        match self {
            WorkerState::Discovered => Action::Describe,
            WorkerState::Acquiring => Action::Grab,
            WorkerState::Calibrating => Action::QueryAxes,
            WorkerState::Streaming(_) => Action::Read,
            WorkerState::Rejected | WorkerState::AcquisitionFailed | WorkerState::Terminated =>
                Action::Stop,
        }
    }

    /// Why the worker cannot take this input, if it cannot: a streaming worker
    /// that is handed a sample whose product with its factor does not fit.
    pub open spec fn fault(self, input: Input) -> Option<Fault> {
        match (self, input) {
            (WorkerState::Streaming(session), Input::Raw(ev)) => session.fault(ev),
            _ => None,
        }
    }

    /// Whether a worker in this state, given this input, may go to `next` and
    /// ask for `action`. An input that the state does not wait for changes
    /// nothing: the worker stays and asks again for what it waits for.
    pub open spec fn steps_to(self, input: Input, next: WorkerState, action: Action) -> bool {
        match (self, input) {
            (WorkerState::Discovered, Input::Described { keys, identity }) => {
                if spec_suitable(codes_of(keys), identity.version, identity.name_chars()) {
                    next == WorkerState::Acquiring && action == Action::Grab
                } else {
                    next == WorkerState::Rejected && action == Action::Stop
                }
            },
            (WorkerState::Acquiring, Input::Grabbed) => {
                next == WorkerState::Calibrating && action == Action::QueryAxes
            },
            (WorkerState::Acquiring, Input::GrabRefused) => {
                next == WorkerState::AcquisitionFailed && action == Action::Stop
            },
            (WorkerState::Calibrating, Input::Snapshot { ranges, keys, identity }) => {
                &&& next matches WorkerState::Streaming(session)
                &&& session.is_session_of(ranges, *identity, codes_of(keys))
                &&& action == Action::Read
            },
            (WorkerState::Streaming(session), Input::Raw(ev)) => {
                &&& next == self
                &&& action == match session.normalized(ev) {
                    Some(out) => Action::Forward(out),
                    None => Action::Read,
                }
            },
            (WorkerState::Streaming(_), Input::ReadFailed) => {
                next == WorkerState::Terminated && action == Action::Stop
            },
            (WorkerState::Streaming(_), Input::SendFailed) => {
                next == WorkerState::Terminated && action == Action::Stop
            },
            _ => next == self && action == self.pending(),
        }
    }

    /// A worker for a device just found.
    pub fn new() -> (state: WorkerState)
        ensures
            state == WorkerState::Discovered,
    {
        WorkerState::Discovered
    }

    /// What the worker is waiting for the driver to do.
    pub fn waits_for(&self) -> (action: Action)
        ensures
            action == self.pending(),
    {
        match self {
            WorkerState::Discovered => Action::Describe,
            WorkerState::Acquiring => Action::Grab,
            WorkerState::Calibrating => Action::QueryAxes,
            WorkerState::Streaming(_) => Action::Read,
            _ => Action::Stop,
        }
    }

    /// One step of the worker, for an input it can take.
    pub fn step(self, input: Input) -> (result: (WorkerState, Action))
        requires
            self.fault(input) is None,
        ensures
            self.steps_to(input, result.0, result.1),
    {
        match self {
            WorkerState::Discovered => match input {
                Input::Described { keys, identity } => {
                    if is_suitable(keys, identity) {
                        (WorkerState::Acquiring, Action::Grab)
                    } else {
                        (WorkerState::Rejected, Action::Stop)
                    }
                },
                _ => (self, Action::Describe),
            },
            WorkerState::Acquiring => match input {
                Input::Grabbed => (WorkerState::Calibrating, Action::QueryAxes),
                Input::GrabRefused => (WorkerState::AcquisitionFailed, Action::Stop),
                _ => (self, Action::Grab),
            },
            WorkerState::Calibrating => match input {
                Input::Snapshot { ranges, keys, identity } => {
                    let session = DeviceSession::open(ranges, identity, keys);
                    (WorkerState::Streaming(session), Action::Read)
                },
                _ => (self, Action::QueryAxes),
            },
            WorkerState::Streaming(session) => match input {
                Input::Raw(ev) => match session.normalize(ev) {
                    Some(out) => (self, Action::Forward(out)),
                    None => (self, Action::Read),
                },
                Input::ReadFailed => (WorkerState::Terminated, Action::Stop),
                Input::SendFailed => (WorkerState::Terminated, Action::Stop),
                _ => (self, Action::Read),
            },
            _ => (self, Action::Stop),
        }
    }

    /// One step of the worker, or the reason why it cannot take the input.
    pub fn try_step(self, input: Input) -> (result: Result<(WorkerState, Action), Fault>)
        ensures
            match result {
                Ok((next, action)) => self.fault(input) is None && self.steps_to(
                    input,
                    next,
                    action,
                ),
                Err(fault) => self.fault(input) == Some(fault),
            },
    {
        match (self, input) {
            (WorkerState::Streaming(session), Input::Raw(ev)) => {
                match session.try_normalize(ev) {
                    Ok(Some(out)) => Ok((self, Action::Forward(out))),
                    Ok(None) => Ok((self, Action::Read)),
                    Err(fault) => Err(fault),
                }
            },
            _ => Ok(self.step(input)),
        }
    }
}

/// A worker that has ended stays ended: whatever it is told, it keeps its
/// state and asks for nothing but to stop.
pub proof fn lemma_final_state_absorbs(
    state: WorkerState,
    input: Input,
    next: WorkerState,
    action: Action,
)
    requires
        state.is_final(),
        state.steps_to(input, next, action),
    ensures
        next == state,
        action == Action::Stop,
{
}

/// An event is passed on only by a streaming worker, only in answer to a raw
/// event, and it is what the worker's session makes of that event.
pub proof fn lemma_forwards_only_normalized(
    state: WorkerState,
    input: Input,
    next: WorkerState,
    action: Action,
)
    requires
        state.steps_to(input, next, action),
        action is Forward,
    ensures
        ({
            &&& state matches WorkerState::Streaming(session)
            &&& input matches Input::Raw(ev)
            &&& session.normalized(ev) == Some(action->Forward_0)
        }),
{
}

/// The session of a streaming worker is never replaced: as long as the worker
/// streams, its table and its quirk are those it began to stream with.
pub proof fn lemma_session_is_fixed(
    state: WorkerState,
    input: Input,
    next: WorkerState,
    action: Action,
)
    requires
        state.steps_to(input, next, action),
        state is Streaming,
    ensures
        next == state || next == WorkerState::Terminated,
{
}

/// A worker moves forward only along the one path: it begins to acquire only
/// from discovery, on a description that the filter accepts; it begins to
/// calibrate only once exclusive access was granted; it begins to stream only
/// from calibrating, with the session of the device in the snapshot.
pub proof fn lemma_streaming_needs_suitability_and_grab(
    state: WorkerState,
    input: Input,
    next: WorkerState,
    action: Action,
)
    requires
        state.steps_to(input, next, action),
    ensures
        next is Acquiring && !(state is Acquiring) ==> ({
            &&& state is Discovered
            &&& input matches Input::Described { keys, identity }
            &&& spec_suitable(codes_of(keys), identity.version, identity.name_chars())
        }),
        next is Calibrating && !(state is Calibrating) ==> state is Acquiring && input is Grabbed,
        next is Streaming && !(state is Streaming) ==> ({
            &&& state is Calibrating
            &&& input matches Input::Snapshot { ranges, keys, identity }
            &&& next->Streaming_0.is_session_of(ranges, *identity, codes_of(keys))
        }),
{
}

/// A worker that is refused exclusive access ends at once, without having
/// passed anything on.
pub proof fn lemma_refused_grab_ends_worker(next: WorkerState, action: Action)
    requires
        WorkerState::Acquiring.steps_to(Input::GrabRefused, next, action),
    ensures
        next == WorkerState::AcquisitionFailed,
        next.is_final(),
        action == Action::Stop,
{
}

/// A streaming worker stays streaming on every raw event. It passes on one
/// event for every button event and for every sample of a hat or a tracked
/// axis, and reads on for any other event, a sample of any other axis among
/// them. No button event and no such other event is a fault.
pub proof fn lemma_streaming_answers_each_event(
    session: DeviceSession,
    ev: Event,
    next: WorkerState,
    action: Action,
)
    requires
        WorkerState::Streaming(session).steps_to(Input::Raw(ev), next, action),
    ensures
        next == WorkerState::Streaming(session),
        action is Forward <==> ev.kind == EventKind::Key || (ev.kind == EventKind::AbsAxis && (
        is_hat(ev.code) || is_tracked(ev.code))),
        !(action is Forward) ==> action == Action::Read,
        !(ev.kind == EventKind::AbsAxis && is_tracked(ev.code)) ==> WorkerState::Streaming(
            session,
        ).fault(Input::Raw(ev)) is None,
{
}

} // verus!
