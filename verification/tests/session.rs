use evdev::{AttributeSet, Key};
use rinputer::calibrate::AxisRange;
use rinputer::codes::{
    ABS_HAT0X, ABS_HAT0Y, ABS_RX, ABS_RZ, ABS_X, ABS_Y, ABS_Z, BTN_DPAD_LEFT, BTN_EAST, BTN_MODE,
    BTN_SELECT, BTN_SOUTH, BTN_START, BTN_TL2,
};
use rinputer::device::DeviceIdentity;
use rinputer::event::{Event, EventKind};
use rinputer::quirk::Quirk;
use rinputer::session::{DeviceSession, Fault};

fn held_buttons(codes: &[u16]) -> AttributeSet<Key> {
    let mut set = AttributeSet::<Key>::new();
    for code in codes {
        set.insert(Key::new(*code));
    }
    set
}

fn pad(vendor: u16, product: u16) -> DeviceIdentity {
    DeviceIdentity { vendor, product, version: 0x0111, name: Some(String::from("Pad")) }
}

fn span(minimum: i32, maximum: i32) -> AxisRange {
    AxisRange { minimum, maximum }
}

fn ten_bit_ranges() -> [AxisRange; 6] {
    [span(0, 1023), span(0, 1023), span(0, 255), span(0, 1023), span(0, 1023), span(0, 255)]
}

fn plain_session(ranges: Option<[AxisRange; 6]>) -> DeviceSession {
    let set = held_buttons(&[BTN_SOUTH]);
    DeviceSession::open(ranges, &pad(0x045e, 0x02ea), Some(&*set))
}

fn dpad_session(ranges: Option<[AxisRange; 6]>) -> DeviceSession {
    let set = held_buttons(&[BTN_SOUTH, BTN_DPAD_LEFT]);
    DeviceSession::open(ranges, &pad(0x045e, 0x02ea), Some(&*set))
}

fn handheld_session(ranges: Option<[AxisRange; 6]>) -> DeviceSession {
    let set = held_buttons(&[BTN_SOUTH]);
    DeviceSession::open(ranges, &pad(0x1209, 0x3100), Some(&*set))
}

#[test]
fn session_holds_the_table_of_the_reported_ranges() {
    let session = plain_session(Some(ten_bit_ranges()));
    let table = session.calibration();
    for axis in [ABS_X, ABS_Y, ABS_RX] {
        assert_eq!(table.negative(axis), 1);
        assert_eq!(table.positive(axis), 32);
    }
    for axis in [ABS_Z, ABS_RZ] {
        assert_eq!(table.negative(axis), 1);
        assert_eq!(table.positive(axis), 1);
    }
}

#[test]
fn session_without_ranges_is_calibrated_for_zero_ranges() {
    let session = plain_session(None);
    assert_eq!(session, plain_session(Some([span(0, 0); 6])));
    for axis in 0..6u16 {
        assert_eq!(session.calibration().negative(axis), 1);
        assert_eq!(session.calibration().positive(axis), 1);
    }
}

#[test]
fn session_holds_the_quirk_of_the_device() {
    assert_eq!(plain_session(None).remap(), None);
    assert_eq!(dpad_session(None).remap(), Some(Quirk::GenericDac));
    assert_eq!(handheld_session(None).remap(), Some(Quirk::Rg351m));
}

#[test]
fn hat_samples_pass_whatever_the_table() {
    let sessions = [
        plain_session(None),
        plain_session(Some(ten_bit_ranges())),
        dpad_session(Some([span(-5, 5); 6])),
        handheld_session(Some([span(i32::MIN, i32::MAX); 6])),
    ];
    for session in sessions {
        for code in [ABS_HAT0X, ABS_HAT0Y] {
            for value in [-1, 0, 1, 2, -40000, i32::MAX, i32::MIN] {
                let ev = Event::axis(code, value);
                assert_eq!(session.try_normalize(ev), Ok(Some(ev)));
                assert_eq!(session.normalize(ev), Some(ev));
            }
        }
    }
}

#[test]
fn stick_sample_at_maximum_comes_out_near_full_scale() {
    let session = plain_session(Some(ten_bit_ranges()));
    let out = session.normalize(Event::axis(ABS_X, 1023));
    assert_eq!(out, Some(Event::axis(ABS_X, 32736)));
    let value = out.unwrap().value;
    assert!(value <= 32767 && 32767 - value < 1023);
}

#[test]
fn tracked_samples_are_scaled_by_the_side_of_their_sign() {
    let ranges =
        [span(-512, 1023), span(-512, 1023), span(0, 255), span(-512, 1023), span(-512, 1023), span(0, 127)];
    let session = plain_session(Some(ranges));
    assert_eq!(session.normalize(Event::axis(ABS_Y, -512)), Some(Event::axis(ABS_Y, -32768)));
    assert_eq!(session.normalize(Event::axis(ABS_Y, -1)), Some(Event::axis(ABS_Y, -64)));
    assert_eq!(session.normalize(Event::axis(ABS_Y, 0)), Some(Event::axis(ABS_Y, 0)));
    assert_eq!(session.normalize(Event::axis(ABS_Y, 1)), Some(Event::axis(ABS_Y, 32)));
    assert_eq!(session.normalize(Event::axis(ABS_Z, 200)), Some(Event::axis(ABS_Z, 200)));
    assert_eq!(session.normalize(Event::axis(ABS_RZ, 127)), Some(Event::axis(ABS_RZ, 254)));
}

#[test]
fn buttons_pass_unchanged_without_a_quirk() {
    let session = plain_session(Some(ten_bit_ranges()));
    for ev in [
        Event::key(BTN_SOUTH, 1),
        Event::key(BTN_SOUTH, 0),
        Event::key(BTN_DPAD_LEFT, 1),
        Event::key(BTN_SELECT, i32::MAX),
        Event::key(0, 2),
    ] {
        assert_eq!(session.try_normalize(ev), Ok(Some(ev)));
        assert_eq!(session.normalize(ev), Some(ev));
    }
}

#[test]
fn buttons_go_through_the_quirk() {
    let dpad = dpad_session(None);
    assert_eq!(dpad.normalize(Event::key(BTN_DPAD_LEFT, 1)), Some(Event::axis(ABS_HAT0X, -1)));
    assert_eq!(dpad.normalize(Event::key(BTN_TL2, 1)), Some(Event::axis(ABS_Z, 255)));
    assert_eq!(dpad.normalize(Event::key(BTN_SOUTH, 1)), Some(Event::key(BTN_SOUTH, 1)));
    let handheld = handheld_session(None);
    assert_eq!(handheld.normalize(Event::key(BTN_SOUTH, 1)), Some(Event::key(BTN_EAST, 1)));
    assert_eq!(handheld.normalize(Event::key(BTN_START, 1)), Some(Event::axis(ABS_RZ, 255)));
    assert_eq!(handheld.normalize(Event::key(BTN_MODE, 1)), Some(Event::key(BTN_MODE, 1)));
}

#[test]
fn synthesised_axis_events_are_not_scaled_again() {
    // The trigger that the quirk synthesises keeps its full scale even under
    // a table whose trigger factor is not 1.
    let ranges = [span(0, 1023), span(0, 1023), span(0, 15), span(0, 1023), span(0, 1023), span(0, 15)];
    let session = dpad_session(Some(ranges));
    assert_eq!(session.calibration().positive(ABS_Z), 17);
    assert_eq!(session.normalize(Event::key(BTN_TL2, 1)), Some(Event::axis(ABS_Z, 255)));
    assert_eq!(session.normalize(Event::axis(ABS_Z, 15)), Some(Event::axis(ABS_Z, 255)));
}

#[test]
fn other_events_are_dropped() {
    for session in [plain_session(None), dpad_session(None), handheld_session(None)] {
        for (code, value) in [(0, 0), (ABS_X, 5), (BTN_SOUTH, 1), (u16::MAX, i32::MIN)] {
            let ev = Event { kind: EventKind::Other, code, value };
            assert_eq!(session.try_normalize(ev), Ok(None));
            assert_eq!(session.normalize(ev), None);
        }
    }
}

#[test]
fn untracked_axis_is_dropped() {
    for session in [
        plain_session(Some(ten_bit_ranges())),
        dpad_session(None),
        handheld_session(Some([span(i32::MIN, i32::MAX); 6])),
    ] {
        for code in [6, 7, 0x0f, 0x12, 0x2f, u16::MAX] {
            for value in [0, 1, -1, i32::MAX, i32::MIN] {
                assert_eq!(session.try_normalize(Event::axis(code, value)), Ok(None));
                assert_eq!(session.normalize(Event::axis(code, value)), None);
            }
        }
    }
}

#[test]
fn sample_that_does_not_fit_is_a_fault() {
    let session = plain_session(Some(ten_bit_ranges()));
    assert_eq!(session.try_normalize(Event::axis(ABS_X, 67108864)), Err(Fault::Overflow));
    assert_eq!(session.try_normalize(Event::axis(ABS_X, i32::MAX)), Err(Fault::Overflow));
    assert_eq!(
        session.try_normalize(Event::axis(ABS_X, 67108863)),
        Ok(Some(Event::axis(ABS_X, 2147483616)))
    );
    // the negative side of these ranges has the factor 1
    assert_eq!(
        session.try_normalize(Event::axis(ABS_X, i32::MIN)),
        Ok(Some(Event::axis(ABS_X, i32::MIN)))
    );
}

#[test]
fn button_is_passed_on_whatever_its_value() {
    let handheld = handheld_session(None);
    for value in [2, 10000000, 8421505, i32::MAX, i32::MIN, -1] {
        assert_eq!(
            handheld.try_normalize(Event::key(BTN_SELECT, value)),
            Ok(Some(Event::axis(ABS_Z, 255)))
        );
        assert_eq!(
            handheld.try_normalize(Event::key(BTN_START, value)),
            Ok(Some(Event::axis(ABS_RZ, 255)))
        );
        assert_eq!(
            handheld.try_normalize(Event::key(BTN_SOUTH, value)),
            Ok(Some(Event::key(BTN_EAST, value)))
        );
        assert_eq!(
            dpad_session(None).try_normalize(Event::key(BTN_SELECT, value)),
            Ok(Some(Event::key(BTN_SELECT, value)))
        );
        assert_eq!(
            plain_session(None).try_normalize(Event::key(BTN_START, value)),
            Ok(Some(Event::key(BTN_START, value)))
        );
    }
}

#[test]
fn passed_on_events_are_buttons_or_axes() {
    let sessions = [plain_session(None), dpad_session(None), handheld_session(None)];
    let kinds = [EventKind::Key, EventKind::AbsAxis, EventKind::Other];
    for session in sessions {
        for kind in kinds {
            for code in [0u16, 2, 5, 0x10, 0x11, 0x130, 0x13a, 0x13b, 0x220, 0x223] {
                for value in [-1, 0, 1] {
                    let out = session.try_normalize(Event { kind, code, value });
                    let untracked = code >= 6 && code != ABS_HAT0X && code != ABS_HAT0Y;
                    match out {
                        Ok(Some(ev)) => {
                            assert_ne!(ev.kind, EventKind::Other);
                            assert!(kind == EventKind::Key || !untracked);
                        },
                        Ok(None) => {
                            assert!(
                                kind == EventKind::Other
                                    || (kind == EventKind::AbsAxis && untracked)
                            );
                        },
                        Err(_) => unreachable!(),
                    }
                }
            }
        }
    }
}
