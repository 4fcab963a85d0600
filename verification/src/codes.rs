//! Button and axis codes of the input subsystem that the rules of this crate name.

use vstd::prelude::*;

verus! {

pub const BTN_SOUTH: u16 = 0x130;

pub const BTN_EAST: u16 = 0x131;

pub const BTN_C: u16 = 0x132;

pub const BTN_NORTH: u16 = 0x133;

pub const BTN_WEST: u16 = 0x134;

pub const BTN_Z: u16 = 0x135;

pub const BTN_TL: u16 = 0x136;

pub const BTN_TR: u16 = 0x137;

pub const BTN_TL2: u16 = 0x138;

pub const BTN_TR2: u16 = 0x139;

pub const BTN_SELECT: u16 = 0x13a;

pub const BTN_START: u16 = 0x13b;

pub const BTN_MODE: u16 = 0x13c;

pub const BTN_THUMBL: u16 = 0x13d;

pub const BTN_THUMBR: u16 = 0x13e;

pub const BTN_TOUCH: u16 = 0x14a;

pub const BTN_DPAD_UP: u16 = 0x220;

pub const BTN_DPAD_DOWN: u16 = 0x221;

pub const BTN_DPAD_LEFT: u16 = 0x222;

pub const BTN_DPAD_RIGHT: u16 = 0x223;

/// Left stick, horizontal.
pub const ABS_X: u16 = 0x00;

/// Left stick, vertical.
pub const ABS_Y: u16 = 0x01;

/// Left trigger.
pub const ABS_Z: u16 = 0x02;

/// Right stick, horizontal.
pub const ABS_RX: u16 = 0x03;

/// Right stick, vertical.
pub const ABS_RY: u16 = 0x04;

/// Right trigger.
pub const ABS_RZ: u16 = 0x05;

/// Directional pad, horizontal.
pub const ABS_HAT0X: u16 = 0x10;

/// Directional pad, vertical.
pub const ABS_HAT0Y: u16 = 0x11;

} // verus!
