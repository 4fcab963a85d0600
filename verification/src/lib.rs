//! Normalisation of game-controller input into one canonical virtual pad.

pub mod calibrate;
pub mod codes;
pub mod device;
pub mod event;
pub mod filter;
pub mod output;
pub mod quirk;
pub mod session;
pub mod worker;
