//! Control core for a two-button bitmap display.
//!
//! The library holds the decision logic of a small embedded gadget: a
//! SPI-connected panel shows one of two preloaded images, picked by two
//! physical buttons, and a PWM channel drives the backlight.  Everything
//! that decides — the debounced button state machine, the brightness
//! scaling, the staged bring-up sequence — lives here, verified.  The
//! hardware itself (SPI transfers, PWM writes, pin reads, delays) is
//! driven by a thin unverified shell that consults this crate for every
//! decision and hands it plain values back.

pub mod backlight;
pub mod controller;
pub mod display;
pub mod error;
