//! Tab/display activity controller for a browser-based kiosk.
//!
//! The library computes minimal tab-navigation routes, recognises a fixed
//! button-code in an input stream, tracks idle/hold/pause timing for
//! automatic tab advancement, and classifies raw device events. All timing
//! is expressed over caller-supplied instants so that every rule is a pure
//! function of its inputs.

pub mod browser;
pub mod clock;
pub mod config;
pub mod fingerprint;
pub mod input;
pub mod matcher;
pub mod router;
