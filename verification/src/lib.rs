//! Music-reactive lamp control: turns audio frames into lighting commands
//! for a UDP-controllable smart light.
//!
//! The pipeline extracts a dominant frequency and magnitude from each audio
//! frame, normalizes loudness into a brightness value, maps frequency to an
//! RGB color, and speaks the device's JSON-over-UDP discovery/command/status
//! protocol.

use vstd::prelude::*;

pub mod addr;
pub mod bright;
pub mod color;
pub mod json;
pub mod orchestrate;
pub mod pipeline;
pub mod spectrum;
pub mod text;
pub mod udp;

verus! {

/// Samples per audio frame: the fixed window length of the spectral
/// transform, constant for the life of the pipeline.
pub const WINDOW: usize = 2048;

/// Errors of the capture and analysis stages.
///
/// `PAErr` is an audio-device failure; `SendErr` is a failed handoff between
/// pipeline stages. Both are fatal: the pipeline shuts down on either.
#[derive(Debug, Clone, Copy, PartialEq, Eq, Structural)]
pub enum LampErr {
    PAErr,
    SendErr,
}

} // verus!
