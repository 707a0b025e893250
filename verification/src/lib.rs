//! The verified core of the "Vass 0" sampler instrument: MIDI decoding, the
//! note/voice state machine driven by host events, block rendering into the
//! host's output channels, parameter numbering, the decoding of the sample
//! source and the editor window's open/close bookkeeping.
use vstd::prelude::*;

pub mod midi;
pub mod parameter;
pub mod plugin;
pub mod render;
pub mod source;
pub mod editor;

verus! {

} // verus!
