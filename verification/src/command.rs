use vstd::prelude::*;

use crate::model::{Adjust, Param, Waveform};

verus! {

/// An action that the update loop asks the program to carry out.
pub enum Command {
    /// Start sounding a MIDI note; its frequency is 440 Hz times two to the
    /// power of (note - 69) / 12.
    NoteOn(u8),
    /// Stop the sounding note.
    NoteOff,
    /// Switch the oscillator to this waveform.
    SetWaveform(Waveform),
    /// Move this parameter one step in this direction and send the new value
    /// to the audio engine.
    AdjustParam(Param, Adjust),
    /// Connect to the next MIDI input port.
    NextPort,
    /// Nothing to do.
    Nothing,
}

} // verus!
