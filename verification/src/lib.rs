//! The decision logic of a terminal synthesizer: the state of its front end
//! and how it reacts to keys, MIDI input and port changes, the stage logic of
//! its amplitude envelope, and the choice of MIDI input port.

pub mod command;
pub mod envelope;
pub mod message;
pub mod midi;
pub mod model;
pub mod update;
