use vstd::prelude::*;

verus! {

/// The oscillator shapes the synthesizer can play.
#[derive(Clone, Copy, PartialEq, Eq, Structural, Debug)]
pub enum Waveform {
    Sine,
    Square,
    Saw,
    Triangle,
}

/// The synthesis parameter that the adjust keys act on.
#[derive(Clone, Copy, PartialEq, Eq, Structural, Debug)]
pub enum Param {
    Cutoff,
    Attack,
    Decay,
    Sustain,
    Release,
}

/// The direction of one adjustment step of the selected parameter.
#[derive(Clone, Copy, PartialEq, Eq, Structural, Debug)]
pub enum Adjust {
    Increase,
    Decrease,
}

/// The state of the synthesizer's front end: everything the update loop
/// decides on. The continuous sound parameters (cutoff and envelope times)
/// are floating-point values and are kept beside it by the program.
pub struct Model {
    pub is_on: bool,
    pub waveform: Waveform,
    pub selected: Param,
    /// The MIDI note that is sounding, if any.
    pub note_state: Option<u8>,
    /// The timestamp and bytes of the last MIDI message received.
    pub last_midi: Option<(u64, Vec<u8>)>,
    /// The name of the MIDI input port in use, if any.
    pub port_name: Option<String>,
}

impl Waveform {
    /// The waveform that follows `self` in the cycle Sine, Square, Saw, Triangle.
    pub open spec fn spec_next(self) -> Waveform {
        match self {
            Waveform::Sine => Waveform::Square,
            Waveform::Square => Waveform::Saw,
            Waveform::Saw => Waveform::Triangle,
            Waveform::Triangle => Waveform::Sine,
        }
    }

    /// The display name of the waveform.
    pub open spec fn spec_name(self) -> Seq<char> {
        match self {
            Waveform::Sine => "Sine"@,
            Waveform::Square => "Square"@,
            Waveform::Saw => "Saw"@,
            Waveform::Triangle => "Triangle"@,
        }
    }

    /// Returns the display name of the waveform.
    pub fn name(&self) -> (r: &'static str)
        ensures
            r@ == self.spec_name(),
    {
        match self {
            Waveform::Sine => "Sine",
            Waveform::Square => "Square",
            Waveform::Saw => "Saw",
            Waveform::Triangle => "Triangle",
        }
    }

    /// Advances to the next waveform of the cycle.
    pub fn next(self) -> (r: Self)
        ensures
            r == self.spec_next(),
    {
        match self {
            Waveform::Sine => Waveform::Square,
            Waveform::Square => Waveform::Saw,
            Waveform::Saw => Waveform::Triangle,
            Waveform::Triangle => Waveform::Sine,
        }
    }
}

impl Model {
    /// The state the synthesizer starts in.
    pub open spec fn initial() -> Model {
        Model {
            is_on: false,
            waveform: Waveform::Sine,
            selected: Param::Attack,
            note_state: None,
            last_midi: None,
            port_name: None,
        }
    }

    /// Creates the initial state: silent, sine wave, attack selected,
    /// no MIDI port and no MIDI message seen.
    pub fn new() -> (m: Model)
        ensures
            m == Model::initial(),
    {
        Model {
            is_on: false,
            waveform: Waveform::Sine,
            selected: Param::Attack,
            note_state: None,
            last_midi: None,
            port_name: None,
        }
    }
}

/// Stepping through the waveforms comes back to the start after four steps.
pub proof fn lemma_waveform_cycle(w: Waveform)
    ensures
        w.spec_next().spec_next().spec_next().spec_next() == w,
        w.spec_next() != w,
{
}

/// Distinct waveforms have distinct names.
pub proof fn lemma_waveform_names_distinct(a: Waveform, b: Waveform)
    requires
        a != b,
    ensures
        a.spec_name() != b.spec_name(),
{
    reveal_strlit("Sine");
    reveal_strlit("Square");
    reveal_strlit("Saw");
    reveal_strlit("Triangle");
    assert(a.spec_name().len() != b.spec_name().len() || a.spec_name()[1] != b.spec_name()[1]);
}

} // verus!
