use vstd::prelude::*;

use crate::command::Command;
use crate::message::Message;
use crate::model::{Model, Param};

verus! {

/// The high nibble of a MIDI status byte that marks a note-on message.
pub const STATUS_NOTE_ON: u8 = 0x90;

/// The high nibble of a MIDI status byte that marks a note-off message.
pub const STATUS_NOTE_OFF: u8 = 0x80;

/// The mask that keeps the message kind of a MIDI status byte and drops its channel.
pub const STATUS_MASK: u8 = 0xF0;

/// The MIDI note that the toggle key plays: A4, 440 Hz.
pub const TEST_NOTE: u8 = 69;

/// Whether a message can be handled: a MIDI message carries at least a
/// status byte and a data byte.
pub open spec fn well_formed(message: Message) -> bool {
    message matches Message::Midi { bytes, .. } ==> bytes@.len() >= 2
}

/// The reaction to a MIDI message: it is recorded as the last one seen; a
/// note-on starts its note, a note-off stops the sounding note when it is the
/// same note, and every other kind of message is ignored.
pub open spec fn midi_step(model: Model, timestamp: u64, bytes: Vec<u8>) -> (Model, Command) {
    let recorded = Model { last_midi: Some((timestamp, bytes)), ..model };
    let status = bytes@[0] & STATUS_MASK;
    let note = bytes@[1];
    if status == STATUS_NOTE_ON {
        (Model { note_state: Some(note), ..recorded }, Command::NoteOn(note))
    } else if status == STATUS_NOTE_OFF && model.note_state == Some(note) {
        (recorded, Command::NoteOff)
    } else {
        (recorded, Command::Nothing)
    }
}

/// The state that follows `model` on `message`, with the command to carry
/// out; `None` when the message asks to quit.
pub open spec fn step(model: Model, message: Message) -> Option<(Model, Command)> {
    match message {
        Message::Midi { timestamp, bytes } => Some(midi_step(model, timestamp, bytes)),
        Message::NextWaveform => {
            let w = model.waveform.spec_next();
            Some((Model { waveform: w, ..model }, Command::SetWaveform(w)))
        },
        Message::SelectCutoff => Some((Model { selected: Param::Cutoff, ..model }, Command::Nothing)),
        Message::SelectAttack => Some((Model { selected: Param::Attack, ..model }, Command::Nothing)),
        Message::SelectDecay => Some((Model { selected: Param::Decay, ..model }, Command::Nothing)),
        Message::SelectSustain => Some(
            (Model { selected: Param::Sustain, ..model }, Command::Nothing),
        ),
        Message::SelectRelease => Some(
            (Model { selected: Param::Release, ..model }, Command::Nothing),
        ),
        Message::Adjust(a) => Some((model, Command::AdjustParam(model.selected, a))),
        Message::Toggle => match model.note_state {
            Some(_) => Some((Model { note_state: None, ..model }, Command::NoteOff)),
            None => Some((Model { note_state: Some(TEST_NOTE), ..model }, Command::NoteOn(TEST_NOTE))),
        },
        Message::Quit => None,
        Message::NextPort => Some((model, Command::NextPort)),
        Message::SetPortName(name) => Some((Model { port_name: name, ..model }, Command::Nothing)),
        Message::Continue => Some((model, Command::Nothing)),
    }
}

/// Handles one message: returns the next state and the command to carry
/// out, or `None` when the message is `Quit`.
pub fn update(model: Model, message: Message) -> (r: Option<(Model, Command)>)
    requires
        well_formed(message),
    ensures
        r == step(model, message),
        r is None <==> message is Quit,
        message matches Message::Midi { bytes, .. } ==> (bytes@[0] & 0xF0u8 == 0x90u8 ==> (
        r matches Some((next, Command::NoteOn(n))) && n == bytes@[1] && next.note_state == Some(
            bytes@[1],
        ))),
        message matches Message::Midi { bytes, .. } ==> (bytes@[0] & 0xF0u8 == 0x80u8
            && model.note_state == Some(bytes@[1]) ==> (r matches Some((_, Command::NoteOff)))),
        message is NextWaveform ==> r == Some(
            (
                Model { waveform: model.waveform.spec_next(), ..model },
                Command::SetWaveform(model.waveform.spec_next()),
            ),
        ),
{
    let mut model = model;
    let command = match message {
        Message::Midi { timestamp, bytes } => {
            let status_byte = bytes[0];
            let note_byte = bytes[1];
            model.last_midi = Some((timestamp, bytes));
            let status = status_byte & STATUS_MASK;
            if status == STATUS_NOTE_ON {
                model.note_state = Some(note_byte);
                Command::NoteOn(note_byte)
            } else if status == STATUS_NOTE_OFF {
                match model.note_state {
                    Some(n) if n == note_byte => Command::NoteOff,
                    _ => Command::Nothing,
                }
            } else {
                Command::Nothing
            }
        },
        Message::NextWaveform => {
            model.waveform = model.waveform.next();
            Command::SetWaveform(model.waveform)
        },
        Message::SelectCutoff => {
            model.selected = Param::Cutoff;
            Command::Nothing
        },
        Message::SelectAttack => {
            model.selected = Param::Attack;
            Command::Nothing
        },
        Message::SelectDecay => {
            model.selected = Param::Decay;
            Command::Nothing
        },
        Message::SelectSustain => {
            model.selected = Param::Sustain;
            Command::Nothing
        },
        Message::SelectRelease => {
            model.selected = Param::Release;
            Command::Nothing
        },
        Message::Adjust(adjust) => Command::AdjustParam(model.selected, adjust),
        Message::Toggle => match model.note_state {
            Some(_) => {
                model.note_state = None;
                Command::NoteOff
            },
            None => {
                model.note_state = Some(TEST_NOTE);
                Command::NoteOn(TEST_NOTE)
            },
        },
        Message::Quit => return None,
        Message::NextPort => Command::NextPort,
        Message::SetPortName(port_name) => {
            model.port_name = port_name;
            Command::Nothing
        },
        Message::Continue => Command::Nothing,
    };
    Some((model, command))
}

/// The message that selects a parameter.
pub open spec fn select_message(p: Param) -> Message {
    match p {
        Param::Cutoff => Message::SelectCutoff,
        Param::Attack => Message::SelectAttack,
        Param::Decay => Message::SelectDecay,
        Param::Sustain => Message::SelectSustain,
        Param::Release => Message::SelectRelease,
    }
}

/// Whenever a note is started, the state records it as the sounding note.
pub proof fn lemma_note_on_records_note(model: Model, message: Message)
    requires
        well_formed(message),
    ensures
        step(model, message) matches Some((next, Command::NoteOn(n))) ==> next.note_state == Some(n),
{
}

/// A note is only stopped when one is sounding.
pub proof fn lemma_note_off_only_when_sounding(model: Model, message: Message)
    requires
        well_formed(message),
    ensures
        step(model, message) matches Some((_, Command::NoteOff)) ==> model.note_state is Some,
{
}

/// Toggling twice from silence plays the test note, stops it, and leaves the
/// state as it was.
pub proof fn lemma_toggle_twice_from_silence(model: Model)
    requires
        model.note_state is None,
    ensures
        step(model, Message::Toggle) matches Some((on, Command::NoteOn(n))) && n == TEST_NOTE
            && step(on, Message::Toggle) == Some((model, Command::NoteOff)),
{
    let on = Model { note_state: Some(TEST_NOTE), ..model };
    assert(Model { note_state: None, ..on } == model);
}

/// After a parameter is selected, adjusting acts on that parameter.
pub proof fn lemma_select_then_adjust(model: Model, p: Param, a: crate::model::Adjust)
    ensures
        step(model, select_message(p)) matches Some((selected, _)) && step(
            selected,
            Message::Adjust(a),
        ) == Some((selected, Command::AdjustParam(p, a))),
{
}

/// Each part of the state changes only on the messages that address it: the
/// on flag never, the waveform only on `NextWaveform`, the selection only on
/// the select messages, the last MIDI message only on MIDI input (which is
/// always recorded), the sounding note only on MIDI input and `Toggle`, the
/// port name only on `SetPortName`. A new waveform is always announced to the
/// audio engine with the waveform now in the state.
pub proof fn lemma_update_frame(model: Model, message: Message)
    requires
        well_formed(message),
    ensures
        step(model, message) matches Some((next, command)) ==> {
            &&& next.is_on == model.is_on
            &&& !(message is NextWaveform) ==> next.waveform == model.waveform
            &&& message is NextWaveform ==> command == Command::SetWaveform(next.waveform)
            &&& !(message is SelectCutoff || message is SelectAttack || message is SelectDecay
                || message is SelectSustain || message is SelectRelease) ==> next.selected
                == model.selected
            &&& !(message is Midi) ==> next.last_midi == model.last_midi
            &&& message matches Message::Midi { timestamp, bytes } ==> next.last_midi == Some(
                (timestamp, bytes),
            )
            &&& !(message is Midi || message is Toggle) ==> next.note_state == model.note_state
            &&& !(message is SetPortName) ==> next.port_name == model.port_name
        },
{
}

/// A note-on message on any of the sixteen MIDI channels (status byte
/// `0x90` to `0x9F`) starts its note and makes it the sounding note, whatever
/// note was sounding before and whatever the rest of the state is.
pub proof fn lemma_note_on_any_channel(model: Model, timestamp: u64, bytes: Vec<u8>)
    requires
        bytes@.len() >= 2,
        bytes@[0] & 0xF0u8 == 0x90u8,
    ensures
        step(model, Message::Midi { timestamp, bytes }) matches Some((next, Command::NoteOn(n)))
            && n == bytes@[1] && next.note_state == Some(bytes@[1]) && next.last_midi == Some(
            (timestamp, bytes),
        ),
{
}

/// A note-off message on any of the sixteen MIDI channels (status byte `0x80`
/// to `0x8F`) for the sounding note stops it.
pub proof fn lemma_note_off_any_channel(model: Model, timestamp: u64, bytes: Vec<u8>)
    requires
        bytes@.len() >= 2,
        bytes@[0] & 0xF0u8 == 0x80u8,
        model.note_state == Some(bytes@[1]),
    ensures
        step(model, Message::Midi { timestamp, bytes }) matches Some((_, Command::NoteOff)),
{
}

/// `NextWaveform` always moves the waveform one place along the cycle of
/// `Waveform::next`, announces the new waveform, and leaves everything else
/// in the state as it was, whether or not a note is sounding.
pub proof fn lemma_next_waveform_always_advances(model: Model)
    ensures
        step(model, Message::NextWaveform) matches Some((next, Command::SetWaveform(w)))
            && w == model.waveform.spec_next() && next == (Model { waveform: w, ..model }),
{
}

/// `Toggle` always flips whether a note is sounding: from silence it starts
/// the test note, while any note sounds it stops it; nothing else changes.
pub proof fn lemma_toggle_flips(model: Model)
    ensures
        step(model, Message::Toggle) matches Some((next, command)) && (next.note_state is Some
            != model.note_state is Some) && next == (Model { note_state: next.note_state, ..model })
            && (model.note_state is None ==> command == Command::NoteOn(TEST_NOTE)
            && next.note_state == Some(TEST_NOTE)) && (model.note_state is Some ==> command
            == Command::NoteOff),
{
}

/// A MIDI message that is neither a note-on nor a note-off for the sounding
/// note only gets recorded: nothing sounds or stops and the sounding note
/// stays as it was.
pub proof fn lemma_other_midi_only_recorded(model: Model, timestamp: u64, bytes: Vec<u8>)
    requires
        bytes@.len() >= 2,
        bytes@[0] & 0xF0u8 != 0x90u8,
        !(bytes@[0] & 0xF0u8 == 0x80u8 && model.note_state == Some(bytes@[1])),
    ensures
        step(model, Message::Midi { timestamp, bytes }) == Some(
            (Model { last_midi: Some((timestamp, bytes)), ..model }, Command::Nothing),
        ),
{
}

/// The messages that carry no state change leave the state as it was:
/// `Adjust` asks for the selected parameter to move, `NextPort` for the next
/// port, `Continue` for nothing; `SetPortName` only stores the name it carries.
pub proof fn lemma_messages_without_state_change(model: Model, message: Message)
    requires
        well_formed(message),
    ensures
        message matches Message::Adjust(a) ==> step(model, message) == Some(
            (model, Command::AdjustParam(model.selected, a)),
        ),
        message is NextPort ==> step(model, message) == Some((model, Command::NextPort)),
        message is Continue ==> step(model, message) == Some((model, Command::Nothing)),
        message matches Message::SetPortName(name) ==> step(model, message) == Some(
            (Model { port_name: name, ..model }, Command::Nothing),
        ),
{
}

} // verus!
