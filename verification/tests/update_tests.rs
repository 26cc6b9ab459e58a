use term_synth::command::Command;
use term_synth::message::Message;
use term_synth::model::{Adjust, Model, Param, Waveform};
use term_synth::update::{update, TEST_NOTE};

fn step(model: Model, message: Message) -> (Model, Command) {
    update(model, message).expect("only Quit ends the loop")
}

#[test]
fn new_model_defaults() {
    let m = Model::new();
    assert!(!m.is_on);
    assert_eq!(m.waveform, Waveform::Sine);
    assert_eq!(m.selected, Param::Attack);
    assert_eq!(m.note_state, None);
    assert!(m.last_midi.is_none());
    assert!(m.port_name.is_none());
}

#[test]
fn quit_ends_the_loop() {
    assert!(update(Model::new(), Message::Quit).is_none());
}

#[test]
fn continue_changes_nothing() {
    let (m, c) = step(Model::new(), Message::Continue);
    assert!(matches!(c, Command::Nothing));
    assert_eq!(m.waveform, Waveform::Sine);
    assert_eq!(m.selected, Param::Attack);
    assert_eq!(m.note_state, None);
}

#[test]
fn midi_note_on_starts_note_on_any_channel() {
    let (m, c) = step(Model::new(), Message::Midi { timestamp: 1234, bytes: vec![0x93, 60, 100] });
    assert!(matches!(c, Command::NoteOn(60)));
    assert_eq!(m.note_state, Some(60));
    assert_eq!(m.last_midi, Some((1234, vec![0x93, 60, 100])));
}

#[test]
fn midi_note_off_stops_the_same_note() {
    let (m, _) = step(Model::new(), Message::Midi { timestamp: 1, bytes: vec![0x90, 64, 90] });
    let (m, c) = step(m, Message::Midi { timestamp: 2, bytes: vec![0x80, 64, 0] });
    assert!(matches!(c, Command::NoteOff));
    // the note stays recorded as the last one played
    assert_eq!(m.note_state, Some(64));
    assert_eq!(m.last_midi, Some((2, vec![0x80, 64, 0])));
}

#[test]
fn midi_note_off_of_another_note_is_ignored() {
    let (m, _) = step(Model::new(), Message::Midi { timestamp: 1, bytes: vec![0x90, 64, 90] });
    let (m, c) = step(m, Message::Midi { timestamp: 2, bytes: vec![0x8F, 65, 0] });
    assert!(matches!(c, Command::Nothing));
    assert_eq!(m.note_state, Some(64));
}

#[test]
fn midi_note_off_without_note_is_ignored() {
    let (m, c) = step(Model::new(), Message::Midi { timestamp: 7, bytes: vec![0x80, 64, 0] });
    assert!(matches!(c, Command::Nothing));
    assert_eq!(m.note_state, None);
    assert_eq!(m.last_midi, Some((7, vec![0x80, 64, 0])));
}

#[test]
fn midi_other_messages_are_recorded_only() {
    let (m, c) = step(Model::new(), Message::Midi { timestamp: 9, bytes: vec![0xB0, 7, 127] });
    assert!(matches!(c, Command::Nothing));
    assert_eq!(m.note_state, None);
    assert_eq!(m.last_midi, Some((9, vec![0xB0, 7, 127])));
}

#[test]
fn next_waveform_cycles_through_all_four() {
    let mut m = Model::new();
    let expected = [Waveform::Square, Waveform::Saw, Waveform::Triangle, Waveform::Sine];
    for w in expected {
        let (next, c) = step(m, Message::NextWaveform);
        assert_eq!(next.waveform, w);
        assert!(matches!(c, Command::SetWaveform(x) if x == w));
        m = next;
    }
}

#[test]
fn select_then_adjust_targets_selected() {
    let cases = [
        (Message::SelectCutoff, Param::Cutoff),
        (Message::SelectAttack, Param::Attack),
        (Message::SelectDecay, Param::Decay),
        (Message::SelectSustain, Param::Sustain),
        (Message::SelectRelease, Param::Release),
    ];
    for (select, param) in cases {
        let (m, c) = step(Model::new(), select);
        assert!(matches!(c, Command::Nothing));
        assert_eq!(m.selected, param);
        let (m, c) = step(m, Message::Adjust(Adjust::Increase));
        assert!(matches!(c, Command::AdjustParam(p, Adjust::Increase) if p == param));
        let (_, c) = step(m, Message::Adjust(Adjust::Decrease));
        assert!(matches!(c, Command::AdjustParam(p, Adjust::Decrease) if p == param));
    }
}

#[test]
fn toggle_twice_from_silence() {
    let (on, c) = step(Model::new(), Message::Toggle);
    assert!(matches!(c, Command::NoteOn(69)));
    assert_eq!(TEST_NOTE, 69);
    assert_eq!(on.note_state, Some(69));
    let (off, c) = step(on, Message::Toggle);
    assert!(matches!(c, Command::NoteOff));
    assert_eq!(off.note_state, None);
}

#[test]
fn toggle_stops_a_midi_note() {
    let (m, _) = step(Model::new(), Message::Midi { timestamp: 1, bytes: vec![0x90, 72, 90] });
    let (m, c) = step(m, Message::Toggle);
    assert!(matches!(c, Command::NoteOff));
    assert_eq!(m.note_state, None);
}

#[test]
fn next_port_and_port_name() {
    let (m, c) = step(Model::new(), Message::NextPort);
    assert!(matches!(c, Command::NextPort));
    assert!(m.port_name.is_none());
    let (m, c) = step(m, Message::SetPortName(Some("Keystation".to_string())));
    assert!(matches!(c, Command::Nothing));
    assert_eq!(m.port_name.as_deref(), Some("Keystation"));
    let (m, _) = step(m, Message::SetPortName(None));
    assert!(m.port_name.is_none());
}

#[test]
fn is_on_is_never_changed() {
    let messages = vec![
        Message::Toggle,
        Message::NextWaveform,
        Message::SelectCutoff,
        Message::Adjust(Adjust::Increase),
        Message::Midi { timestamp: 3, bytes: vec![0x90, 60, 1] },
        Message::NextPort,
        Message::SetPortName(None),
        Message::Continue,
    ];
    let mut m = Model::new();
    for message in messages {
        m = step(m, message).0;
        assert!(!m.is_on);
    }
}
