use vstd::prelude::*;

use crate::model::Adjust;

verus! {

/// An event that the update loop reacts to.
pub enum Message {
    /// A MIDI message from the input port, with its timestamp in microseconds.
    Midi { timestamp: u64, bytes: Vec<u8> },
    NextWaveform,
    SelectCutoff,
    SelectAttack,
    SelectDecay,
    SelectSustain,
    SelectRelease,
    Adjust(Adjust),
    Toggle,
    Quit,
    NextPort,
    SetPortName(Option<String>),
    Continue,
}

/// A key of the keyboard, as far as the synthesizer reads it.
#[derive(Clone, Copy, PartialEq, Eq, Structural, Debug)]
pub enum Key {
    Char(char),
    Other,
}

/// A terminal event, as far as the synthesizer reads it.
#[derive(Clone, Copy, PartialEq, Eq, Structural, Debug)]
pub enum InputEvent {
    /// A key event; `press` tells a press from a repeat or a release.
    Key { key: Key, press: bool },
    Resize,
    Other,
}

/// The message a key press stands for, if any.
pub open spec fn key_message(key: Key) -> Option<Message> {
    match key {
        Key::Char(c) => if c == 'w' {
            Some(Message::NextWaveform)
        } else if c == 'c' {
            Some(Message::SelectCutoff)
        } else if c == 'a' {
            Some(Message::SelectAttack)
        } else if c == 'd' {
            Some(Message::SelectDecay)
        } else if c == 's' {
            Some(Message::SelectSustain)
        } else if c == 'r' {
            Some(Message::SelectRelease)
        } else if c == 'k' {
            Some(Message::Adjust(Adjust::Increase))
        } else if c == 'j' {
            Some(Message::Adjust(Adjust::Decrease))
        } else if c == ' ' {
            Some(Message::Toggle)
        } else if c == 'q' {
            Some(Message::Quit)
        } else {
            None
        },
        Key::Other => None,
    }
}

/// The message a terminal event is forwarded as, if any.
pub open spec fn event_message_spec(event: InputEvent) -> Option<Message> {
    match event {
        InputEvent::Key { key, press } => if press {
            key_message(key)
        } else {
            None
        },
        InputEvent::Resize => Some(Message::Continue),
        InputEvent::Other => None,
    }
}

/// Maps a key to the message it stands for: `w` next waveform, `c a d s r`
/// select cutoff, attack, decay, sustain, release, `k` and `j` increase and
/// decrease the selected parameter, space toggles the test note, `q` quits.
pub fn key_to_message(key: Key) -> (r: Option<Message>)
    ensures
        r == key_message(key),
        r is Some ==> (key matches Key::Char(c) && (c == 'w' || c == 'c' || c == 'a' || c == 'd'
            || c == 's' || c == 'r' || c == 'k' || c == 'j' || c == ' ' || c == 'q')),
        r matches Some(Message::Quit) <==> key == Key::Char('q'),
{
    match key {
        Key::Char('w') => Some(Message::NextWaveform),
        Key::Char('c') => Some(Message::SelectCutoff),
        Key::Char('a') => Some(Message::SelectAttack),
        Key::Char('d') => Some(Message::SelectDecay),
        Key::Char('s') => Some(Message::SelectSustain),
        Key::Char('r') => Some(Message::SelectRelease),
        Key::Char('k') => Some(Message::Adjust(Adjust::Increase)),
        Key::Char('j') => Some(Message::Adjust(Adjust::Decrease)),
        Key::Char(' ') => Some(Message::Toggle),
        Key::Char('q') => Some(Message::Quit),
        _ => None,
    }
}

/// Decides what a terminal event is forwarded as: a key press as the
/// message of its key, a resize as `Continue` (so the screen is redrawn),
/// and nothing for key releases, repeats and other events.
pub fn event_message(event: InputEvent) -> (r: Option<Message>)
    ensures
        r == event_message_spec(event),
        event matches InputEvent::Key { press, .. } && !press ==> r is None,
{
    match event {
        InputEvent::Key { key, press } => {
            if !press {
                return None;
            }
            key_to_message(key)
        },
        InputEvent::Resize => Some(Message::Continue),
        InputEvent::Other => None,
    }
}

/// Only the ten bound characters `w c a d s r k j`, space and `q` stand for
/// a message; every other key does nothing, and only `q` quits.
pub proof fn lemma_only_bound_keys_act(key: Key)
    ensures
        key_message(key) is Some ==> (key matches Key::Char(c) && (c == 'w' || c == 'c' || c == 'a'
            || c == 'd' || c == 's' || c == 'r' || c == 'k' || c == 'j' || c == ' ' || c == 'q')),
        key_message(key) matches Some(Message::Quit) <==> key == Key::Char('q'),
{
}

/// Distinct keys stand for distinct messages: each binding has exactly one key.
pub proof fn lemma_bindings_distinct(a: char, b: char)
    requires
        a != b,
        key_message(Key::Char(a)) is Some,
    ensures
        key_message(Key::Char(a)) != key_message(Key::Char(b)),
{
}

/// A key release or repeat is never forwarded, whatever the key, so one press
/// acts exactly once.
pub proof fn lemma_releases_dropped(key: Key)
    ensures
        event_message_spec(InputEvent::Key { key, press: false }) is None,
        event_message_spec(InputEvent::Key { key, press: true }) == key_message(key),
{
}

} // verus!
