# term_synth

A terminal synthesizer: keys select and adjust the sound parameters, a MIDI
keyboard or the space bar plays notes, and a one-oscillator voice with a
low-pass filter and an ADSR envelope sounds them.

- `src/` is the verified library (Verus): the update step of the front end
  (`update`), the key and event mapping (`message`), the envelope stage logic
  (`envelope`), the MIDI port choice (`midi`) and the state types (`model`,
  `command`).
- `app/` is the program around it: the terminal, the audio stream, the MIDI
  connection, and everything computed in floating point (parameter steps,
  note frequencies, oscillator, filter and envelope levels).
