use term_synth::envelope::{advance, note_change, Stage, StageChange};
use term_synth::midi::next_port_index;

const ALL: [Stage; 5] = [Stage::Attack, Stage::Decay, Stage::Sustain, Stage::Release, Stage::Idle];

fn after(stage: Stage, change: StageChange) -> Stage {
    match change {
        StageChange::Keep => stage,
        StageChange::AttackFromLevel => Stage::Attack,
        StageChange::ReleaseFromLevel | StageChange::ReleaseFromStart => Stage::Release,
    }
}

#[test]
fn note_on_restarts_attack_from_release_and_idle() {
    assert_eq!(note_change(true, Stage::Release), StageChange::AttackFromLevel);
    assert_eq!(note_change(true, Stage::Idle), StageChange::AttackFromLevel);
    assert_eq!(note_change(true, Stage::Attack), StageChange::Keep);
    assert_eq!(note_change(true, Stage::Decay), StageChange::Keep);
    assert_eq!(note_change(true, Stage::Sustain), StageChange::Keep);
}

#[test]
fn note_off_enters_release() {
    assert_eq!(note_change(false, Stage::Attack), StageChange::ReleaseFromLevel);
    assert_eq!(note_change(false, Stage::Decay), StageChange::ReleaseFromLevel);
    assert_eq!(note_change(false, Stage::Sustain), StageChange::ReleaseFromStart);
    assert_eq!(note_change(false, Stage::Release), StageChange::Keep);
    assert_eq!(note_change(false, Stage::Idle), StageChange::Keep);
}

#[test]
fn note_change_is_idempotent() {
    for on in [true, false] {
        for s in ALL {
            let s1 = after(s, note_change(on, s));
            assert_eq!(note_change(on, s1), StageChange::Keep);
            let held = matches!(s1, Stage::Attack | Stage::Decay | Stage::Sustain);
            assert_eq!(held, on);
        }
    }
}

#[test]
fn advance_runs_through_the_stages() {
    assert_eq!(advance(Stage::Attack, true), Stage::Decay);
    assert_eq!(advance(Stage::Decay, true), Stage::Sustain);
    assert_eq!(advance(Stage::Sustain, true), Stage::Sustain);
    assert_eq!(advance(Stage::Release, true), Stage::Idle);
    assert_eq!(advance(Stage::Idle, true), Stage::Idle);
    for s in ALL {
        assert_eq!(advance(s, false), s);
    }
}

#[test]
fn ports_are_visited_in_order() {
    assert_eq!(next_port_index(None, 3), Some(0));
    assert_eq!(next_port_index(Some(0), 3), Some(1));
    assert_eq!(next_port_index(Some(1), 3), Some(2));
    assert_eq!(next_port_index(Some(2), 3), None);
    assert_eq!(next_port_index(None, 0), None);
    assert_eq!(next_port_index(Some(usize::MAX), usize::MAX), None);
    let mut active = None;
    let mut seen = Vec::new();
    for _ in 0..4 {
        active = next_port_index(active, 3);
        seen.push(active);
    }
    assert_eq!(seen, vec![Some(0), Some(1), Some(2), None]);
}
