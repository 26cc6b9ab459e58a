use vstd::prelude::*;

verus! {

/// The stage of the amplitude envelope. The progress within a stage and the
/// levels are floating-point values that the audio engine keeps beside it.
#[derive(Clone, Copy, PartialEq, Eq, Structural, Debug)]
pub enum Stage {
    Attack,
    Decay,
    Sustain,
    Release,
    Idle,
}

/// How switching the note on or off changes the envelope stage.
#[derive(Clone, Copy, PartialEq, Eq, Structural, Debug)]
pub enum StageChange {
    /// The stage stays as it is.
    Keep,
    /// Restart the attack from the current envelope level.
    AttackFromLevel,
    /// Enter the release at the point that matches the current envelope level.
    ReleaseFromLevel,
    /// Enter the release from its start (from the sustain level).
    ReleaseFromStart,
}

/// The stage change for a note that is on (`is_on`) or off in `stage`.
pub open spec fn note_change_spec(is_on: bool, stage: Stage) -> StageChange {
    if is_on {
        match stage {
            Stage::Release | Stage::Idle => StageChange::AttackFromLevel,
            _ => StageChange::Keep,
        }
    } else {
        match stage {
            Stage::Attack | Stage::Decay => StageChange::ReleaseFromLevel,
            Stage::Sustain => StageChange::ReleaseFromStart,
            _ => StageChange::Keep,
        }
    }
}

/// The stage that a stage change leads to from `stage`.
pub open spec fn stage_after(stage: Stage, change: StageChange) -> Stage {
    match change {
        StageChange::Keep => stage,
        StageChange::AttackFromLevel => Stage::Attack,
        StageChange::ReleaseFromLevel | StageChange::ReleaseFromStart => Stage::Release,
    }
}

/// The stage after one sample: a stage whose progress has `finished` passes
/// to the next one (attack to decay, decay to sustain, release to idle);
/// sustain and idle last until the note is switched.
pub open spec fn advance_spec(stage: Stage, finished: bool) -> Stage {
    if !finished {
        stage
    } else {
        match stage {
            Stage::Attack => Stage::Decay,
            Stage::Decay => Stage::Sustain,
            Stage::Sustain => Stage::Sustain,
            Stage::Release => Stage::Idle,
            Stage::Idle => Stage::Idle,
        }
    }
}

/// Whether the envelope is in one of the stages of a held note.
pub open spec fn is_held(stage: Stage) -> bool {
    stage is Attack || stage is Decay || stage is Sustain
}

/// The position of a stage in the order in which an envelope runs through them.
pub open spec fn rank(stage: Stage) -> int {
    match stage {
        Stage::Attack => 0,
        Stage::Decay => 1,
        Stage::Sustain => 2,
        Stage::Release => 3,
        Stage::Idle => 4,
    }
}

/// Decides how the envelope reacts to the note being on or off: a note that is on restarts
/// the attack from a release or from silence; a note that is off enters the
/// release from the attack, decay or sustain; otherwise nothing changes.
pub fn note_change(is_on: bool, stage: Stage) -> (r: StageChange)
    ensures
        r == note_change_spec(is_on, stage),
{
    if is_on {
        match stage {
            Stage::Release | Stage::Idle => StageChange::AttackFromLevel,
            _ => StageChange::Keep,
        }
    } else {
        match stage {
            Stage::Attack | Stage::Decay => StageChange::ReleaseFromLevel,
            Stage::Sustain => StageChange::ReleaseFromStart,
            _ => StageChange::Keep,
        }
    }
}

/// Moves the envelope on by one sample, given whether the progress of the
/// current stage has reached its end.
pub fn advance(stage: Stage, finished: bool) -> (r: Stage)
    ensures
        r == advance_spec(stage, finished),
{
    if !finished {
        return stage;
    }
    match stage {
        Stage::Attack => Stage::Decay,
        Stage::Decay => Stage::Sustain,
        Stage::Sustain => Stage::Sustain,
        Stage::Release => Stage::Idle,
        Stage::Idle => Stage::Idle,
    }
}

/// After the note change is applied, the envelope is in a held stage exactly when
/// the note is on.
pub proof fn lemma_change_follows_note(is_on: bool, stage: Stage)
    ensures
        is_held(stage_after(stage, note_change_spec(is_on, stage))) == is_on,
{
}

/// Applying the change for the same note state twice changes nothing the second time.
pub proof fn lemma_change_idempotent(is_on: bool, stage: Stage)
    ensures
        note_change_spec(is_on, stage_after(stage, note_change_spec(is_on, stage))) == StageChange::Keep,
{
}

/// Advancing never moves the envelope back to an earlier stage, moves it at
/// most one stage on, only moves it when the stage has finished, and never
/// takes it between the held stages and the released ones.
pub proof fn lemma_advance_forward(stage: Stage, finished: bool)
    ensures
        rank(advance_spec(stage, finished)) >= rank(stage),
        rank(advance_spec(stage, finished)) <= rank(stage) + 1,
        !finished ==> advance_spec(stage, finished) == stage,
        is_held(advance_spec(stage, finished)) == is_held(stage),
{
}

/// Once the note change has been applied, advancing keeps the envelope in step
/// with the note: the change computed again afterwards is `Keep`.
pub proof fn lemma_advance_keeps_note(is_on: bool, stage: Stage, finished: bool)
    ensures
        note_change_spec(is_on, advance_spec(stage_after(stage, note_change_spec(is_on, stage)), finished))
            == StageChange::Keep,
{
}

} // verus!
