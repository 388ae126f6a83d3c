//! Chickens: they stand about, then wander off in a random direction for a
//! while, hopping as they go.
use vstd::prelude::*;
use crate::random::random_u32;

verus! {

/// A chicken's behaviour, with the frames left in it. The direction of a
/// walk is kept by the engine.
#[derive(Clone, Copy, Debug, PartialEq, Eq, Structural)]
pub enum ChickenState {
    Wait(u32),
    Walk(u32),
}

/// What a chicken does this frame.
#[derive(Clone, Copy, Debug, PartialEq, Eq, Structural)]
pub enum ChickenControl {
    /// Left alone: frozen, or led by the player as a servant.
    Skip,
    /// Stands still; `new_walk` asks for a fresh random direction for the
    /// walk that starts next frame.
    Stand { new_walk: bool },
    /// Walks on in its direction.
    Walk,
}

/// A chicken that has just appeared stands for 60 frames.
pub fn new_chicken() -> (r: ChickenState)
    ensures
        r == ChickenState::Wait(60),
{
    ChickenState::Wait(60)
}

/// A chicken's next state and what it does, with `roll` the random number
/// that sets its next rest: a frozen chicken or a servant is left alone; a
/// waiting chicken stands, and when its wait is over it sets off on a
/// 60-frame walk; a walking chicken walks, and when its walk is over it
/// rests 120 frames plus `roll` modulo 120.
pub fn control_step(state: ChickenState, frozen: u32, servant: bool, roll: u32) -> (r: (
    ChickenState,
    ChickenControl,
))
    ensures
        r == (if 0 < frozen || servant {
            (state, ChickenControl::Skip)
        } else {
            match state {
                ChickenState::Wait(count) => if count == 0 {
                    (ChickenState::Walk(60), ChickenControl::Stand { new_walk: true })
                } else {
                    (
                        ChickenState::Wait((count - 1) as u32),
                        ChickenControl::Stand { new_walk: false },
                    )
                },
                ChickenState::Walk(count) => if count == 0 {
                    (ChickenState::Wait((roll % 120 + 120) as u32), ChickenControl::Walk)
                } else {
                    (ChickenState::Walk((count - 1) as u32), ChickenControl::Walk)
                },
            }
        }),
{
    if 0 < frozen || servant {
        return (state, ChickenControl::Skip);
    }
    match state {
        ChickenState::Wait(count) => if count == 0 {
            (ChickenState::Walk(60), ChickenControl::Stand { new_walk: true })
        } else {
            (ChickenState::Wait(count - 1), ChickenControl::Stand { new_walk: false })
        },
        ChickenState::Walk(count) => if count == 0 {
            (ChickenState::Wait((roll % 120 + 120) as u32), ChickenControl::Walk)
        } else {
            (ChickenState::Walk(count - 1), ChickenControl::Walk)
        },
    }
}

/// A chicken's next state and what it does (see `control_step`), its next
/// rest drawn with `random_u32`.
pub fn control_chiken(state: ChickenState, frozen: u32, servant: bool) -> (r: (
    ChickenState,
    ChickenControl,
))
    ensures
        0 < frozen || servant ==> r == (state, ChickenControl::Skip),
        !(0 < frozen || servant) ==> match state {
            ChickenState::Wait(count) => if count == 0 {
                r == (ChickenState::Walk(60), ChickenControl::Stand { new_walk: true })
            } else {
                r == (ChickenState::Wait((count - 1) as u32), ChickenControl::Stand { new_walk: false })
            },
            ChickenState::Walk(count) => if count == 0 {
                r.1 == ChickenControl::Walk && (r.0 matches ChickenState::Wait(w) && 120 <= w < 240)
            } else {
                r == (ChickenState::Walk((count - 1) as u32), ChickenControl::Walk)
            },
        },
{
    let roll = random_u32();
    control_step(state, frozen, servant, roll)
}

/// A walking chicken that is not frozen hops whenever it is on the
/// ground: just landed, or not moving up or down.
pub fn hopping(state: ChickenState, frozen: u32, just_landed: bool, at_rest: bool) -> (r: bool)
    ensures
        r == (frozen == 0 && state is Walk && (just_landed || at_rest)),
{
    if 0 < frozen {
        return false;
    }
    match state {
        ChickenState::Wait(_) => false,
        ChickenState::Walk(_) => just_landed || at_rest,
    }
}

/// A chicken keeps to its rhythm: it never walks longer than 60 frames nor
/// rests longer than 239 once it has started wandering.
pub proof fn lemma_chicken_rhythm(state: ChickenState, frozen: u32, servant: bool, roll: u32)
    requires
        match state {
            ChickenState::Wait(c) => c < 240,
            ChickenState::Walk(c) => c <= 60,
        },
    ensures
        match control_step_spec(state, frozen, servant, roll) {
            ChickenState::Wait(c) => c < 240,
            ChickenState::Walk(c) => c <= 60,
        },
{
}

/// The chicken's next state (see `control_step`).
pub open spec fn control_step_spec(state: ChickenState, frozen: u32, servant: bool, roll: u32) -> ChickenState {
    if 0 < frozen || servant {
        state
    } else {
        match state {
            ChickenState::Wait(count) => if count == 0 {
                ChickenState::Walk(60)
            } else {
                ChickenState::Wait((count - 1) as u32)
            },
            ChickenState::Walk(count) => if count == 0 {
                ChickenState::Wait((roll % 120 + 120) as u32)
            } else {
                ChickenState::Walk((count - 1) as u32)
            },
        }
    }
}


/// A chicken's state after one free frame (neither frozen nor led) for
/// each roll in turn.
pub open spec fn free_frames(state: ChickenState, rolls: Seq<u32>) -> ChickenState
    decreases rolls.len(),
{
    if rolls.len() == 0 {
        state
    } else {
        control_step_spec(free_frames(state, rolls.drop_last()), 0, false, rolls.last())
    }
}

/// A walk set off with 60 frames lasts 61 frames, whatever the rolls, and
/// then the chicken rests between 120 and 239 frames.
pub proof fn lemma_walk_then_rest(rolls: Seq<u32>)
    requires
        rolls.len() <= 61,
    ensures
        rolls.len() <= 60 ==> free_frames(ChickenState::Walk(60), rolls) == ChickenState::Walk(
            (60 - rolls.len()) as u32,
        ),
        rolls.len() == 61 ==> (free_frames(ChickenState::Walk(60), rolls) matches ChickenState::Wait(
            w,
        ) && 120 <= w < 240),
    decreases rolls.len(),
{
    if rolls.len() > 0 {
        lemma_walk_then_rest(rolls.drop_last());
    }
}

/// A chicken resting `n` frames rests them all, whatever the rolls, and
/// sets off on a 60-frame walk on the next one.
pub proof fn lemma_rest_then_walk(n: u32, rolls: Seq<u32>)
    requires
        rolls.len() <= n + 1,
    ensures
        rolls.len() <= n ==> free_frames(ChickenState::Wait(n), rolls) == ChickenState::Wait(
            (n - rolls.len()) as u32,
        ),
        rolls.len() == n + 1 ==> free_frames(ChickenState::Wait(n), rolls) == ChickenState::Walk(60),
    decreases rolls.len(),
{
    if rolls.len() > 0 {
        lemma_rest_then_walk(n, rolls.drop_last());
    }
}

/// A frozen chicken, or one led as a servant, stays as it is.
pub proof fn lemma_held_chicken_stays(state: ChickenState, frozen: u32, servant: bool, roll: u32)
    requires
        0 < frozen || servant,
    ensures
        control_step_spec(state, frozen, servant, roll) == state,
{
}

} // verus!
