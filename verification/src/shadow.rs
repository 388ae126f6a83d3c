//! The shadow: a monster that waits, hides in the ground, creeps up on its
//! prey and strikes.
use vstd::prelude::*;
use crate::actor::ActorGroup;
use crate::collision::CollisionGroups;
use crate::collision::actor_groups_spec;
use crate::collision::shadow_groups;
use crate::collision::shadow_groups_spec;

verus! {

/// The shadow's behaviour, each with the frames spent in it.
#[derive(Clone, Copy, Debug, PartialEq, Eq, Structural)]
pub enum ShadowState {
    Wait(u32),
    Hide(u32),
    Appear(u32),
    Attack(u32),
}

/// Where the nearest opponent is, if there is one in sight.
#[derive(Clone, Copy, Debug, PartialEq, Eq, Structural)]
pub struct Target {
    /// Close enough to strike.
    pub in_reach: bool,
    /// Within the range at which the shadow creeps toward it.
    pub in_sight: bool,
}

/// A shadow that has just appeared waits.
pub fn new_shadow() -> (r: ShadowState)
    ensures
        r == ShadowState::Wait(0),
{
    ShadowState::Wait(0)
}

/// The shadow's next state: it waits 60 frames, then hides; hidden, it
/// strikes an opponent in reach, or after 360 frames appears again;
/// appearing takes 30 frames, after which it strikes an opponent in
/// reach, waits again if the opponent is out of reach, or stays as it is
/// with no opponent in sight; a strike lasts 60 frames, then it waits.
pub open spec fn transition_spec(state: ShadowState, nearest: Option<Target>) -> ShadowState {
    match state {
        ShadowState::Wait(count) => if count < 60 {
            ShadowState::Wait((count + 1) as u32)
        } else {
            ShadowState::Hide(0)
        },
        ShadowState::Hide(count) => if count < 360 {
            match nearest {
                Some(t) => if t.in_reach {
                    ShadowState::Attack(0)
                } else {
                    ShadowState::Hide((count + 1) as u32)
                },
                None => ShadowState::Hide((count + 1) as u32),
            }
        } else {
            ShadowState::Appear(0)
        },
        ShadowState::Appear(count) => if count < 30 {
            ShadowState::Appear((count + 1) as u32)
        } else {
            match nearest {
                Some(t) => if t.in_reach {
                    ShadowState::Attack(0)
                } else {
                    ShadowState::Wait(0)
                },
                None => state,
            }
        },
        ShadowState::Attack(count) => if count < 60 {
            ShadowState::Attack((count + 1) as u32)
        } else {
            ShadowState::Wait(0)
        },
    }
}

/// The shadow's next state (see `transition_spec`).
pub fn transition(state: ShadowState, nearest: Option<Target>) -> (r: ShadowState)
    ensures
        r == transition_spec(state, nearest),
{
    match state {
        ShadowState::Wait(count) => if count < 60 {
            ShadowState::Wait(count + 1)
        } else {
            ShadowState::Hide(0)
        },
        ShadowState::Hide(count) => if count < 360 {
            match nearest {
                Some(t) => if t.in_reach {
                    ShadowState::Attack(0)
                } else {
                    ShadowState::Hide(count + 1)
                },
                None => ShadowState::Hide(count + 1),
            }
        } else {
            ShadowState::Appear(0)
        },
        ShadowState::Appear(count) => if count < 30 {
            ShadowState::Appear(count + 1)
        } else {
            match nearest {
                Some(t) => if t.in_reach {
                    ShadowState::Attack(0)
                } else {
                    ShadowState::Wait(0)
                },
                None => state,
            }
        },
        ShadowState::Attack(count) => if count < 60 {
            ShadowState::Attack(count + 1)
        } else {
            ShadowState::Wait(0)
        },
    }
}

/// How the shadow moves this frame.
#[derive(Clone, Copy, Debug, PartialEq, Eq, Structural)]
pub enum ShadowMove {
    Stop,
    /// Creeps toward the nearest opponent.
    TowardTarget,
    /// Keeps its current course.
    Keep,
}

/// Hidden for more than 60 frames, the shadow creeps toward an opponent in
/// sight and stops next to one in reach (or with none around); otherwise
/// it stands still.
pub fn approach(state: ShadowState, nearest: Option<Target>) -> (r: ShadowMove)
    ensures
        r == (match state {
            ShadowState::Hide(count) if 60 < count => match nearest {
                Some(t) => if t.in_reach {
                    ShadowMove::Stop
                } else if t.in_sight {
                    ShadowMove::TowardTarget
                } else {
                    ShadowMove::Keep
                },
                None => ShadowMove::Stop,
            },
            _ => ShadowMove::Stop,
        }),
{
    match state {
        ShadowState::Hide(count) => if 60 < count {
            match nearest {
                Some(t) => if t.in_reach {
                    ShadowMove::Stop
                } else if t.in_sight {
                    ShadowMove::TowardTarget
                } else {
                    ShadowMove::Keep
                },
                None => ShadowMove::Stop,
            }
        } else {
            ShadowMove::Stop
        },
        _ => ShadowMove::Stop,
    }
}

/// The blow of a strike (see `attack`).
pub open spec fn strike_spec(state: ShadowState, nearest: Option<Target>) -> Option<(u32, u32)> {
    match state {
        ShadowState::Attack(count) => if count == 20 {
            match nearest {
                Some(t) => if t.in_reach {
                    Some((4u32, 30u32))
                } else {
                    None
                },
                None => None,
            }
        } else {
            None
        },
        _ => None,
    }
}

/// The strike lands twenty frames into it, on an opponent still in reach:
/// four damage and a 30-frame stagger. Returns the damage and the stagger,
/// if it lands.
pub fn attack(state: ShadowState, nearest: Option<Target>) -> (r: Option<(u32, u32)>)
    ensures
        r == (if state == ShadowState::Attack(20) && (nearest matches Some(t) && t.in_reach) {
            Some((4u32, 30u32))
        } else {
            None
        }),
        r == strike_spec(state, nearest),
{
    match state {
        ShadowState::Attack(count) => if count == 20 {
            match nearest {
                Some(t) => if t.in_reach {
                    Some((4, 30))
                } else {
                    None
                },
                None => None,
            }
        } else {
            None
        },
        _ => None,
    }
}

/// The animations of a shadow.
#[derive(Clone, Copy, Debug, PartialEq, Eq, Structural)]
pub enum ShadowAnimation {
    /// Loops.
    Idle,
    /// Plays once.
    Hide,
    /// Plays once.
    Appear,
    /// Plays once.
    Attack,
}

/// The animation that goes with each state.
pub fn animate(state: ShadowState) -> (r: ShadowAnimation)
    ensures
        r == (match state {
            ShadowState::Wait(_) => ShadowAnimation::Idle,
            ShadowState::Hide(_) => ShadowAnimation::Hide,
            ShadowState::Appear(_) => ShadowAnimation::Appear,
            ShadowState::Attack(_) => ShadowAnimation::Attack,
        }),
{
    match state {
        ShadowState::Wait(_) => ShadowAnimation::Idle,
        ShadowState::Hide(_) => ShadowAnimation::Hide,
        ShadowState::Appear(_) => ShadowAnimation::Appear,
        ShadowState::Attack(_) => ShadowAnimation::Attack,
    }
}

/// While hidden the shadow takes the shadow's collision groups, which
/// bullets pass through; otherwise those of its side.
pub fn update_group_by_shadow(
    state: ShadowState,
    group: ActorGroup,
    airborne: bool,
    drowning: u32,
) -> (r: CollisionGroups)
    ensures
        r == (match state {
            ShadowState::Hide(_) => shadow_groups_spec(),
            _ => actor_groups_spec(group, airborne, drowning),
        }),
{
    match state {
        ShadowState::Hide(_) => shadow_groups(),
        _ => group.to_groups(airborne, drowning),
    }
}

/// The frames a shadow can spend in each state.
pub open spec fn shadow_inv(state: ShadowState) -> bool {
    match state {
        ShadowState::Wait(c) => c <= 60,
        ShadowState::Hide(c) => c <= 360,
        ShadowState::Appear(c) => c <= 30,
        ShadowState::Attack(c) => c <= 60,
    }
}

/// A shadow never lingers: it waits at most 60 frames, hides at most 360,
/// takes at most 30 to appear and strikes for at most 60, whatever it
/// meets.
pub proof fn lemma_shadow_bounded(state: ShadowState, nearest: Option<Target>)
    requires
        shadow_inv(state),
    ensures
        shadow_inv(transition_spec(state, nearest)),
{
}

/// Whatever it was doing, a shadow that finds an opponent in reach while
/// hidden strikes at once.
pub proof fn lemma_hidden_shadow_strikes(count: u32, t: Target)
    requires
        count < 360,
        t.in_reach,
    ensures
        transition_spec(ShadowState::Hide(count), Some(t)) == ShadowState::Attack(0),
{
}


/// The shadow's state after one frame for each opponent sighting in turn.
pub open spec fn frames(state: ShadowState, sightings: Seq<Option<Target>>) -> ShadowState
    decreases sightings.len(),
{
    if sightings.len() == 0 {
        state
    } else {
        transition_spec(frames(state, sightings.drop_last()), sightings.last())
    }
}

/// No opponent within reach in any of the sightings.
pub open spec fn none_in_reach(sightings: Seq<Option<Target>>) -> bool {
    forall|i: int| 0 <= i < sightings.len() ==> !((#[trigger] sightings[i]) matches Some(t) && t.in_reach)
}

/// A strike runs its course whatever the shadow sees: `k` frames into it
/// the shadow is still striking, up to the 60th frame, so it reaches the
/// twentieth frame, where the blow lands; one frame after the 60th it
/// waits again.
pub proof fn lemma_strike_runs_its_course(sightings: Seq<Option<Target>>)
    requires
        sightings.len() <= 61,
    ensures
        sightings.len() <= 60 ==> frames(ShadowState::Attack(0), sightings) == ShadowState::Attack(
            sightings.len() as u32,
        ),
        sightings.len() == 61 ==> frames(ShadowState::Attack(0), sightings) == ShadowState::Wait(0),
    decreases sightings.len(),
{
    if sightings.len() > 0 {
        lemma_strike_runs_its_course(sightings.drop_last());
    }
}

/// A waiting shadow waits 60 frames whatever it sees, and hides on the
/// next one.
pub proof fn lemma_wait_runs_its_course(sightings: Seq<Option<Target>>)
    requires
        sightings.len() <= 61,
    ensures
        sightings.len() <= 60 ==> frames(ShadowState::Wait(0), sightings) == ShadowState::Wait(
            sightings.len() as u32,
        ),
        sightings.len() == 61 ==> frames(ShadowState::Wait(0), sightings) == ShadowState::Hide(0),
    decreases sightings.len(),
{
    if sightings.len() > 0 {
        lemma_wait_runs_its_course(sightings.drop_last());
    }
}

/// Appearing takes 30 frames whatever the shadow sees.
pub proof fn lemma_appearing_takes_its_time(sightings: Seq<Option<Target>>)
    requires
        sightings.len() <= 30,
    ensures
        frames(ShadowState::Appear(0), sightings) == ShadowState::Appear(sightings.len() as u32),
    decreases sightings.len(),
{
    if sightings.len() > 0 {
        lemma_appearing_takes_its_time(sightings.drop_last());
    }
}

/// A hidden shadow with no opponent in reach stays hidden for 360 frames
/// and then appears.
pub proof fn lemma_hiding_without_prey(sightings: Seq<Option<Target>>)
    requires
        sightings.len() <= 361,
        none_in_reach(sightings),
    ensures
        sightings.len() <= 360 ==> frames(ShadowState::Hide(0), sightings) == ShadowState::Hide(
            sightings.len() as u32,
        ),
        sightings.len() == 361 ==> frames(ShadowState::Hide(0), sightings) == ShadowState::Appear(0),
    decreases sightings.len(),
{
    if sightings.len() > 0 {
        let d = sightings.drop_last();
        assert forall|i: int| 0 <= i < d.len() implies !((#[trigger] d[i]) matches Some(t)
            && t.in_reach) by {
            assert(d[i] == sightings[i]);
        }
        assert(!(sightings[sightings.len() - 1] matches Some(t) && t.in_reach));
        lemma_hiding_without_prey(d);
    }
}


/// Every strike deals exactly one blow: whatever the shadow sees during
/// it, twenty frames after a strike begins the blow of four damage and a
/// 30-frame stagger lands on an opponent in reach, and on no other frame
/// of the strike does a blow land.
pub proof fn lemma_strike_lands_once(sightings: Seq<Option<Target>>, now: Option<Target>)
    requires
        sightings.len() <= 60,
    ensures
        sightings.len() == 20 && (now matches Some(t) && t.in_reach) ==> strike_spec(
            frames(ShadowState::Attack(0), sightings),
            now,
        ) == Some((4u32, 30u32)),
        sightings.len() != 20 ==> strike_spec(frames(ShadowState::Attack(0), sightings), now) is None,
{
    lemma_strike_runs_its_course(sightings);
}

/// Once it has appeared, a shadow strikes an opponent in reach, waits again
/// if the opponent is out of reach, and stays as it is with no opponent in
/// sight.
pub proof fn lemma_appeared_shadow_reacts(count: u32, nearest: Option<Target>)
    requires
        30 <= count,
    ensures
        nearest matches Some(t) && t.in_reach ==> transition_spec(ShadowState::Appear(count), nearest)
            == ShadowState::Attack(0),
        nearest matches Some(t) && !t.in_reach ==> transition_spec(ShadowState::Appear(count), nearest)
            == ShadowState::Wait(0),
        nearest is None ==> transition_spec(ShadowState::Appear(count), nearest) == ShadowState::Appear(
            count,
        ),
{
}

} // verus!
