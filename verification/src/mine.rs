//! The explosive mushroom: a mine that goes off when an actor of another
//! side touches it.
use vstd::prelude::*;
use crate::actor::ActorGroup;

verus! {

/// The damage of a mine's explosion.
pub const MINE_DAMAGE: u32 = 10;

/// A mine, laid by an actor of the given side.
#[derive(Clone, Copy, Debug, PartialEq, Eq, Structural)]
pub struct Mine {
    pub actor_group: ActorGroup,
}

impl Mine {
    /// Whether an actor of the given side sets the mine off: any actor of
    /// another side, but furniture never.
    pub open spec fn triggered_by_spec(&self, target: ActorGroup) -> bool {
        target != ActorGroup::Entity && target != self.actor_group
    }

    /// An actor touches the mine: when it sets the mine off (see
    /// `triggered_by_spec`), the mine is gone and explodes with the
    /// returned damage.
    pub fn sensor(&self, target: ActorGroup) -> (r: Option<u32>)
        ensures
            r == (if self.triggered_by_spec(target) { Some(MINE_DAMAGE) } else { None::<u32> }),
    {
        if target != ActorGroup::Entity && target != self.actor_group {
            Some(MINE_DAMAGE)
        } else {
            None
        }
    }
}

/// A mine never goes off under its own side, nor under furniture.
pub proof fn lemma_mine_spares_own_side(mine: Mine)
    ensures
        !mine.triggered_by_spec(mine.actor_group),
        !mine.triggered_by_spec(ActorGroup::Entity),
{
}

} // verus!
