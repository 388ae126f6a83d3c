//! What an actor brings along when it enters the world, beside its body
//! and pictures: collision groups, a navigation obstacle, the witch's
//! wand and footsteps, and the behaviour of its kind.
use vstd::prelude::*;
use crate::collision::actor_groups_spec;
use crate::actor::ActorGroup;
use crate::chest::chest_or_barrel_spec;
use crate::chest::Chest;
use crate::chicken::new_chicken;
use crate::chicken::ChickenState;
use crate::collision::CollisionGroups;
use crate::huge_slime::HugeSlime;
use crate::huge_slime::HugeSlimeState;
use crate::spell::ActorType;
use crate::text::str_eq;

verus! {

/// The behaviour an actor of a given kind starts with.
pub enum ActorBehaviour {
    /// The slime king, growling and not yet promoted.
    HugeSlime(HugeSlime),
    Chicken(ChickenState),
    /// A container drawn at random; it burns for 30 frames.
    Chest(Chest),
    /// A bookshelf burns for 30 frames.
    Bookshelf,
    Bomb,
    /// Nothing beyond what every actor has.
    Plain,
}

/// What an actor brings along when it enters the world.
pub struct ActorSpawnPlan {
    /// Its collision groups, on the ground and not drowning.
    pub groups: CollisionGroups,
    /// Whether it blocks the paths the enemies find (the entities do).
    pub obstacle: bool,
    /// Whether it carries the witch's wand and footsteps.
    pub witch: bool,
    /// The frames it burns, for what burns.
    pub burnable: Option<u32>,
    pub behaviour: ActorBehaviour,
}

/// The behaviour of a kind other than a chest, which is drawn at random.
pub open spec fn behaviour_spec(t: Seq<char>, b: ActorBehaviour) -> bool {
    if t == "HugeSlime"@ {
        b matches ActorBehaviour::HugeSlime(h) && h.state == HugeSlimeState::Growl && !h.promoted
    } else if t == "Chicken"@ {
        b == ActorBehaviour::Chicken(ChickenState::Wait(60))
    } else if t == "Chest"@ {
        b matches ActorBehaviour::Chest(c) && chest_or_barrel_spec().contains(c.chest_type)
    } else if t == "Bookshelf"@ {
        b == ActorBehaviour::Bookshelf
    } else if t == "Bomb"@ {
        b == ActorBehaviour::Bomb
    } else {
        b == ActorBehaviour::Plain
    }
}

/// What an actor of the given kind and side brings along.
pub fn actor_spawn_plan(actor_type: &ActorType, actor_group: ActorGroup) -> (r: ActorSpawnPlan)
    ensures
        r.groups == actor_groups_spec(actor_group, false, 0),
        r.obstacle == (actor_group == ActorGroup::Entity),
        r.witch == (actor_type@ == "Witch"@),
        r.burnable == (if actor_type@ == "Chest"@ || actor_type@ == "Bookshelf"@ {
            Some(30u32)
        } else {
            None
        }),
        behaviour_spec(actor_type@, r.behaviour),
{
    let t = actor_type.0.as_str();
    let behaviour = if str_eq(t, "HugeSlime") {
        ActorBehaviour::HugeSlime(HugeSlime::new())
    } else if str_eq(t, "Chicken") {
        ActorBehaviour::Chicken(new_chicken())
    } else if str_eq(t, "Chest") {
        ActorBehaviour::Chest(Chest::random())
    } else if str_eq(t, "Bookshelf") {
        ActorBehaviour::Bookshelf
    } else if str_eq(t, "Bomb") {
        ActorBehaviour::Bomb
    } else {
        ActorBehaviour::Plain
    };
    let burnable = if str_eq(t, "Chest") || str_eq(t, "Bookshelf") {
        Some(30)
    } else {
        None
    };
    ActorSpawnPlan {
        groups: actor_group.to_groups(false, 0),
        obstacle: actor_group == ActorGroup::Entity,
        witch: str_eq(t, "Witch"),
        burnable,
        behaviour,
    }
}

} // verus!
