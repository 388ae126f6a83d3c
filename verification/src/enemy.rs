//! The actors the levels place: enemies, the training sandbag and the
//! rabbits, each with its side, spells, life and reward.
use vstd::prelude::*;
use crate::actor::at_rest;
use crate::actor::described_slot;
use crate::actor::wands_from_spells;
use crate::actor::Actor;
use crate::actor::ActorFireState;
use crate::actor::ActorGroup;
use crate::actor::ActorProps;
use crate::constant::MAX_SPELLS_IN_WAND;
use crate::constant::MAX_WANDS;
use crate::life::Life;
use crate::random::random_u32;
use crate::spell::ActorType;
use crate::spell::Spell;
use crate::wand::single_wand;
use crate::wand::Wand;
use crate::wand::WandSpell;

verus! {

/// The wands hold the given spell in the first slot of the first wand
/// and nothing else.
pub open spec fn holds_only(a: Actor, spell: Option<Seq<char>>) -> bool {
    &&& match spell {
        Some(n) => a.wands@[0].slots@[0] matches Some(ws) && ws.spell@ == n && ws.price == 0,
        None => a.wands@[0].slots@[0] is None,
    }
    &&& forall|w: int, i: int|
        0 <= w < MAX_WANDS && 0 <= i < MAX_SPELLS_IN_WAND && (w != 0 || i != 0)
            ==> (#[trigger] a.wands@[w].slots@[i]) is None
}

/// An actor at rest of the given kind, side, life and golds, holding the
/// given wands.
fn build(actor_type: &str, actor_group: ActorGroup, wands: Vec<Wand>, life: u32, golds: u32) -> (r:
    Actor)
    requires
        wands@.len() == MAX_WANDS,
        forall|w: int| 0 <= w < MAX_WANDS ==> (#[trigger] wands@[w]).wf() && wands@[w].index == 0
            && wands@[w].delay == 0,
    ensures
        at_rest(r),
        r.actor_type@ == actor_type@,
        r.actor_group == actor_group,
        r.life == life,
        r.max_life == life,
        r.golds == golds,
        r.wands == wands,
{
    let mut actor = Actor::default();
    actor.actor_type = ActorType::new(actor_type);
    actor.actor_group = actor_group;
    actor.wands = wands;
    actor.life = life;
    actor.max_life = life;
    actor.golds = golds;
    actor
}

/// An eyeball: an enemy with 25 life that shoots purple bolts.
pub fn default_eyeball() -> (r: Actor)
    ensures
        at_rest(r),
        r.actor_type@ == "Eyeball"@,
        r.actor_group == ActorGroup::Enemy,
        r.life == 25 && r.max_life == 25,
        r.golds == 0,
        holds_only(r, Some("PurpleBolt"@)),
{
    build("Eyeball", ActorGroup::Enemy, single_wand(Some(Spell::new("PurpleBolt"))), 25, 0)
}

/// A salamander: an enemy with 100 life that throws fireballs and leaves
/// 10 golds.
pub fn default_salamander() -> (r: Actor)
    ensures
        at_rest(r),
        r.actor_type@ == "Salamander"@,
        r.actor_group == ActorGroup::Enemy,
        r.life == 100 && r.max_life == 100,
        r.golds == 10,
        holds_only(r, Some("Fireball"@)),
{
    build("Salamander", ActorGroup::Enemy, single_wand(Some(Spell::new("Fireball"))), 100, 10)
}

/// The training sandbag: a neutral actor with 10000 life that can only
/// jump.
pub fn default_sandbag() -> (r: Actor)
    ensures
        at_rest(r),
        r.actor_type@ == "Sandbag"@,
        r.actor_group == ActorGroup::Neutral,
        r.life == 10000 && r.max_life == 10000,
        r.golds == 0,
        holds_only(r, Some("Jump"@)),
{
    build("Sandbag", ActorGroup::Neutral, single_wand(Some(Spell::new("Jump"))), 10000, 0)
}

/// The slime king: an enemy with 4000 life and empty wands; its resistance
/// to fire, its poise and its quickness out of webs are its registry
/// entry's.
pub fn default_huge_slime() -> (r: Actor)
    ensures
        at_rest(r),
        r.actor_type@ == "HugeSlime"@,
        r.actor_group == ActorGroup::Enemy,
        r.life == 4000 && r.max_life == 4000,
        r.golds == 0,
        holds_only(r, None),
{
    build("HugeSlime", ActorGroup::Enemy, single_wand(None), 4000, 0)
}

/// A rabbit: a friend with 100000 life and empty wands. Its picture and
/// its scenario go with it to `spawn_rabbit`.
pub fn default_rabbit() -> (r: Actor)
    ensures
        at_rest(r),
        r.actor_type@ == "Rabbit"@,
        r.actor_group == ActorGroup::Friend,
        r.life == 100000 && r.max_life == 100000,
        r.golds == 0,
        holds_only(r, None),
{
    build("Rabbit", ActorGroup::Friend, single_wand(None), 100000, 0)
}

/// A shadow: an enemy with empty wands, and its life of 40.
pub fn default_shadow() -> (r: (Actor, Life))
    ensures
        at_rest(r.0),
        r.0.actor_type@ == "Shadow"@,
        r.0.actor_group == ActorGroup::Enemy,
        r.0.life == 100 && r.0.max_life == 100,
        r.0.golds == 0,
        holds_only(r.0, None),
        r.1.life == 40 && r.1.max_life == 40 && r.1.fire_damage_wait == 0,
{
    let actor = build("Shadow", ActorGroup::Enemy, single_wand(None), 100, 0);
    (actor, Life::new(40))
}

/// A slime: an enemy with 15 life, with the spells its registry entry
/// gives.
pub fn default_slime(props: &ActorProps) -> (r: Actor)
    ensures
        at_rest(r),
        r.actor_type@ == "Slime"@,
        r.actor_group == ActorGroup::Enemy,
        r.life == 15 && r.max_life == 15,
        r.golds == 0,
        forall|w: int, i: int|
            0 <= w < MAX_WANDS && 0 <= i < MAX_SPELLS_IN_WAND ==> (#[trigger] r.wands@[w].slots@[i])
                == described_slot(props.wands@, w, i),
{
    build("Slime", ActorGroup::Enemy, wands_from_spells(&props.wands), 15, 0)
}

/// A spider: an enemy with 40 life that leaves 6 golds, with the spells
/// its registry entry gives.
pub fn default_spider(props: &ActorProps) -> (r: Actor)
    ensures
        at_rest(r),
        r.actor_type@ == "Spider"@,
        r.actor_group == ActorGroup::Enemy,
        r.life == 40 && r.max_life == 40,
        r.golds == 6,
        forall|w: int, i: int|
            0 <= w < MAX_WANDS && 0 <= i < MAX_SPELLS_IN_WAND ==> (#[trigger] r.wands@[w].slots@[i])
                == described_slot(props.wands@, w, i),
{
    build("Spider", ActorGroup::Enemy, wands_from_spells(&props.wands), 40, 6)
}

/// The training dummy's controller: whether it shoots back. Its home is
/// kept by the engine, which walks it back there.
pub struct TraningDummyController {
    pub fire: bool,
}

impl TraningDummyController {
    /// The dummy fires when it is set to and the player is within reach
    /// (`player_in_reach` is `None` when there is no player).
    pub fn fire_state(&self, player_in_reach: Option<bool>) -> (r: ActorFireState)
        ensures
            r == (if self.fire && player_in_reach == Some(true) {
                ActorFireState::Fire
            } else {
                ActorFireState::Idle
            }),
    {
        if self.fire {
            match player_in_reach {
                Some(true) => ActorFireState::Fire,
                _ => ActorFireState::Idle,
            }
        } else {
            ActorFireState::Idle
        }
    }
}

/// An actor that leaves golds when its life runs out.
pub struct DespawnWithGold {
    pub golds: u32,
}

impl DespawnWithGold {
    /// With no life left the actor goes with a cry and leaves its golds:
    /// returns how many, or `None` while it lives.
    pub fn dead_enemy(&self, life: u32) -> (r: Option<u32>)
        ensures
            r == (if life == 0 { Some(self.golds) } else { None::<u32> }),
    {
        if life == 0 {
            Some(self.golds)
        } else {
            None
        }
    }
}

/// A plain enemy, which drops a few golds when it falls.
pub struct Enemy;

/// The golds a fallen enemy drops, from the random number `roll`: one to
/// three.
pub open spec fn enemy_golds(roll: u32) -> u32 {
    (1 + roll % 3) as u32
}

impl Enemy {
    /// The golds a fallen enemy drops (see `enemy_golds`).
    pub fn golds_for(roll: u32) -> (r: u32)
        ensures
            r == enemy_golds(roll),
            1 <= r <= 3,
    {
        1 + roll % 3
    }

    /// With no life left the enemy goes with a cry and drops golds, as
    /// many as `golds_for` gives for a number from `random_u32`: returns
    /// how many, or `None` while it lives.
    pub fn dead_enemy(&self, life: u32) -> (r: Option<u32>)
        ensures
            (r is Some) <==> life == 0,
            r matches Some(g) ==> 1 <= g <= 3,
    {
        if life == 0 {
            Some(Enemy::golds_for(random_u32()))
        } else {
            None
        }
    }
}

impl Enemy {
    /// An enemy chases the player while the player lives and is within its
    /// detection range.
    pub fn chases(player_life: u32, within_range: bool) -> (r: bool)
        ensures
            r == (0 < player_life && within_range),
    {
        0 < player_life && within_range
    }

    /// An enemy touching the player bites it: a living player loses the
    /// damage, its life stopping at zero (and the engine pushes it away and
    /// plays the hit); a fallen player is left alone. Returns the player's
    /// new life, or `None` when nothing happens.
    pub fn bite(player_life: u32, damage: u32) -> (r: Option<u32>)
        ensures
            r == (if player_life == 0 {
                None::<u32>
            } else {
                Some(if damage <= player_life { (player_life - damage) as u32 } else { 0u32 })
            }),
    {
        if player_life == 0 {
            None
        } else if damage <= player_life {
            Some(player_life - damage)
        } else {
            Some(0)
        }
    }
}


/// A fallen enemy drops one, two or three golds, each for a third of the
/// rolls: the count repeats every three rolls, and each count comes for
/// some roll.
pub proof fn lemma_golds_cycle(roll: u32)
    ensures
        1 <= enemy_golds(roll) <= 3,
        roll + 3 <= u32::MAX ==> enemy_golds((roll + 3) as u32) == enemy_golds(roll),
        enemy_golds(0) == 1 && enemy_golds(1) == 2 && enemy_golds(2) == 3,
{
}

} // verus!
