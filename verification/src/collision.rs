//! Collision groups: which bodies the physics engine lets touch. A body has
//! a set of memberships and a set of filters, one bit per group; two bodies
//! interact when each one's memberships meet the other's filters.
use vstd::prelude::*;
use crate::actor::ActorGroup;

verus! {

/// Crates and other ordinary entities.
pub const ENTITY_MEMBERSHIPS: u32 = 0x1;

/// Shards of broken jars and the like.
pub const PIECE_MEMBERSHIPS: u32 = 0x2;

pub const WALL_MEMBERSHIPS: u32 = 0x4;

/// Neutral creatures such as chickens.
pub const NEUTRAL_MEMBERSHIPS: u32 = 0x8;

pub const PLAYER_MEMBERSHIPS: u32 = 0x10;

pub const PLAYER_BULLET_MEMBERSHIPS: u32 = 0x20;

pub const ENEMY_MEMBERSHIPS: u32 = 0x40;

pub const ENEMY_BULLET_MEMBERSHIPS: u32 = 0x80;

pub const GOLD_MEMBERSHIPS: u32 = 0x100;

/// Sensors: magic circles, and the range of impacts and fire.
pub const SENSOR_MEMBERSHIPS: u32 = 0x200;

/// The invisible wall that keeps goods inside the shop.
pub const HIDDEN_WALL_MEMBERSHIPS: u32 = 0x400;

pub const RABBIT_MEMBERSHIPS: u32 = 0x800;

/// A shadow while it hides.
pub const SHADOW_MEMBERSHIPS: u32 = 0x1000;

/// Items lying on the floor.
pub const DROPPED_ITEM_MEMBERSHIPS: u32 = 0x2000;

pub const WATER_MEMBERSHIPS: u32 = 0x4000;

pub const FLYING_PLAYER_MEMBERSHIPS: u32 = 0x8000;

pub const FLYING_ENEMY_MEMBERSHIPS: u32 = 0x10000;

pub const FLYING_NEUTRAL_MEMBERSHIPS: u32 = 0x20000;

/// What every actor collides with.
pub const ACTOR_FILTER_BASE: u32 = ENTITY_MEMBERSHIPS | NEUTRAL_MEMBERSHIPS
    | FLYING_NEUTRAL_MEMBERSHIPS | WALL_MEMBERSHIPS | PLAYER_MEMBERSHIPS | FLYING_PLAYER_MEMBERSHIPS
    | ENEMY_MEMBERSHIPS | FLYING_ENEMY_MEMBERSHIPS | RABBIT_MEMBERSHIPS | SENSOR_MEMBERSHIPS
    | SHADOW_MEMBERSHIPS;

/// What every bullet collides with.
pub const BULLET_FILTER_BASE: u32 = ENTITY_MEMBERSHIPS | WALL_MEMBERSHIPS | NEUTRAL_MEMBERSHIPS;

/// The groups a body belongs to and the groups it accepts contact from.
#[derive(Clone, Copy, Debug, PartialEq, Eq, Structural)]
pub struct CollisionGroups {
    pub memberships: u32,
    pub filters: u32,
}

/// Whether two bodies touch: each one's memberships must meet the other's
/// filters.
pub open spec fn interacts(a: CollisionGroups, b: CollisionGroups) -> bool {
    (a.memberships & b.filters) != 0 && (b.memberships & a.filters) != 0
}

/// Whether two bodies touch (see `interacts`).
pub fn test(a: CollisionGroups, b: CollisionGroups) -> (r: bool)
    ensures
        r == interacts(a, b),
{
    (a.memberships & b.filters) != 0 && (b.memberships & a.filters) != 0
}

pub open spec fn spec_groups(memberships: u32, filters: u32) -> CollisionGroups {
    CollisionGroups { memberships, filters }
}

pub open spec fn entity_groups_spec() -> CollisionGroups {
    spec_groups(
        ENTITY_MEMBERSHIPS,
        PIECE_MEMBERSHIPS | ENTITY_MEMBERSHIPS | NEUTRAL_MEMBERSHIPS | FLYING_NEUTRAL_MEMBERSHIPS
            | PLAYER_MEMBERSHIPS | FLYING_PLAYER_MEMBERSHIPS | PLAYER_BULLET_MEMBERSHIPS
            | ENEMY_MEMBERSHIPS | FLYING_ENEMY_MEMBERSHIPS | ENEMY_BULLET_MEMBERSHIPS
            | WALL_MEMBERSHIPS | RABBIT_MEMBERSHIPS | DROPPED_ITEM_MEMBERSHIPS | GOLD_MEMBERSHIPS
            | SENSOR_MEMBERSHIPS | WATER_MEMBERSHIPS,
    )
}

pub open spec fn piece_groups_spec() -> CollisionGroups {
    spec_groups(PIECE_MEMBERSHIPS, PIECE_MEMBERSHIPS | WALL_MEMBERSHIPS | WATER_MEMBERSHIPS)
}

pub open spec fn wall_groups_spec() -> CollisionGroups {
    spec_groups(
        WALL_MEMBERSHIPS,
        PIECE_MEMBERSHIPS | ENTITY_MEMBERSHIPS | NEUTRAL_MEMBERSHIPS | FLYING_NEUTRAL_MEMBERSHIPS
            | PLAYER_MEMBERSHIPS | FLYING_PLAYER_MEMBERSHIPS | PLAYER_BULLET_MEMBERSHIPS
            | ENEMY_MEMBERSHIPS | FLYING_ENEMY_MEMBERSHIPS | ENEMY_BULLET_MEMBERSHIPS
            | RABBIT_MEMBERSHIPS | DROPPED_ITEM_MEMBERSHIPS | GOLD_MEMBERSHIPS | SHADOW_MEMBERSHIPS,
    )
}

pub open spec fn neutral_groups_spec() -> CollisionGroups {
    spec_groups(
        NEUTRAL_MEMBERSHIPS,
        PLAYER_BULLET_MEMBERSHIPS | ENEMY_BULLET_MEMBERSHIPS | WATER_MEMBERSHIPS | ACTOR_FILTER_BASE,
    )
}

pub open spec fn flying_neutral_groups_spec() -> CollisionGroups {
    spec_groups(
        FLYING_NEUTRAL_MEMBERSHIPS,
        PLAYER_BULLET_MEMBERSHIPS | ENEMY_BULLET_MEMBERSHIPS | ACTOR_FILTER_BASE,
    )
}

pub open spec fn player_groups_spec() -> CollisionGroups {
    spec_groups(
        PLAYER_MEMBERSHIPS,
        ENEMY_BULLET_MEMBERSHIPS | DROPPED_ITEM_MEMBERSHIPS | WATER_MEMBERSHIPS | ACTOR_FILTER_BASE,
    )
}

pub open spec fn flying_player_groups_spec() -> CollisionGroups {
    spec_groups(
        FLYING_PLAYER_MEMBERSHIPS,
        ENEMY_BULLET_MEMBERSHIPS | DROPPED_ITEM_MEMBERSHIPS | ACTOR_FILTER_BASE,
    )
}

pub open spec fn enemy_groups_spec() -> CollisionGroups {
    spec_groups(ENEMY_MEMBERSHIPS, PLAYER_BULLET_MEMBERSHIPS | WATER_MEMBERSHIPS | ACTOR_FILTER_BASE)
}

pub open spec fn flying_enemy_groups_spec() -> CollisionGroups {
    spec_groups(FLYING_ENEMY_MEMBERSHIPS, PLAYER_BULLET_MEMBERSHIPS | ACTOR_FILTER_BASE)
}

pub open spec fn player_bullet_group_spec() -> CollisionGroups {
    spec_groups(
        PLAYER_BULLET_MEMBERSHIPS,
        ENEMY_MEMBERSHIPS | FLYING_ENEMY_MEMBERSHIPS | NEUTRAL_MEMBERSHIPS
            | FLYING_NEUTRAL_MEMBERSHIPS | DROPPED_ITEM_MEMBERSHIPS | BULLET_FILTER_BASE,
    )
}

pub open spec fn enemy_bullet_group_spec() -> CollisionGroups {
    spec_groups(
        ENEMY_BULLET_MEMBERSHIPS,
        PLAYER_MEMBERSHIPS | FLYING_PLAYER_MEMBERSHIPS | NEUTRAL_MEMBERSHIPS
            | FLYING_NEUTRAL_MEMBERSHIPS | BULLET_FILTER_BASE,
    )
}

pub open spec fn gold_groups_spec() -> CollisionGroups {
    spec_groups(GOLD_MEMBERSHIPS, ENTITY_MEMBERSHIPS | WALL_MEMBERSHIPS | WATER_MEMBERSHIPS)
}

pub open spec fn sensor_groups_spec() -> CollisionGroups {
    spec_groups(
        SENSOR_MEMBERSHIPS,
        PLAYER_MEMBERSHIPS | FLYING_PLAYER_MEMBERSHIPS | ENTITY_MEMBERSHIPS | NEUTRAL_MEMBERSHIPS
            | ENEMY_MEMBERSHIPS | FLYING_ENEMY_MEMBERSHIPS | SHADOW_MEMBERSHIPS | SENSOR_MEMBERSHIPS,
    )
}

pub open spec fn hidden_wall_groups_spec() -> CollisionGroups {
    spec_groups(
        HIDDEN_WALL_MEMBERSHIPS,
        ENTITY_MEMBERSHIPS | RABBIT_MEMBERSHIPS | DROPPED_ITEM_MEMBERSHIPS,
    )
}

pub open spec fn rabbit_groups_spec() -> CollisionGroups {
    spec_groups(
        RABBIT_MEMBERSHIPS,
        ENTITY_MEMBERSHIPS | WALL_MEMBERSHIPS | NEUTRAL_MEMBERSHIPS | PLAYER_MEMBERSHIPS
            | FLYING_PLAYER_MEMBERSHIPS | ENEMY_MEMBERSHIPS | FLYING_ENEMY_MEMBERSHIPS
            | SHADOW_MEMBERSHIPS | HIDDEN_WALL_MEMBERSHIPS | DROPPED_ITEM_MEMBERSHIPS
            | WATER_MEMBERSHIPS,
    )
}

pub open spec fn shadow_groups_spec() -> CollisionGroups {
    spec_groups(SHADOW_MEMBERSHIPS, WATER_MEMBERSHIPS | ACTOR_FILTER_BASE)
}

pub open spec fn dropped_item_groups_spec() -> CollisionGroups {
    spec_groups(
        DROPPED_ITEM_MEMBERSHIPS,
        DROPPED_ITEM_MEMBERSHIPS | ENTITY_MEMBERSHIPS | PLAYER_MEMBERSHIPS
            | FLYING_PLAYER_MEMBERSHIPS | PLAYER_BULLET_MEMBERSHIPS | WALL_MEMBERSHIPS
            | HIDDEN_WALL_MEMBERSHIPS | RABBIT_MEMBERSHIPS | WATER_MEMBERSHIPS,
    )
}

pub open spec fn water_groups_spec() -> CollisionGroups {
    spec_groups(
        WATER_MEMBERSHIPS,
        PIECE_MEMBERSHIPS | ENTITY_MEMBERSHIPS | NEUTRAL_MEMBERSHIPS | PLAYER_MEMBERSHIPS
            | ENEMY_MEMBERSHIPS | RABBIT_MEMBERSHIPS | DROPPED_ITEM_MEMBERSHIPS | GOLD_MEMBERSHIPS
            | SHADOW_MEMBERSHIPS,
    )
}

/// The groups of a body that touches nothing.
pub open spec fn none_groups_spec() -> CollisionGroups {
    spec_groups(0, 0)
}

pub fn entity_groups() -> (r: CollisionGroups)
    ensures
        r == entity_groups_spec(),
{
    CollisionGroups {
        memberships: ENTITY_MEMBERSHIPS,
        filters: PIECE_MEMBERSHIPS | ENTITY_MEMBERSHIPS | NEUTRAL_MEMBERSHIPS
            | FLYING_NEUTRAL_MEMBERSHIPS | PLAYER_MEMBERSHIPS | FLYING_PLAYER_MEMBERSHIPS
            | PLAYER_BULLET_MEMBERSHIPS | ENEMY_MEMBERSHIPS | FLYING_ENEMY_MEMBERSHIPS
            | ENEMY_BULLET_MEMBERSHIPS | WALL_MEMBERSHIPS | RABBIT_MEMBERSHIPS
            | DROPPED_ITEM_MEMBERSHIPS | GOLD_MEMBERSHIPS | SENSOR_MEMBERSHIPS | WATER_MEMBERSHIPS,
    }
}

pub fn piece_groups() -> (r: CollisionGroups)
    ensures
        r == piece_groups_spec(),
{
    CollisionGroups {
        memberships: PIECE_MEMBERSHIPS,
        filters: PIECE_MEMBERSHIPS | WALL_MEMBERSHIPS | WATER_MEMBERSHIPS,
    }
}

pub fn wall_groups() -> (r: CollisionGroups)
    ensures
        r == wall_groups_spec(),
{
    CollisionGroups {
        memberships: WALL_MEMBERSHIPS,
        filters: PIECE_MEMBERSHIPS | ENTITY_MEMBERSHIPS | NEUTRAL_MEMBERSHIPS
            | FLYING_NEUTRAL_MEMBERSHIPS | PLAYER_MEMBERSHIPS | FLYING_PLAYER_MEMBERSHIPS
            | PLAYER_BULLET_MEMBERSHIPS | ENEMY_MEMBERSHIPS | FLYING_ENEMY_MEMBERSHIPS
            | ENEMY_BULLET_MEMBERSHIPS | RABBIT_MEMBERSHIPS | DROPPED_ITEM_MEMBERSHIPS
            | GOLD_MEMBERSHIPS | SHADOW_MEMBERSHIPS,
    }
}

pub fn neutral_groups() -> (r: CollisionGroups)
    ensures
        r == neutral_groups_spec(),
{
    CollisionGroups {
        memberships: NEUTRAL_MEMBERSHIPS,
        filters: PLAYER_BULLET_MEMBERSHIPS | ENEMY_BULLET_MEMBERSHIPS | WATER_MEMBERSHIPS
            | ACTOR_FILTER_BASE,
    }
}

pub fn flying_neutral_groups() -> (r: CollisionGroups)
    ensures
        r == flying_neutral_groups_spec(),
{
    CollisionGroups {
        memberships: FLYING_NEUTRAL_MEMBERSHIPS,
        filters: PLAYER_BULLET_MEMBERSHIPS | ENEMY_BULLET_MEMBERSHIPS | ACTOR_FILTER_BASE,
    }
}

pub fn player_groups() -> (r: CollisionGroups)
    ensures
        r == player_groups_spec(),
{
    CollisionGroups {
        memberships: PLAYER_MEMBERSHIPS,
        filters: ENEMY_BULLET_MEMBERSHIPS | DROPPED_ITEM_MEMBERSHIPS | WATER_MEMBERSHIPS
            | ACTOR_FILTER_BASE,
    }
}

pub fn flying_player_groups() -> (r: CollisionGroups)
    ensures
        r == flying_player_groups_spec(),
{
    CollisionGroups {
        memberships: FLYING_PLAYER_MEMBERSHIPS,
        filters: ENEMY_BULLET_MEMBERSHIPS | DROPPED_ITEM_MEMBERSHIPS | ACTOR_FILTER_BASE,
    }
}

pub fn enemy_groups() -> (r: CollisionGroups)
    ensures
        r == enemy_groups_spec(),
{
    CollisionGroups {
        memberships: ENEMY_MEMBERSHIPS,
        filters: PLAYER_BULLET_MEMBERSHIPS | WATER_MEMBERSHIPS | ACTOR_FILTER_BASE,
    }
}

pub fn flying_enemy_groups() -> (r: CollisionGroups)
    ensures
        r == flying_enemy_groups_spec(),
{
    CollisionGroups {
        memberships: FLYING_ENEMY_MEMBERSHIPS,
        filters: PLAYER_BULLET_MEMBERSHIPS | ACTOR_FILTER_BASE,
    }
}

pub fn player_bullet_group() -> (r: CollisionGroups)
    ensures
        r == player_bullet_group_spec(),
{
    CollisionGroups {
        memberships: PLAYER_BULLET_MEMBERSHIPS,
        filters: ENEMY_MEMBERSHIPS | FLYING_ENEMY_MEMBERSHIPS | NEUTRAL_MEMBERSHIPS
            | FLYING_NEUTRAL_MEMBERSHIPS | DROPPED_ITEM_MEMBERSHIPS | BULLET_FILTER_BASE,
    }
}

pub fn enemy_bullet_group() -> (r: CollisionGroups)
    ensures
        r == enemy_bullet_group_spec(),
{
    CollisionGroups {
        memberships: ENEMY_BULLET_MEMBERSHIPS,
        filters: PLAYER_MEMBERSHIPS | FLYING_PLAYER_MEMBERSHIPS | NEUTRAL_MEMBERSHIPS
            | FLYING_NEUTRAL_MEMBERSHIPS | BULLET_FILTER_BASE,
    }
}

pub fn gold_groups() -> (r: CollisionGroups)
    ensures
        r == gold_groups_spec(),
{
    CollisionGroups {
        memberships: GOLD_MEMBERSHIPS,
        filters: ENTITY_MEMBERSHIPS | WALL_MEMBERSHIPS | WATER_MEMBERSHIPS,
    }
}

pub fn sensor_groups() -> (r: CollisionGroups)
    ensures
        r == sensor_groups_spec(),
{
    CollisionGroups {
        memberships: SENSOR_MEMBERSHIPS,
        filters: PLAYER_MEMBERSHIPS | FLYING_PLAYER_MEMBERSHIPS | ENTITY_MEMBERSHIPS
            | NEUTRAL_MEMBERSHIPS | ENEMY_MEMBERSHIPS | FLYING_ENEMY_MEMBERSHIPS
            | SHADOW_MEMBERSHIPS | SENSOR_MEMBERSHIPS,
    }
}

pub fn hidden_wall_groups() -> (r: CollisionGroups)
    ensures
        r == hidden_wall_groups_spec(),
{
    CollisionGroups {
        memberships: HIDDEN_WALL_MEMBERSHIPS,
        filters: ENTITY_MEMBERSHIPS | RABBIT_MEMBERSHIPS | DROPPED_ITEM_MEMBERSHIPS,
    }
}

pub fn rabbit_groups() -> (r: CollisionGroups)
    ensures
        r == rabbit_groups_spec(),
{
    CollisionGroups {
        memberships: RABBIT_MEMBERSHIPS,
        filters: ENTITY_MEMBERSHIPS | WALL_MEMBERSHIPS | NEUTRAL_MEMBERSHIPS | PLAYER_MEMBERSHIPS
            | FLYING_PLAYER_MEMBERSHIPS | ENEMY_MEMBERSHIPS | FLYING_ENEMY_MEMBERSHIPS
            | SHADOW_MEMBERSHIPS | HIDDEN_WALL_MEMBERSHIPS | DROPPED_ITEM_MEMBERSHIPS
            | WATER_MEMBERSHIPS,
    }
}

pub fn shadow_groups() -> (r: CollisionGroups)
    ensures
        r == shadow_groups_spec(),
{
    CollisionGroups {
        memberships: SHADOW_MEMBERSHIPS,
        filters: WATER_MEMBERSHIPS | ACTOR_FILTER_BASE,
    }
}

pub fn dropped_item_groups() -> (r: CollisionGroups)
    ensures
        r == dropped_item_groups_spec(),
{
    CollisionGroups {
        memberships: DROPPED_ITEM_MEMBERSHIPS,
        filters: DROPPED_ITEM_MEMBERSHIPS | ENTITY_MEMBERSHIPS | PLAYER_MEMBERSHIPS
            | FLYING_PLAYER_MEMBERSHIPS | PLAYER_BULLET_MEMBERSHIPS | WALL_MEMBERSHIPS
            | HIDDEN_WALL_MEMBERSHIPS | RABBIT_MEMBERSHIPS | WATER_MEMBERSHIPS,
    }
}

pub fn water_groups() -> (r: CollisionGroups)
    ensures
        r == water_groups_spec(),
{
    CollisionGroups {
        memberships: WATER_MEMBERSHIPS,
        filters: PIECE_MEMBERSHIPS | ENTITY_MEMBERSHIPS | NEUTRAL_MEMBERSHIPS | PLAYER_MEMBERSHIPS
            | ENEMY_MEMBERSHIPS | RABBIT_MEMBERSHIPS | DROPPED_ITEM_MEMBERSHIPS | GOLD_MEMBERSHIPS
            | SHADOW_MEMBERSHIPS,
    }
}

/// The groups an actor of the given side takes: the flying variant while it
/// is above the ground or drowning, so that it can cross water.
pub open spec fn actor_groups_spec(group: ActorGroup, airborne: bool, drowning: u32) -> CollisionGroups {
    let flying = 0 < drowning || airborne;
    match group {
        ActorGroup::Friend => if flying {
            flying_player_groups_spec()
        } else {
            player_groups_spec()
        },
        ActorGroup::Enemy => if flying {
            flying_enemy_groups_spec()
        } else {
            enemy_groups_spec()
        },
        ActorGroup::Neutral => if flying {
            flying_neutral_groups_spec()
        } else {
            neutral_groups_spec()
        },
        ActorGroup::Entity => neutral_groups_spec(),
    }
}

/// The groups of the bullets an actor of the given side fires. Neutral
/// actors and furniture fire none, so theirs touch nothing.
pub open spec fn bullet_group_spec(group: ActorGroup) -> CollisionGroups {
    match group {
        ActorGroup::Friend => player_bullet_group_spec(),
        ActorGroup::Enemy => enemy_bullet_group_spec(),
        ActorGroup::Neutral => none_groups_spec(),
        ActorGroup::Entity => none_groups_spec(),
    }
}

impl ActorGroup {
    /// The groups an actor of this side takes (see `actor_groups_spec`);
    /// `airborne` tells whether it is above the ground.
    pub fn to_groups(&self, airborne: bool, drowning: u32) -> (r: CollisionGroups)
        ensures
            r == actor_groups_spec(*self, airborne, drowning),
    {
        let flying = 0 < drowning || airborne;
        match self {
            ActorGroup::Friend => if flying {
                flying_player_groups()
            } else {
                player_groups()
            },
            ActorGroup::Enemy => if flying {
                flying_enemy_groups()
            } else {
                enemy_groups()
            },
            ActorGroup::Neutral => if flying {
                flying_neutral_groups()
            } else {
                neutral_groups()
            },
            ActorGroup::Entity => neutral_groups(),
        }
    }

    /// The groups of the bullets an actor of this side fires.
    pub fn to_bullet_group(&self) -> (r: CollisionGroups)
        ensures
            r == bullet_group_spec(*self),
    {
        match self {
            ActorGroup::Friend => player_bullet_group(),
            ActorGroup::Enemy => enemy_bullet_group(),
            ActorGroup::Neutral => CollisionGroups { memberships: 0, filters: 0 },
            ActorGroup::Entity => CollisionGroups { memberships: 0, filters: 0 },
        }
    }
}

/// The groups an actor takes this frame: a hidden actor takes the shadow's,
/// a rabbit the rabbit's, and any other actor those of its side.
pub fn collision_group_by_actor(
    hidden: bool,
    is_rabbit: bool,
    group: ActorGroup,
    airborne: bool,
    drowning: u32,
) -> (r: CollisionGroups)
    ensures
        r == (if hidden {
            shadow_groups_spec()
        } else if is_rabbit {
            rabbit_groups_spec()
        } else {
            actor_groups_spec(group, airborne, drowning)
        }),
{
    if hidden {
        shadow_groups()
    } else if is_rabbit {
        rabbit_groups()
    } else {
        group.to_groups(airborne, drowning)
    }
}

/// A remote player's bullets arrive as the opponent's: the bullets of a
/// friend are replayed with the enemy bullet groups and the other way round.
pub fn remote_bullet_group(group: ActorGroup) -> (r: CollisionGroups)
    ensures
        r == (match group {
            ActorGroup::Friend => enemy_bullet_group_spec(),
            ActorGroup::Enemy => player_bullet_group_spec(),
            _ => none_groups_spec(),
        }),
{
    match group {
        ActorGroup::Friend => enemy_bullet_group(),
        ActorGroup::Enemy => player_bullet_group(),
        ActorGroup::Neutral => CollisionGroups { memberships: 0, filters: 0 },
        ActorGroup::Entity => CollisionGroups { memberships: 0, filters: 0 },
    }
}

/// Water holds back walking players and enemies but not flying ones: an
/// actor above the ground or drowning crosses water.
pub proof fn lemma_flying_actors_cross_water()
    ensures
        interacts(water_groups_spec(), player_groups_spec()),
        interacts(water_groups_spec(), enemy_groups_spec()),
        !interacts(water_groups_spec(), flying_player_groups_spec()),
        !interacts(water_groups_spec(), flying_enemy_groups_spec()),
        !interacts(water_groups_spec(), flying_neutral_groups_spec()),
{
    assert(interacts(water_groups_spec(), player_groups_spec())) by (bit_vector);
    assert(interacts(water_groups_spec(), enemy_groups_spec())) by (bit_vector);
    assert(!interacts(water_groups_spec(), flying_player_groups_spec())) by (bit_vector);
    assert(!interacts(water_groups_spec(), flying_enemy_groups_spec())) by (bit_vector);
    assert(!interacts(water_groups_spec(), flying_neutral_groups_spec())) by (bit_vector);
}

/// Whatever its side, an actor above the ground or drowning is not held
/// back by water, except furniture, which never flies.
pub proof fn lemma_airborne_actor_crosses_water(group: ActorGroup, airborne: bool, drowning: u32)
    requires
        airborne || 0 < drowning,
        group != ActorGroup::Entity,
    ensures
        !interacts(water_groups_spec(), actor_groups_spec(group, airborne, drowning)),
{
    lemma_flying_actors_cross_water();
}

/// Bullets hit the other side and never their own: player bullets hit
/// enemies and neutral creatures, enemy bullets hit players and neutral
/// creatures, on the ground or in the air.
pub proof fn lemma_bullets_hit_the_other_side()
    ensures
        interacts(player_bullet_group_spec(), enemy_groups_spec()),
        interacts(player_bullet_group_spec(), flying_enemy_groups_spec()),
        interacts(player_bullet_group_spec(), neutral_groups_spec()),
        interacts(enemy_bullet_group_spec(), player_groups_spec()),
        interacts(enemy_bullet_group_spec(), flying_player_groups_spec()),
        interacts(enemy_bullet_group_spec(), neutral_groups_spec()),
        !interacts(player_bullet_group_spec(), player_groups_spec()),
        !interacts(player_bullet_group_spec(), flying_player_groups_spec()),
        !interacts(enemy_bullet_group_spec(), enemy_groups_spec()),
        !interacts(enemy_bullet_group_spec(), flying_enemy_groups_spec()),
        interacts(player_bullet_group_spec(), wall_groups_spec()),
        interacts(enemy_bullet_group_spec(), wall_groups_spec()),
{
    assert(interacts(player_bullet_group_spec(), enemy_groups_spec())) by (bit_vector);
    assert(interacts(player_bullet_group_spec(), flying_enemy_groups_spec())) by (bit_vector);
    assert(interacts(player_bullet_group_spec(), neutral_groups_spec())) by (bit_vector);
    assert(interacts(enemy_bullet_group_spec(), player_groups_spec())) by (bit_vector);
    assert(interacts(enemy_bullet_group_spec(), flying_player_groups_spec())) by (bit_vector);
    assert(interacts(enemy_bullet_group_spec(), neutral_groups_spec())) by (bit_vector);
    assert(!interacts(player_bullet_group_spec(), player_groups_spec())) by (bit_vector);
    assert(!interacts(player_bullet_group_spec(), flying_player_groups_spec())) by (bit_vector);
    assert(!interacts(enemy_bullet_group_spec(), enemy_groups_spec())) by (bit_vector);
    assert(!interacts(enemy_bullet_group_spec(), flying_enemy_groups_spec())) by (bit_vector);
    assert(interacts(player_bullet_group_spec(), wall_groups_spec())) by (bit_vector);
    assert(interacts(enemy_bullet_group_spec(), wall_groups_spec())) by (bit_vector);
}

/// Items on the floor can be pushed by players and their bullets, but not
/// by enemies or enemy bullets, so that enemies cannot use them as shields.
pub proof fn lemma_dropped_items_ignore_enemies()
    ensures
        interacts(dropped_item_groups_spec(), player_groups_spec()),
        interacts(dropped_item_groups_spec(), player_bullet_group_spec()),
        !interacts(dropped_item_groups_spec(), enemy_groups_spec()),
        !interacts(dropped_item_groups_spec(), flying_enemy_groups_spec()),
        !interacts(dropped_item_groups_spec(), enemy_bullet_group_spec()),
{
    assert(interacts(dropped_item_groups_spec(), player_groups_spec())) by (bit_vector);
    assert(interacts(dropped_item_groups_spec(), player_bullet_group_spec())) by (bit_vector);
    assert(!interacts(dropped_item_groups_spec(), enemy_groups_spec())) by (bit_vector);
    assert(!interacts(dropped_item_groups_spec(), flying_enemy_groups_spec())) by (bit_vector);
    assert(!interacts(dropped_item_groups_spec(), enemy_bullet_group_spec())) by (bit_vector);
}

/// A hidden shadow still runs into walls and actors, but no bullet hits it.
pub proof fn lemma_hidden_shadow_dodges_bullets()
    ensures
        interacts(shadow_groups_spec(), wall_groups_spec()),
        interacts(shadow_groups_spec(), player_groups_spec()),
        interacts(shadow_groups_spec(), enemy_groups_spec()),
        !interacts(shadow_groups_spec(), player_bullet_group_spec()),
        !interacts(shadow_groups_spec(), enemy_bullet_group_spec()),
{
    assert(interacts(shadow_groups_spec(), wall_groups_spec())) by (bit_vector);
    assert(interacts(shadow_groups_spec(), player_groups_spec())) by (bit_vector);
    assert(interacts(shadow_groups_spec(), enemy_groups_spec())) by (bit_vector);
    assert(!interacts(shadow_groups_spec(), player_bullet_group_spec())) by (bit_vector);
    assert(!interacts(shadow_groups_spec(), enemy_bullet_group_spec())) by (bit_vector);
}

/// Sensors touch every actor and furniture, and other sensors too (so that
/// a bomb's blast can break a web).
pub proof fn lemma_sensors_touch_sensors()
    ensures
        interacts(sensor_groups_spec(), sensor_groups_spec()),
        interacts(sensor_groups_spec(), player_groups_spec()),
        interacts(sensor_groups_spec(), enemy_groups_spec()),
        interacts(sensor_groups_spec(), neutral_groups_spec()),
        interacts(sensor_groups_spec(), entity_groups_spec()),
        interacts(sensor_groups_spec(), shadow_groups_spec()),
{
    assert(interacts(sensor_groups_spec(), sensor_groups_spec())) by (bit_vector);
    assert(interacts(sensor_groups_spec(), player_groups_spec())) by (bit_vector);
    assert(interacts(sensor_groups_spec(), enemy_groups_spec())) by (bit_vector);
    assert(interacts(sensor_groups_spec(), neutral_groups_spec())) by (bit_vector);
    assert(interacts(sensor_groups_spec(), entity_groups_spec())) by (bit_vector);
    assert(interacts(sensor_groups_spec(), shadow_groups_spec())) by (bit_vector);
}

/// Shards scatter against walls without getting in the way of players or
/// enemies.
pub proof fn lemma_pieces_stay_out_of_the_way()
    ensures
        interacts(piece_groups_spec(), wall_groups_spec()),
        !interacts(piece_groups_spec(), player_groups_spec()),
        !interacts(piece_groups_spec(), enemy_groups_spec()),
{
    assert(interacts(piece_groups_spec(), wall_groups_spec())) by (bit_vector);
    assert(!interacts(piece_groups_spec(), player_groups_spec())) by (bit_vector);
    assert(!interacts(piece_groups_spec(), enemy_groups_spec())) by (bit_vector);
}

/// The shop's invisible wall keeps goods in but lets players through.
pub proof fn lemma_hidden_wall_keeps_goods_in()
    ensures
        interacts(hidden_wall_groups_spec(), dropped_item_groups_spec()),
        !interacts(hidden_wall_groups_spec(), player_groups_spec()),
        !interacts(hidden_wall_groups_spec(), flying_player_groups_spec()),
{
    assert(interacts(hidden_wall_groups_spec(), dropped_item_groups_spec())) by (bit_vector);
    assert(!interacts(hidden_wall_groups_spec(), player_groups_spec())) by (bit_vector);
    assert(!interacts(hidden_wall_groups_spec(), flying_player_groups_spec())) by (bit_vector);
}

/// Neutral creatures and furniture fire no bullets: the groups their
/// bullets would take touch nothing.
pub proof fn lemma_neutral_bullets_touch_nothing(group: ActorGroup, other: CollisionGroups)
    requires
        group == ActorGroup::Neutral || group == ActorGroup::Entity,
    ensures
        !interacts(bullet_group_spec(group), other),
{
    let f = other.filters;
    assert((0u32 & f) == 0) by (bit_vector);
    assert(bullet_group_spec(group).memberships == 0);
}

/// Whether two bodies touch does not depend on which one is asked first.
pub proof fn lemma_interacts_symmetric(a: CollisionGroups, b: CollisionGroups)
    ensures
        interacts(a, b) == interacts(b, a),
{
}


/// Walls stop every actor, on either side or neither, walking, flying or
/// drowning, and every bullet that a side fires; water, sensors, hidden
/// walls and other walls pass through them.
pub proof fn lemma_walls_stop_actors(group: ActorGroup, airborne: bool, drowning: u32)
    ensures
        interacts(wall_groups_spec(), actor_groups_spec(group, airborne, drowning)),
        group == ActorGroup::Friend || group == ActorGroup::Enemy ==> interacts(
            wall_groups_spec(),
            bullet_group_spec(group),
        ),
        !interacts(wall_groups_spec(), water_groups_spec()),
        !interacts(wall_groups_spec(), sensor_groups_spec()),
        !interacts(wall_groups_spec(), hidden_wall_groups_spec()),
        !interacts(wall_groups_spec(), wall_groups_spec()),
{
    assert({
        &&& interacts(wall_groups_spec(), player_groups_spec())
        &&& interacts(wall_groups_spec(), flying_player_groups_spec())
        &&& interacts(wall_groups_spec(), enemy_groups_spec())
        &&& interacts(wall_groups_spec(), flying_enemy_groups_spec())
        &&& interacts(wall_groups_spec(), neutral_groups_spec())
        &&& interacts(wall_groups_spec(), flying_neutral_groups_spec())
        &&& interacts(wall_groups_spec(), player_bullet_group_spec())
        &&& interacts(wall_groups_spec(), enemy_bullet_group_spec())
        &&& !interacts(wall_groups_spec(), water_groups_spec())
        &&& !interacts(wall_groups_spec(), sensor_groups_spec())
        &&& !interacts(wall_groups_spec(), hidden_wall_groups_spec())
        &&& !interacts(wall_groups_spec(), wall_groups_spec())
    }) by (bit_vector);
}

/// Actors bump into one another whatever their sides, on the ground or in
/// the air.
pub proof fn lemma_actors_bump_into_each_other(
    g1: ActorGroup,
    airborne1: bool,
    drowning1: u32,
    g2: ActorGroup,
    airborne2: bool,
    drowning2: u32,
)
    ensures
        interacts(
            actor_groups_spec(g1, airborne1, drowning1),
            actor_groups_spec(g2, airborne2, drowning2),
        ),
{
    let p = player_groups_spec();
    let fp = flying_player_groups_spec();
    let e = enemy_groups_spec();
    let fe = flying_enemy_groups_spec();
    let n = neutral_groups_spec();
    let fnn = flying_neutral_groups_spec();
    assert({
        &&& interacts(player_groups_spec(), player_groups_spec())
        &&& interacts(player_groups_spec(), flying_player_groups_spec())
        &&& interacts(player_groups_spec(), enemy_groups_spec())
        &&& interacts(player_groups_spec(), flying_enemy_groups_spec())
        &&& interacts(player_groups_spec(), neutral_groups_spec())
        &&& interacts(player_groups_spec(), flying_neutral_groups_spec())
        &&& interacts(flying_player_groups_spec(), flying_player_groups_spec())
        &&& interacts(flying_player_groups_spec(), enemy_groups_spec())
        &&& interacts(flying_player_groups_spec(), flying_enemy_groups_spec())
        &&& interacts(flying_player_groups_spec(), neutral_groups_spec())
        &&& interacts(flying_player_groups_spec(), flying_neutral_groups_spec())
        &&& interacts(enemy_groups_spec(), enemy_groups_spec())
        &&& interacts(enemy_groups_spec(), flying_enemy_groups_spec())
        &&& interacts(enemy_groups_spec(), neutral_groups_spec())
        &&& interacts(enemy_groups_spec(), flying_neutral_groups_spec())
        &&& interacts(flying_enemy_groups_spec(), flying_enemy_groups_spec())
        &&& interacts(flying_enemy_groups_spec(), neutral_groups_spec())
        &&& interacts(flying_enemy_groups_spec(), flying_neutral_groups_spec())
        &&& interacts(neutral_groups_spec(), neutral_groups_spec())
        &&& interacts(neutral_groups_spec(), flying_neutral_groups_spec())
        &&& interacts(flying_neutral_groups_spec(), flying_neutral_groups_spec())
    }) by (bit_vector);
    let a = actor_groups_spec(g1, airborne1, drowning1);
    let b = actor_groups_spec(g2, airborne2, drowning2);
    assert(a == p || a == fp || a == e || a == fe || a == n || a == fnn);
    assert(b == p || b == fp || b == e || b == fe || b == n || b == fnn);
}

} // verus!
