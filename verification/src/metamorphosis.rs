//! Transformation: a spell that turns its target into another kind of
//! actor for a while.
use vstd::prelude::*;
use crate::actor::get_default_actor;
use crate::actor::made_from;
use crate::actor::Actor;
use crate::actor::ActorProps;
use crate::actor::ActorGroup;
use crate::random::choose_from;
use crate::random::random_bool;
use crate::spell::ActorType;

verus! {

/// The kinds a transformation can pick from.
pub open spec fn metamorphosis_kinds() -> Seq<Seq<char>> {
    seq![
        "Slime"@,
        "EyeBall"@,
        "Shadow"@,
        "Spider"@,
        "Salamander"@,
        "Chicken"@,
        "Sandbag"@,
        "Lantern"@,
        "Chest"@,
        "BookShelf"@,
    ]
}

/// The kinds a transformation can pick from, in order.
pub fn metamorphosis_candidates() -> (r: Vec<ActorType>)
    ensures
        r@.len() == metamorphosis_kinds().len(),
        forall|i: int| 0 <= i < r@.len() ==> (#[trigger] r@[i])@ == metamorphosis_kinds()[i],
{
    let mut v: Vec<ActorType> = Vec::new();
    v.push(ActorType::new("Slime"));
    v.push(ActorType::new("EyeBall"));
    v.push(ActorType::new("Shadow"));
    v.push(ActorType::new("Spider"));
    v.push(ActorType::new("Salamander"));
    v.push(ActorType::new("Chicken"));
    v.push(ActorType::new("Sandbag"));
    v.push(ActorType::new("Lantern"));
    v.push(ActorType::new("Chest"));
    v.push(ActorType::new("BookShelf"));
    v
}

/// A random kind to transform into, other than `except`: one of the kinds
/// of `metamorphosis_kinds`, chosen with `choose_from`.
pub fn random_actor_type(except: &ActorType) -> (r: ActorType)
    ensures
        r@ != except@,
        metamorphosis_kinds().contains(r@),
{
    let all = metamorphosis_candidates();
    let mut candidates: Vec<ActorType> = Vec::new();
    let mut i: usize = 0;
    while i < all.len()
        invariant
            i <= all@.len(),
            all@.len() == metamorphosis_kinds().len(),
            forall|k: int| 0 <= k < all@.len() ==> (#[trigger] all@[k])@ == metamorphosis_kinds()[k],
            forall|k: int|
                0 <= k < candidates@.len() ==> (#[trigger] candidates@[k])@ != except@
                    && metamorphosis_kinds().contains(candidates@[k]@),
            forall|k: int| 0 <= k < i && (#[trigger] all@[k])@ != except@ ==> candidates@.len() > 0,
        decreases all@.len() - i,
    {
        if !all[i].same(except) {
            proof {
                assert(metamorphosis_kinds()[i as int] == all@[i as int]@);
            }
            candidates.push(all[i].clone());
            proof {
                assert(candidates@[candidates@.len() - 1]@ == all@[i as int]@);
            }
        }
        i = i + 1;
    }
    proof {
        reveal_strlit("Slime");
        reveal_strlit("EyeBall");
        assert("Slime"@[0] != "EyeBall"@[0]);
        assert(all@[0]@ != all@[1]@);
        assert(candidates@.len() > 0);
    }
    let chosen = choose_from(candidates.as_slice());
    match chosen {
        Some(t) => {
            proof {
                let k = choose|k: int| 0 <= k < candidates@.len() && candidates@[k] == *t;
                assert(candidates@[k]@ == t@);
            }
            t.clone()
        },
        None => {
            proof {
                assert(false);
            }
            ActorType::new("Slime")
        },
    }
}

/// The side of the transformed actor: furniture stays furniture, an actor
/// that was furniture joins a side at the toss of `coin` (friend when it
/// comes up true), and any other actor keeps its side.
pub open spec fn morphed_group_spec(original: ActorGroup, dest: ActorGroup, coin: bool) -> ActorGroup {
    match (original, dest) {
        (_, ActorGroup::Entity) => ActorGroup::Entity,
        (ActorGroup::Entity, _) => if coin {
            ActorGroup::Friend
        } else {
            ActorGroup::Enemy
        },
        _ => original,
    }
}

/// The side of the transformed actor (see `morphed_group_spec`).
pub fn morphed_group(original: ActorGroup, dest: ActorGroup, coin: bool) -> (r: ActorGroup)
    ensures
        r == morphed_group_spec(original, dest, coin),
{
    match (original, dest) {
        (_, ActorGroup::Entity) => ActorGroup::Entity,
        (ActorGroup::Entity, _) => if coin {
            ActorGroup::Friend
        } else {
            ActorGroup::Enemy
        },
        _ => original,
    }
}

/// The side of the transformed actor, tossing a coin with `random_bool`
/// where one is needed.
pub fn random_morphed_group(original: ActorGroup, dest: ActorGroup) -> (r: ActorGroup)
    ensures
        dest == ActorGroup::Entity ==> r == ActorGroup::Entity,
        dest != ActorGroup::Entity && original == ActorGroup::Entity ==> (r == ActorGroup::Friend
            || r == ActorGroup::Enemy),
        dest != ActorGroup::Entity && original != ActorGroup::Entity ==> r == original,
{
    let coin = random_bool();
    morphed_group(original, dest, coin)
}

/// The rounded-up fraction of life left: zero for no life left, one for
/// any life up to the maximum, and beyond the maximum the quotient rounded
/// up (an actor with no maximum counts as the largest factor a 32-bit
/// number holds).
pub open spec fn life_factor(life: u32, max_life: u32) -> int {
    if life == 0 {
        0
    } else if life <= max_life {
        1
    } else if max_life == 0 {
        u32::MAX as int
    } else {
        (life + max_life - 1) / (max_life as int)
    }
}

/// The life after a change of form: the new form's full life times the
/// rounded-up fraction of life the old form had left.
pub open spec fn scaled_life(dest_life: u32, life: u32, max_life: u32) -> int {
    dest_life * life_factor(life, max_life)
}

/// A life can be scaled: the result fits a 32-bit number, and the fraction
/// is exact in single precision, as it is for any life up to the maximum,
/// with no maximum, or below 2^24.
pub open spec fn scales(dest_life: u32, life: u32, max_life: u32) -> bool {
    &&& scaled_life(dest_life, life, max_life) <= u32::MAX
    &&& (life <= max_life || max_life == 0 || life < 0x100_0000)
}

/// The life after a change of form (see `scaled_life`).
pub fn scale_life(dest_life: u32, life: u32, max_life: u32) -> (r: u32)
    requires
        scales(dest_life, life, max_life),
    ensures
        r == scaled_life(dest_life, life, max_life),
{
    let factor: u64 = if life == 0 {
        0
    } else if life <= max_life {
        1
    } else if max_life == 0 {
        0xFFFF_FFFF
    } else {
        (life as u64 + max_life as u64 - 1) / (max_life as u64)
    };
    assert(factor == life_factor(life, max_life));
    assert(factor <= 0xFFFF_FFFF) by {
        if 0 < life && life > max_life && max_life > 0 {
            assert((life + max_life - 1) / (max_life as int) <= life + max_life - 1) by (
            nonlinear_arith)
                requires
                    max_life >= 1,
                    life + max_life - 1 >= 0,
            ;
        }
    }
    let d: u64 = dest_life as u64;
    assert(d * factor <= 0xFFFF_FFFF_FFFF_FFFF) by (nonlinear_arith)
        requires
            d <= 0xFFFF_FFFF,
            factor <= 0xFFFF_FFFF,
    ;
    (d * factor) as u32
}

/// The time a transformation lasts, in frames.
pub const METAMORPHOSIS_FRAMES: u32 = 600;

/// A transformed actor, with the actor it came from.
pub struct Metamorphosed {
    /// Frames left; at zero the original comes back.
    pub count: u32,
    pub original_actor: Actor,
}

/// The transformation's countdown: while frames remain it counts down one;
/// at zero the actor turns back. Returns the new count and whether to
/// turn back.
pub fn revert(count: u32) -> (r: (u32, bool))
    ensures
        r == (if 0 < count { ((count - 1) as u32, false) } else { (0u32, true) }),
{
    if 0 < count {
        (count - 1, false)
    } else {
        (count, true)
    }
}

/// The actor a transformation makes of `original`, given `dest`, a fresh
/// actor of the new kind: `dest` with the original's fire states, the
/// side that `morphed_group_spec` gives for the toss `coin`, and its life
/// scaled by the original's (see `scaled_life`).
pub open spec fn morphed_actor(original: Actor, dest: Actor, coin: bool) -> Actor {
    Actor {
        fire_state: original.fire_state,
        fire_state_secondary: original.fire_state_secondary,
        actor_group: morphed_group_spec(original.actor_group, dest.actor_group, coin),
        life: scaled_life(dest.life, original.life, original.max_life) as u32,
        ..dest
    }
}

/// Transforms `actor` into a fresh actor of kind `morphed_type`, whose
/// registry entry is `props`. An actor that is already transformed is
/// taken back to the actor it came from first, so that the original is
/// kept whatever the number of transformations. The new form lasts
/// `METAMORPHOSIS_FRAMES` and keeps the original.
pub fn cast_metamorphosis(
    actor: Actor,
    morph: Option<Metamorphosed>,
    props: &ActorProps,
    morphed_type: &ActorType,
) -> (r: (Actor, Metamorphosed))
    requires
        match morph {
            Some(m) => scales(props.life, m.original_actor.life, m.original_actor.max_life),
            None => scales(props.life, actor.life, actor.max_life),
        },
    ensures
        r.1.count == METAMORPHOSIS_FRAMES,
        r.1.original_actor == (match morph {
            Some(m) => m.original_actor,
            None => actor,
        }),
        exists|dest: Actor, coin: bool|
            made_from(dest, props, *morphed_type) && r.0 == #[trigger] morphed_actor(
                r.1.original_actor,
                dest,
                coin,
            ),
{
    let original = match morph {
        Some(m) => m.original_actor,
        None => actor,
    };
    let dest = get_default_actor(props, morphed_type);
    let ghost dest0 = dest;
    let coin = random_bool();
    let group = morphed_group(original.actor_group, dest.actor_group, coin);
    let life = scale_life(dest.life, original.life, original.max_life);
    let mut result = dest;
    result.fire_state = original.fire_state;
    result.fire_state_secondary = original.fire_state_secondary;
    result.actor_group = group;
    result.life = life;
    assert(result == morphed_actor(original, dest0, coin));
    (result, Metamorphosed { count: METAMORPHOSIS_FRAMES, original_actor: original })
}

/// The actor that comes back when a transformation ends: the original,
/// with the fire states of the form it leaves (so that a cast begun just
/// before the change does not start again), and its life scaled by the
/// form's (see `scaled_life`).
pub open spec fn turned_back(m: Metamorphosed, form: Actor) -> Actor {
    Actor {
        fire_state: form.fire_state,
        fire_state_secondary: form.fire_state_secondary,
        life: scaled_life(m.original_actor.life, form.life, form.max_life) as u32,
        ..m.original_actor
    }
}

/// The actor that comes back when a transformation ends (see
/// `turned_back`).
pub fn turn_back(m: Metamorphosed, form: &Actor) -> (r: Actor)
    requires
        scales(m.original_actor.life, form.life, form.max_life),
    ensures
        r == turned_back(m, *form),
{
    let mut original = m.original_actor;
    original.fire_state = form.fire_state;
    original.fire_state_secondary = form.fire_state_secondary;
    original.life = scale_life(original.life, form.life, form.max_life);
    original
}

/// A transformation undone while the form still lives gives back the very
/// actor that was transformed, as long as the form's fire states are the
/// ones it took from it, and both lives are within their maximums.
pub proof fn lemma_turn_back_restores(a: Actor, dest: Actor, coin: bool, count: u32)
    requires
        0 < a.life <= a.max_life,
        0 < dest.life <= dest.max_life,
    ensures
        turned_back(
            Metamorphosed { count, original_actor: a },
            morphed_actor(a, dest, coin),
        ) == a,
{
}


/// A transformation never changes the side of a fighter: the new form is
/// furniture exactly when the form taken is furniture, an actor of a side
/// keeps it in any other form, and furniture taking a fighter's form joins
/// the side the coin picks.
pub proof fn lemma_transformation_keeps_sides(original: ActorGroup, dest: ActorGroup, coin: bool)
    ensures
        (morphed_group_spec(original, dest, coin) == ActorGroup::Entity) == (dest
            == ActorGroup::Entity),
        original != ActorGroup::Entity && dest != ActorGroup::Entity ==> morphed_group_spec(
            original,
            dest,
            coin,
        ) == original,
        original == ActorGroup::Entity && dest != ActorGroup::Entity ==> morphed_group_spec(
            original,
            dest,
            coin,
        ) == (if coin {
            ActorGroup::Friend
        } else {
            ActorGroup::Enemy
        }),
        morphed_group_spec(original, dest, true) != morphed_group_spec(original, dest, false)
            ==> original == ActorGroup::Entity,
{
}

/// A change of form gives the new form its full life when the old form had
/// any life up to its maximum, and none when it had none; more life than
/// the maximum gives a whole multiple of the new form's life, at least the
/// fraction of the maximum it stands for.
pub proof fn lemma_life_carries_over(dest_life: u32, life: u32, max_life: u32)
    ensures
        0 < life <= max_life ==> scaled_life(dest_life, life, max_life) == dest_life,
        life == 0 ==> scaled_life(dest_life, life, max_life) == 0,
        0 < max_life < life ==> life_factor(life, max_life) * max_life >= life,
        0 < max_life < life ==> (life_factor(life, max_life) - 1) * max_life < life,
{
    if 0 < max_life < life {
        let f = life_factor(life, max_life);
        assert(f == (life + max_life - 1) / (max_life as int));
        assert(f * max_life >= life && (f - 1) * max_life < life) by (nonlinear_arith)
            requires
                f == (life + max_life - 1) / (max_life as int),
                0 < max_life,
                0 < life,
        {
            let n = life + max_life - 1;
            assert(n == f * max_life + n % (max_life as int));
            assert(0 <= n % (max_life as int) < max_life);
        }
    }
}

} // verus!
