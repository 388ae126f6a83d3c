//! The player: the spells discovered so far, switching wands, picking up
//! golds, the triggers, and going home after a defeat.
use vstd::prelude::*;
use crate::actor::Actor;
use crate::actor::ActorFireState;
use crate::actor::ActorState;
use crate::actor::distinct_names;
use crate::actor::insert_name;
use crate::actor::spell_names;
use crate::constant::MAX_WANDS;
use crate::spell::Spell;
use crate::wand::Wand;

verus! {

/// The player's own record, beside the actor it controls.
pub struct Player {
    pub name: String,
    /// Every spell the player has ever owned, each name once.
    pub discovered_spells: Vec<Spell>,
    pub broken_chests: u32,
    /// The frame of the last position sent to the other players.
    pub last_idle_frame_count: u32,
    pub last_idle_life: u32,
    pub last_idle_max_life: u32,
}

impl Player {
    /// A new player record with the given name and discovered spells
    /// (duplicate names are kept once).
    pub fn new(name: String, discovered_spells: &Vec<Spell>) -> (r: Player)
        ensures
            r.name == name,
            distinct_names(r.discovered_spells@),
            spell_names(r.discovered_spells@) == spell_names(discovered_spells@),
            r.broken_chests == 0,
            r.last_idle_frame_count == 0,
            r.last_idle_life == 0,
            r.last_idle_max_life == 0,
    {
        let mut found: Vec<Spell> = Vec::new();
        let mut i: usize = 0;
        while i < discovered_spells.len()
            invariant
                i <= discovered_spells@.len(),
                distinct_names(found@),
                spell_names(found@) == spell_names(discovered_spells@.take(i as int)),
            decreases discovered_spells@.len() - i,
        {
            insert_name(&mut found, discovered_spells[i].clone());
            proof {
                let t = discovered_spells@.take(i + 1);
                assert(spell_names(t) =~= spell_names(discovered_spells@.take(i as int)).insert(
                    discovered_spells@[i as int]@,
                )) by {
                    assert forall|n: Seq<char>| #[trigger] spell_names(t).contains(n) implies spell_names(
                        discovered_spells@.take(i as int),
                    ).insert(discovered_spells@[i as int]@).contains(n) by {
                        let k = choose|k: int| 0 <= k < t.len() && t[k]@ == n;
                        if k < i {
                            assert(discovered_spells@.take(i as int)[k]@ == n);
                        }
                    }
                    assert forall|n: Seq<char>| #[trigger] spell_names(
                        discovered_spells@.take(i as int),
                    ).insert(discovered_spells@[i as int]@).contains(n) implies spell_names(
                        t,
                    ).contains(n) by {
                        if n == discovered_spells@[i as int]@ {
                            assert(t[i as int]@ == n);
                        } else {
                            let k = choose|k: int|
                                0 <= k < i && discovered_spells@.take(i as int)[k]@ == n;
                            assert(t[k]@ == n);
                        }
                    }
                }
            }
            i = i + 1;
        }
        proof {
            assert(discovered_spells@.take(i as int) =~= discovered_spells@);
        }
        Player {
            name,
            discovered_spells: found,
            broken_chests: 0,
            last_idle_frame_count: 0,
            last_idle_life: 0,
            last_idle_max_life: 0,
        }
    }

    /// Adds the spells the actor owns (see `Actor::owned_names`) to the
    /// discovered spells.
    pub fn update_discovered_spells(&mut self, actor: &Actor)
        requires
            distinct_names(old(self).discovered_spells@),
        ensures
            distinct_names(final(self).discovered_spells@),
            spell_names(final(self).discovered_spells@) == spell_names(
                old(self).discovered_spells@,
            ).union(actor.owned_names()),
            *final(self) == (Player { discovered_spells: final(self).discovered_spells, ..*old(self) }),
    {
        let owned = actor.get_owned_spell_types();
        let ghost start = spell_names(self.discovered_spells@);
        let mut i: usize = 0;
        while i < owned.len()
            invariant
                i <= owned@.len(),
                distinct_names(self.discovered_spells@),
                spell_names(self.discovered_spells@) == start.union(
                    spell_names(owned@.take(i as int)),
                ),
                spell_names(owned@) == actor.owned_names(),
                *self == (Player { discovered_spells: self.discovered_spells, ..*old(self) }),
            decreases owned@.len() - i,
        {
            insert_name(&mut self.discovered_spells, owned[i].clone());
            proof {
                let t = owned@.take(i + 1);
                assert(spell_names(t) =~= spell_names(owned@.take(i as int)).insert(
                    owned@[i as int]@,
                )) by {
                    assert forall|n: Seq<char>| #[trigger] spell_names(t).contains(n) implies spell_names(
                        owned@.take(i as int),
                    ).insert(owned@[i as int]@).contains(n) by {
                        let k = choose|k: int| 0 <= k < t.len() && t[k]@ == n;
                        if k < i {
                            assert(owned@.take(i as int)[k]@ == n);
                        }
                    }
                    assert forall|n: Seq<char>| #[trigger] spell_names(owned@.take(i as int)).insert(
                        owned@[i as int]@,
                    ).contains(n) implies spell_names(t).contains(n) by {
                        if n == owned@[i as int]@ {
                            assert(t[i as int]@ == n);
                        } else {
                            let k = choose|k: int| 0 <= k < i && owned@.take(i as int)[k]@ == n;
                            assert(t[k]@ == n);
                        }
                    }
                }
                assert(spell_names(self.discovered_spells@) =~= start.union(spell_names(t)));
            }
            i = i + 1;
        }
        proof {
            assert(owned@.take(i as int) =~= owned@);
        }
    }
}

/// Turning the mouse wheel: one notch (`-1`, `0` or `1`, its sign) moves
/// the current wand the other way, kept among all wands but the last,
/// which belongs to the secondary trigger. Returns the new wand and
/// whether it changed (which plays a click).
pub fn switch_wand(current: u8, notch: i32) -> (r: (u8, bool))
    requires
        -1 <= notch <= 1,
        current < MAX_WANDS,
    ensures
        r.0 as int == (if current - notch < 0 {
            0
        } else if current - notch > MAX_WANDS - 2 {
            MAX_WANDS - 2
        } else {
            current - notch
        }),
        r.1 == (r.0 != current),
{
    let next_i = current as i32 - notch;
    let next: u8 = if next_i < 0 {
        0
    } else if next_i > (MAX_WANDS as i32) - 2 {
        (MAX_WANDS - 2) as u8
    } else {
        next_i as u8
    };
    (next, next != current)
}

/// Golds within reach go into the purse, one each.
pub fn pick_gold(golds: u32, picked: u32) -> (r: u32)
    requires
        golds + picked <= u32::MAX,
    ensures
        r == golds + picked,
{
    golds + picked
}

/// The primary and secondary triggers: while the menu is open both are
/// released; otherwise each trigger follows its mouse button, and pressing
/// a button on an empty wand makes a misfire sound. An actor getting up is
/// left alone. Returns the number of misfire sounds.
pub fn actor_cast(
    actor: &mut Actor,
    menu_open: bool,
    left_pressed: bool,
    left_just_pressed: bool,
    right_pressed: bool,
    right_just_pressed: bool,
) -> (r: u32)
    requires
        old(actor).wf(),
    ensures
        0 < old(actor).getting_up ==> *final(actor) == *old(actor) && r == 0,
        old(actor).getting_up == 0 && menu_open ==> final(actor).fire_state
            == ActorFireState::Idle && final(actor).fire_state_secondary == ActorFireState::Idle
            && r == 0,
        old(actor).getting_up == 0 && !menu_open ==> {
            let empty_primary = forall|i: int|
                0 <= i < old(actor).wands@[old(actor).current_wand as int].slots@.len()
                    ==> (#[trigger] old(actor).wands@[old(actor).current_wand as int].slots@[i]) is None;
            let empty_secondary = forall|i: int|
                0 <= i < old(actor).wands@[MAX_WANDS - 1].slots@.len() ==> (#[trigger] old(
                    actor,
                ).wands@[MAX_WANDS - 1].slots@[i]) is None;
            &&& final(actor).fire_state == (if left_pressed {
                ActorFireState::Fire
            } else {
                ActorFireState::Idle
            })
            &&& final(actor).fire_state_secondary == (if right_pressed {
                ActorFireState::Fire
            } else {
                ActorFireState::Idle
            })
            &&& r == (if empty_primary && left_just_pressed { 1u32 } else { 0u32 }) + (if empty_secondary
                && right_just_pressed {
                1u32
            } else {
                0u32
            })
        },
        *final(actor) == (Actor {
            fire_state: final(actor).fire_state,
            fire_state_secondary: final(actor).fire_state_secondary,
            ..*old(actor)
        }),
{
    if 0 < actor.getting_up {
        return 0;
    }
    if menu_open {
        actor.fire_state = ActorFireState::Idle;
        actor.fire_state_secondary = ActorFireState::Idle;
        return 0;
    }
    let mut sounds: u32 = 0;
    actor.fire_state = if left_pressed {
        ActorFireState::Fire
    } else {
        ActorFireState::Idle
    };
    if actor.wands[actor.current_wand as usize].is_empty() && left_just_pressed {
        sounds = sounds + 1;
    }
    actor.fire_state_secondary = if right_pressed {
        ActorFireState::Fire
    } else {
        ActorFireState::Idle
    };
    if actor.wands[actor.wands.len() - 1].is_empty() && right_just_pressed {
        sounds = sounds + 1;
    }
    sounds
}

/// Walking: while the menu is closed the actor runs when a direction is
/// held and idles otherwise; with the menu open it stops. An actor getting
/// up is left alone. Returns whether the actor keeps the held direction
/// (otherwise it stops moving).
pub fn move_player(actor: &mut Actor, menu_open: bool, direction_held: bool) -> (r: bool)
    ensures
        0 < old(actor).getting_up ==> *final(actor) == *old(actor),
        old(actor).getting_up == 0 ==> final(actor).state == (if !menu_open && direction_held {
            ActorState::Run
        } else {
            ActorState::Idle
        }) && r == !menu_open && *final(actor) == (Actor { state: final(actor).state, ..*old(actor) }),
{
    if 0 < actor.getting_up {
        return true;
    }
    if menu_open {
        actor.state = ActorState::Idle;
        false
    } else {
        actor.state = if direction_held {
            ActorState::Run
        } else {
            ActorState::Idle
        };
        true
    }
}

/// The record kept of the player to restore after a defeat: back home with
/// full life. The actor restored is the original one if the player was
/// transformed.
pub fn recovery(actor: &Actor, original: Option<&Actor>) -> (r: (u32, u32))
    ensures
        r == (match original {
            Some(o) => (o.max_life, o.max_life),
            None => (actor.max_life, actor.max_life),
        }),
{
    let restored = match original {
        Some(o) => o,
        None => actor,
    };
    (restored.max_life, restored.max_life)
}

/// The level the player goes back to after a defeat.
pub fn home_level() -> (r: &'static str)
    ensures
        r@ == "level_0_0"@,
{
    "level_0_0"
}

/// Clones controlled by the player carry the player's wands: each gets a
/// copy of them.
pub fn sync_wands(original: &Vec<Wand>) -> (r: Vec<Wand>)
    ensures
        r@.len() == original@.len(),
        forall|w: int|
            0 <= w < original@.len() ==> (#[trigger] r@[w]).slots@ == original@[w].slots@
                && r@[w].index == original@[w].index && r@[w].delay == original@[w].delay,
{
    let mut wands: Vec<Wand> = Vec::new();
    let mut w: usize = 0;
    while w < original.len()
        invariant
            w <= original@.len(),
            wands@.len() == w,
            forall|v: int|
                0 <= v < w ==> (#[trigger] wands@[v]).slots@ == original@[v].slots@
                    && wands@[v].index == original@[v].index && wands@[v].delay
                    == original@[v].delay,
        decreases original@.len() - w,
    {
        wands.push(original[w].with_cursor(original[w].index, original[w].delay));
        w = w + 1;
    }
    wands
}

} // verus!
