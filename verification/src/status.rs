//! The per-frame rules of an actor's status: freezing, staggering,
//! levitation, drowning, fire, damage, webs and death.
use vstd::prelude::*;
use crate::actor::Actor;
use crate::actor::ActorState;
use crate::collision::actor_groups_spec;
use crate::collision::CollisionGroups;
use crate::random::random_u32;
use crate::remote::as_signed;

verus! {

/// The kind of floor tile under an actor, as far as its rules go.
#[derive(Clone, Copy, Debug, PartialEq, Eq, Structural)]
pub enum TileKind {
    Water,
    Lava,
    Crack,
    Ice,
    Other,
}

/// Thawing: each frame the frozen count drops by the kind's thaw rate and
/// stops at zero.
pub fn defreeze(frozen: u32, rate: u32) -> (r: u32)
    ensures
        r == (if rate <= frozen { frozen - rate } else { 0 }),
        r <= frozen,
{
    if rate <= frozen {
        frozen - rate
    } else if 0 < frozen {
        0
    } else {
        frozen
    }
}

/// Recovering from a stagger: each frame the stagger drops by the kind's
/// poise and stops at zero.
pub fn stagger(staggered: u32, poise: u32) -> (r: u32)
    ensures
        r == (if poise < staggered { staggered - poise } else { 0 }),
        r <= staggered,
{
    if poise < staggered {
        staggered - poise
    } else {
        0
    }
}

/// Levitation wears off by one each frame, but a kind that always
/// levitates never drops below 240.
pub fn decrement_levitation(levitation: u32, auto_levitation: bool) -> (r: u32)
    ensures
        r == (if auto_levitation && (if 0 < levitation { levitation - 1 } else { 0 }) <= 240 {
            240
        } else if 0 < levitation {
            (levitation - 1) as int
        } else {
            0
        }),
{
    let mut l = levitation;
    if 0 < l {
        l = l - 1;
    }
    if l <= 240 && auto_levitation {
        l = 240;
    }
    l
}

/// The getting-up animation counts down to zero.
pub fn getting_up(count: u32) -> (r: u32)
    ensures
        r == (if 0 < count { count - 1 } else { 0 }),
{
    if 0 < count {
        count - 1
    } else {
        count
    }
}

/// A clone's remaining time counts down to zero; an original stays one.
pub fn decrement_cloned(cloned: Option<u32>) -> (r: Option<u32>)
    ensures
        r == (match cloned {
            Some(c) => Some(if 0 < c { (c - 1) as u32 } else { 0 }),
            None => None,
        }),
{
    match cloned {
        Some(c) => Some(if 0 < c { c - 1 } else { c }),
        None => None,
    }
}

/// Drowning: an actor standing on water or lava, neither levitating nor
/// above the ground, counts up one frame and splashes on the first;
/// otherwise the count is back to zero. Returns the new count and whether
/// it splashed.
pub fn drown(count: u32, levitation: u32, airborne: bool, in_liquid: bool) -> (r: (u32, bool))
    requires
        count < u32::MAX,
    ensures
        r.0 == (if levitation == 0 && !airborne && in_liquid { count + 1 } else { 0 }),
        r.1 == (levitation == 0 && !airborne && in_liquid && count == 0),
{
    if levitation == 0 && !airborne {
        if in_liquid {
            (count + 1, count == 0)
        } else {
            (0, false)
        }
    } else {
        (0, false)
    }
}

/// What the floor does to an actor this frame.
#[derive(Clone, Copy, Debug, PartialEq, Eq, Structural)]
pub enum DrownOutcome {
    Nothing,
    /// The actor takes this much damage.
    Damage(u32),
    /// The actor falls through a crack and is gone.
    Fall,
}

/// Drowning damage: after sixty frames in water the actor takes three, after
/// twenty frames in lava ten, and either way its drowning count goes back
/// to zero; an actor on the ground over a crack falls. Returns what happens
/// and the new drowning count.
pub open spec fn drown_damage_spec(tile: TileKind, drown: u32, airborne: bool) -> (DrownOutcome, u32) {
    match tile {
        TileKind::Water => if 60 < drown {
            (DrownOutcome::Damage(3), 0u32)
        } else {
            (DrownOutcome::Nothing, drown)
        },
        TileKind::Lava => if 20 < drown {
            (DrownOutcome::Damage(10), 0u32)
        } else {
            (DrownOutcome::Nothing, drown)
        },
        TileKind::Crack => if !airborne {
            (DrownOutcome::Fall, drown)
        } else {
            (DrownOutcome::Nothing, drown)
        },
        _ => (DrownOutcome::Nothing, drown),
    }
}

/// Drowning damage (see `drown_damage_spec`).
pub fn drown_damage(tile: TileKind, drown: u32, airborne: bool) -> (r: (DrownOutcome, u32))
    ensures
        r == drown_damage_spec(tile, drown, airborne),
{
    match tile {
        TileKind::Water => if 60 < drown {
            (DrownOutcome::Damage(3), 0)
        } else {
            (DrownOutcome::Nothing, drown)
        },
        TileKind::Lava => if 20 < drown {
            (DrownOutcome::Damage(10), 0)
        } else {
            (DrownOutcome::Nothing, drown)
        },
        TileKind::Crack => if !airborne {
            (DrownOutcome::Fall, drown)
        } else {
            (DrownOutcome::Nothing, drown)
        },
        _ => (DrownOutcome::Nothing, drown),
    }
}

/// Whether an actor looks for fire around it this frame: only once its wait
/// is over, and never for a kind that resists fire.
pub open spec fn seeks_fire(fire_damage_wait: u32, fire_resistance: bool) -> bool {
    fire_damage_wait == 0 && !fire_resistance
}

/// Fire nearby: an actor that looks for fire (see `seeks_fire`) and finds
/// some takes a burn of four. Returns whether it is burnt and its new wait,
/// which counts down to zero.
pub fn fire_damage(fire_damage_wait: u32, fire_resistance: bool, fire_found: bool) -> (r: (bool, u32))
    ensures
        r.0 == (seeks_fire(fire_damage_wait, fire_resistance) && fire_found),
        r.1 == (if 0 < fire_damage_wait { fire_damage_wait - 1 } else { 0 }),
{
    let burnt = fire_damage_wait == 0 && !fire_resistance && fire_found;
    let wait = if 0 < fire_damage_wait {
        fire_damage_wait - 1
    } else {
        fire_damage_wait
    };
    (burnt, wait)
}

/// What a hit does beyond the damage itself.
#[derive(Clone, Copy, Debug, PartialEq, Eq, Structural)]
pub enum DamageOutcome {
    Nothing,
    /// The hit carried a transformation and the actor survived it.
    Metamorphose,
    /// The hit carried a dispel: a transformed actor turns back.
    Dispel,
}

/// The life left after a hit: the damage is taken off, both read as
/// signed 32-bit numbers, and the result stops at zero.
pub open spec fn life_after(life: u32, damage: u32) -> u32 {
    if as_signed(life) - as_signed(damage) < 0 {
        0
    } else {
        (as_signed(life) - as_signed(damage)) as u32
    }
}

/// Whether a hit can be taken: the life less the damage, both read as
/// signed 32-bit numbers, fits a signed 32-bit number.
pub open spec fn hit_fits(life: u32, damage: u32) -> bool {
    i32::MIN <= as_signed(life) - as_signed(damage) <= i32::MAX
}

/// The life left after a hit (see `life_after`).
pub fn take_damage(life: u32, damage: u32) -> (r: u32)
    requires
        hit_fits(life, damage),
    ensures
        r == life_after(life, damage),
{
    let l: i64 = if life <= 0x7FFF_FFFF {
        life as i64
    } else {
        life as i64 - 0x1_0000_0000
    };
    let d: i64 = if damage <= 0x7FFF_FFFF {
        damage as i64
    } else {
        damage as i64 - 0x1_0000_0000
    };
    let v: i64 = l - d;
    if v < 0 {
        0
    } else {
        v as u32
    }
}

impl Actor {
    /// A hit, with `roll` the random number that sets how long fire leaves
    /// the actor alone: the damage is taken off the life (stopping at zero),
    /// the stagger added (up to 120 frames), and a burn makes fire wait
    /// sixty frames plus `roll` modulo sixty.
    pub fn apply_damage(
        &mut self,
        damage: u32,
        stagger: u32,
        fire: bool,
        metamorphose: bool,
        dispel: bool,
        roll: u32,
    ) -> (r: DamageOutcome)
        requires
            hit_fits(old(self).life, damage),
        ensures
            final(self).life == life_after(old(self).life, damage),
            final(self).staggered == (if old(self).staggered + stagger < 120 {
                (old(self).staggered + stagger) as int
            } else {
                120
            }),
            final(self).fire_damage_wait == (if fire {
                60 + roll % 60
            } else {
                old(self).fire_damage_wait as int
            }),
            r == (if metamorphose {
                if 0 < final(self).life {
                    DamageOutcome::Metamorphose
                } else {
                    DamageOutcome::Nothing
                }
            } else if dispel {
                DamageOutcome::Dispel
            } else {
                DamageOutcome::Nothing
            }),
            *final(self) == (Actor {
                life: final(self).life,
                staggered: final(self).staggered,
                fire_damage_wait: final(self).fire_damage_wait,
                ..*old(self)
            }),
    {
        self.life = take_damage(self.life, damage);
        let total: u64 = self.staggered as u64 + stagger as u64;
        self.staggered = if total < 120 {
            total as u32
        } else {
            120
        };
        if fire {
            self.fire_damage_wait = 60 + roll % 60;
        }
        if metamorphose {
            if 0 < self.life {
                DamageOutcome::Metamorphose
            } else {
                DamageOutcome::Nothing
            }
        } else if dispel {
            DamageOutcome::Dispel
        } else {
            DamageOutcome::Nothing
        }
    }

    /// A hit (see `apply_damage`), with a random roll for the burn.
    pub fn damage(
        &mut self,
        damage: u32,
        stagger: u32,
        fire: bool,
        metamorphose: bool,
        dispel: bool,
    ) -> (r: DamageOutcome)
        requires
            hit_fits(old(self).life, damage),
        ensures
            final(self).life == life_after(old(self).life, damage),
            final(self).staggered == (if old(self).staggered + stagger < 120 {
                (old(self).staggered + stagger) as int
            } else {
                120
            }),
            fire ==> 60 <= final(self).fire_damage_wait < 120,
            !fire ==> final(self).fire_damage_wait == old(self).fire_damage_wait,
            metamorphose ==> (r == DamageOutcome::Metamorphose <==> 0 < final(self).life),
            metamorphose && final(self).life == 0 ==> r == DamageOutcome::Nothing,
            !metamorphose ==> r == (if dispel {
                DamageOutcome::Dispel
            } else {
                DamageOutcome::Nothing
            }),
            *final(self) == (Actor {
                life: final(self).life,
                staggered: final(self).staggered,
                fire_damage_wait: final(self).fire_damage_wait,
                ..*old(self)
            }),
    {
        let roll = if fire {
            random_u32()
        } else {
            0
        };
        self.apply_damage(damage, stagger, fire, metamorphose, dispel, roll)
    }

    /// Walking against a web: while the actor tries to move and is
    /// trapped, the trap loosens by the kind's floundering strength, and
    /// when it comes free it cannot be caught again for 180 frames; each
    /// frame of trying to move also wears the protection down by one.
    /// Returns whether the actor came free this frame.
    pub fn struggle(&mut self, moving: bool, floundering: u32) -> (r: bool)
        requires
            moving && 0 < old(self).trapped ==> floundering <= old(self).trapped,
        ensures
            !moving ==> final(self).trapped == old(self).trapped && final(self).trap_moratorium
                == old(self).trap_moratorium && !r,
            moving ==> {
                let trapped = if 0 < old(self).trapped {
                    old(self).trapped - floundering
                } else {
                    0
                };
                let freed = 0 < old(self).trapped && trapped == 0;
                let moratorium = if freed {
                    180
                } else {
                    old(self).trap_moratorium as int
                };
                &&& final(self).trapped == trapped
                &&& r == freed
                &&& final(self).trap_moratorium == (if 0 < moratorium {
                    moratorium - 1
                } else {
                    0
                })
            },
            *final(self) == (Actor {
                trapped: final(self).trapped,
                trap_moratorium: final(self).trap_moratorium,
                ..*old(self)
            }),
    {
        let mut freed = false;
        if moving {
            if 0 < self.trapped {
                self.trapped = self.trapped - floundering;
                if self.trapped == 0 {
                    self.trap_moratorium = 180;
                    freed = true;
                }
            }
            if 0 < self.trap_moratorium {
                self.trap_moratorium = self.trap_moratorium - 1;
            }
        }
        freed
    }
}

/// How strongly an actor's walking force applies this frame.
#[derive(Clone, Copy, Debug, PartialEq, Eq, Structural)]
pub enum MoveRatio {
    /// Not at all: getting up, frozen or staggered.
    Stopped,
    Drowning,
    Air,
    Ice,
    Firing,
    Full,
}

/// The first condition that holds decides: getting up, frozen or staggered
/// stops the actor; then drowning, being in the air, standing on ice and
/// casting each slow it; otherwise it walks at full strength.
pub fn move_ratio(
    getting_up: u32,
    frozen: u32,
    staggered: u32,
    drown: u32,
    airborne: bool,
    on_ice: bool,
    firing: bool,
) -> (r: MoveRatio)
    ensures
        r == (if 0 < getting_up || 0 < frozen || 0 < staggered {
            MoveRatio::Stopped
        } else if 0 < drown {
            MoveRatio::Drowning
        } else if airborne {
            MoveRatio::Air
        } else if on_ice {
            MoveRatio::Ice
        } else if firing {
            MoveRatio::Firing
        } else {
            MoveRatio::Full
        }),
{
    if 0 < getting_up {
        MoveRatio::Stopped
    } else if 0 < frozen {
        MoveRatio::Stopped
    } else if 0 < staggered {
        MoveRatio::Stopped
    } else if 0 < drown {
        MoveRatio::Drowning
    } else if airborne {
        MoveRatio::Air
    } else if on_ice {
        MoveRatio::Ice
    } else if firing {
        MoveRatio::Firing
    } else {
        MoveRatio::Full
    }
}

/// How the ring of levitation shows.
#[derive(Clone, Copy, Debug, PartialEq, Eq, Structural)]
pub enum Visibility {
    Visible,
    Hidden,
}

/// The ring of levitation: never shown for a kind that always levitates;
/// shown while more than 120 frames remain; blinking every four frames of
/// the counter while some remain; hidden otherwise, and then the counter
/// restarts. Returns the visibility and whether to restart the counter.
pub fn levitation_effect(auto_levitation: bool, levitation: u32, count: i32) -> (r: (
    Visibility,
    bool,
))
    ensures
        r == (if auto_levitation {
            (Visibility::Hidden, false)
        } else if 120 < levitation {
            (Visibility::Visible, false)
        } else if 0 < levitation {
            (if ((if count < 0 { -count } else { count as int }) / 4) % 2 == 0 {
                Visibility::Visible
            } else {
                Visibility::Hidden
            }, false)
        } else {
            (Visibility::Hidden, true)
        }),
{
    if auto_levitation {
        (Visibility::Hidden, false)
    } else if 120 < levitation {
        (Visibility::Visible, false)
    } else if 0 < levitation {
        let magnitude: u32 = if count < 0 {
            (0 - (count as i64)) as u32
        } else {
            count as u32
        };
        (if (magnitude / 4) % 2 == 0 {
            Visibility::Visible
        } else {
            Visibility::Hidden
        }, false)
    } else {
        (Visibility::Hidden, true)
    }
}

/// Which way an actor's pointer faces, in four quarters.
#[derive(Clone, Copy, Debug, PartialEq, Eq, Structural)]
pub enum Facing {
    Left,
    Up,
    Down,
    Right,
}

/// The animations an actor plays.
#[derive(Clone, Copy, Debug, PartialEq, Eq, Structural)]
pub enum AnimationTag {
    Frozen,
    Drown,
    Staggered,
    GetUp,
    IdleR,
    IdleU,
    IdleD,
    RunR,
    RunU,
    RunD,
}

/// The basic animation of an actor: frozen, drowning, staggered and
/// getting up take precedence in that order; otherwise it idles or runs
/// toward its pointer, with left using the right-facing animation mirrored.
/// Returns the animation and whether it is mirrored.
pub fn basic_animate(
    frozen: u32,
    drown: u32,
    staggered: u32,
    getting_up: u32,
    state: ActorState,
    facing: Facing,
) -> (r: (AnimationTag, bool))
    ensures
        r.1 == (facing == Facing::Left),
        r.0 == (if 0 < frozen {
            AnimationTag::Frozen
        } else if 0 < drown {
            AnimationTag::Drown
        } else if 0 < staggered {
            AnimationTag::Staggered
        } else if 0 < getting_up {
            AnimationTag::GetUp
        } else {
            match (state, facing) {
                (ActorState::Idle, Facing::Up) => AnimationTag::IdleU,
                (ActorState::Idle, Facing::Down) => AnimationTag::IdleD,
                (ActorState::Idle, _) => AnimationTag::IdleR,
                (ActorState::Run, Facing::Up) => AnimationTag::RunU,
                (ActorState::Run, Facing::Down) => AnimationTag::RunD,
                (ActorState::Run, _) => AnimationTag::RunR,
            }
        }),
{
    let tag = if 0 < frozen {
        AnimationTag::Frozen
    } else if 0 < drown {
        AnimationTag::Drown
    } else if 0 < staggered {
        AnimationTag::Staggered
    } else if 0 < getting_up {
        AnimationTag::GetUp
    } else {
        match state {
            ActorState::Idle => match facing {
                Facing::Up => AnimationTag::IdleU,
                Facing::Down => AnimationTag::IdleD,
                _ => AnimationTag::IdleR,
            },
            ActorState::Run => match facing {
                Facing::Up => AnimationTag::RunU,
                Facing::Down => AnimationTag::RunD,
                _ => AnimationTag::RunR,
            },
        }
    };
    let mirrored = match facing {
        Facing::Left => true,
        _ => false,
    };
    (tag, mirrored)
}

/// The witch's wand is put away while she drowns, staggers or gets up.
pub fn wand_visible(drown: u32, staggered: u32, getting_up: u32) -> (r: bool)
    ensures
        r == (drown == 0 && staggered == 0 && getting_up == 0),
{
    !(0 < drown || 0 < staggered || 0 < getting_up)
}

/// What happens to an actor at the end of a frame.
#[derive(Clone, Copy, Debug, PartialEq, Eq, Structural)]
pub enum DespawnOutcome {
    Stays,
    /// A clone whose time ran out vanishes.
    Vanish,
    /// A destroyed actor dies and scatters this many golds.
    Die(u32),
}

/// A clone whose time is up vanishes; an actor with no life left (or a
/// burnable one burnt out) dies and scatters its golds, except the player,
/// who carries too many to scatter.
pub fn despawn(
    cloned: Option<u32>,
    life: u32,
    burnable_life: Option<u32>,
    golds: u32,
    is_player: bool,
) -> (r: DespawnOutcome)
    ensures
        r == (if cloned == Some(0u32) {
            DespawnOutcome::Vanish
        } else if life == 0 || burnable_life == Some(0u32) {
            DespawnOutcome::Die(if is_player { 0 } else { golds })
        } else {
            DespawnOutcome::Stays
        }),
{
    let vanish = match cloned {
        Some(c) => c == 0,
        None => false,
    };
    let burnt = match burnable_life {
        Some(b) => b == 0,
        None => false,
    };
    if vanish {
        DespawnOutcome::Vanish
    } else if life == 0 || burnt {
        DespawnOutcome::Die(if is_player { 0 } else { golds })
    } else {
        DespawnOutcome::Stays
    }
}

/// The number of destroyed actors (those with no life left), which the
/// player adds to the count of chests broken.
pub fn count_up_broken_chests(lives: &Vec<u32>) -> (r: usize)
    ensures
        r == lives@.filter(|l: u32| l == 0).len(),
{
    let mut n: usize = 0;
    let mut i: usize = 0;
    while i < lives.len()
        invariant
            i <= lives@.len(),
            n == lives@.take(i as int).filter(|l: u32| l == 0).len(),
            n <= i,
        decreases lives@.len() - i,
    {
        proof {
            let s = lives@.take(i + 1);
            assert(s.drop_last() =~= lives@.take(i as int));
            reveal_with_fuel(Seq::filter, 1);
        }
        if lives[i] == 0 {
            n = n + 1;
        }
        i = i + 1;
    }
    proof {
        assert(lives@.take(i as int) =~= lives@);
    }
    n
}

/// A bomb goes off when destroyed or 180 frames after it was set.
pub fn bomb_explodes(life: u32, count: i32) -> (r: bool)
    ensures
        r == (life == 0 || 180 <= count),
{
    life == 0 || 180 <= count
}

/// A breakable thing breaks when it has no life left or, if it burns, its
/// fuel is gone.
pub fn is_broken(life: u32, burnable_life: Option<u32>) -> (r: bool)
    ensures
        r == (life == 0 || burnable_life == Some(0u32)),
{
    life == 0 || match burnable_life {
        Some(b) => b == 0,
        None => false,
    }
}

/// A jump: an actor on the ground leaves it, and takes the collision
/// groups of an actor in the air (the engine gives it its upward speed,
/// its push and the sound); an actor already in the air does not jump.
/// Returns the new groups when it jumps.
pub fn jump_actor(actor: &mut Actor) -> (r: Option<CollisionGroups>)
    ensures
        (r is Some) <==> !old(actor).airborne,
        r matches Some(g) ==> g == actor_groups_spec(old(actor).actor_group, true, old(actor).drown),
        *final(actor) == (Actor { airborne: true, ..*old(actor) }),
{
    if !actor.airborne {
        actor.airborne = true;
        Some(actor.actor_group.to_groups(true, actor.drown))
    } else {
        None
    }
}


/// Hits add up: for lives and damages that read as non-negative signed
/// numbers, a hit never raises the life, leaves nothing exactly when the
/// damage reaches the life, and two hits in a row leave what one hit of
/// their sum would (stopping at zero).
pub proof fn lemma_hits_add_up(life: u32, a: u32, b: u32)
    requires
        life <= 0x7FFF_FFFF,
        a <= 0x7FFF_FFFF,
        b <= 0x7FFF_FFFF,
    ensures
        life_after(life, a) <= life,
        life_after(life, a) == 0 <==> life <= a,
        life_after(life, a) == life - a || life_after(life, a) == 0,
        life_after(life_after(life, a), b) == (if life - a - b < 0 {
            0
        } else {
            life - a - b
        }),
{
}

/// A hit with a negative damage (read as a signed number) heals.
pub proof fn lemma_negative_damage_heals(life: u32, damage: u32)
    requires
        life <= 0x7FFF_FFFF,
        0x8000_0000 <= damage,
        hit_fits(life, damage),
    ensures
        life_after(life, damage) == life + (0x1_0000_0000 - damage),
        life_after(life, damage) > life,
{
}

/// The floor's count of frames spent in a liquid and the damage taken,
/// after `k` frames standing in it on the ground, from a count of zero.
pub open spec fn soak(tile: TileKind, k: nat) -> (u32, nat)
    decreases k,
{
    if k == 0 {
        (0u32, 0nat)
    } else {
        let (c, total) = soak(tile, (k - 1) as nat);
        let (outcome, c2) = drown_damage_spec(tile, (c + 1) as u32, false);
        (
            c2,
            total + match outcome {
                DrownOutcome::Damage(d) => d as nat,
                _ => 0nat,
            },
        )
    }
}

/// Standing in water costs three life every 61 frames, and standing in
/// lava ten every 21 frames: after `k` frames, the damage taken is three
/// times `k / 61` in water and ten times `k / 21` in lava.
pub proof fn lemma_drowning_rhythm(k: nat)
    ensures
        soak(TileKind::Water, k) == ((k % 61) as u32, 3 * (k / 61)),
        soak(TileKind::Lava, k) == ((k % 21) as u32, 10 * (k / 21)),
    decreases k,
{
    if k > 0 {
        lemma_drowning_rhythm((k - 1) as nat);
        let j = (k - 1) as nat;
        assert(j % 61 == 60 ==> k % 61 == 0 && k / 61 == j / 61 + 1) by (nonlinear_arith)
            requires
                k == j + 1,
        {
            if j % 61 == 60 {
                assert(j == 61 * (j / 61) + 60);
                assert(k == 61 * (j / 61 + 1));
            }
        }
        assert(j % 61 != 60 ==> k % 61 == j % 61 + 1 && k / 61 == j / 61) by (nonlinear_arith)
            requires
                k == j + 1,
        {
            if j % 61 != 60 {
                assert(j == 61 * (j / 61) + j % 61);
                assert(k == 61 * (j / 61) + (j % 61 + 1));
            }
        }
        assert(j % 21 == 20 ==> k % 21 == 0 && k / 21 == j / 21 + 1) by (nonlinear_arith)
            requires
                k == j + 1,
        {
            if j % 21 == 20 {
                assert(j == 21 * (j / 21) + 20);
                assert(k == 21 * (j / 21 + 1));
            }
        }
        assert(j % 21 != 20 ==> k % 21 == j % 21 + 1 && k / 21 == j / 21) by (nonlinear_arith)
            requires
                k == j + 1,
        {
            if j % 21 != 20 {
                assert(j == 21 * (j / 21) + j % 21);
                assert(k == 21 * (j / 21) + (j % 21 + 1));
            }
        }
    }
}

} // verus!
