//! Casting: a wand reads its spells slot by slot, from the slot where it
//! stopped last time, casting one spell per trigger pull unless spells such
//! as multiple cast extend the chain. Buffs pile up until a bullet carries
//! them off; what is left over at the end of the chain acts on the caster.
use vstd::prelude::*;
use crate::actor::Actor;
use crate::actor::ActorFireState;
use crate::actor::ActorGroup;
use crate::actor::CastEffects;
use crate::constant::MAX_SPELLS_IN_WAND;
use crate::constant::MAX_WANDS;
use crate::metamorphosis::metamorphosis_kinds;
use crate::metamorphosis::random_actor_type;
use crate::spell::ActorType;
use crate::wand::WandSpell;

verus! {

/// What casting a spell does. The fractional properties of bullets and
/// other effects (speed, spread, light) are kept with the spell's registry
/// entry by the engine.
#[derive(Clone, Copy, Debug, PartialEq, Eq, Structural)]
#[allow(inconsistent_fields)]
pub enum SpellCast {
    NoCast,
    Bullet { damage: i32 },
    Heal,
    BulletSpeedUpDown,
    MultipleCast { amount: u32 },
    Homing,
    HeavyShot,
    Summon { friend: bool, servant: bool },
    Dash,
    QuickCast,
    Impact,
    PrecisionUp,
    Bomb,
    RockFall,
    Fireball,
    Spawn,
    LightSword,
    Web,
    Levitation,
    Jump,
    Metamorphosis,
    Slash { damage: u32 },
    Dispel,
    Clone,
    InfinityClone,
}

/// A spell's registry entry, as far as casting goes.
#[derive(Clone, Copy, Debug, PartialEq, Eq, Structural)]
pub struct SpellProps {
    /// Frames the wand rests after casting it.
    pub cast_delay: u32,
    pub cast: SpellCast,
}

/// What the engine carries out for a cast. `slot` names the wand slot whose
/// spell's registry entry holds the rest of the details.
#[derive(Debug, PartialEq, Eq)]
pub enum CastAction {
    /// A bullet with the given damage, carrying the last slash buff, the
    /// dispel and web buffs and the pending transformation; `remote` asks
    /// for the cast to be sent to the other players.
    Bullet {
        slot: usize,
        damage: i32,
        slash: Option<u32>,
        dispel: bool,
        web: bool,
        metamorphose: Option<ActorType>,
        remote: bool,
    },
    BulletSpeedUpDown { slot: usize },
    Heal,
    Homing,
    /// A servant seed of the kind that the registry entry of the spell in
    /// the given slot names.
    Summon { slot: usize, group: ActorGroup, servant: bool },
    Dash,
    Impact,
    PrecisionUp,
    Bomb,
    Spawn { slot: usize },
    RockFall,
    Fireball,
    /// A held light blade with the given damage, carrying the buffs as a
    /// bullet does.
    LightSword { damage: i32, slash: Option<u32>, dispel: bool, web: bool },
    Levitation,
    Jump { slot: usize },
    /// Clones of the caster that live this many frames.
    Clone { lifetime: u32 },
    /// Left over at the end of the chain: the caster transforms.
    Metamorphose(ActorType),
    /// Left over at the end of the chain: a web at the caster's feet.
    SpawnWeb,
    /// Left over at the end of the chain: a slash around the caster.
    Slash(u32),
}

/// The state of a chain of casts.
pub struct CastState {
    pub life: u32,
    pub levitation: u32,
    pub buff: i32,
    pub quick_cast: u32,
    pub metamorph: Option<ActorType>,
    pub dispel: u8,
    pub web: u8,
    pub slash: Seq<u32>,
    /// Casts still owed.
    pub multicast: int,
    /// The slot read next.
    pub index: int,
    /// The longest rest any spell cast so far asks of the wand.
    pub wand_delay: u32,
    /// Whether a bullet took the buffs.
    pub cleared: bool,
    pub actions: Seq<CastAction>,
}

/// The caster's side as seen by the summoned: a friendly summon joins the
/// caster, a hostile one the other side; neutral casters and furniture
/// summon neutrals.
pub open spec fn summon_group(group: ActorGroup, friend: bool) -> ActorGroup {
    match (group, friend) {
        (ActorGroup::Friend, true) => ActorGroup::Friend,
        (ActorGroup::Friend, false) => ActorGroup::Enemy,
        (ActorGroup::Enemy, true) => ActorGroup::Enemy,
        (ActorGroup::Enemy, false) => ActorGroup::Friend,
        (ActorGroup::Neutral, _) => ActorGroup::Neutral,
        (ActorGroup::Entity, _) => ActorGroup::Neutral,
    }
}

/// A spell's own rest, never less than one frame.
pub open spec fn base_delay(cast_delay: u32) -> int {
    if cast_delay < 1 {
        1
    } else {
        cast_delay as int
    }
}

/// The rest after quick cast shortens it, never below one frame.
pub open spec fn cast_delay(cast_delay: u32, quick_cast: u32) -> int {
    let d = base_delay(cast_delay) - quick_cast;
    if d < 1 {
        1
    } else {
        d
    }
}

/// The last slash buff, taken off the pile.
pub open spec fn top_slash(slash: Seq<u32>) -> Option<u32> {
    if slash.len() > 0 {
        Some(slash.last())
    } else {
        None
    }
}

/// The pile of slash buffs without its last one.
pub open spec fn pop_slash(slash: Seq<u32>) -> Seq<u32> {
    if slash.len() > 0 {
        slash.drop_last()
    } else {
        slash
    }
}

/// The effect of one spell on the chain (its rest and its place in the
/// chain already counted).
pub open spec fn apply_cast(
    m: CastState,
    slot: int,
    cast: SpellCast,
    group: ActorGroup,
    is_player: bool,
    targets: Seq<ActorType>,
    max_life: u32,
) -> CastState {
    match cast {
        SpellCast::NoCast => m,
        SpellCast::Bullet { damage } => CastState {
            slash: pop_slash(m.slash),
            dispel: if 0 < m.dispel { (m.dispel - 1) as u8 } else { 0 },
            web: if 0 < m.web { (m.web - 1) as u8 } else { 0 },
            cleared: true,
            actions: m.actions.push(
                CastAction::Bullet {
                    slot: slot as usize,
                    damage: (damage + m.buff) as i32,
                    slash: top_slash(m.slash),
                    dispel: 0 < m.dispel,
                    web: 0 < m.web,
                    metamorphose: m.metamorph,
                    remote: is_player,
                },
            ),
            ..m
        },
        SpellCast::BulletSpeedUpDown => CastState {
            actions: m.actions.push(CastAction::BulletSpeedUpDown { slot: slot as usize }),
            ..m
        },
        SpellCast::Heal => CastState {
            life: if m.life + 2 < max_life { (m.life + 2) as u32 } else { max_life },
            actions: m.actions.push(CastAction::Heal),
            ..m
        },
        SpellCast::MultipleCast { amount } => CastState { multicast: m.multicast + amount, ..m },
        SpellCast::Homing => CastState { actions: m.actions.push(CastAction::Homing), ..m },
        SpellCast::HeavyShot => CastState { buff: (m.buff + 5) as i32, ..m },
        SpellCast::Summon { friend, servant } => CastState {
            actions: m.actions.push(
                CastAction::Summon { slot: slot as usize, group: summon_group(group, friend), servant },
            ),
            ..m
        },
        SpellCast::Dash => CastState { actions: m.actions.push(CastAction::Dash), ..m },
        SpellCast::QuickCast => CastState { quick_cast: (m.quick_cast + 6) as u32, ..m },
        SpellCast::Impact => CastState { actions: m.actions.push(CastAction::Impact), ..m },
        SpellCast::PrecisionUp => CastState {
            actions: m.actions.push(CastAction::PrecisionUp),
            ..m
        },
        SpellCast::Bomb => CastState { actions: m.actions.push(CastAction::Bomb), ..m },
        SpellCast::Spawn => CastState {
            actions: m.actions.push(CastAction::Spawn { slot: slot as usize }),
            ..m
        },
        SpellCast::RockFall => CastState { actions: m.actions.push(CastAction::RockFall), ..m },
        SpellCast::Fireball => CastState { actions: m.actions.push(CastAction::Fireball), ..m },
        SpellCast::LightSword => CastState {
            slash: pop_slash(m.slash),
            dispel: if 0 < m.dispel { (m.dispel - 1) as u8 } else { 0 },
            web: if 0 < m.web { (m.web - 1) as u8 } else { 0 },
            cleared: true,
            actions: m.actions.push(
                CastAction::LightSword {
                    damage: (330 + m.buff) as i32,
                    slash: top_slash(m.slash),
                    dispel: 0 < m.dispel,
                    web: 0 < m.web,
                },
            ),
            ..m
        },
        SpellCast::Web => CastState { web: (m.web + 1) as u8, ..m },
        SpellCast::Levitation => CastState {
            levitation: (m.levitation + 300) as u32,
            actions: m.actions.push(CastAction::Levitation),
            ..m
        },
        SpellCast::Jump => CastState {
            actions: m.actions.push(CastAction::Jump { slot: slot as usize }),
            ..m
        },
        SpellCast::Metamorphosis => CastState { metamorph: Some(targets[slot]), ..m },
        SpellCast::Slash { damage } => CastState { slash: m.slash.push(damage), ..m },
        SpellCast::Dispel => CastState {
            dispel: if m.dispel + 1 < 4 { (m.dispel + 1) as u8 } else { 4 },
            ..m
        },
        SpellCast::Clone => if is_player {
            CastState { actions: m.actions.push(CastAction::Clone { lifetime: 600 }), ..m }
        } else {
            m
        },
        SpellCast::InfinityClone => CastState {
            actions: m.actions.push(CastAction::Clone { lifetime: u32::MAX }),
            ..m
        },
    }
}

/// Before a spell takes effect: it costs one of the casts owed, makes the
/// wand rest at least its (quick-cast shortened) delay, and uses up the
/// quick cast it needed.
pub open spec fn pre_cast(m: CastState, p: SpellProps) -> CastState {
    let delay = cast_delay(p.cast_delay, m.quick_cast);
    let used = base_delay(p.cast_delay) - delay;
    CastState {
        quick_cast: (m.quick_cast - used) as u32,
        wand_delay: if m.wand_delay < delay { delay as u32 } else { m.wand_delay },
        multicast: m.multicast - 1,
        ..m
    }
}

/// Casting the spell of the slot being read (see `pre_cast`), then its
/// effect.
pub open spec fn cast_one(
    m: CastState,
    p: SpellProps,
    group: ActorGroup,
    is_player: bool,
    targets: Seq<ActorType>,
    max_life: u32,
) -> CastState {
    let m2 = apply_cast(pre_cast(m, p), m.index, p.cast, group, is_player, targets, max_life);
    CastState { index: m2.index + 1, ..m2 }
}

/// A spell's effect fits the numbers it works on: no counter overflows its
/// type (life, levitation and quick cast are 32-bit, the web count 8-bit,
/// the damage buff and bullet damage signed 32-bit, and the casts owed
/// 32-bit).
pub open spec fn effect_fits(m: CastState, cast: SpellCast) -> bool {
    match cast {
        SpellCast::Bullet { damage } => i32::MIN <= damage + m.buff <= i32::MAX,
        SpellCast::Heal => m.life + 2 <= u32::MAX,
        SpellCast::MultipleCast { amount } => m.multicast + amount <= u32::MAX,
        SpellCast::HeavyShot => m.buff + 5 <= i32::MAX,
        SpellCast::QuickCast => m.quick_cast + 6 <= u32::MAX,
        SpellCast::LightSword => 330 + m.buff <= i32::MAX,
        SpellCast::Web => m.web + 1 <= u8::MAX,
        SpellCast::Levitation => m.levitation + 300 <= u32::MAX,
        _ => true,
    }
}

/// Casting a spell fits its numbers: the quick cast is read as a signed
/// 32-bit number when the rest is shortened, and the effect fits (see
/// `effect_fits`).
pub open spec fn slot_fits(m: CastState, p: SpellProps) -> bool {
    m.quick_cast <= i32::MAX && effect_fits(pre_cast(m, p), p.cast)
}

/// Reading one slot: an empty slot is skipped, a spell is cast.
pub open spec fn step(
    m: CastState,
    props: Seq<Option<SpellProps>>,
    group: ActorGroup,
    is_player: bool,
    targets: Seq<ActorType>,
    max_life: u32,
) -> CastState {
    match props[m.index] {
        Some(p) => cast_one(m, p, group, is_player, targets, max_life),
        None => CastState { index: m.index + 1, ..m },
    }
}

/// The chain: slots are read while casts are owed and slots remain.
pub open spec fn run(
    m: CastState,
    props: Seq<Option<SpellProps>>,
    group: ActorGroup,
    is_player: bool,
    targets: Seq<ActorType>,
    max_life: u32,
) -> CastState
    decreases MAX_SPELLS_IN_WAND - m.index,
{
    if 0 < m.multicast && 0 <= m.index < MAX_SPELLS_IN_WAND {
        run(step(m, props, group, is_player, targets, max_life), props, group, is_player, targets, max_life)
    } else {
        m
    }
}

/// Every spell the chain casts fits its numbers (see `slot_fits`).
pub open spec fn run_fits(
    m: CastState,
    props: Seq<Option<SpellProps>>,
    group: ActorGroup,
    is_player: bool,
    targets: Seq<ActorType>,
    max_life: u32,
) -> bool
    decreases MAX_SPELLS_IN_WAND - m.index,
{
    if 0 < m.multicast && 0 <= m.index < MAX_SPELLS_IN_WAND {
        (match props[m.index] {
            Some(p) => slot_fits(m, p),
            None => true,
        }) && run_fits(
            step(m, props, group, is_player, targets, max_life),
            props,
            group,
            is_player,
            targets,
            max_life,
        )
    } else {
        true
    }
}

/// A cast of the given wand fits its numbers, whatever kind a
/// transformation draws.
pub open spec fn cast_fits(a: Actor, wand_index: int, props: Seq<Option<SpellProps>>, is_player: bool) -> bool {
    forall|ts: Seq<ActorType>|
        #[trigger] run_fits(start(a, wand_index), props, a.actor_group, is_player, ts, a.max_life)
}

/// The kinds the transformation spells of a chain turn into, one per slot:
/// each one of the kinds of `metamorphosis_kinds` other than the caster's
/// own.
pub open spec fn valid_targets(own: ActorType, ts: Seq<ActorType>) -> bool {
    &&& ts.len() == MAX_SPELLS_IN_WAND
    &&& forall|i: int|
        0 <= i < ts.len() ==> (#[trigger] ts[i])@ != own@ && metamorphosis_kinds().contains(ts[i]@)
}

/// What is left over at the end of a chain that fired no bullet: the
/// transformation, the web and each slash, in that order, act on the
/// caster.
pub open spec fn finish_actions(m: CastState) -> Seq<CastAction> {
    if m.cleared {
        seq![]
    } else {
        (match m.metamorph {
            Some(t) => seq![CastAction::Metamorphose(t)],
            None => seq![],
        }) + (if 0 < m.web {
            seq![CastAction::SpawnWeb]
        } else {
            seq![]
        }) + m.slash.map_values(|d: u32| CastAction::Slash(d))
    }
}

/// The exec counterpart of the chain's progress.
pub struct Casting {
    pub multicast: u64,
    pub index: usize,
    pub wand_delay: u32,
    pub cleared: bool,
    pub actions: Vec<CastAction>,
}

/// The chain state of an actor in the middle of a cast.
pub open spec fn model(a: Actor, c: Casting) -> CastState {
    CastState {
        life: a.life,
        levitation: a.levitation,
        buff: a.effects.bullet_damage_buff_amount,
        quick_cast: a.effects.quick_cast,
        metamorph: a.effects.metamorphse,
        dispel: a.effects.dispel,
        web: a.effects.web,
        slash: a.effects.slash@,
        multicast: c.multicast as int,
        index: c.index as int,
        wand_delay: c.wand_delay,
        cleared: c.cleared,
        actions: c.actions@,
    }
}

/// The chain state when the given wand starts casting.
pub open spec fn start(a: Actor, wand_index: int) -> CastState {
    CastState {
        life: a.life,
        levitation: a.levitation,
        buff: a.effects.bullet_damage_buff_amount,
        quick_cast: a.effects.quick_cast,
        metamorph: a.effects.metamorphse,
        dispel: a.effects.dispel,
        web: a.effects.web,
        slash: a.effects.slash@,
        multicast: 1,
        index: a.wands@[wand_index].index as int,
        wand_delay: 0,
        cleared: false,
        actions: seq![],
    }
}

/// From `a` to `b` in `k` slots the counters grow at most as fast as the
/// spells can make them: two life, 300 frames of levitation, five damage,
/// six frames of quick cast and one web per slot; the damage buff never
/// shrinks.
pub open spec fn growth(a: CastState, b: CastState, k: int) -> bool {
    &&& b.life <= a.life + 2 * k
    &&& b.levitation <= a.levitation + 300 * k
    &&& a.buff <= b.buff <= a.buff + 5 * k
    &&& b.quick_cast <= a.quick_cast + 6 * k
    &&& b.web <= a.web + k
}

/// The parts of an actor a cast leaves alone.
pub open spec fn untouched(a: Actor, b: Actor) -> bool {
    &&& a.actor_type == b.actor_type
    &&& a.actor_group == b.actor_group
    &&& a.max_life == b.max_life
    &&& a.golds == b.golds
    &&& a.current_wand == b.current_wand
    &&& a.frozen == b.frozen
    &&& a.staggered == b.staggered
    &&& a.wait == b.wait
    &&& a.inventory == b.inventory
    &&& a.fire_state == b.fire_state
    &&& a.fire_state_secondary == b.fire_state_secondary
    &&& a.uuid == b.uuid
    &&& a.state == b.state
    &&& a.trapped == b.trapped
    &&& a.trap_moratorium == b.trap_moratorium
    &&& a.drown == b.drown
    &&& a.cloned == b.cloned
    &&& a.getting_up == b.getting_up
    &&& a.hidden == b.hidden
    &&& a.airborne == b.airborne
    &&& a.just_landed == b.just_landed
    &&& a.fire_damage_wait == b.fire_damage_wait
}

/// The registry entries handed in for a wand's slots: an entry exactly
/// where a slot holds a spell, and the same entry wherever the same spell
/// appears, as the registry gives one entry per spell.
pub open spec fn props_match(slots: Seq<Option<WandSpell>>, props: Seq<Option<SpellProps>>) -> bool {
    &&& forall|i: int| 0 <= i < props.len() ==> ((#[trigger] props[i]) is Some) == (slots[i] is Some)
    &&& forall|i: int, j: int|
        0 <= i < props.len() && 0 <= j < props.len() && (#[trigger] slots[i]) is Some && (
        #[trigger] slots[j]) is Some && slots[i]->0.spell@ == slots[j]->0.spell@ ==> props[i]
            == props[j]
}

/// The spells a wand may hold for a cast: rests that fit a signed 32-bit
/// count, as the rest is read as one.
pub open spec fn props_bounded(props: Seq<Option<SpellProps>>) -> bool {
    forall|i: int|
        0 <= i < props.len() ==> match #[trigger] props[i] {
            Some(p) => p.cast_delay <= 0x7FFF_FFFF,
            None => true,
        }
}

impl Actor {
    /// One spell of the chain (see `cast_one`).
    fn cast_slot(
        &mut self,
        c: &mut Casting,
        p: &SpellProps,
        is_player: bool,
        targets: &Vec<ActorType>,
    )
        requires
            slot_fits(model(*old(self), *old(c)), *p),
            old(c).index < MAX_SPELLS_IN_WAND,
            targets@.len() == MAX_SPELLS_IN_WAND,
            0 < old(c).multicast <= u32::MAX,
            p.cast_delay <= 0x7FFF_FFFF,
        ensures
            model(*final(self), *final(c)) == cast_one(
                model(*old(self), *old(c)),
                *p,
                old(self).actor_group,
                is_player,
                targets@,
                old(self).max_life,
            ),
            final(c).multicast <= u32::MAX,
            growth(model(*old(self), *old(c)), model(*final(self), *final(c)), 1),
            untouched(*final(self), *old(self)),
            final(self).wands@ == old(self).wands@,
            final(self).effects.levitation == old(self).effects.levitation,
    {
        let base: u32 = if p.cast_delay < 1 {
            1
        } else {
            p.cast_delay
        };
        let qc = self.effects.quick_cast;
        let delay: u32 = if qc >= base {
            1
        } else {
            base - qc
        };
        self.effects.quick_cast = qc - (base - delay);
        if c.wand_delay < delay {
            c.wand_delay = delay;
        }
        c.multicast = c.multicast - 1;
        let slot = c.index;
        self.apply_effect(c, p.cast, slot, is_player, targets);
        c.index = c.index + 1;
    }

    /// The effect of one spell (see `apply_cast`).
    #[verifier::rlimit(40)]
    fn apply_effect(
        &mut self,
        c: &mut Casting,
        cast: SpellCast,
        slot: usize,
        is_player: bool,
        targets: &Vec<ActorType>,
    )
        requires
            effect_fits(model(*old(self), *old(c)), cast),
            old(c).multicast < u32::MAX,
            slot < targets@.len(),
        ensures
            model(*final(self), *final(c)) == apply_cast(
                model(*old(self), *old(c)),
                slot as int,
                cast,
                old(self).actor_group,
                is_player,
                targets@,
                old(self).max_life,
            ),
            final(c).index == old(c).index,
            untouched(*final(self), *old(self)),
            final(self).wands@ == old(self).wands@,
            final(self).effects.levitation == old(self).effects.levitation,
    {
        match cast {
            SpellCast::NoCast => {},
            SpellCast::Bullet { damage } => {
                let slash = self.effects.slash.pop();
                let dispel = 0 < self.effects.dispel;
                let web = 0 < self.effects.web;
                let metamorphose = clone_actor_type(&self.effects.metamorphse);
                c.actions.push(
                    CastAction::Bullet {
                        slot,
                        damage: damage + self.effects.bullet_damage_buff_amount,
                        slash,
                        dispel,
                        web,
                        metamorphose,
                        remote: is_player,
                    },
                );
                if dispel {
                    self.effects.dispel = self.effects.dispel - 1;
                }
                if web {
                    self.effects.web = self.effects.web - 1;
                }
                c.cleared = true;
            },
            SpellCast::BulletSpeedUpDown => {
                c.actions.push(CastAction::BulletSpeedUpDown { slot });
            },
            SpellCast::Heal => {
                self.life = if self.life + 2 < self.max_life {
                    self.life + 2
                } else {
                    self.max_life
                };
                c.actions.push(CastAction::Heal);
            },
            SpellCast::MultipleCast { amount } => {
                c.multicast = c.multicast + amount as u64;
            },
            SpellCast::Homing => {
                c.actions.push(CastAction::Homing);
            },
            SpellCast::HeavyShot => {
                self.effects.bullet_damage_buff_amount = self.effects.bullet_damage_buff_amount + 5;
            },
            SpellCast::Summon { friend, servant } => {
                let group = match (self.actor_group, friend) {
                    (ActorGroup::Friend, true) => ActorGroup::Friend,
                    (ActorGroup::Friend, false) => ActorGroup::Enemy,
                    (ActorGroup::Enemy, true) => ActorGroup::Enemy,
                    (ActorGroup::Enemy, false) => ActorGroup::Friend,
                    (ActorGroup::Neutral, _) => ActorGroup::Neutral,
                    (ActorGroup::Entity, _) => ActorGroup::Neutral,
                };
                c.actions.push(CastAction::Summon { slot, group, servant });
            },
            SpellCast::Dash => {
                c.actions.push(CastAction::Dash);
            },
            SpellCast::QuickCast => {
                self.effects.quick_cast = self.effects.quick_cast + 6;
            },
            SpellCast::Impact => {
                c.actions.push(CastAction::Impact);
            },
            SpellCast::PrecisionUp => {
                c.actions.push(CastAction::PrecisionUp);
            },
            SpellCast::Bomb => {
                c.actions.push(CastAction::Bomb);
            },
            SpellCast::Spawn => {
                c.actions.push(CastAction::Spawn { slot });
            },
            SpellCast::RockFall => {
                c.actions.push(CastAction::RockFall);
            },
            SpellCast::Fireball => {
                c.actions.push(CastAction::Fireball);
            },
            SpellCast::LightSword => {
                let slash = self.effects.slash.pop();
                let dispel = 0 < self.effects.dispel;
                let web = 0 < self.effects.web;
                c.actions.push(
                    CastAction::LightSword {
                        damage: 330 + self.effects.bullet_damage_buff_amount,
                        slash,
                        dispel,
                        web,
                    },
                );
                if dispel {
                    self.effects.dispel = self.effects.dispel - 1;
                }
                if web {
                    self.effects.web = self.effects.web - 1;
                }
                c.cleared = true;
            },
            SpellCast::Web => {
                self.effects.web = self.effects.web + 1;
            },
            SpellCast::Levitation => {
                self.levitation = self.levitation + 300;
                c.actions.push(CastAction::Levitation);
            },
            SpellCast::Jump => {
                c.actions.push(CastAction::Jump { slot });
            },
            SpellCast::Metamorphosis => {
                self.effects.metamorphse = Some(targets[slot].clone());
            },
            SpellCast::Slash { damage } => {
                self.effects.slash.push(damage);
            },
            SpellCast::Dispel => {
                self.effects.dispel = if self.effects.dispel < 3 {
                    self.effects.dispel + 1
                } else {
                    4
                };
            },
            SpellCast::Clone => {
                if is_player {
                    c.actions.push(CastAction::Clone { lifetime: 600 });
                }
            },
            SpellCast::InfinityClone => {
                c.actions.push(CastAction::Clone { lifetime: u32::MAX });
            },
        }
    }
}

/// A copy of a pending transformation.
fn clone_actor_type(t: &Option<ActorType>) -> (r: Option<ActorType>)
    ensures
        r == *t,
{
    match t {
        Some(t) => Some(t.clone()),
        None => None,
    }
}

/// What a cast of the given wand does to the caster and hands the engine
/// (see `run_wand`).
pub open spec fn cast_outcome(
    before: Actor,
    after: Actor,
    wand_index: int,
    props: Seq<Option<SpellProps>>,
    is_player: bool,
    targets: Seq<ActorType>,
    r: CastResult,
) -> bool {
    &&& 0 < before.wands@[wand_index].delay ==> after == before && r.actions@.len() == 0
        && !r.cleared && r.delay == 0
    &&& before.wands@[wand_index].delay == 0 ==> {
        let m = run(
            start(before, wand_index),
            props,
            before.actor_group,
            is_player,
            targets,
            before.max_life,
        );
        &&& after.life == m.life
        &&& after.levitation == m.levitation
        &&& r.cleared == m.cleared
        &&& r.delay == m.wand_delay
        &&& r.actions@ =~= m.actions + finish_actions(m)
        &&& m.cleared ==> after.effects.is_cleared()
        &&& !m.cleared ==> {
            &&& after.effects.bullet_damage_buff_amount == m.buff
            &&& after.effects.quick_cast == m.quick_cast
            &&& after.effects.dispel == m.dispel
            &&& after.effects.metamorphse is None
            &&& after.effects.web == 0
            &&& after.effects.slash@.len() == 0
            &&& after.effects.levitation == before.effects.levitation
        }
        &&& after.wands@[wand_index].delay == m.wand_delay
        &&& after.wands@[wand_index].index == m.index % (MAX_SPELLS_IN_WAND as int)
        &&& after.wands@[wand_index].slots@ == before.wands@[wand_index].slots@
        &&& forall|w: int|
            0 <= w < MAX_WANDS && w != wand_index ==> #[trigger] after.wands@[w] == before.wands@[w]
    }
}

/// No rest a chain asks of a wand is too large for a signed 32-bit count.
pub proof fn lemma_run_wand_delay(
    m: CastState,
    props: Seq<Option<SpellProps>>,
    group: ActorGroup,
    is_player: bool,
    targets: Seq<ActorType>,
    max_life: u32,
)
    requires
        m.wand_delay <= 0x7FFF_FFFF,
        props_bounded(props),
        props.len() == MAX_SPELLS_IN_WAND,
    ensures
        run(m, props, group, is_player, targets, max_life).wand_delay <= 0x7FFF_FFFF,
    decreases MAX_SPELLS_IN_WAND - m.index,
{
    if 0 < m.multicast && 0 <= m.index < MAX_SPELLS_IN_WAND {
        let next = step(m, props, group, is_player, targets, max_life);
        assert(next.wand_delay <= 0x7FFF_FFFF) by {
            match props[m.index] {
                Some(p) => {
                    assert(p.cast_delay <= 0x7FFF_FFFF);
                },
                None => {},
            }
        }
        lemma_run_wand_delay(next, props, group, is_player, targets, max_life);
    }
}

/// What a cast hands the engine: the actions to carry out, in order,
/// whether a bullet took the buffs (the engine then clears the fractional
/// buffs it keeps), and the delay the cast produced, which is also the rest
/// given to the wand.
pub struct CastResult {
    pub actions: Vec<CastAction>,
    pub cleared: bool,
    pub delay: u32,
}

impl Actor {
    /// The given wand casts: when it is resting nothing happens; otherwise
    /// the chain runs from the wand's next slot (see `run`), the leftovers
    /// act on the caster (see `finish_actions`) or the buffs are cleared if
    /// a bullet took them, and the wand rests for the longest delay met and
    /// resumes after the last slot read. `props` gives the registry entry
    /// of each slot's spell, and `targets` the kind a transformation spell
    /// in each slot turns into.
    #[verifier::rlimit(60)]
    #[verifier::spinoff_prover]
    pub fn run_wand(
        &mut self,
        wand_index: usize,
        props: &Vec<Option<SpellProps>>,
        is_player: bool,
        targets: &Vec<ActorType>,
    ) -> (r: CastResult)
        requires
            old(self).wf(),
            wand_index < MAX_WANDS,
            props@.len() == MAX_SPELLS_IN_WAND,
            props_bounded(props@),
            props_match(old(self).wands@[wand_index as int].slots@, props@),
            targets@.len() == MAX_SPELLS_IN_WAND,
            run_fits(
                start(*old(self), wand_index as int),
                props@,
                old(self).actor_group,
                is_player,
                targets@,
                old(self).max_life,
            ),
        ensures
            final(self).wf(),
            final(self).actor_type == old(self).actor_type,
            final(self).actor_group == old(self).actor_group,
            final(self).max_life == old(self).max_life,
            final(self).golds == old(self).golds,
            final(self).current_wand == old(self).current_wand,
            final(self).frozen == old(self).frozen,
            final(self).staggered == old(self).staggered,
            final(self).wait == old(self).wait,
            untouched(*final(self), *old(self)),
            forall|w: int|
                0 <= w < MAX_WANDS ==> (#[trigger] final(self).wands@[w]).delay == old(
                    self,
                ).wands@[w].delay || final(self).wands@[w].delay <= 0x7FFF_FFFF,
            cast_outcome(*old(self), *final(self), wand_index as int, props@, is_player, targets@, r),
            final(self).life <= old(self).life + 16,
            old(self).life <= old(self).max_life ==> old(self).life <= final(self).life
                <= final(self).max_life,
            final(self).levitation <= old(self).levitation + 2400,
            final(self).effects.quick_cast <= old(self).effects.quick_cast + 48,
            final(self).effects.web <= old(self).effects.web + 8,
            final(self).effects.bullet_damage_buff_amount == 0 || old(
                self,
            ).effects.bullet_damage_buff_amount <= final(self).effects.bullet_damage_buff_amount
                <= old(self).effects.bullet_damage_buff_amount + 40,
    {
        if 0 < self.wands[wand_index].delay {
            return CastResult { actions: Vec::new(), cleared: false, delay: 0 };
        }
        let ghost group = self.actor_group;
        let ghost max_life = self.max_life;
        let ghost old_wands = self.wands@;
        let mut c = Casting {
            multicast: 1,
            index: self.wands[wand_index].index,
            wand_delay: 0,
            cleared: false,
            actions: Vec::new(),
        };
        let ghost m0 = model(*self, c);
        let ghost s0 = c.index as int;
        assert(m0 == start(*self, wand_index as int));
        while 0 < c.multicast && c.index < MAX_SPELLS_IN_WAND
            invariant
                props@.len() == MAX_SPELLS_IN_WAND,
                props_bounded(props@),
                run(model(*self, c), props@, group, is_player, targets@, max_life) == run(
                    m0,
                    props@,
                    group,
                    is_player,
                    targets@,
                    max_life,
                ),
                s0 <= c.index,
                c.index <= MAX_SPELLS_IN_WAND || c.index == s0,
                run_fits(model(*self, c), props@, group, is_player, targets@, max_life),
                targets@.len() == MAX_SPELLS_IN_WAND,
                c.multicast <= u32::MAX,
                growth(m0, model(*self, c), c.index - s0),
                untouched(*self, *old(self)),
                self.effects.levitation == old(self).effects.levitation,
                self.actor_group == group,
                self.max_life == max_life,
                self.wands@ == old_wands,
                0 <= s0,
            decreases MAX_SPELLS_IN_WAND - c.index,
        {
            let ghost before = model(*self, c);
            match &props[c.index] {
                Some(p) => {
                    proof {
                        assert(props_bounded(props@));
                        assert(props@[c.index as int] == Some(*p));
                    }
                    self.cast_slot(&mut c, p, is_player, targets);
                },
                None => {
                    c.index = c.index + 1;
                },
            }
            proof {
                assert(model(*self, c) == step(before, props@, group, is_player, targets@, max_life));
                assert(growth(m0, model(*self, c), c.index - s0));
            }
        }
        let ghost m = model(*self, c);
        let cleared = c.cleared;
        let mut actions = c.actions;
        if cleared {
            self.effects = CastEffects::new();
        } else {
            let pending = clone_actor_type(&self.effects.metamorphse);
            match pending {
                Some(t) => {
                    actions.push(CastAction::Metamorphose(t));
                },
                None => {},
            }
            self.effects.metamorphse = None;
            if 0 < self.effects.web {
                actions.push(CastAction::SpawnWeb);
                self.effects.web = 0;
            }
            let ghost base = actions@;
            let mut i: usize = 0;
            while i < self.effects.slash.len()
                invariant
                    i <= self.effects.slash@.len(),
                    self.effects.slash@ == m.slash,
                    actions@ == base + m.slash.take(i as int).map_values(
                        |d: u32| CastAction::Slash(d),
                    ),
                decreases self.effects.slash@.len() - i,
            {
                actions.push(CastAction::Slash(self.effects.slash[i]));
                proof {
                    assert(m.slash.take(i + 1).map_values(|d: u32| CastAction::Slash(d))
                        =~= m.slash.take(i as int).map_values(|d: u32| CastAction::Slash(d)).push(
                        CastAction::Slash(m.slash[i as int]),
                    ));
                }
                i = i + 1;
            }
            proof {
                assert(m.slash.take(i as int) =~= m.slash);
            }
            self.effects.slash = Vec::new();
        }
        proof {
            lemma_run_wand_delay(m0, props@, group, is_player, targets@, max_life);
            if old(self).life <= max_life {
                lemma_cast_never_lowers_life(m0, props@, group, is_player, targets@, max_life);
            }
        }
        let wand = self.wands[wand_index].with_cursor(c.index % MAX_SPELLS_IN_WAND, c.wand_delay);
        self.wands.set(wand_index, wand);
        proof {
            assert(finish_actions(m) =~= (match m.metamorph {
                Some(t) => seq![CastAction::Metamorphose(t)],
                None => seq![],
            }) + (if 0 < m.web {
                seq![CastAction::SpawnWeb]
            } else {
                seq![]
            }) + m.slash.map_values(|d: u32| CastAction::Slash(d)) || m.cleared);
            assert(m.cleared ==> actions@ =~= m.actions + finish_actions(m));
            assert(forall|w: int| 0 <= w < MAX_WANDS ==> (#[trigger] self.wands@[w]).wf());
        }
        CastResult { actions, cleared, delay: c.wand_delay }
    }
}

/// Both triggers' chains fit their numbers: the primary trigger's cast
/// from the actor as it is, and the secondary trigger's cast from whatever
/// the primary trigger leaves.
pub open spec fn fire_fits(
    a: Actor,
    primary: Seq<Option<SpellProps>>,
    secondary: Seq<Option<SpellProps>>,
    is_player: bool,
) -> bool {
    &&& a.fire_state == ActorFireState::Fire ==> cast_fits(a, a.current_wand as int, primary, is_player)
    &&& a.fire_state_secondary == ActorFireState::Fire ==> forall|a1: Actor, r1: Option<CastResult>|
        #[trigger] trigger_outcome(a, a1, a.current_wand as int, primary, is_player, a.fire_state, r1)
            ==> cast_fits(a1, MAX_WANDS - 1, secondary, is_player)
}

/// What a trigger does: when it is held, the wand casts, each
/// transformation spell turning into a kind drawn at random for its slot
/// (see `valid_targets`); when it is not, nothing happens.
pub open spec fn trigger_outcome(
    before: Actor,
    after: Actor,
    wand_index: int,
    props: Seq<Option<SpellProps>>,
    is_player: bool,
    fire: ActorFireState,
    r: Option<CastResult>,
) -> bool {
    if fire == ActorFireState::Fire {
        &&& r is Some
        &&& exists|ts: Seq<ActorType>|
            #![trigger cast_outcome(before, after, wand_index, props, is_player, ts, r->0)]
            valid_targets(before.actor_type, ts) && cast_outcome(
                before,
                after,
                wand_index,
                props,
                is_player,
                ts,
                r->0,
            )
    } else {
        after == before && r is None
    }
}

/// One frame of rest for a wand: its delay drops by one and stops at zero
/// (a delay too large for a signed 32-bit count reads as negative and
/// drops straight to zero).
pub open spec fn rested_delay(delay: u32) -> u32 {
    if delay == 0 {
        0
    } else if delay <= 0x7FFF_FFFF {
        (delay - 1) as u32
    } else {
        0
    }
}

/// One frame of rest for a wand (see `rested_delay`).
pub fn rest_delay(delay: u32) -> (r: u32)
    requires
        delay != 0x8000_0000,
    ensures
        r == rested_delay(delay),
{
    if delay == 0 {
        0
    } else if delay <= 0x7FFF_FFFF {
        delay - 1
    } else {
        0
    }
}

/// Why an actor did or did not cast this frame.
#[derive(Clone, Copy, Debug, PartialEq, Eq, Structural)]
pub enum FireGate {
    /// Still waiting after an interruption; the wait counts down.
    Waiting,
    Frozen,
    Staggered,
    /// A drowning actor cannot cast.
    Drowning,
    Ready,
}

/// What an actor's triggers did this frame.
pub struct FireResult {
    pub gate: FireGate,
    pub primary: Option<CastResult>,
    pub secondary: Option<CastResult>,
}

/// Whether wand `w` of `after` is wand `w` of `before` after a frame of
/// rest, for every wand, with nothing else changed.
pub open spec fn rested(before: Actor, after: Actor) -> bool {
    &&& after.wands@.len() == before.wands@.len()
    &&& forall|w: int|
        0 <= w < before.wands@.len() ==> {
            &&& (#[trigger] after.wands@[w]).slots@ == before.wands@[w].slots@
            &&& after.wands@[w].index == before.wands@[w].index
            &&& after.wands@[w].delay == rested_delay(before.wands@[w].delay)
        }
    &&& after == Actor { wands: after.wands, ..before }
}

impl Actor {
    /// The given wand casts (see `run_wand`), each transformation spell
    /// turning into a kind drawn for its slot with `random_actor_type`
    /// with `random_actor_type`.
    pub fn cast_spell(
        &mut self,
        wand_index: usize,
        props: &Vec<Option<SpellProps>>,
        is_player: bool,
    ) -> (r: CastResult)
        requires
            old(self).wf(),
            wand_index < MAX_WANDS,
            props@.len() == MAX_SPELLS_IN_WAND,
            props_bounded(props@),
            props_match(old(self).wands@[wand_index as int].slots@, props@),
            cast_fits(*old(self), wand_index as int, props@, is_player),
        ensures
            final(self).wf(),
            untouched(*final(self), *old(self)),
            forall|w: int|
                0 <= w < MAX_WANDS ==> (#[trigger] final(self).wands@[w]).delay == old(
                    self,
                ).wands@[w].delay || final(self).wands@[w].delay <= 0x7FFF_FFFF,
            trigger_outcome(
                *old(self),
                *final(self),
                wand_index as int,
                props@,
                is_player,
                ActorFireState::Fire,
                Some(r),
            ),
            final(self).life <= old(self).life + 16,
            old(self).life <= old(self).max_life ==> old(self).life <= final(self).life
                <= final(self).max_life,
            final(self).levitation <= old(self).levitation + 2400,
            final(self).effects.quick_cast <= old(self).effects.quick_cast + 48,
            final(self).effects.web <= old(self).effects.web + 8,
            final(self).effects.bullet_damage_buff_amount == 0 || old(
                self,
            ).effects.bullet_damage_buff_amount <= final(self).effects.bullet_damage_buff_amount
                <= old(self).effects.bullet_damage_buff_amount + 40,
    {
        let mut targets: Vec<ActorType> = Vec::new();
        let mut i: usize = 0;
        while i < MAX_SPELLS_IN_WAND
            invariant
                i <= MAX_SPELLS_IN_WAND,
                targets@.len() == i,
                forall|j: int|
                    0 <= j < i ==> (#[trigger] targets@[j])@ != self.actor_type@
                        && metamorphosis_kinds().contains(targets@[j]@),
            decreases MAX_SPELLS_IN_WAND - i,
        {
            targets.push(random_actor_type(&self.actor_type));
            i = i + 1;
        }
        assert(run_fits(
            start(*self, wand_index as int),
            props@,
            self.actor_group,
            is_player,
            targets@,
            self.max_life,
        ));
        let ghost before = *self;
        let r = self.run_wand(wand_index, props, is_player, &targets);
        proof {
            let rr = Some(r);
            assert(rr->0 == r);
            assert(valid_targets(before.actor_type, targets@) && cast_outcome(
                before,
                *self,
                wand_index as int,
                props@,
                is_player,
                targets@,
                rr->0,
            ));
        }
        r
    }

    /// Lets every wand rest one frame (see `rested_delay`).
    pub fn rest_wands(&mut self)
        requires
            forall|w: int|
                0 <= w < old(self).wands@.len() ==> (#[trigger] old(self).wands@[w]).delay
                    != 0x8000_0000,
        ensures
            rested(*old(self), *final(self)),
    {
        let mut w: usize = 0;
        while w < self.wands.len()
            invariant
                w <= self.wands@.len(),
                self.wands@.len() == old(self).wands@.len(),
                *self == (Actor { wands: self.wands, ..*old(self) }),
                forall|v: int|
                    0 <= v < old(self).wands@.len() ==> (#[trigger] old(self).wands@[v]).delay
                        != 0x8000_0000,
                forall|v: int|
                    0 <= v < self.wands@.len() ==> {
                        &&& (#[trigger] self.wands@[v]).slots@ == old(self).wands@[v].slots@
                        &&& self.wands@[v].index == old(self).wands@[v].index
                        &&& self.wands@[v].delay == (if v < w {
                            rested_delay(old(self).wands@[v].delay)
                        } else {
                            old(self).wands@[v].delay
                        })
                    },
            decreases self.wands@.len() - w,
        {
            let delay = rest_delay(self.wands[w].delay);
            let wand = self.wands[w].with_cursor(self.wands[w].index, delay);
            self.wands.set(w, wand);
            w = w + 1;
        }
    }

    /// One frame of an actor's casting: an actor still waiting counts its
    /// wait down and does nothing else; a frozen, staggered or drowning
    /// actor does nothing; otherwise the held primary trigger casts the current wand,
    /// then the held secondary trigger casts the last wand, and every wand
    /// rests one frame. `primary` and `secondary` give the registry entries
    /// of the spells of those two wands.
    pub fn fire_bullet(
        &mut self,
        primary: &Vec<Option<SpellProps>>,
        secondary: &Vec<Option<SpellProps>>,
        is_player: bool,
    ) -> (r: FireResult)
        requires
            old(self).wf(),
            primary@.len() == MAX_SPELLS_IN_WAND,
            secondary@.len() == MAX_SPELLS_IN_WAND,
            props_bounded(primary@),
            props_bounded(secondary@),
            props_match(old(self).wands@[old(self).current_wand as int].slots@, primary@),
            props_match(old(self).wands@[MAX_WANDS - 1].slots@, secondary@),
            fire_fits(*old(self), primary@, secondary@, is_player),
            forall|w: int|
                0 <= w < old(self).wands@.len() ==> (#[trigger] old(self).wands@[w]).delay
                    != 0x8000_0000,
        ensures
            final(self).wf(),
            0 < old(self).wait ==> r.gate == FireGate::Waiting && *final(self) == (Actor {
                wait: (old(self).wait - 1) as u32,
                ..*old(self)
            }) && (r.primary is None) && (r.secondary is None),
            old(self).wait == 0 && 0 < old(self).frozen ==> r.gate == FireGate::Frozen
                && *final(self) == *old(self) && (r.primary is None) && (r.secondary is None),
            old(self).wait == 0 && old(self).frozen == 0 && 0 < old(self).staggered ==> r.gate
                == FireGate::Staggered && *final(self) == *old(self) && (r.primary is None)
                && (r.secondary is None),
            old(self).wait == 0 && old(self).frozen == 0 && old(self).staggered == 0 && 0 < old(
                self,
            ).drown ==> r.gate == FireGate::Drowning && *final(self) == *old(self) && (
            r.primary is None) && (r.secondary is None),
            old(self).wait == 0 && old(self).frozen == 0 && old(self).staggered == 0 && old(
                self,
            ).drown == 0 ==> {
                &&& r.gate == FireGate::Ready
                &&& exists|a1: Actor, a2: Actor|
                    {
                        &&& trigger_outcome(
                            *old(self),
                            a1,
                            old(self).current_wand as int,
                            primary@,
                            is_player,
                            old(self).fire_state,
                            r.primary,
                        )
                        &&& trigger_outcome(
                            a1,
                            a2,
                            MAX_WANDS - 1,
                            secondary@,
                            is_player,
                            old(self).fire_state_secondary,
                            r.secondary,
                        )
                        &&& rested(a2, *final(self))
                    }
            },
    {
        if 0 < self.wait {
            self.wait = self.wait - 1;
            return FireResult { gate: FireGate::Waiting, primary: None, secondary: None };
        }
        if 0 < self.frozen {
            return FireResult { gate: FireGate::Frozen, primary: None, secondary: None };
        }
        if 0 < self.staggered {
            return FireResult { gate: FireGate::Staggered, primary: None, secondary: None };
        }
        if 0 < self.drown {
            return FireResult { gate: FireGate::Drowning, primary: None, secondary: None };
        }
        let ghost a0 = *self;
        let first = match self.fire_state {
            ActorFireState::Fire => {
                let wand = self.current_wand as usize;
                Some(self.cast_spell(wand, primary, is_player))
            },
            ActorFireState::Idle => None,
        };
        let ghost a1 = *self;
        proof {
            assert(trigger_outcome(
                a0,
                a1,
                a0.current_wand as int,
                primary@,
                is_player,
                a0.fire_state,
                first,
            ));
        }
        let second = match self.fire_state_secondary {
            ActorFireState::Fire => Some(self.cast_spell(MAX_WANDS - 1, secondary, is_player)),
            ActorFireState::Idle => None,
        };
        let ghost a2 = *self;
        proof {
            assert forall|w: int| 0 <= w < a2.wands@.len() implies (#[trigger] a2.wands@[
                w
            ]).delay != 0x8000_0000 by {
                assert(a1.wands@[w].delay == a0.wands@[w].delay || a1.wands@[w].delay
                    <= 0x7FFF_FFFF);
            }
        }
        self.rest_wands();
        proof {
            assert(trigger_outcome(
                a0,
                a1,
                a0.current_wand as int,
                primary@,
                is_player,
                a0.fire_state,
                first,
            ));
            assert(trigger_outcome(
                a1,
                a2,
                MAX_WANDS - 1,
                secondary@,
                is_player,
                a0.fire_state_secondary,
                second,
            ));
            assert(rested(a2, *self));
        }
        FireResult { gate: FireGate::Ready, primary: first, secondary: second }
    }
}

/// The rest a chain asks of the wand never shrinks as the chain goes on.
pub proof fn lemma_run_delay_grows(
    m: CastState,
    props: Seq<Option<SpellProps>>,
    group: ActorGroup,
    is_player: bool,
    targets: Seq<ActorType>,
    max_life: u32,
)
    requires
        props.len() == MAX_SPELLS_IN_WAND,
    ensures
        m.wand_delay <= run(m, props, group, is_player, targets, max_life).wand_delay,
    decreases MAX_SPELLS_IN_WAND - m.index,
{
    if 0 < m.multicast && 0 <= m.index < MAX_SPELLS_IN_WAND {
        lemma_run_delay_grows(
            step(m, props, group, is_player, targets, max_life),
            props,
            group,
            is_player,
            targets,
            max_life,
        );
    }
}

/// A wand that casts a spell rests afterwards: when the slot it resumes at
/// holds a spell, the chain asks a rest of at least one frame.
pub proof fn lemma_cast_rests_wand(
    m: CastState,
    props: Seq<Option<SpellProps>>,
    group: ActorGroup,
    is_player: bool,
    targets: Seq<ActorType>,
    max_life: u32,
)
    requires
        props.len() == MAX_SPELLS_IN_WAND,
        0 < m.multicast,
        0 <= m.index < MAX_SPELLS_IN_WAND,
        props[m.index] is Some,
    ensures
        1 <= run(m, props, group, is_player, targets, max_life).wand_delay,
{
    let next = step(m, props, group, is_player, targets, max_life);
    assert(1 <= next.wand_delay);
    lemma_run_delay_grows(next, props, group, is_player, targets, max_life);
}

/// Healing never lifts life above the maximum: a caster within its maximum
/// life stays within it through the chain.
pub proof fn lemma_heal_within_max(
    m: CastState,
    props: Seq<Option<SpellProps>>,
    group: ActorGroup,
    is_player: bool,
    targets: Seq<ActorType>,
    max_life: u32,
)
    requires
        props.len() == MAX_SPELLS_IN_WAND,
        m.life <= max_life,
    ensures
        run(m, props, group, is_player, targets, max_life).life <= max_life,
    decreases MAX_SPELLS_IN_WAND - m.index,
{
    if 0 < m.multicast && 0 <= m.index < MAX_SPELLS_IN_WAND {
        lemma_heal_within_max(
            step(m, props, group, is_player, targets, max_life),
            props,
            group,
            is_player,
            targets,
            max_life,
        );
    }
}

/// A cast never costs the caster life: a caster within its maximum life
/// ends the chain with at least the life it had, and still within the
/// maximum.
pub proof fn lemma_cast_never_lowers_life(
    m: CastState,
    props: Seq<Option<SpellProps>>,
    group: ActorGroup,
    is_player: bool,
    targets: Seq<ActorType>,
    max_life: u32,
)
    requires
        props.len() == MAX_SPELLS_IN_WAND,
        m.life <= max_life,
    ensures
        m.life <= run(m, props, group, is_player, targets, max_life).life <= max_life,
    decreases MAX_SPELLS_IN_WAND - m.index,
{
    if 0 < m.multicast && 0 <= m.index < MAX_SPELLS_IN_WAND {
        lemma_cast_never_lowers_life(
            step(m, props, group, is_player, targets, max_life),
            props,
            group,
            is_player,
            targets,
            max_life,
        );
    }
}

/// A cast never costs the caster life: whatever the transformations draw,
/// a caster within its maximum life comes out of a trigger (as
/// `Actor::cast_spell` and `Actor::fire_bullet` leave it) with at least the
/// life it had, and still within the same maximum.
pub proof fn lemma_trigger_never_lowers_life(
    before: Actor,
    after: Actor,
    wand_index: int,
    props: Seq<Option<SpellProps>>,
    is_player: bool,
    fire: ActorFireState,
    r: Option<CastResult>,
)
    requires
        props.len() == MAX_SPELLS_IN_WAND,
        trigger_outcome(before, after, wand_index, props, is_player, fire, r),
        untouched(after, before),
        before.life <= before.max_life,
    ensures
        after.max_life == before.max_life,
        before.life <= after.life <= after.max_life,
{
    if fire == ActorFireState::Fire {
        let ts = choose|ts: Seq<ActorType>|
            valid_targets(before.actor_type, ts) && cast_outcome(
                before,
                after,
                wand_index,
                props,
                is_player,
                ts,
                r->0,
            );
        if before.wands@[wand_index].delay == 0 {
            lemma_cast_never_lowers_life(
                start(before, wand_index),
                props,
                before.actor_group,
                is_player,
                ts,
                before.max_life,
            );
        }
    }
}

/// Dispel buffs pile up to four at most.
pub proof fn lemma_dispel_capped(
    m: CastState,
    props: Seq<Option<SpellProps>>,
    group: ActorGroup,
    is_player: bool,
    targets: Seq<ActorType>,
    max_life: u32,
)
    requires
        props.len() == MAX_SPELLS_IN_WAND,
        m.dispel <= 4,
    ensures
        run(m, props, group, is_player, targets, max_life).dispel <= 4,
    decreases MAX_SPELLS_IN_WAND - m.index,
{
    if 0 < m.multicast && 0 <= m.index < MAX_SPELLS_IN_WAND {
        lemma_dispel_capped(
            step(m, props, group, is_player, targets, max_life),
            props,
            group,
            is_player,
            targets,
            max_life,
        );
    }
}

/// Whether no slot holds a multiple cast spell.
pub open spec fn no_multicast(props: Seq<Option<SpellProps>>) -> bool {
    forall|i: int|
        0 <= i < props.len() ==> !((#[trigger] props[i]) matches Some(p) && p.cast is MultipleCast)
}

/// One pull, one spell: without multiple cast, a chain owing one cast reads
/// the empty slots up to the first spell, casts it and stops right after
/// it (or runs off the end of the wand).
pub proof fn lemma_one_spell_per_pull(
    m: CastState,
    props: Seq<Option<SpellProps>>,
    group: ActorGroup,
    is_player: bool,
    targets: Seq<ActorType>,
    max_life: u32,
)
    requires
        props.len() == MAX_SPELLS_IN_WAND,
        no_multicast(props),
        m.multicast == 1,
        0 <= m.index <= MAX_SPELLS_IN_WAND,
    ensures
        ({
            let e = run(m, props, group, is_player, targets, max_life);
            &&& m.index <= e.index <= MAX_SPELLS_IN_WAND
            &&& forall|j: int| m.index <= j < e.index - 1 ==> (#[trigger] props[j]) is None
            &&& e.index < MAX_SPELLS_IN_WAND ==> m.index < e.index && props[e.index - 1] is Some
            &&& e.index == MAX_SPELLS_IN_WAND && m.index < e.index ==> (props[e.index - 1] is Some
                || e.multicast == 1)
            &&& e.multicast == 0 || e.index == MAX_SPELLS_IN_WAND
        }),
    decreases MAX_SPELLS_IN_WAND - m.index,
{
    if m.index < MAX_SPELLS_IN_WAND {
        let next = step(m, props, group, is_player, targets, max_life);
        match props[m.index] {
            Some(p) => {
                assert(!(p.cast is MultipleCast));
                assert(next.multicast == 0);
                assert(run(next, props, group, is_player, targets, max_life) == next);
            },
            None => {
                assert(next.multicast == 1);
                lemma_one_spell_per_pull(next, props, group, is_player, targets, max_life);
            },
        }
    }
}


/// Whether a slot holds a Levitation spell.
pub open spec fn is_levitation(p: Option<SpellProps>) -> bool {
    p matches Some(q) && q.cast is Levitation
}

/// How many of the slots `lo..hi` hold a Levitation spell.
pub open spec fn levitation_slots(props: Seq<Option<SpellProps>>, lo: int, hi: int) -> nat
    decreases hi - lo,
{
    if lo < hi {
        (if is_levitation(props[lo]) {
            1nat
        } else {
            0nat
        }) + levitation_slots(props, lo + 1, hi)
    } else {
        0
    }
}

/// How many of the actions lift the caster.
pub open spec fn levitation_actions(s: Seq<CastAction>) -> nat
    decreases s.len(),
{
    if s.len() == 0 {
        0
    } else {
        levitation_actions(s.drop_last()) + (if s.last() is Levitation {
            1nat
        } else {
            0nat
        })
    }
}

/// Counting the lifts of two lists one after the other.
pub proof fn lemma_levitation_actions_add(s: Seq<CastAction>, t: Seq<CastAction>)
    ensures
        levitation_actions(s + t) == levitation_actions(s) + levitation_actions(t),
    decreases t.len(),
{
    if t.len() > 0 {
        assert((s + t).drop_last() =~= s + t.drop_last());
        lemma_levitation_actions_add(s, t.drop_last());
    } else {
        assert(s + t =~= s);
    }
}

/// The slashes left over at the end of a chain lift no one.
proof fn lemma_slashes_lift_no_one(slash: Seq<u32>)
    ensures
        levitation_actions(slash.map_values(|d: u32| CastAction::Slash(d))) == 0,
    decreases slash.len(),
{
    if slash.len() > 0 {
        assert(slash.map_values(|d: u32| CastAction::Slash(d)).drop_last() =~= slash.drop_last().map_values(
            |d: u32| CastAction::Slash(d),
        ));
        lemma_slashes_lift_no_one(slash.drop_last());
    }
}

/// What is left over at the end of a chain lifts no one.
pub proof fn lemma_leftovers_lift_no_one(m: CastState)
    ensures
        levitation_actions(finish_actions(m)) == 0,
{
    if !m.cleared {
        let a: Seq<CastAction> = match m.metamorph {
            Some(t) => seq![CastAction::Metamorphose(t)],
            None => seq![],
        };
        let b: Seq<CastAction> = if 0 < m.web {
            seq![CastAction::SpawnWeb]
        } else {
            seq![]
        };
        let c = m.slash.map_values(|d: u32| CastAction::Slash(d));
        assert(levitation_actions(a) == 0) by {
            if a.len() > 0 {
                assert(a.drop_last() =~= Seq::<CastAction>::empty());
                assert(levitation_actions(a.drop_last()) == 0);
                assert(!(a.last() is Levitation));
            }
        }
        assert(levitation_actions(b) == 0) by {
            if b.len() > 0 {
                assert(b.drop_last() =~= Seq::<CastAction>::empty());
                assert(levitation_actions(b.drop_last()) == 0);
                assert(!(b.last() is Levitation));
            }
        }
        lemma_slashes_lift_no_one(m.slash);
        lemma_levitation_actions_add(a, b);
        lemma_levitation_actions_add(a + b, c);
    }
}

/// Each Levitation spell the chain reads lifts the caster by exactly 300
/// frames and hands the engine one lift; no other spell does either.
pub proof fn lemma_levitation_per_spell(
    m: CastState,
    props: Seq<Option<SpellProps>>,
    group: ActorGroup,
    is_player: bool,
    targets: Seq<ActorType>,
    max_life: u32,
)
    requires
        props.len() == MAX_SPELLS_IN_WAND,
        run_fits(m, props, group, is_player, targets, max_life),
    ensures
        ({
            let e = run(m, props, group, is_player, targets, max_life);
            &&& m.index <= e.index
            &&& e.levitation == m.levitation + 300 * levitation_slots(props, m.index, e.index)
            &&& levitation_actions(e.actions) == levitation_actions(m.actions) + levitation_slots(
                props,
                m.index,
                e.index,
            )
        }),
    decreases MAX_SPELLS_IN_WAND - m.index,
{
    if 0 < m.multicast && 0 <= m.index < MAX_SPELLS_IN_WAND {
        let n = step(m, props, group, is_player, targets, max_life);
        lemma_levitation_per_spell(n, props, group, is_player, targets, max_life);
        let e = run(m, props, group, is_player, targets, max_life);
        assert(e == run(n, props, group, is_player, targets, max_life));
        match props[m.index] {
            Some(p) => {
                let q = pre_cast(m, p);
                assert(slot_fits(m, p));
                assert(n.index == m.index + 1);
                if p.cast is Levitation {
                    assert(n.levitation == m.levitation + 300);
                    assert(n.actions == m.actions.push(CastAction::Levitation));
                    assert(n.actions.drop_last() =~= m.actions);
                } else {
                    assert(n.levitation == m.levitation);
                    assert(n.actions == m.actions || (n.actions.len() == m.actions.len() + 1
                        && n.actions.drop_last() =~= m.actions && !(n.actions.last() is Levitation)));
                }
            },
            None => {
                assert(n.index == m.index + 1);
                assert(n.levitation == m.levitation);
                assert(n.actions == m.actions);
            },
        }
    }
}

/// A cast lifts the caster by exactly 300 frames for each lift it hands
/// the engine, whatever the transformations draw, and a resting wand lifts
/// no one.
pub proof fn lemma_cast_lifts_per_levitation(
    before: Actor,
    after: Actor,
    wand_index: int,
    props: Seq<Option<SpellProps>>,
    is_player: bool,
    r: Option<CastResult>,
)
    requires
        props.len() == MAX_SPELLS_IN_WAND,
        cast_fits(before, wand_index, props, is_player),
        trigger_outcome(before, after, wand_index, props, is_player, ActorFireState::Fire, r),
    ensures
        r is Some,
        after.levitation == before.levitation + 300 * levitation_actions(r->0.actions@),
        before.wands@[wand_index].delay == 0 ==> levitation_actions(r->0.actions@)
            == levitation_slots(
            props,
            before.wands@[wand_index].index as int,
            run(
                start(before, wand_index),
                props,
                before.actor_group,
                is_player,
                choose|ts: Seq<ActorType>|
                    valid_targets(before.actor_type, ts) && cast_outcome(
                        before,
                        after,
                        wand_index,
                        props,
                        is_player,
                        ts,
                        r->0,
                    ),
                before.max_life,
            ).index,
        ),
{
    let ts = choose|ts: Seq<ActorType>|
        valid_targets(before.actor_type, ts) && cast_outcome(
            before,
            after,
            wand_index,
            props,
            is_player,
            ts,
            r->0,
        );
    let res = r->0;
    if before.wands@[wand_index].delay == 0 {
        let m0 = start(before, wand_index);
        assert(run_fits(m0, props, before.actor_group, is_player, ts, before.max_life));
        lemma_levitation_per_spell(m0, props, before.actor_group, is_player, ts, before.max_life);
        let m = run(m0, props, before.actor_group, is_player, ts, before.max_life);
        assert(levitation_actions(m0.actions) == 0);
        lemma_leftovers_lift_no_one(m);
        lemma_levitation_actions_add(m.actions, finish_actions(m));
        assert(res.actions@ == m.actions + finish_actions(m));
    } else {
        assert(res.actions@.len() == 0);
    }
}


/// How many of the slots `lo..hi` hold a spell of the given kind.
pub open spec fn casts_of(
    props: Seq<Option<SpellProps>>,
    lo: int,
    hi: int,
    kind: spec_fn(SpellCast) -> bool,
) -> nat
    decreases hi - lo,
{
    if lo < hi {
        (if props[lo] matches Some(q) && kind(q.cast) {
            1nat
        } else {
            0nat
        }) + casts_of(props, lo + 1, hi, kind)
    } else {
        0
    }
}

/// Each Heal spell the chain reads gives the caster two life, and the life
/// never passes the maximum: a caster within its maximum ends the chain
/// with its life plus two per Heal, or the maximum if that is less.
pub proof fn lemma_heals_add_two_each(
    m: CastState,
    props: Seq<Option<SpellProps>>,
    group: ActorGroup,
    is_player: bool,
    targets: Seq<ActorType>,
    max_life: u32,
)
    requires
        props.len() == MAX_SPELLS_IN_WAND,
        run_fits(m, props, group, is_player, targets, max_life),
        m.life <= max_life,
    ensures
        ({
            let e = run(m, props, group, is_player, targets, max_life);
            let heals = casts_of(props, m.index, e.index, |c: SpellCast| c is Heal);
            &&& m.index <= e.index
            &&& e.life == (if m.life + 2 * heals < max_life {
                m.life + 2 * heals
            } else {
                max_life as int
            })
        }),
    decreases MAX_SPELLS_IN_WAND - m.index,
{
    if 0 < m.multicast && 0 <= m.index < MAX_SPELLS_IN_WAND {
        let n = step(m, props, group, is_player, targets, max_life);
        assert(n.index == m.index + 1);
        assert(n.life == (if props[m.index] matches Some(q) && q.cast is Heal {
            if m.life + 2 < max_life {
                m.life + 2
            } else {
                max_life as int
            }
        } else {
            m.life as int
        }));
        lemma_heals_add_two_each(n, props, group, is_player, targets, max_life);
    }
}

/// Each Heavy Shot spell the chain reads adds five to the damage buff, and
/// nothing else in a chain changes it.
pub proof fn lemma_heavy_shots_add_five_each(
    m: CastState,
    props: Seq<Option<SpellProps>>,
    group: ActorGroup,
    is_player: bool,
    targets: Seq<ActorType>,
    max_life: u32,
)
    requires
        props.len() == MAX_SPELLS_IN_WAND,
        run_fits(m, props, group, is_player, targets, max_life),
    ensures
        ({
            let e = run(m, props, group, is_player, targets, max_life);
            &&& m.index <= e.index
            &&& e.buff == m.buff + 5 * casts_of(props, m.index, e.index, |c: SpellCast| c is HeavyShot)
        }),
    decreases MAX_SPELLS_IN_WAND - m.index,
{
    if 0 < m.multicast && 0 <= m.index < MAX_SPELLS_IN_WAND {
        let n = step(m, props, group, is_player, targets, max_life);
        assert(n.index == m.index + 1);
        match props[m.index] {
            Some(p) => {
                assert(slot_fits(m, p));
                assert(n.buff == m.buff + (if p.cast is HeavyShot {
                    5int
                } else {
                    0int
                }));
            },
            None => {},
        }
        lemma_heavy_shots_add_five_each(n, props, group, is_player, targets, max_life);
    }
}


/// A friendly summon joins the caster's side and a hostile one the other
/// fighting side, so the two always stand on opposite sides; neutral
/// creatures and furniture only ever summon neutral servants.
pub proof fn lemma_summons_take_sides(group: ActorGroup)
    ensures
        group == ActorGroup::Friend || group == ActorGroup::Enemy ==> {
            &&& summon_group(group, true) == group
            &&& summon_group(group, false) != group
            &&& (summon_group(group, false) == ActorGroup::Friend || summon_group(group, false)
                == ActorGroup::Enemy)
        },
        group == ActorGroup::Neutral || group == ActorGroup::Entity ==> summon_group(group, true)
            == ActorGroup::Neutral && summon_group(group, false) == ActorGroup::Neutral,
{
}

} // verus!
