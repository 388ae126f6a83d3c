//! Actors: the player character, monsters and breakable things, with the
//! part of their state that the game rules read and write.
use vstd::prelude::*;
use crate::constant::MAX_SPELLS_IN_WAND;
use crate::constant::MAX_WANDS;
use crate::random::new_uuid;
use crate::spell::ActorType;
use crate::spell::Spell;
use crate::wand::Inventory;
use crate::wand::InventoryItem;
use crate::wand::Wand;
use crate::wand::WandSpell;
use crate::wand::items_dept;
use crate::wand::item_price;
use crate::wand::slot_price;
use crate::wand::lemma_paid_items_dept;
use crate::wand::lemma_free_items;
use crate::wand::lemma_free_slots;
use crate::wand::lemma_free_wands;
use crate::wand::lemma_paid_wands_dept;
use crate::wand::wands_dept;
use crate::wand::paid_item;
use crate::wand::paid_slot;
use crate::wand::slot_spell;
use crate::wand::lemma_wands_dept_push;
use crate::wand::lemma_wands_dept_prefix;

verus! {

/// The side an actor fights for.
#[derive(Clone, Copy, Debug, PartialEq, Eq, Structural)]
pub enum ActorGroup {
    Friend,
    /// Attacked by both sides and targeted by enemies.
    Neutral,
    Enemy,
    /// Furniture: attacked by both sides but never targeted by enemies.
    Entity,
}

impl Default for ActorGroup {
    /// Actors fight for the player unless told otherwise.
    fn default() -> (r: ActorGroup)
        ensures
            r == ActorGroup::Friend,
    {
        ActorGroup::Friend
    }
}

/// Whether an actor stands still or walks.
#[derive(Clone, Copy, Debug, PartialEq, Eq, Structural)]
pub enum ActorState {
    Idle,
    Run,
}

/// Whether an actor holds a trigger down.
#[derive(Clone, Copy, Debug, PartialEq, Eq, Structural)]
pub enum ActorFireState {
    Idle,
    /// Casts toward the actor's pointer.
    Fire,
}

/// The buffs that the spells cast so far put on the next bullet; they are
/// used up when a bullet is fired. The fractional buffs (bullet speed,
/// homing, precision) are kept by the engine.
pub struct CastEffects {
    pub bullet_damage_buff_amount: i32,
    pub quick_cast: u32,
    pub metamorphse: Option<ActorType>,
    pub dispel: u8,
    pub web: u8,
    pub slash: Vec<u32>,
    pub levitation: u32,
}

impl CastEffects {
    /// The same buffs.
    pub open spec fn same_as(&self, other: CastEffects) -> bool {
        &&& self.slash@ == other.slash@
        &&& CastEffects { slash: other.slash, ..*self } == other
    }

    /// No buff at all.
    pub open spec fn is_cleared(&self) -> bool {
        &&& self.bullet_damage_buff_amount == 0
        &&& self.quick_cast == 0
        &&& self.metamorphse is None
        &&& self.dispel == 0
        &&& self.web == 0
        &&& self.slash@.len() == 0
        &&& self.levitation == 0
    }

    /// Effects with no buff.
    pub fn new() -> (r: CastEffects)
        ensures
            r.is_cleared(),
    {
        CastEffects {
            bullet_damage_buff_amount: 0,
            quick_cast: 0,
            metamorphse: None,
            dispel: 0,
            web: 0,
            slash: Vec::new(),
            levitation: 0,
        }
    }
}

impl Clone for CastEffects {
    fn clone(&self) -> (r: Self)
        ensures
            r.same_as(*self),
    {
        let mut slash: Vec<u32> = Vec::new();
        let mut i: usize = 0;
        while i < self.slash.len()
            invariant
                i <= self.slash@.len(),
                slash@ == self.slash@.take(i as int),
            decreases self.slash@.len() - i,
        {
            slash.push(self.slash[i]);
            i = i + 1;
            assert(slash@ =~= self.slash@.take(i as int));
        }
        assert(slash@ =~= self.slash@);
        let metamorphse = match &self.metamorphse {
            Some(t) => Some(t.clone()),
            None => None,
        };
        CastEffects {
            bullet_damage_buff_amount: self.bullet_damage_buff_amount,
            quick_cast: self.quick_cast,
            metamorphse,
            dispel: self.dispel,
            web: self.web,
            slash,
            levitation: self.levitation,
        }
    }
}

/// An actor. Positions, velocities and the other fractional quantities are
/// kept by the engine; `airborne` stands for a height above the ground.
pub struct Actor {
    pub actor_type: ActorType,
    pub uuid: u128,
    pub actor_group: ActorGroup,
    pub life: u32,
    pub max_life: u32,
    /// Frames before fire can hurt the actor again.
    pub fire_damage_wait: u32,
    pub fire_state: ActorFireState,
    pub fire_state_secondary: ActorFireState,
    pub current_wand: u8,
    pub wands: Vec<Wand>,
    pub inventory: Inventory,
    pub golds: u32,
    pub state: ActorState,
    /// Frames before the actor may cast again.
    pub wait: u32,
    /// Positive while caught in a web.
    pub trapped: u32,
    /// Positive while webs cannot catch the actor.
    pub trap_moratorium: u32,
    pub effects: CastEffects,
    pub frozen: u32,
    pub staggered: u32,
    pub levitation: u32,
    pub drown: u32,
    /// Frames left to a clone; `None` for an original.
    pub cloned: Option<u32>,
    pub getting_up: u32,
    /// Hidden in a shadow: walls and actors still collide, bullets do not.
    pub hidden: bool,
    /// Above the ground.
    pub airborne: bool,
    pub just_landed: bool,
}

impl Actor {
    /// The same actor: the same wands, inventory and buffs, and every
    /// other field equal.
    pub open spec fn same_as(&self, other: Actor) -> bool {
        &&& self.wands@.len() == other.wands@.len()
        &&& forall|w: int|
            0 <= w < self.wands@.len() ==> (#[trigger] self.wands@[w]).same_as(other.wands@[w])
        &&& self.inventory.0@ == other.inventory.0@
        &&& self.effects.same_as(other.effects)
        &&& Actor { wands: other.wands, inventory: other.inventory, effects: other.effects, ..*self }
            == other
    }
}

impl Clone for Actor {
    fn clone(&self) -> (r: Self)
        ensures
            r.same_as(*self),
    {
        let mut wands: Vec<Wand> = Vec::new();
        let mut i: usize = 0;
        while i < self.wands.len()
            invariant
                i <= self.wands@.len(),
                wands@.len() == i,
                forall|w: int| 0 <= w < i ==> (#[trigger] wands@[w]).same_as(self.wands@[w]),
            decreases self.wands@.len() - i,
        {
            wands.push(self.wands[i].clone());
            i = i + 1;
        }
        Actor {
            actor_type: self.actor_type.clone(),
            uuid: self.uuid,
            actor_group: self.actor_group,
            life: self.life,
            max_life: self.max_life,
            fire_damage_wait: self.fire_damage_wait,
            fire_state: self.fire_state,
            fire_state_secondary: self.fire_state_secondary,
            current_wand: self.current_wand,
            wands,
            inventory: self.inventory.clone(),
            golds: self.golds,
            state: self.state,
            wait: self.wait,
            trapped: self.trapped,
            trap_moratorium: self.trap_moratorium,
            effects: self.effects.clone(),
            frozen: self.frozen,
            staggered: self.staggered,
            levitation: self.levitation,
            drown: self.drown,
            cloned: self.cloned,
            getting_up: self.getting_up,
            hidden: self.hidden,
            airborne: self.airborne,
            just_landed: self.just_landed,
        }
    }
}

/// The copy a cloning spell makes of an actor: a new identifier, one life,
/// no golds, idle and not casting, made to vanish after `lifetime` frames,
/// and unable to cast for 30 frames so that it does not clone itself at
/// once.
pub open spec fn clone_of(a: Actor, lifetime: u32, uuid: u128) -> Actor {
    Actor {
        uuid,
        wait: 30,
        fire_state: ActorFireState::Idle,
        fire_state_secondary: ActorFireState::Idle,
        state: ActorState::Idle,
        cloned: Some(lifetime),
        life: 1,
        max_life: 1,
        golds: 0,
        ..a
    }
}

/// The copy a cloning spell makes of an actor (see `clone_of`), with an
/// identifier from `new_uuid`.
pub fn clone_actor(actor: &Actor, lifetime: u32) -> (r: Actor)
    ensures
        r.same_as(clone_of(*actor, lifetime, r.uuid)),
{
    let mut cloned = actor.clone();
    cloned.uuid = new_uuid();
    cloned.wait = 30;
    cloned.fire_state = ActorFireState::Idle;
    cloned.fire_state_secondary = ActorFireState::Idle;
    cloned.state = ActorState::Idle;
    cloned.cloned = Some(lifetime);
    cloned.life = 1;
    cloned.max_life = 1;
    cloned.golds = 0;
    cloned
}

/// The set of names of the spells among the cells that are paid for.
pub open spec fn free_item_names(s: Seq<Option<InventoryItem>>) -> Set<Seq<char>>
    decreases s.len(),
{
    if s.len() == 0 {
        Set::empty()
    } else {
        let rest = free_item_names(s.drop_last());
        match s.last() {
            Some(it) => if it.price == 0 {
                rest.insert(it.spell@)
            } else {
                rest
            },
            None => rest,
        }
    }
}

/// The set of names of the spells among the slots that are paid for.
pub open spec fn free_slot_names(s: Seq<Option<WandSpell>>) -> Set<Seq<char>>
    decreases s.len(),
{
    if s.len() == 0 {
        Set::empty()
    } else {
        let rest = free_slot_names(s.drop_last());
        match s.last() {
            Some(w) => if w.price == 0 {
                rest.insert(w.spell@)
            } else {
                rest
            },
            None => rest,
        }
    }
}

/// The set of names of the paid-for spells in a sequence of wands.
pub open spec fn free_wand_names(ws: Seq<Wand>) -> Set<Seq<char>>
    decreases ws.len(),
{
    if ws.len() == 0 {
        Set::empty()
    } else {
        free_wand_names(ws.drop_last()).union(free_slot_names(ws.last().slots@))
    }
}

/// The set of names held by a list of spells.
pub open spec fn spell_names(v: Seq<Spell>) -> Set<Seq<char>> {
    Set::new(|n: Seq<char>| exists|k: int| 0 <= k < v.len() && v[k]@ == n)
}

/// No name occurs twice in a list of spells.
pub open spec fn distinct_names(v: Seq<Spell>) -> bool {
    forall|i: int, j: int| 0 <= i < j < v.len() ==> v[i]@ != v[j]@
}

/// Whether some wand slot holds the spell of the given name.
pub open spec fn wands_hold(ws: Seq<Wand>, name: Seq<char>) -> bool {
    exists|w: int, j: int|
        0 <= w < ws.len() && 0 <= j < ws[w].slots@.len() && #[trigger] slot_spell(
            ws[w].slots@[j],
        ) == Some(name)
}

/// The number of slots holding the spell of the given name.
pub open spec fn count_named_slots(s: Seq<Option<WandSpell>>, name: Seq<char>) -> int
    decreases s.len(),
{
    if s.len() == 0 {
        0
    } else {
        count_named_slots(s.drop_last(), name) + if slot_spell(s.last()) == Some(name) {
            1int
        } else {
            0int
        }
    }
}

/// The number of slots, over all wands, holding the spell of the given name.
pub open spec fn count_named(ws: Seq<Wand>, name: Seq<char>) -> int
    decreases ws.len(),
{
    if ws.len() == 0 {
        0
    } else {
        count_named(ws.drop_last(), name) + count_named_slots(ws.last().slots@, name)
    }
}

/// `x` held within `[lo, hi]`.
pub open spec fn clamp(x: int, lo: int, hi: int) -> int {
    if x < lo {
        lo
    } else if x > hi {
        hi
    } else {
        x
    }
}

/// Whether a spell list holds the given name.
pub fn contains_name(v: &Vec<Spell>, s: &Spell) -> (r: bool)
    ensures
        r == spell_names(v@).contains(s@),
{
    let mut k: usize = 0;
    while k < v.len()
        invariant
            k <= v@.len(),
            forall|j: int| 0 <= j < k ==> v@[j]@ != s@,
        decreases v@.len() - k,
    {
        if v[k].same(s) {
            assert(spell_names(v@).contains(s@) == (exists|j: int|
                0 <= j < v@.len() && v@[j]@ == s@));
            return true;
        }
        k = k + 1;
    }
    false
}

/// Adds a spell to a list of distinct names unless its name is already
/// there.
pub fn insert_name(v: &mut Vec<Spell>, s: Spell)
    requires
        distinct_names(old(v)@),
    ensures
        distinct_names(final(v)@),
        spell_names(final(v)@) == spell_names(old(v)@).insert(s@),
        final(v)@ == (if spell_names(old(v)@).contains(s@) {
            old(v)@
        } else {
            old(v)@.push(s)
        }),
{
    if !contains_name(v, &s) {
        let ghost before = v@;
        let ghost name = s@;
        v.push(s);
        assert(spell_names(v@) =~= spell_names(before).insert(name)) by {
            assert forall|n: Seq<char>| #[trigger] spell_names(v@).contains(n) implies spell_names(
                before,
            ).insert(name).contains(n) by {
                let k = choose|k: int| 0 <= k < v@.len() && v@[k]@ == n;
                if k < before.len() {
                    assert(before[k]@ == n);
                }
            }
            assert forall|n: Seq<char>| #[trigger] spell_names(before).insert(name).contains(
                n,
            ) implies spell_names(v@).contains(n) by {
                if n == name {
                    assert(v@[before.len() as int]@ == n);
                } else {
                    let k = choose|k: int| 0 <= k < before.len() && before[k]@ == n;
                    assert(v@[k]@ == n);
                }
            }
        }
    } else {
        assert(spell_names(v@).insert(s@) =~= spell_names(v@));
    }
}

/// A spell being dragged on screen, by where it came from.
#[derive(Clone, Copy, Debug, PartialEq, Eq, Structural)]
pub enum FloatingContent {
    /// A cell of the inventory.
    Inventory(usize),
    /// A slot of a wand: the wand, then the slot.
    WandSpell(usize, usize),
}

impl Actor {
    /// A well-formed actor: `MAX_WANDS` wands of `MAX_SPELLS_IN_WAND`
    /// slots, a full-sized inventory, and a current wand that is one of the
    /// wands.
    pub open spec fn wf(&self) -> bool {
        &&& self.wands@.len() == MAX_WANDS
        &&& forall|w: int| 0 <= w < self.wands@.len() ==> (#[trigger] self.wands@[w]).wf()
        &&& self.inventory.wf()
        &&& self.current_wand < MAX_WANDS
    }

    /// The total price owed for the spells in the inventory and the wands.
    pub open spec fn total_dept(&self) -> nat {
        items_dept(self.inventory.0@) + wands_dept(self.wands@)
    }

    /// The names of the spells the actor owns: those paid for, in the
    /// inventory or in a wand.
    pub open spec fn owned_names(&self) -> Set<Seq<char>> {
        free_item_names(self.inventory.0@).union(free_wand_names(self.wands@))
    }

    /// The spell in the given slot of the given wand.
    pub fn get_spell(&self, wand_index: usize, spell_index: usize) -> (r: Option<WandSpell>)
        requires
            wand_index < self.wands@.len(),
            spell_index < self.wands@[wand_index as int].slots@.len(),
        ensures
            r == self.wands@[wand_index as int].slots@[spell_index as int],
    {
        match &self.wands[wand_index].slots[spell_index] {
            Some(w) => Some(w.clone()),
            None => None,
        }
    }

    /// The spell in the given slot of the given wand.
    pub fn get_wand_spell(&self, wand_index: usize, spell_index: usize) -> (r: Option<WandSpell>)
        requires
            wand_index < self.wands@.len(),
            spell_index < self.wands@[wand_index as int].slots@.len(),
        ensures
            r == self.wands@[wand_index as int].slots@[spell_index as int],
    {
        self.get_spell(wand_index, spell_index)
    }

    /// The spell whose icon a dragged item shows, if its place holds one
    /// (the engine takes the icon from the spell's registry entry). A cell
    /// beyond the inventory holds nothing.
    pub fn get_item_icon(&self, index: FloatingContent) -> (r: Option<Spell>)
        requires
            index matches FloatingContent::WandSpell(w, s) ==> w < self.wands@.len() && s
                < self.wands@[w as int].slots@.len(),
        ensures
            r == (match index {
                FloatingContent::Inventory(i) => if i < self.inventory.0@.len() {
                    match self.inventory.0@[i as int] {
                        Some(item) => Some(item.spell),
                        None => None,
                    }
                } else {
                    None
                },
                FloatingContent::WandSpell(w, s) => match self.wands@[w as int].slots@[s as int] {
                    Some(ws) => Some(ws.spell),
                    None => None,
                },
            }),
    {
        match index {
            FloatingContent::Inventory(i) => match self.inventory.get(i) {
                Some(item) => Some(item.spell),
                None => None,
            },
            FloatingContent::WandSpell(w, s) => match &self.wands[w].slots[s] {
                Some(ws) => Some(ws.spell.clone()),
                None => None,
            },
        }
    }

    /// The total price owed for the paid spells the actor carries, in the
    /// inventory and in the wands.
    pub fn dept(&self) -> (r: u32)
        requires
            self.total_dept() <= u32::MAX,
        ensures
            r == self.total_dept(),
    {
        let mut dept = self.inventory.dept();
        let mut w: u32 = 0;
        let mut i: usize = 0;
        while i < self.wands.len()
            invariant
                i <= self.wands@.len(),
                w == wands_dept(self.wands@.take(i as int)),
                dept == items_dept(self.inventory.0@),
                self.total_dept() <= u32::MAX,
            decreases self.wands@.len() - i,
        {
            proof {
                assert(self.wands@.take(i + 1) =~= self.wands@.take(i as int).push(
                    self.wands@[i as int],
                ));
                lemma_wands_dept_push(self.wands@.take(i as int), self.wands@[i as int]);
                lemma_wands_dept_prefix(self.wands@, i + 1);
            }
            w = w + self.wands[i].dept();
            i = i + 1;
        }
        proof {
            assert(self.wands@.take(i as int) =~= self.wands@);
        }
        dept = dept + w;
        dept
    }

    /// Pays for every spell the actor carries. When the golds cover the
    /// total price, it is taken from the golds, every price is cleared and
    /// `true` comes back; otherwise nothing changes and `false` comes back.
    pub fn liquidate(&mut self) -> (r: bool)
        requires
            old(self).total_dept() <= u32::MAX,
        ensures
            liquidation(*old(self), *final(self), r),
            r ==> final(self).total_dept() == 0,
            old(self).total_dept() == 0 ==> r && *final(self) == *old(self),
    {
        let dept = self.dept();
        if self.golds < dept {
            return false;
        }
        if dept == 0 {
            proof {
                lemma_free_items(self.inventory.0@);
                lemma_free_wands(self.wands@);
                assert forall|w: int| 0 <= w < self.wands@.len() implies (#[trigger] self.wands@[
                    w
                ]).slots@ == self.wands@[w].slots@.map_values(|s: Option<WandSpell>| paid_slot(s))
                    by {
                    lemma_free_slots(self.wands@[w].slots@);
                }
            }
            return true;
        }
        self.golds = self.golds - dept;
        self.inventory = self.inventory.paid();
        let mut wands: Vec<Wand> = Vec::new();
        let mut i: usize = 0;
        while i < self.wands.len()
            invariant
                i <= self.wands@.len(),
                wands@.len() == i,
                forall|w: int|
                    0 <= w < i ==> {
                        &&& (#[trigger] wands@[w]).slots@ == self.wands@[w].slots@.map_values(
                            |s: Option<WandSpell>| paid_slot(s),
                        )
                        &&& wands@[w].index == self.wands@[w].index
                        &&& wands@[w].delay == self.wands@[w].delay
                    },
            decreases self.wands@.len() - i,
        {
            wands.push(self.wands[i].paid());
            i = i + 1;
        }
        proof {
            let inv = self.inventory.0@;
            assert forall|i: int| 0 <= i < inv.len() implies item_price(#[trigger] inv[i]) == 0 by {
            }
            lemma_paid_items_dept(inv);
            assert forall|a: int, i: int|
                0 <= a < wands@.len() && 0 <= i < wands@[a].slots@.len() implies slot_price(
                #[trigger] wands@[a].slots@[i],
            ) == 0 by {
                assert(wands@[a].slots@ == self.wands@[a].slots@.map_values(
                    |s: Option<WandSpell>| paid_slot(s),
                ));
            }
            lemma_paid_wands_dept(wands@);
        }
        self.wands = wands;
        assert(self.total_dept() == 0);
        true
    }

    /// The paid-for spells the actor carries, each name once.
    pub fn get_owned_spell_types(&self) -> (r: Vec<Spell>)
        ensures
            distinct_names(r@),
            spell_names(r@) == self.owned_names(),
    {
        let mut found: Vec<Spell> = Vec::new();
        let mut i: usize = 0;
        while i < self.inventory.0.len()
            invariant
                i <= self.inventory.0@.len(),
                distinct_names(found@),
                spell_names(found@) == free_item_names(self.inventory.0@.take(i as int)),
            decreases self.inventory.0@.len() - i,
        {
            proof {
                assert(self.inventory.0@.take(i + 1).drop_last() =~= self.inventory.0@.take(
                    i as int,
                ));
            }
            match &self.inventory.0[i] {
                Some(item) => {
                    if item.price == 0 {
                        insert_name(&mut found, item.spell.clone());
                    }
                },
                None => {},
            }
            i = i + 1;
        }
        proof {
            assert(self.inventory.0@.take(i as int) =~= self.inventory.0@);
        }
        let ghost items = spell_names(found@);
        let mut w: usize = 0;
        while w < self.wands.len()
            invariant
                w <= self.wands@.len(),
                distinct_names(found@),
                spell_names(found@) == items.union(free_wand_names(self.wands@.take(w as int))),
            decreases self.wands@.len() - w,
        {
            let ghost before = spell_names(found@);
            let slots = &self.wands[w].slots;
            let mut j: usize = 0;
            while j < slots.len()
                invariant
                    j <= slots@.len(),
                    distinct_names(found@),
                    spell_names(found@) == before.union(free_slot_names(slots@.take(j as int))),
                decreases slots@.len() - j,
            {
                proof {
                    assert(slots@.take(j + 1).drop_last() =~= slots@.take(j as int));
                }
                match &slots[j] {
                    Some(s) => {
                        if s.price == 0 {
                            insert_name(&mut found, s.spell.clone());
                        }
                    },
                    None => {},
                }
                proof {
                    assert(spell_names(found@) =~= before.union(
                        free_slot_names(slots@.take(j + 1)),
                    ));
                }
                j = j + 1;
            }
            proof {
                assert(slots@.take(j as int) =~= slots@);
                assert(self.wands@.take(w + 1).drop_last() =~= self.wands@.take(w as int));
                assert(spell_names(found@) =~= items.union(
                    free_wand_names(self.wands@.take(w + 1)),
                ));
            }
            w = w + 1;
        }
        proof {
            assert(self.wands@.take(w as int) =~= self.wands@);
        }
        found
    }

    /// Whether some wand slot holds the given spell.
    pub fn contains_in_slot(&self, spell: &Spell) -> (r: bool)
        ensures
            r == wands_hold(self.wands@, spell@),
    {
        let mut w: usize = 0;
        while w < self.wands.len()
            invariant
                w <= self.wands@.len(),
                forall|a: int, j: int|
                    0 <= a < w && 0 <= j < self.wands@[a].slots@.len() ==> #[trigger] slot_spell(
                        self.wands@[a].slots@[j],
                    ) != Some(spell@),
            decreases self.wands@.len() - w,
        {
            let slots = &self.wands[w].slots;
            let mut j: usize = 0;
            while j < slots.len()
                invariant
                    j <= slots@.len(),
                    w < self.wands@.len(),
                    slots@ == self.wands@[w as int].slots@,
                    forall|a: int, k: int|
                        0 <= a < w && 0 <= k < self.wands@[a].slots@.len() ==> #[trigger] slot_spell(
                            self.wands@[a].slots@[k],
                        ) != Some(spell@),
                    forall|k: int| 0 <= k < j ==> #[trigger] slot_spell(slots@[k]) != Some(spell@),
                decreases slots@.len() - j,
            {
                match &slots[j] {
                    Some(s) => {
                        if s.spell.same(spell) {
                            assert(slot_spell(self.wands@[w as int].slots@[j as int]) == Some(
                                spell@,
                            ));
                            return true;
                        }
                    },
                    None => {},
                }
                j = j + 1;
            }
            assert forall|a: int, k: int|
                0 <= a < w + 1 && 0 <= k < self.wands@[a].slots@.len() implies #[trigger] slot_spell(
                    self.wands@[a].slots@[k],
                ) != Some(spell@) by {
                if a == w {
                    assert(slot_spell(slots@[k]) != Some(spell@));
                }
            }
            w = w + 1;
        }
        false
    }

    /// The number of slots, over all wands, holding the given spell.
    pub fn count_spell(&self, spell: &Spell) -> (r: u32)
        requires
            self.wf(),
        ensures
            r == count_named(self.wands@, spell@),
            r <= MAX_WANDS * MAX_SPELLS_IN_WAND,
    {
        let mut c: u32 = 0;
        let mut w: usize = 0;
        while w < self.wands.len()
            invariant
                w <= self.wands@.len(),
                self.wf(),
                c == count_named(self.wands@.take(w as int), spell@),
                0 <= c <= w * MAX_SPELLS_IN_WAND,
            decreases self.wands@.len() - w,
        {
            let slots = &self.wands[w].slots;
            let ghost cw = c;
            let mut j: usize = 0;
            while j < slots.len()
                invariant
                    j <= slots@.len(),
                    slots@.len() == MAX_SPELLS_IN_WAND,
                    w < MAX_WANDS,
                    c == cw + count_named_slots(slots@.take(j as int), spell@),
                    0 <= cw <= w * MAX_SPELLS_IN_WAND,
                    cw <= c <= cw + j,
                decreases slots@.len() - j,
            {
                proof {
                    assert(slots@.take(j + 1).drop_last() =~= slots@.take(j as int));
                }
                match &slots[j] {
                    Some(s) => {
                        if s.spell.same(spell) {
                            c = c + 1;
                        }
                    },
                    None => {},
                }
                j = j + 1;
            }
            proof {
                assert(slots@.take(j as int) =~= slots@);
                assert(self.wands@.take(w + 1).drop_last() =~= self.wands@.take(w as int));
            }
            w = w + 1;
        }
        proof {
            assert(self.wands@.take(w as int) =~= self.wands@);
        }
        c
    }

    /// The reach of the light the actor's lanterns give: 160 for each
    /// "Lantern" in its wands, and none for a clone, lest many clones of
    /// a well-lit player light up everything.
    pub fn point_light_radius_by_item(&self) -> (r: u32)
        requires
            self.wf(),
        ensures
            r == (if self.cloned is None {
                160 * count_named(self.wands@, "Lantern"@)
            } else {
                0
            }),
    {
        if self.cloned.is_some() {
            return 0;
        }
        let n = self.count_spell(&Spell::new("Lantern"));
        160 * n
    }

    /// Twice the camera zoom step the wands give: each "Telescope" in a
    /// slot adds one, each "Magnifier" takes away two, starting from minus
    /// two and held within minus four and two (the zoom itself moves in
    /// steps of one half).
    pub fn get_total_scale_factor(&self) -> (r: i32)
        requires
            self.wf(),
        ensures
            r == clamp(
                -2 + count_named(self.wands@, "Telescope"@) - 2 * count_named(
                    self.wands@,
                    "Magnifier"@,
                ),
                -4,
                2,
            ),
    {
        proof {
            reveal_strlit("Telescope");
            reveal_strlit("Magnifier");
            assert("Telescope"@[0] != "Magnifier"@[0]);
        }
        let telescope = Spell::new("Telescope");
        let magnifier = Spell::new("Magnifier");
        let mut t: i32 = 0;
        let mut m: i32 = 0;
        let mut w: usize = 0;
        while w < self.wands.len()
            invariant
                w <= self.wands@.len(),
                self.wf(),
                telescope@ == "Telescope"@,
                magnifier@ == "Magnifier"@,
                t == count_named(self.wands@.take(w as int), "Telescope"@),
                m == count_named(self.wands@.take(w as int), "Magnifier"@),
                0 <= t <= w * MAX_SPELLS_IN_WAND,
                0 <= m <= w * MAX_SPELLS_IN_WAND,
                "Telescope"@ != "Magnifier"@,
            decreases self.wands@.len() - w,
        {
            let slots = &self.wands[w].slots;
            let ghost tw = t;
            let ghost mw = m;
            let mut j: usize = 0;
            while j < slots.len()
                invariant
                    j <= slots@.len(),
                    slots@.len() == MAX_SPELLS_IN_WAND,
                    w < MAX_WANDS,
                    telescope@ == "Telescope"@,
                    magnifier@ == "Magnifier"@,
                    t == tw + count_named_slots(slots@.take(j as int), "Telescope"@),
                    m == mw + count_named_slots(slots@.take(j as int), "Magnifier"@),
                    0 <= tw <= w * MAX_SPELLS_IN_WAND,
                    0 <= mw <= w * MAX_SPELLS_IN_WAND,
                    tw <= t <= tw + j,
                    mw <= m <= mw + j,
                    "Telescope"@ != "Magnifier"@,
                decreases slots@.len() - j,
            {
                proof {
                    assert(slots@.take(j + 1).drop_last() =~= slots@.take(j as int));
                }
                match &slots[j] {
                    Some(s) => {
                        if s.spell.same(&telescope) {
                            t = t + 1;
                        } else if s.spell.same(&magnifier) {
                            m = m + 1;
                        }
                    },
                    None => {},
                }
                j = j + 1;
            }
            proof {
                assert(slots@.take(j as int) =~= slots@);
                assert(self.wands@.take(w + 1).drop_last() =~= self.wands@.take(w as int));
            }
            w = w + 1;
        }
        proof {
            assert(self.wands@.take(w as int) =~= self.wands@);
        }
        let f = -2 + t - 2 * m;
        if f < -4 {
            -4
        } else if f > 2 {
            2
        } else {
            f
        }
    }
}

/// Slot `i` of wand `w` as described by lists of spells, one list per
/// wand: the listed spell, free of charge, or nothing.
pub open spec fn described_slot(spells: Seq<Vec<Option<Spell>>>, w: int, i: int) -> Option<
    WandSpell,
> {
    if w < spells.len() && i < spells[w]@.len() {
        match spells[w]@[i] {
            Some(s) => Some(WandSpell { spell: s, price: 0 }),
            None => None,
        }
    } else {
        None
    }
}

/// The wands described by lists of spells: wand `w` holds the spells of
/// list `w`, free of charge, and wands without a list stay empty. Lists
/// beyond the last wand are dropped.
pub fn wands_from_spells(spells: &Vec<Vec<Option<Spell>>>) -> (r: Vec<Wand>)
    ensures
        r@.len() == MAX_WANDS,
        forall|w: int| 0 <= w < MAX_WANDS ==> (#[trigger] r@[w]).wf() && r@[w].index == 0
            && r@[w].delay == 0,
        forall|w: int, i: int|
            0 <= w < MAX_WANDS && 0 <= i < MAX_SPELLS_IN_WAND ==> (#[trigger] r@[w].slots@[i]) == described_slot(spells@, w, i),
{
    let mut wands: Vec<Wand> = Vec::new();
    let mut w: usize = 0;
    while w < MAX_WANDS
        invariant
            w <= MAX_WANDS,
            wands@.len() == w,
            forall|a: int| 0 <= a < w ==> (#[trigger] wands@[a]).wf() && wands@[a].index == 0
                && wands@[a].delay == 0,
            forall|a: int, i: int|
                0 <= a < w && 0 <= i < MAX_SPELLS_IN_WAND ==> (#[trigger] wands@[a].slots@[i]) == described_slot(spells@, a, i),
        decreases MAX_WANDS - w,
    {
        if w < spells.len() {
            wands.push(Wand::with_spells(&spells[w]));
        } else {
            wands.push(Wand::new());
        }
        w = w + 1;
    }
    wands
}

/// An actor at rest: well formed, no status effect, nothing in the
/// inventory, the first wand in hand, every wand at its first slot, and a
/// short wait before it can cast. Its kind, side, life, golds and spells
/// are left open.
pub open spec fn at_rest(a: Actor) -> bool {
    &&& a.wf()
    &&& a.fire_damage_wait == 0
    &&& a.fire_state == ActorFireState::Idle
    &&& a.fire_state_secondary == ActorFireState::Idle
    &&& a.current_wand == 0
    &&& a.state == ActorState::Idle
    &&& a.wait == 30
    &&& a.trapped == 0
    &&& a.trap_moratorium == 0
    &&& a.effects.is_cleared()
    &&& a.frozen == 0
    &&& a.staggered == 0
    &&& a.levitation == 0
    &&& a.drown == 0
    &&& a.cloned is None
    &&& a.getting_up == 0
    &&& !a.hidden
    &&& !a.airborne
    &&& !a.just_landed
    &&& forall|w: int| 0 <= w < MAX_WANDS ==> (#[trigger] a.wands@[w]).index == 0 && a.wands@[w].delay
        == 0
    &&& forall|i: int| 0 <= i < a.inventory.0@.len() ==> (#[trigger] a.inventory.0@[i]) is None
}

/// An actor with everything at rest: full life of one hundred, no
/// golds, empty wands and inventory, no status effect, and a short wait
/// before it can cast.
pub open spec fn is_fresh(a: Actor) -> bool {
    &&& a.wf()
    &&& a.actor_type@ == "Chicken"@
    &&& a.actor_group == ActorGroup::Neutral
    &&& a.life == 100
    &&& a.max_life == 100
    &&& a.fire_damage_wait == 0
    &&& a.fire_state == ActorFireState::Idle
    &&& a.fire_state_secondary == ActorFireState::Idle
    &&& a.current_wand == 0
    &&& a.golds == 0
    &&& a.state == ActorState::Idle
    &&& a.wait == 30
    &&& a.trapped == 0
    &&& a.trap_moratorium == 0
    &&& a.effects.is_cleared()
    &&& a.frozen == 0
    &&& a.staggered == 0
    &&& a.levitation == 0
    &&& a.drown == 0
    &&& a.cloned is None
    &&& a.getting_up == 0
    &&& !a.hidden
    &&& !a.airborne
    &&& !a.just_landed
    &&& forall|w: int, i: int|
        0 <= w < MAX_WANDS && 0 <= i < MAX_SPELLS_IN_WAND ==> (#[trigger] a.wands@[w].slots@[i]) is None
    &&& forall|w: int| 0 <= w < MAX_WANDS ==> (#[trigger] a.wands@[w]).index == 0 && a.wands@[w].delay
        == 0
    &&& forall|i: int| 0 <= i < a.inventory.0@.len() ==> (#[trigger] a.inventory.0@[i]) is None
}

impl Default for Actor {
    /// A fresh actor (see `is_fresh`) with a new random identifier.
    fn default() -> (r: Actor)
        ensures
            is_fresh(r),
    {
        let wands = wands_from_spells(&Vec::new());
        Actor {
            actor_type: ActorType::new("Chicken"),
            uuid: new_uuid(),
            actor_group: ActorGroup::Neutral,
            life: 100,
            max_life: 100,
            fire_damage_wait: 0,
            fire_state: ActorFireState::Idle,
            fire_state_secondary: ActorFireState::Idle,
            current_wand: 0,
            wands,
            inventory: Inventory::new(),
            golds: 0,
            state: ActorState::Idle,
            wait: 30,
            trapped: 0,
            trap_moratorium: 0,
            effects: CastEffects::new(),
            frozen: 0,
            staggered: 0,
            levitation: 0,
            drown: 0,
            cloned: None,
            getting_up: 0,
            hidden: false,
            airborne: false,
            just_landed: false,
        }
    }
}

/// What the actor registry says of a kind of actor, as far as building a
/// new actor of that kind goes.
pub struct ActorProps {
    pub actor_group: ActorGroup,
    pub wands: Vec<Vec<Option<Spell>>>,
    pub life: u32,
}

/// A new actor of the given kind at rest, with the side, wands and life
/// its registry entry gives, and no golds.
pub open spec fn made_from(a: Actor, props: &ActorProps, actor_type: ActorType) -> bool {
    &&& at_rest(a)
    &&& a.actor_type == actor_type
    &&& a.actor_group == props.actor_group
    &&& a.life == props.life
    &&& a.max_life == props.life
    &&& forall|w: int, i: int|
        0 <= w < MAX_WANDS && 0 <= i < MAX_SPELLS_IN_WAND ==> (#[trigger] a.wands@[w].slots@[i])
            == described_slot(props.wands@, w, i)
    &&& a.golds == 0
}

/// A new actor of the given kind (see `made_from`).
pub fn get_default_actor(props: &ActorProps, actor_type: &ActorType) -> (r: Actor)
    ensures
        made_from(r, props, *actor_type),
{
    let mut actor = Actor::default();
    actor.actor_type = actor_type.clone();
    actor.actor_group = props.actor_group;
    actor.wands = wands_from_spells(&props.wands);
    actor.life = props.life;
    actor.max_life = props.life;
    actor
}


/// What paying for every carried spell does: it succeeds exactly when the
/// golds cover the total price; then the price is taken from the golds and
/// every price is cleared, and otherwise nothing changes. Nothing but the
/// golds, the inventory and the wands is touched.
pub open spec fn liquidation(before: Actor, after: Actor, r: bool) -> bool {
    &&& r == (before.golds >= before.total_dept())
    &&& r ==> {
        &&& after.golds == before.golds - before.total_dept()
        &&& after.inventory.0@ == before.inventory.0@.map_values(
            |s: Option<InventoryItem>| paid_item(s),
        )
        &&& after.wands@.len() == before.wands@.len()
        &&& forall|w: int|
            0 <= w < before.wands@.len() ==> {
                &&& (#[trigger] after.wands@[w]).slots@ == before.wands@[w].slots@.map_values(
                    |s: Option<WandSpell>| paid_slot(s),
                )
                &&& after.wands@[w].index == before.wands@[w].index
                &&& after.wands@[w].delay == before.wands@[w].delay
            }
    }
    &&& !r ==> after == before
    &&& after == (Actor {
        golds: after.golds,
        inventory: after.inventory,
        wands: after.wands,
        ..before
    })
}

/// Two actors that hold the same golds, inventory and wands, and agree on
/// everything else.
pub open spec fn same_holdings(a: Actor, b: Actor) -> bool {
    &&& a.golds == b.golds
    &&& a.inventory.0@ == b.inventory.0@
    &&& a.wands@.len() == b.wands@.len()
    &&& forall|w: int| 0 <= w < a.wands@.len() ==> (#[trigger] a.wands@[w]).same_as(b.wands@[w])
    &&& a == (Actor { golds: a.golds, inventory: a.inventory, wands: a.wands, ..b })
}

/// Paying for everything clears every price, so paying again right after
/// succeeds and changes nothing.
pub proof fn lemma_liquidate_again(a: Actor, b: Actor, c: Actor, r: bool)
    requires
        liquidation(a, b, true),
        liquidation(b, c, r),
    ensures
        r,
        same_holdings(c, b),
{
    let inv = b.inventory.0@;
    assert forall|i: int| 0 <= i < inv.len() implies item_price(#[trigger] inv[i]) == 0 by {
        assert(inv[i] == paid_item(a.inventory.0@[i]));
    }
    lemma_paid_items_dept(inv);
    assert forall|w: int, i: int|
        0 <= w < b.wands@.len() && 0 <= i < b.wands@[w].slots@.len() implies slot_price(
        #[trigger] b.wands@[w].slots@[i],
    ) == 0 by {
        assert(b.wands@[w].slots@ == a.wands@[w].slots@.map_values(
            |s: Option<WandSpell>| paid_slot(s),
        ));
        assert(b.wands@[w].slots@[i] == paid_slot(a.wands@[w].slots@[i]));
    }
    lemma_paid_wands_dept(b.wands@);
    assert(b.total_dept() == 0);
    lemma_free_items(inv);
    lemma_free_wands(b.wands@);
    assert forall|w: int| 0 <= w < c.wands@.len() implies (#[trigger] c.wands@[w]).same_as(
        b.wands@[w],
    ) by {
        lemma_free_slots(b.wands@[w].slots@);
    }
}

} // verus!
