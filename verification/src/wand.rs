//! Wands, the spells set in their slots, and the inventory of spells.
use vstd::prelude::*;
use crate::constant::MAX_ITEMS_IN_INVENTORY;
use crate::constant::MAX_SPELLS_IN_WAND;
use crate::constant::MAX_WANDS;
use crate::spell::Spell;

verus! {

/// A spell set in a wand slot, with the price still owed for it
/// (zero once it has been paid for).
pub struct WandSpell {
    pub spell: Spell,
    pub price: u32,
}

impl Clone for WandSpell {
    fn clone(&self) -> (r: Self)
        ensures
            r == *self,
    {
        WandSpell { spell: self.spell.clone(), price: self.price }
    }
}

/// A wand: its spell slots, the slot that casts next and the frames left
/// before it can cast again.
pub struct Wand {
    pub slots: Vec<Option<WandSpell>>,
    pub index: usize,
    pub delay: u32,
}

impl Wand {
    /// The same slots, cursor and delay.
    pub open spec fn same_as(&self, other: Wand) -> bool {
        self.slots@ == other.slots@ && self.index == other.index && self.delay == other.delay
    }
}

impl Clone for Wand {
    fn clone(&self) -> (r: Self)
        ensures
            r.same_as(*self),
    {
        let mut slots: Vec<Option<WandSpell>> = Vec::new();
        let mut i: usize = 0;
        while i < self.slots.len()
            invariant
                i <= self.slots@.len(),
                slots@ == self.slots@.take(i as int),
            decreases self.slots@.len() - i,
        {
            let slot = match &self.slots[i] {
                Some(ws) => Some(ws.clone()),
                None => None,
            };
            slots.push(slot);
            i = i + 1;
            assert(slots@ =~= self.slots@.take(i as int));
        }
        assert(slots@ =~= self.slots@);
        Wand { slots, index: self.index, delay: self.delay }
    }
}

/// A spell lying in the inventory, with the price still owed for it.
pub struct InventoryItem {
    pub spell: Spell,
    pub price: u32,
}

impl Clone for InventoryItem {
    fn clone(&self) -> (r: Self)
        ensures
            r == *self,
    {
        InventoryItem { spell: self.spell.clone(), price: self.price }
    }
}

/// The inventory: one cell per place in the grid, each empty or holding a
/// spell.
pub struct Inventory(pub Vec<Option<InventoryItem>>);

impl Clone for Inventory {
    fn clone(&self) -> (r: Self)
        ensures
            r.0@ == self.0@,
    {
        let mut items: Vec<Option<InventoryItem>> = Vec::new();
        let mut i: usize = 0;
        while i < self.0.len()
            invariant
                i <= self.0@.len(),
                items@ == self.0@.take(i as int),
            decreases self.0@.len() - i,
        {
            let item = match &self.0[i] {
                Some(it) => Some(it.clone()),
                None => None,
            };
            items.push(item);
            i = i + 1;
            assert(items@ =~= self.0@.take(i as int));
        }
        assert(items@ =~= self.0@);
        Inventory(items)
    }
}

/// The price owed for one wand slot.
pub open spec fn slot_price(s: Option<WandSpell>) -> nat {
    match s {
        Some(w) => w.price as nat,
        None => 0,
    }
}

/// The sum of the prices owed for a sequence of wand slots.
pub open spec fn slots_dept(s: Seq<Option<WandSpell>>) -> nat
    decreases s.len(),
{
    if s.len() == 0 {
        0
    } else {
        slots_dept(s.drop_last()) + slot_price(s.last())
    }
}

/// The sum of the prices owed for all slots of a sequence of wands.
pub open spec fn wands_dept(ws: Seq<Wand>) -> nat
    decreases ws.len(),
{
    if ws.len() == 0 {
        0
    } else {
        wands_dept(ws.drop_last()) + slots_dept(ws.last().slots@)
    }
}

/// The price owed for one inventory cell.
pub open spec fn item_price(s: Option<InventoryItem>) -> nat {
    match s {
        Some(i) => i.price as nat,
        None => 0,
    }
}

/// The sum of the prices owed for a sequence of inventory cells.
pub open spec fn items_dept(s: Seq<Option<InventoryItem>>) -> nat
    decreases s.len(),
{
    if s.len() == 0 {
        0
    } else {
        items_dept(s.drop_last()) + item_price(s.last())
    }
}

/// The wand slot with its price cleared.
pub open spec fn paid_slot(s: Option<WandSpell>) -> Option<WandSpell> {
    match s {
        Some(w) => Some(WandSpell { spell: w.spell, price: 0 }),
        None => None,
    }
}

/// The inventory cell with its price cleared.
pub open spec fn paid_item(s: Option<InventoryItem>) -> Option<InventoryItem> {
    match s {
        Some(i) => Some(InventoryItem { spell: i.spell, price: 0 }),
        None => None,
    }
}

/// The spell in a wand slot, if any.
pub open spec fn slot_spell(s: Option<WandSpell>) -> Option<Seq<char>> {
    match s {
        Some(w) => Some(w.spell@),
        None => None,
    }
}

pub proof fn lemma_slots_dept_push(s: Seq<Option<WandSpell>>, x: Option<WandSpell>)
    ensures
        slots_dept(s.push(x)) == slots_dept(s) + slot_price(x),
{
    assert(s.push(x).drop_last() =~= s);
}

pub proof fn lemma_items_dept_push(s: Seq<Option<InventoryItem>>, x: Option<InventoryItem>)
    ensures
        items_dept(s.push(x)) == items_dept(s) + item_price(x),
{
    assert(s.push(x).drop_last() =~= s);
}

pub proof fn lemma_wands_dept_push(ws: Seq<Wand>, w: Wand)
    ensures
        wands_dept(ws.push(w)) == wands_dept(ws) + slots_dept(w.slots@),
{
    assert(ws.push(w).drop_last() =~= ws);
}

/// The prices of slots whose prices are all cleared sum to zero.
pub proof fn lemma_paid_slots_dept(s: Seq<Option<WandSpell>>)
    requires
        forall|i: int| 0 <= i < s.len() ==> slot_price(#[trigger] s[i]) == 0,
    ensures
        slots_dept(s) == 0,
    decreases s.len(),
{
    if s.len() > 0 {
        lemma_paid_slots_dept(s.drop_last());
    }
}

pub proof fn lemma_paid_items_dept(s: Seq<Option<InventoryItem>>)
    requires
        forall|i: int| 0 <= i < s.len() ==> item_price(#[trigger] s[i]) == 0,
    ensures
        items_dept(s) == 0,
    decreases s.len(),
{
    if s.len() > 0 {
        lemma_paid_items_dept(s.drop_last());
    }
}

pub proof fn lemma_paid_wands_dept(ws: Seq<Wand>)
    requires
        forall|w: int, i: int|
            0 <= w < ws.len() && 0 <= i < ws[w].slots@.len() ==> slot_price(
                #[trigger] ws[w].slots@[i],
            ) == 0,
    ensures
        wands_dept(ws) == 0,
    decreases ws.len(),
{
    if ws.len() > 0 {
        let last = ws.last();
        assert forall|i: int| 0 <= i < last.slots@.len() implies slot_price(
            #[trigger] last.slots@[i],
        ) == 0 by {
            assert(ws[ws.len() - 1].slots@[i] == last.slots@[i]);
        }
        lemma_paid_slots_dept(last.slots@);
        lemma_paid_wands_dept(ws.drop_last());
    }
}

/// Cells that owe nothing in total owe nothing each, and clearing their
/// prices leaves them as they are.
pub proof fn lemma_free_items(s: Seq<Option<InventoryItem>>)
    requires
        items_dept(s) == 0,
    ensures
        forall|i: int| 0 <= i < s.len() ==> item_price(#[trigger] s[i]) == 0,
        s.map_values(|x: Option<InventoryItem>| paid_item(x)) =~= s,
    decreases s.len(),
{
    if s.len() > 0 {
        lemma_free_items(s.drop_last());
        assert forall|i: int| 0 <= i < s.len() implies item_price(#[trigger] s[i]) == 0 by {
            if i < s.len() - 1 {
                assert(s.drop_last()[i] == s[i]);
            }
        }
    }
}

/// Slots that owe nothing in total owe nothing each, and clearing their
/// prices leaves them as they are.
pub proof fn lemma_free_slots(s: Seq<Option<WandSpell>>)
    requires
        slots_dept(s) == 0,
    ensures
        forall|i: int| 0 <= i < s.len() ==> slot_price(#[trigger] s[i]) == 0,
        s.map_values(|x: Option<WandSpell>| paid_slot(x)) =~= s,
    decreases s.len(),
{
    if s.len() > 0 {
        lemma_free_slots(s.drop_last());
        assert forall|i: int| 0 <= i < s.len() implies slot_price(#[trigger] s[i]) == 0 by {
            if i < s.len() - 1 {
                assert(s.drop_last()[i] == s[i]);
            }
        }
    }
}

/// Wands that owe nothing in total owe nothing each.
pub proof fn lemma_free_wands(ws: Seq<Wand>)
    requires
        wands_dept(ws) == 0,
    ensures
        forall|w: int| 0 <= w < ws.len() ==> slots_dept((#[trigger] ws[w]).slots@) == 0,
    decreases ws.len(),
{
    if ws.len() > 0 {
        lemma_free_wands(ws.drop_last());
        assert forall|w: int| 0 <= w < ws.len() implies slots_dept((#[trigger] ws[w]).slots@)
            == 0 by {
            if w < ws.len() - 1 {
                assert(ws.drop_last()[w] == ws[w]);
            }
        }
    }
}

impl Wand {
    /// A wand with all slots well formed: exactly `MAX_SPELLS_IN_WAND` of
    /// them.
    pub open spec fn wf(&self) -> bool {
        self.slots@.len() == MAX_SPELLS_IN_WAND
    }

    /// An empty wand, ready to cast.
    pub fn new() -> (r: Wand)
        ensures
            r.wf(),
            r.index == 0,
            r.delay == 0,
            forall|i: int| 0 <= i < r.slots@.len() ==> r.slots@[i] is None,
    {
        let mut slots: Vec<Option<WandSpell>> = Vec::new();
        let mut i: usize = 0;
        while i < MAX_SPELLS_IN_WAND
            invariant
                i <= MAX_SPELLS_IN_WAND,
                slots@.len() == i,
                forall|j: int| 0 <= j < i ==> slots@[j] is None,
            decreases MAX_SPELLS_IN_WAND - i,
        {
            slots.push(None);
            i = i + 1;
        }
        Wand { slots, index: 0, delay: 0 }
    }

    /// A wand holding the given spells, free of charge, in its first slots
    /// and nothing in the others. Spells beyond the last slot are dropped.
    pub fn with_spells(spells: &Vec<Option<Spell>>) -> (r: Wand)
        ensures
            r.wf(),
            r.index == 0,
            r.delay == 0,
            forall|i: int|
                0 <= i < MAX_SPELLS_IN_WAND ==> r.slots@[i] == (if i < spells@.len() {
                    match spells@[i] {
                        Some(s) => Some(WandSpell { spell: s, price: 0 }),
                        None => None,
                    }
                } else {
                    None
                }),
    {
        let mut slots: Vec<Option<WandSpell>> = Vec::new();
        let mut i: usize = 0;
        while i < MAX_SPELLS_IN_WAND
            invariant
                i <= MAX_SPELLS_IN_WAND,
                slots@.len() == i,
                forall|j: int|
                    0 <= j < i ==> slots@[j] == (if j < spells@.len() {
                        match spells@[j] {
                            Some(s) => Some(WandSpell { spell: s, price: 0 }),
                            None => None,
                        }
                    } else {
                        None
                    }),
            decreases MAX_SPELLS_IN_WAND - i,
        {
            if i < spells.len() {
                match &spells[i] {
                    Some(s) => slots.push(Some(WandSpell { spell: s.clone(), price: 0 })),
                    None => slots.push(None),
                }
            } else {
                slots.push(None);
            }
            i = i + 1;
        }
        Wand { slots, index: 0, delay: 0 }
    }

    /// Whether no slot of the wand holds a spell.
    pub fn is_empty(&self) -> (r: bool)
        ensures
            r == (forall|i: int| 0 <= i < self.slots@.len() ==> self.slots@[i] is None),
    {
        let mut i: usize = 0;
        while i < self.slots.len()
            invariant
                i <= self.slots@.len(),
                forall|j: int| 0 <= j < i ==> self.slots@[j] is None,
            decreases self.slots@.len() - i,
        {
            if self.slots[i].is_some() {
                return false;
            }
            i = i + 1;
        }
        true
    }

    /// The sum of the prices still owed for the spells in this wand.
    pub fn dept(&self) -> (r: u32)
        requires
            slots_dept(self.slots@) <= u32::MAX,
        ensures
            r == slots_dept(self.slots@),
    {
        let mut total: u32 = 0;
        let mut i: usize = 0;
        while i < self.slots.len()
            invariant
                i <= self.slots@.len(),
                total == slots_dept(self.slots@.take(i as int)),
                slots_dept(self.slots@) <= u32::MAX,
            decreases self.slots@.len() - i,
        {
            proof {
                assert(self.slots@.take(i + 1) =~= self.slots@.take(i as int).push(
                    self.slots@[i as int],
                ));
                lemma_slots_dept_push(self.slots@.take(i as int), self.slots@[i as int]);
                lemma_slots_dept_prefix(self.slots@, i + 1);
            }
            match &self.slots[i] {
                Some(w) => {
                    total = total + w.price;
                },
                None => {},
            }
            i = i + 1;
        }
        proof {
            assert(self.slots@.take(i as int) =~= self.slots@);
        }
        total
    }

    /// The same spells, with the given slot to cast next and rest.
    pub fn with_cursor(&self, index: usize, delay: u32) -> (r: Wand)
        ensures
            r.slots@ == self.slots@,
            r.index == index,
            r.delay == delay,
    {
        let mut slots: Vec<Option<WandSpell>> = Vec::new();
        let mut i: usize = 0;
        while i < self.slots.len()
            invariant
                i <= self.slots@.len(),
                slots@ == self.slots@.take(i as int),
            decreases self.slots@.len() - i,
        {
            match &self.slots[i] {
                Some(w) => slots.push(Some(w.clone())),
                None => slots.push(None),
            }
            proof {
                assert(slots@ =~= self.slots@.take(i + 1));
            }
            i = i + 1;
        }
        proof {
            assert(self.slots@.take(i as int) =~= self.slots@);
        }
        Wand { slots, index, delay }
    }

    /// The same wand with every price cleared.
    pub fn paid(&self) -> (r: Wand)
        ensures
            r.index == self.index,
            r.delay == self.delay,
            r.slots@ == self.slots@.map_values(|s: Option<WandSpell>| paid_slot(s)),
    {
        let mut slots: Vec<Option<WandSpell>> = Vec::new();
        let mut i: usize = 0;
        while i < self.slots.len()
            invariant
                i <= self.slots@.len(),
                slots@ == self.slots@.take(i as int).map_values(
                    |s: Option<WandSpell>| paid_slot(s),
                ),
            decreases self.slots@.len() - i,
        {
            proof {
                assert(self.slots@.take(i + 1) =~= self.slots@.take(i as int).push(
                    self.slots@[i as int],
                ));
            }
            match &self.slots[i] {
                Some(w) => slots.push(Some(WandSpell { spell: w.spell.clone(), price: 0 })),
                None => slots.push(None),
            }
            proof {
                assert(slots@ =~= self.slots@.take(i + 1).map_values(
                    |s: Option<WandSpell>| paid_slot(s),
                ));
            }
            i = i + 1;
        }
        proof {
            assert(self.slots@.take(i as int) =~= self.slots@);
        }
        Wand { slots, index: self.index, delay: self.delay }
    }
}

/// A prefix of slots owes no more than the whole.
pub proof fn lemma_slots_dept_prefix(s: Seq<Option<WandSpell>>, n: int)
    requires
        0 <= n <= s.len(),
    ensures
        slots_dept(s.take(n)) <= slots_dept(s),
    decreases s.len(),
{
    if n < s.len() {
        assert(s.drop_last().take(n) =~= s.take(n));
        lemma_slots_dept_prefix(s.drop_last(), n);
    } else {
        assert(s.take(n) =~= s);
    }
}

/// A prefix of inventory cells owes no more than the whole.
pub proof fn lemma_items_dept_prefix(s: Seq<Option<InventoryItem>>, n: int)
    requires
        0 <= n <= s.len(),
    ensures
        items_dept(s.take(n)) <= items_dept(s),
    decreases s.len(),
{
    if n < s.len() {
        assert(s.drop_last().take(n) =~= s.take(n));
        lemma_items_dept_prefix(s.drop_last(), n);
    } else {
        assert(s.take(n) =~= s);
    }
}

/// A prefix of wands owes no more than the whole.
pub proof fn lemma_wands_dept_prefix(ws: Seq<Wand>, n: int)
    requires
        0 <= n <= ws.len(),
    ensures
        wands_dept(ws.take(n)) <= wands_dept(ws),
    decreases ws.len(),
{
    if n < ws.len() {
        assert(ws.drop_last().take(n) =~= ws.take(n));
        lemma_wands_dept_prefix(ws.drop_last(), n);
    } else {
        assert(ws.take(n) =~= ws);
    }
}

impl Inventory {
    /// An inventory of exactly `MAX_ITEMS_IN_INVENTORY` cells.
    pub open spec fn wf(&self) -> bool {
        self.0@.len() == MAX_ITEMS_IN_INVENTORY
    }

    /// An empty inventory.
    pub fn new() -> (r: Inventory)
        ensures
            r.wf(),
            forall|i: int| 0 <= i < r.0@.len() ==> r.0@[i] is None,
    {
        let mut items: Vec<Option<InventoryItem>> = Vec::new();
        let mut i: usize = 0;
        while i < MAX_ITEMS_IN_INVENTORY
            invariant
                i <= MAX_ITEMS_IN_INVENTORY,
                items@.len() == i,
                forall|j: int| 0 <= j < i ==> items@[j] is None,
            decreases MAX_ITEMS_IN_INVENTORY - i,
        {
            items.push(None);
            i = i + 1;
        }
        Inventory(items)
    }

    /// The item in the given cell, if the cell exists and holds one.
    pub fn get(&self, index: usize) -> (r: Option<InventoryItem>)
        ensures
            r == (if index < self.0@.len() { self.0@[index as int] } else { None }),
    {
        if index < self.0.len() {
            match &self.0[index] {
                Some(item) => Some(item.clone()),
                None => None,
            }
        } else {
            None
        }
    }

    /// The sum of the prices still owed for the items in the inventory.
    pub fn dept(&self) -> (r: u32)
        requires
            items_dept(self.0@) <= u32::MAX,
        ensures
            r == items_dept(self.0@),
    {
        let mut total: u32 = 0;
        let mut i: usize = 0;
        while i < self.0.len()
            invariant
                i <= self.0@.len(),
                total == items_dept(self.0@.take(i as int)),
                items_dept(self.0@) <= u32::MAX,
            decreases self.0@.len() - i,
        {
            proof {
                assert(self.0@.take(i + 1) =~= self.0@.take(i as int).push(self.0@[i as int]));
                lemma_items_dept_push(self.0@.take(i as int), self.0@[i as int]);
                lemma_items_dept_prefix(self.0@, i + 1);
            }
            match &self.0[i] {
                Some(item) => {
                    total = total + item.price;
                },
                None => {},
            }
            i = i + 1;
        }
        proof {
            assert(self.0@.take(i as int) =~= self.0@);
        }
        total
    }

    /// The same inventory with every price cleared.
    pub fn paid(&self) -> (r: Inventory)
        ensures
            r.0@ == self.0@.map_values(|s: Option<InventoryItem>| paid_item(s)),
    {
        let mut items: Vec<Option<InventoryItem>> = Vec::new();
        let mut i: usize = 0;
        while i < self.0.len()
            invariant
                i <= self.0@.len(),
                items@ == self.0@.take(i as int).map_values(
                    |s: Option<InventoryItem>| paid_item(s),
                ),
            decreases self.0@.len() - i,
        {
            proof {
                assert(self.0@.take(i + 1) =~= self.0@.take(i as int).push(self.0@[i as int]));
            }
            match &self.0[i] {
                Some(it) => items.push(Some(InventoryItem { spell: it.spell.clone(), price: 0 })),
                None => items.push(None),
            }
            proof {
                assert(items@ =~= self.0@.take(i + 1).map_values(
                    |s: Option<InventoryItem>| paid_item(s),
                ));
            }
            i = i + 1;
        }
        proof {
            assert(self.0@.take(i as int) =~= self.0@);
        }
        Inventory(items)
    }
}

/// The wands an actor holds, with the given spells in the first slots of the
/// first wand and nothing anywhere else.
pub fn single_wand(spell: Option<Spell>) -> (r: Vec<Wand>)
    ensures
        r@.len() == MAX_WANDS,
        forall|w: int| 0 <= w < MAX_WANDS ==> (#[trigger] r@[w]).wf() && r@[w].index == 0
            && r@[w].delay == 0,
        r@[0].slots@[0] == (match spell {
            Some(s) => Some(WandSpell { spell: s, price: 0 }),
            None => None,
        }),
        forall|i: int| 1 <= i < MAX_SPELLS_IN_WAND ==> r@[0].slots@[i] is None,
        forall|w: int, i: int|
            1 <= w < MAX_WANDS && 0 <= i < MAX_SPELLS_IN_WAND ==> (#[trigger] r@[w].slots@[i]) is None,
{
    let mut spells: Vec<Option<Spell>> = Vec::new();
    spells.push(spell);
    let first = Wand::with_spells(&spells);
    let mut wands: Vec<Wand> = Vec::new();
    wands.push(first);
    let mut i: usize = 1;
    while i < MAX_WANDS
        invariant
            1 <= i <= MAX_WANDS,
            wands@.len() == i,
            wands@[0] == first,
            first.wf() && first.index == 0 && first.delay == 0,
            forall|w: int| 0 <= w < i ==> (#[trigger] wands@[w]).wf() && wands@[w].index == 0
                && wands@[w].delay == 0,
            forall|w: int, j: int|
                1 <= w < i && 0 <= j < MAX_SPELLS_IN_WAND ==> (#[trigger] wands@[w].slots@[j]) is None,
        decreases MAX_WANDS - i,
    {
        wands.push(Wand::new());
        i = i + 1;
    }
    wands
}

} // verus!
