//! Chests, crates, barrels and jars: breakable containers that drop what
//! they hold.
use vstd::prelude::*;
use vstd::string::StringExecFns;
use crate::actor::at_rest;
use crate::actor::Actor;
use crate::actor::ActorGroup;
use crate::actor::described_slot;
use crate::actor::wands_from_spells;
use crate::constant::MAX_SPELLS_IN_WAND;
use crate::constant::MAX_WANDS;
use crate::random::choose_from;
use crate::spell::ActorType;
use crate::spell::Spell;
use crate::wand::Wand;
use crate::wand::WandSpell;

verus! {

#[derive(Clone, Copy, Debug, PartialEq, Eq, Structural)]
pub enum JarColor {
    Red,
    Blue,
    Green,
}

#[derive(Clone, Copy, Debug, PartialEq, Eq, Structural)]
pub enum ChestType {
    Chest,
    Crate,
    Barrel,
    BarrelBomb,
    Jar(JarColor),
}

/// The containers a random one is drawn from, each as often as listed:
/// four crates, four barrels, a barrel of gunpowder and a jar of each
/// colour.
pub open spec fn chest_or_barrel_spec() -> Seq<ChestType> {
    seq![
        ChestType::Crate,
        ChestType::Crate,
        ChestType::Crate,
        ChestType::Crate,
        ChestType::Barrel,
        ChestType::Barrel,
        ChestType::Barrel,
        ChestType::Barrel,
        ChestType::BarrelBomb,
        ChestType::Jar(JarColor::Red),
        ChestType::Jar(JarColor::Blue),
        ChestType::Jar(JarColor::Green),
    ]
}

/// The containers a random one is drawn from (see `chest_or_barrel_spec`).
pub fn chest_or_barrel() -> (r: Vec<ChestType>)
    ensures
        r@ == chest_or_barrel_spec(),
{
    let r = vec![
        ChestType::Crate,
        ChestType::Crate,
        ChestType::Crate,
        ChestType::Crate,
        ChestType::Barrel,
        ChestType::Barrel,
        ChestType::Barrel,
        ChestType::Barrel,
        ChestType::BarrelBomb,
        ChestType::Jar(JarColor::Red),
        ChestType::Jar(JarColor::Blue),
        ChestType::Jar(JarColor::Green),
    ];
    assert(r@ =~= chest_or_barrel_spec());
    r
}

/// A container in the world.
#[derive(Clone, Copy, Debug, PartialEq, Eq, Structural)]
pub struct Chest {
    pub chest_type: ChestType,
}

impl Chest {
    /// A container drawn at random, with `choose_from`, from
    /// `chest_or_barrel_spec`.
    pub fn random() -> (r: Chest)
        ensures
            chest_or_barrel_spec().contains(r.chest_type),
    {
        let all = chest_or_barrel();
        match choose_from(all.as_slice()) {
            Some(t) => Chest { chest_type: *t },
            None => {
                assert(all@.len() > 0);
                Chest { chest_type: ChestType::Crate }
            },
        }
    }
}

/// The name of a container's picture.
pub open spec fn chest_image_spec(t: ChestType) -> Seq<char> {
    match t {
        ChestType::Chest => "chest"@,
        ChestType::Crate => "crate"@,
        ChestType::Barrel => "barrel"@,
        ChestType::BarrelBomb => "barrel_bomb"@,
        ChestType::Jar(JarColor::Red) => "jar_red"@,
        ChestType::Jar(JarColor::Blue) => "jar_blue"@,
        ChestType::Jar(JarColor::Green) => "jar_green"@,
    }
}

/// The name of a container's picture (see `chest_image_spec`).
pub fn update_sprite(t: ChestType) -> (r: &'static str)
    ensures
        r@ == chest_image_spec(t),
{
    match t {
        ChestType::Chest => "chest",
        ChestType::Crate => "crate",
        ChestType::Barrel => "barrel",
        ChestType::BarrelBomb => "barrel_bomb",
        ChestType::Jar(JarColor::Red) => "jar_red",
        ChestType::Jar(JarColor::Blue) => "jar_blue",
        ChestType::Jar(JarColor::Green) => "jar_green",
    }
}

/// A chest holding the given golds and, in its first slot, the given spell,
/// free of charge; it has thirty life, is furniture, and is otherwise at
/// rest as a fresh actor is (see `at_rest`), with a new identifier.
pub fn chest_actor(golds: u32, chest_item: Option<Spell>) -> (r: Actor)
    ensures
        r.wf(),
        at_rest(r),
        r.actor_type@ == "Chest"@,
        r.actor_group == ActorGroup::Entity,
        r.life == 30,
        r.max_life == 30,
        r.golds == golds,
        r.wands@[0].slots@[0] == (match chest_item {
            Some(s) => Some(WandSpell { spell: s, price: 0 }),
            None => None,
        }),
        forall|w: int, i: int|
            0 <= w < MAX_WANDS && 0 <= i < MAX_SPELLS_IN_WAND && (w, i) != (0int, 0int)
                ==> (#[trigger] r.wands@[w].slots@[i]) is None,
{
    let mut first: Vec<Option<Spell>> = Vec::new();
    first.push(chest_item);
    let mut spells: Vec<Vec<Option<Spell>>> = Vec::new();
    spells.push(first);
    let wands = wands_from_spells(&spells);
    let mut actor = Actor::default();
    actor.actor_type = ActorType::new("Chest");
    actor.actor_group = ActorGroup::Entity;
    actor.life = 30;
    actor.max_life = 30;
    actor.golds = golds;
    actor.wands = wands;
    proof {
        assert(described_slot(spells@, 0, 0) == (match chest_item {
            Some(s) => Some(WandSpell { spell: s, price: 0 }),
            None => None,
        }));
    }
    actor
}

/// The sound a breaking container makes.
#[derive(Clone, Copy, Debug, PartialEq, Eq, Structural)]
pub enum BreakSound {
    Break,
    Glass,
}

/// What a container leaves when it breaks, besides the spells it held.
#[derive(Clone, Copy, Debug, PartialEq, Eq, Structural)]
pub enum BreakDebris {
    Nothing,
    /// Four shards of the given kind and colour.
    Pieces(ChestType),
    /// An explosion: radius 60, damage 100.
    Explosion,
}

/// How a container breaks: jars shatter with the sound of glass, the others
/// break; crates, barrels and jars leave four shards, a barrel of
/// gunpowder explodes and a chest leaves nothing.
pub fn break_effects(t: ChestType) -> (r: (BreakSound, BreakDebris))
    ensures
        r.0 == (if t is Jar {
            BreakSound::Glass
        } else {
            BreakSound::Break
        }),
        r.1 == (match t {
            ChestType::Crate => BreakDebris::Pieces(t),
            ChestType::Barrel => BreakDebris::Pieces(t),
            ChestType::Jar(_) => BreakDebris::Pieces(t),
            ChestType::BarrelBomb => BreakDebris::Explosion,
            ChestType::Chest => BreakDebris::Nothing,
        }),
{
    let sound = match t {
        ChestType::Jar(_) => BreakSound::Glass,
        _ => BreakSound::Break,
    };
    let debris = match t {
        ChestType::Crate => BreakDebris::Pieces(t),
        ChestType::Barrel => BreakDebris::Pieces(t),
        ChestType::Jar(_) => BreakDebris::Pieces(t),
        ChestType::BarrelBomb => BreakDebris::Explosion,
        ChestType::Chest => BreakDebris::Nothing,
    };
    (sound, debris)
}

/// What a broken container leaves.
pub struct ChestBreak {
    pub sound: BreakSound,
    pub debris: BreakDebris,
    /// The spells of its filled wand slots, wand by wand and slot by slot,
    /// each dropped as an item.
    pub drops: Vec<Spell>,
    /// The pictures of its shards.
    pub pieces: Vec<String>,
}

/// The spells of the filled slots, in order.
pub open spec fn slot_spells(s: Seq<Option<WandSpell>>) -> Seq<Spell>
    decreases s.len(),
{
    if s.len() == 0 {
        Seq::empty()
    } else {
        slot_spells(s.drop_last()) + match s.last() {
            Some(ws) => seq![ws.spell],
            None => Seq::empty(),
        }
    }
}

/// The spells of the filled slots of every wand, wand by wand.
pub open spec fn wand_spells(ws: Seq<Wand>) -> Seq<Spell>
    decreases ws.len(),
{
    if ws.len() == 0 {
        Seq::empty()
    } else {
        wand_spells(ws.drop_last()) + slot_spells(ws.last().slots@)
    }
}

/// The kind and colour of a container's shards: red crate and barrel
/// shards, jar shards of the jar's colour, and none for the others.
pub open spec fn shard_kind(t: ChestType) -> Option<(Seq<char>, JarColor)> {
    match t {
        ChestType::Crate => Some(("crate"@, JarColor::Red)),
        ChestType::Barrel => Some(("barrel"@, JarColor::Red)),
        ChestType::Jar(c) => Some(("jar"@, c)),
        _ => None,
    }
}

/// The pictures of a container's four shards (see `shard_kind`).
pub open spec fn shard_names(t: ChestType) -> Seq<Seq<char>> {
    match shard_kind(t) {
        Some((k, c)) => Seq::new(
            4,
            |i: int| k + "_piece_"@ + color_name_spec(c) + "_"@ + digit_spec(i),
        ),
        None => Seq::empty(),
    }
}

/// The spells of the filled slots of the wands, in order (see
/// `wand_spells`).
pub fn filled_spells(wands: &Vec<Wand>) -> (r: Vec<Spell>)
    ensures
        r@ == wand_spells(wands@),
{
    let mut out: Vec<Spell> = Vec::new();
    let mut w: usize = 0;
    while w < wands.len()
        invariant
            w <= wands@.len(),
            out@ == wand_spells(wands@.take(w as int)),
        decreases wands@.len() - w,
    {
        let slots = &wands[w].slots;
        let ghost before = out@;
        let mut j: usize = 0;
        while j < slots.len()
            invariant
                j <= slots@.len(),
                out@ == before + slot_spells(slots@.take(j as int)),
            decreases slots@.len() - j,
        {
            proof {
                assert(slots@.take(j + 1).drop_last() =~= slots@.take(j as int));
            }
            match &slots[j] {
                Some(ws) => {
                    out.push(ws.spell.clone());
                    proof {
                        assert(out@ =~= before + slot_spells(slots@.take(j + 1)));
                    }
                },
                None => {
                    proof {
                        assert(out@ =~= before + slot_spells(slots@.take(j + 1)));
                    }
                },
            }
            j = j + 1;
        }
        proof {
            assert(slots@.take(j as int) =~= slots@);
            assert(wands@.take(w + 1).drop_last() =~= wands@.take(w as int));
        }
        w = w + 1;
    }
    proof {
        assert(wands@.take(w as int) =~= wands@);
    }
    out
}

/// A container breaks once its life or its burning time runs out: it
/// makes its sound, leaves its debris (see `break_effects`), drops the
/// spells of its filled wand slots as items and scatters its shards (see
/// `shard_names`). Returns `None` while it holds.
pub fn break_chest(t: ChestType, life: u32, burn_life: u32, wands: &Vec<Wand>) -> (r: Option<
    ChestBreak,
>)
    ensures
        (r is Some) <==> (life == 0 || burn_life == 0),
        r matches Some(b) ==> {
            &&& b.sound == (if t is Jar {
                BreakSound::Glass
            } else {
                BreakSound::Break
            })
            &&& b.debris == (match t {
                ChestType::Crate => BreakDebris::Pieces(t),
                ChestType::Barrel => BreakDebris::Pieces(t),
                ChestType::Jar(_) => BreakDebris::Pieces(t),
                ChestType::BarrelBomb => BreakDebris::Explosion,
                ChestType::Chest => BreakDebris::Nothing,
            })
            &&& b.drops@ == wand_spells(wands@)
            &&& b.pieces@.len() == shard_names(t).len()
            &&& forall|i: int| 0 <= i < b.pieces@.len() ==> (#[trigger] b.pieces@[i])@ == shard_names(t)[i]
        },
{
    if !(life == 0 || burn_life == 0) {
        return None;
    }
    let (sound, debris) = break_effects(t);
    let drops = filled_spells(wands);
    let mut pieces: Vec<String> = Vec::new();
    let shard: Option<(&str, JarColor)> = match t {
        ChestType::Crate => Some(("crate", JarColor::Red)),
        ChestType::Barrel => Some(("barrel", JarColor::Red)),
        ChestType::Jar(c) => Some(("jar", c)),
        _ => None,
    };
    proof {
        reveal_strlit("crate");
        reveal_strlit("barrel");
        reveal_strlit("jar");
    }
    match shard {
        Some((kind, color)) => {
            assert(shard_kind(t) == Some((kind@, color)));
            let mut i: usize = 0;
            while i < 4
                invariant
                    i <= 4,
                    shard_kind(t) == Some((kind@, color)),
                    pieces@.len() == i,
                    forall|j: int| 0 <= j < i ==> (#[trigger] pieces@[j])@ == shard_names(t)[j],
                decreases 4 - i,
            {
                pieces.push(jar_piece_name(kind, color, i));
                i = i + 1;
            }
        },
        None => {},
    }
    Some(ChestBreak { sound, debris, drops, pieces })
}

/// The name of a colour in the names of pictures.
pub open spec fn color_name_spec(c: JarColor) -> Seq<char> {
    match c {
        JarColor::Red => "red"@,
        JarColor::Blue => "blue"@,
        JarColor::Green => "green"@,
    }
}

/// The digits from zero to five.
pub open spec fn digit_spec(i: int) -> Seq<char> {
    if i == 0 {
        "0"@
    } else if i == 1 {
        "1"@
    } else if i == 2 {
        "2"@
    } else if i == 3 {
        "3"@
    } else if i == 4 {
        "4"@
    } else {
        "5"@
    }
}

fn digit(i: usize) -> (r: &'static str)
    requires
        i < 6,
    ensures
        r@ == digit_spec(i as int),
{
    if i == 0 {
        "0"
    } else if i == 1 {
        "1"
    } else if i == 2 {
        "2"
    } else if i == 3 {
        "3"
    } else if i == 4 {
        "4"
    } else {
        "5"
    }
}

fn color_name(c: JarColor) -> (r: &'static str)
    ensures
        r@ == color_name_spec(c),
{
    match c {
        JarColor::Red => "red",
        JarColor::Blue => "blue",
        JarColor::Green => "green",
    }
}

/// The picture of shard `index` of a container kind in a colour:
/// `<kind>_piece_<colour>_<index>`.
pub fn jar_piece_name(kind: &str, color: JarColor, index: usize) -> (r: String)
    requires
        index < 6,
    ensures
        r@ == kind@ + "_piece_"@ + color_name_spec(color) + "_"@ + digit_spec(index as int),
{
    let mut s = kind.to_string();
    s.append("_piece_");
    s.append(color_name(color));
    s.append("_");
    s.append(digit(index));
    s
}

/// The picture of shard `index` of something broken: `<kind>_piece_<index>`.
pub fn piece_name(kind: &str, index: usize) -> (r: String)
    requires
        index < 6,
    ensures
        r@ == kind@ + "_piece_"@ + digit_spec(index as int),
{
    let mut s = kind.to_string();
    s.append("_piece_");
    s.append(digit(index));
    s
}

/// The names of the first `count` pieces of a broken thing.
pub fn piece_names(kind: &str, count: usize) -> (r: Vec<String>)
    requires
        count <= 6,
    ensures
        r@.len() == count,
        forall|i: int| 0 <= i < count ==> (#[trigger] r@[i])@ == kind@ + "_piece_"@ + digit_spec(i),
{
    let mut names: Vec<String> = Vec::new();
    let mut i: usize = 0;
    while i < count
        invariant
            i <= count <= 6,
            names@.len() == i,
            forall|j: int| 0 <= j < i ==> (#[trigger] names@[j])@ == kind@ + "_piece_"@ + digit_spec(j),
        decreases count - i,
    {
        names.push(piece_name(kind, i));
        i = i + 1;
    }
    names
}

/// A bookshelf breaks into six pieces once its life or its burning time
/// runs out; returns the names of the pieces it breaks into.
pub fn break_book_shelf(life: u32, burn_life: u32) -> (r: Option<Vec<String>>)
    ensures
        r is Some <==> (life == 0 || burn_life == 0),
        r matches Some(names) ==> names@.len() == 6 && forall|i: int|
            0 <= i < 6 ==> (#[trigger] names@[i])@ == "bookshelf_piece_"@ + digit_spec(i),
{
    if life == 0 || burn_life == 0 {
        let names = piece_names("bookshelf", 6);
        proof {
            reveal_strlit("bookshelf");
            reveal_strlit("_piece_");
            reveal_strlit("bookshelf_piece_");
            assert forall|i: int| 0 <= i < 6 implies (#[trigger] names@[i])@ == "bookshelf_piece_"@
                + digit_spec(i) by {
                assert("bookshelf"@ + "_piece_"@ =~= "bookshelf_piece_"@);
                assert(names@[i]@ =~= "bookshelf"@ + "_piece_"@ + digit_spec(i));
            }
        }
        Some(names)
    } else {
        None
    }
}

/// A stone lantern breaks into four pieces once its life runs out;
/// returns the names of the pieces it breaks into.
pub fn break_stone_lantern(life: u32) -> (r: Option<Vec<String>>)
    ensures
        r is Some <==> life == 0,
        r matches Some(names) ==> names@.len() == 4 && forall|i: int|
            0 <= i < 4 ==> (#[trigger] names@[i])@ == "stone_lantern_piece_"@ + digit_spec(i),
{
    if life == 0 {
        let names = piece_names("stone_lantern", 4);
        proof {
            reveal_strlit("stone_lantern");
            reveal_strlit("_piece_");
            reveal_strlit("stone_lantern_piece_");
            assert forall|i: int| 0 <= i < 4 implies (#[trigger] names@[i])@
                == "stone_lantern_piece_"@ + digit_spec(i) by {
                assert("stone_lantern"@ + "_piece_"@ =~= "stone_lantern_piece_"@);
                assert(names@[i]@ =~= "stone_lantern"@ + "_piece_"@ + digit_spec(i));
            }
        }
        Some(names)
    } else {
        None
    }
}


/// Whether some filled slot holds the spell.
pub open spec fn in_slots(s: Seq<Option<WandSpell>>, x: Spell) -> bool {
    exists|i: int| 0 <= i < s.len() && s[i] is Some && s[i]->0.spell == x
}

/// Whether some filled slot of some wand holds the spell.
pub open spec fn in_wands(ws: Seq<Wand>, x: Spell) -> bool {
    exists|w: int, i: int|
        0 <= w < ws.len() && 0 <= i < ws[w].slots@.len() && ws[w].slots@[i] is Some
            && ws[w].slots@[i]->0.spell == x
}

/// The spells of filled slots are exactly what the slots hold: each filled
/// slot's spell is among them, each of them comes from a filled slot, and
/// there are as many as there are filled slots.
pub proof fn lemma_slot_spells_are_the_filled_slots(s: Seq<Option<WandSpell>>)
    ensures
        forall|i: int| 0 <= i < s.len() && s[i] is Some ==> slot_spells(s).contains(s[i]->0.spell),
        forall|j: int| 0 <= j < slot_spells(s).len() ==> in_slots(s, #[trigger] slot_spells(s)[j]),
        slot_spells(s).len() == s.filter(|x: Option<WandSpell>| x is Some).len(),
    decreases s.len(),
{
    if s.len() > 0 {
        let d = s.drop_last();
        lemma_slot_spells_are_the_filled_slots(d);
        let tail: Seq<Spell> = match s.last() {
            Some(ws) => seq![ws.spell],
            None => Seq::empty(),
        };
        assert(slot_spells(s) == slot_spells(d) + tail);
        assert(s =~= d.push(s.last()));
        d.lemma_filter_push(s.last(), |x: Option<WandSpell>| x is Some);
        assert forall|i: int| 0 <= i < s.len() && s[i] is Some implies slot_spells(s).contains(
            s[i]->0.spell,
        ) by {
            if i < s.len() - 1 {
                assert(d[i] == s[i]);
                let k = choose|k: int| 0 <= k < slot_spells(d).len() && slot_spells(d)[k] == s[i]->0.spell;
                assert(slot_spells(s)[k] == s[i]->0.spell);
            } else {
                assert(slot_spells(s)[slot_spells(d).len() as int] == s[i]->0.spell);
            }
        }
        assert forall|j: int| 0 <= j < slot_spells(s).len() implies in_slots(
            s,
            #[trigger] slot_spells(s)[j],
        ) by {
            if j < slot_spells(d).len() {
                assert(slot_spells(s)[j] == slot_spells(d)[j]);
                assert(in_slots(d, slot_spells(d)[j]));
                let i = choose|i: int|
                    0 <= i < d.len() && d[i] is Some && d[i]->0.spell == slot_spells(d)[j];
                assert(s[i] == d[i]);
                assert(s[i] is Some && s[i]->0.spell == slot_spells(s)[j]);
            } else {
                assert(slot_spells(s)[j] == tail[j - slot_spells(d).len()]);
                assert(s[s.len() - 1] == s.last());
                assert(s[s.len() - 1] is Some && s[s.len() - 1]->0.spell == slot_spells(s)[j]);
            }
        }
    } else {
        assert(s.filter(|x: Option<WandSpell>| x is Some) =~= Seq::<Option<WandSpell>>::empty());
        assert(slot_spells(s).len() == 0);
    }
}

/// A broken chest drops exactly the spells its wands hold: each spell in a
/// filled slot of any wand is dropped, and each drop is the spell of some
/// filled slot.
pub proof fn lemma_chest_drops_its_spells(ws: Seq<Wand>)
    ensures
        forall|w: int, i: int|
            0 <= w < ws.len() && 0 <= i < ws[w].slots@.len() && ws[w].slots@[i] is Some
                ==> wand_spells(ws).contains(ws[w].slots@[i]->0.spell),
        forall|j: int| 0 <= j < wand_spells(ws).len() ==> in_wands(ws, #[trigger] wand_spells(ws)[j]),
    decreases ws.len(),
{
    if ws.len() > 0 {
        let d = ws.drop_last();
        let last = ws.last();
        lemma_chest_drops_its_spells(d);
        lemma_slot_spells_are_the_filled_slots(last.slots@);
        let a = wand_spells(d);
        let b = slot_spells(last.slots@);
        assert(wand_spells(ws) == a + b);
        assert forall|w: int, i: int|
            0 <= w < ws.len() && 0 <= i < ws[w].slots@.len() && ws[w].slots@[i] is Some implies wand_spells(
            ws,
        ).contains(ws[w].slots@[i]->0.spell) by {
            if w < ws.len() - 1 {
                assert(d[w] == ws[w]);
                let k = choose|k: int| 0 <= k < a.len() && a[k] == ws[w].slots@[i]->0.spell;
                assert((a + b)[k] == a[k]);
            } else {
                assert(ws[w] == last);
                let k = choose|k: int| 0 <= k < b.len() && b[k] == ws[w].slots@[i]->0.spell;
                assert((a + b)[a.len() + k] == b[k]);
            }
        }
        assert forall|j: int| 0 <= j < wand_spells(ws).len() implies in_wands(
            ws,
            #[trigger] wand_spells(ws)[j],
        ) by {
            if j < a.len() {
                assert(wand_spells(ws)[j] == a[j]);
                assert(in_wands(d, a[j]));
                let (w, i) = choose|w: int, i: int|
                    0 <= w < d.len() && 0 <= i < d[w].slots@.len() && d[w].slots@[i] is Some && d[w].slots@[i]->0.spell == a[j];
                assert(ws[w] == d[w]);
                assert(ws[w].slots@[i] is Some && ws[w].slots@[i]->0.spell == wand_spells(ws)[j]);
            } else {
                let jj = j - a.len();
                assert(wand_spells(ws)[j] == b[jj]);
                assert(in_slots(last.slots@, b[jj]));
                let i = choose|i: int|
                    0 <= i < last.slots@.len() && last.slots@[i] is Some && last.slots@[i]->0.spell == b[jj];
                assert(ws[ws.len() - 1] == last);
                assert(ws[ws.len() - 1].slots@[i] is Some && ws[ws.len() - 1].slots@[i]->0.spell
                    == wand_spells(ws)[j]);
            }
        }
    } else {
        assert(wand_spells(ws).len() == 0);
    }
}

} // verus!
