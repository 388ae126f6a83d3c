use magiaforge::actor::clone_actor;
use magiaforge::actor::contains_name;
use magiaforge::actor::insert_name;
use magiaforge::actor::get_default_actor;
use magiaforge::actor::wands_from_spells;
use magiaforge::actor::Actor;
use magiaforge::actor::ActorFireState;
use magiaforge::actor::ActorGroup;
use magiaforge::actor::ActorProps;
use magiaforge::actor::ActorState;
use magiaforge::constant::MAX_ITEMS_IN_INVENTORY;
use magiaforge::constant::MAX_SPELLS_IN_WAND;
use magiaforge::constant::MAX_WANDS;
use magiaforge::spell::ActorType;
use magiaforge::spell::Spell;
use magiaforge::wand::Inventory;
use magiaforge::wand::InventoryItem;
use magiaforge::wand::Wand;
use magiaforge::wand::WandSpell;

fn priced(name: &str, price: u32) -> Option<WandSpell> {
    Some(WandSpell { spell: Spell::new(name), price })
}

fn witch_with_debt() -> Actor {
    let mut a = Actor::default();
    a.wands[0].slots[0] = priced("MagicBolt", 30);
    a.wands[1].slots[2] = priced("Heal", 20);
    a.wands[2].slots[1] = priced("Lantern", 0);
    a.inventory.0[5] = Some(InventoryItem { spell: Spell::new("Dash"), price: 50 });
    a.inventory.0[6] = Some(InventoryItem { spell: Spell::new("Web"), price: 0 });
    a
}

#[test]
fn default_actor_is_fresh() {
    let a = Actor::default();
    assert_eq!(a.life, 100);
    assert_eq!(a.max_life, 100);
    assert_eq!(a.golds, 0);
    assert_eq!(a.wait, 30);
    assert_eq!(a.actor_group, ActorGroup::Neutral);
    assert_eq!(a.wands.len(), MAX_WANDS);
    assert!(a.wands.iter().all(|w| w.slots.len() == MAX_SPELLS_IN_WAND && w.is_empty()));
    assert_eq!(a.inventory.0.len(), MAX_ITEMS_IN_INVENTORY);
    assert!(a.inventory.0.iter().all(|i| i.is_none()));
}

#[test]
fn dept_sums_wands_and_inventory() {
    let a = witch_with_debt();
    assert_eq!(a.dept(), 100);
    assert_eq!(a.inventory.dept(), 50);
    assert_eq!(a.wands[0].dept(), 30);
    assert_eq!(a.wands[3].dept(), 0);
}

#[test]
fn liquidate_pays_everything_when_golds_suffice() {
    let mut a = witch_with_debt();
    a.golds = 130;
    assert!(a.liquidate());
    assert_eq!(a.golds, 30);
    assert_eq!(a.dept(), 0);
    assert_eq!(a.wands[0].slots[0].as_ref().unwrap().price, 0);
    assert_eq!(a.inventory.0[5].as_ref().unwrap().price, 0);
    assert_eq!(a.wands[1].slots[2].as_ref().unwrap().spell, Spell::new("Heal"));
}

#[test]
fn liquidate_changes_nothing_when_golds_fall_short() {
    let mut a = witch_with_debt();
    a.golds = 99;
    assert!(!a.liquidate());
    assert_eq!(a.golds, 99);
    assert_eq!(a.dept(), 100);
}

#[test]
fn liquidate_with_exactly_enough() {
    let mut a = witch_with_debt();
    a.golds = 100;
    assert!(a.liquidate());
    assert_eq!(a.golds, 0);
}

#[test]
fn owned_spells_are_the_paid_ones_each_once() {
    let mut a = witch_with_debt();
    a.wands[3].slots[7] = priced("Web", 0);
    let owned = a.get_owned_spell_types();
    assert_eq!(owned.len(), 2);
    assert!(owned.contains(&Spell::new("Web")));
    assert!(owned.contains(&Spell::new("Lantern")));
    assert!(!owned.contains(&Spell::new("Dash")));
}

#[test]
fn contains_in_slot_and_get_spell() {
    let a = witch_with_debt();
    assert!(a.contains_in_slot(&Spell::new("Heal")));
    assert!(!a.contains_in_slot(&Spell::new("Dash")));
    assert_eq!(a.get_spell(1, 2).unwrap().price, 20);
    assert!(a.get_wand_spell(1, 3).is_none());
    assert_eq!(a.inventory.get(5).unwrap().price, 50);
    assert!(a.inventory.get(1000).is_none());
}

#[test]
fn zoom_factor_from_telescopes_and_magnifiers() {
    let mut a = Actor::default();
    assert_eq!(a.get_total_scale_factor(), -2);
    a.wands[0].slots[0] = priced("Telescope", 0);
    a.wands[1].slots[0] = priced("Telescope", 0);
    a.wands[2].slots[0] = priced("Telescope", 0);
    assert_eq!(a.get_total_scale_factor(), 1);
    for i in 1..6 {
        a.wands[0].slots[i] = priced("Telescope", 0);
    }
    assert_eq!(a.get_total_scale_factor(), 2);
    let mut b = Actor::default();
    b.wands[0].slots[0] = priced("Magnifier", 0);
    assert_eq!(b.get_total_scale_factor(), -4);
}

#[test]
fn lanterns_light_160_each_except_for_clones() {
    let mut a = Actor::default();
    assert_eq!(a.point_light_radius_by_item(), 0);
    a.wands[0].slots[0] = priced("Lantern", 0);
    a.wands[3].slots[7] = priced("Lantern", 10);
    assert_eq!(a.count_spell(&Spell::new("Lantern")), 2);
    assert_eq!(a.point_light_radius_by_item(), 320);
    a.cloned = Some(10);
    assert_eq!(a.point_light_radius_by_item(), 0);
}

#[test]
fn clones_have_one_life_and_no_golds() {
    let mut a = witch_with_debt();
    a.golds = 500;
    a.life = 70;
    a.fire_state = ActorFireState::Fire;
    a.state = ActorState::Run;
    let c = clone_actor(&a, 600);
    assert_eq!(c.life, 1);
    assert_eq!(c.max_life, 1);
    assert_eq!(c.golds, 0);
    assert_eq!(c.wait, 30);
    assert_eq!(c.cloned, Some(600));
    assert_eq!(c.fire_state, ActorFireState::Idle);
    assert_eq!(c.state, ActorState::Idle);
    assert_ne!(c.uuid, a.uuid);
    assert_eq!(c.wands[1].slots[2].as_ref().unwrap().spell, Spell::new("Heal"));
    assert_eq!(c.inventory.0[5].as_ref().unwrap().price, 50);
}

#[test]
fn default_actor_from_registry_entry() {
    let props = ActorProps {
        actor_group: ActorGroup::Enemy,
        wands: vec![vec![Some(Spell::new("SlimeCharge")), None, Some(Spell::new("Jump"))]],
        life: 15,
    };
    let a = get_default_actor(&props, &ActorType::new("Slime"));
    assert_eq!(a.actor_type, ActorType::new("Slime"));
    assert_eq!(a.actor_group, ActorGroup::Enemy);
    assert_eq!(a.life, 15);
    assert_eq!(a.max_life, 15);
    assert_eq!(a.wands[0].slots[0].as_ref().unwrap().spell, Spell::new("SlimeCharge"));
    assert!(a.wands[0].slots[1].is_none());
    assert_eq!(a.wands[0].slots[2].as_ref().unwrap().price, 0);
    assert!(a.wands[1].is_empty());
}

#[test]
fn wands_from_spells_drops_extra_wands_and_slots() {
    let row: Vec<Option<Spell>> = (0..10).map(|_| Some(Spell::new("MagicBolt"))).collect();
    let lists: Vec<Vec<Option<Spell>>> = (0..6).map(|_| row.clone()).collect();
    let wands = wands_from_spells(&lists);
    assert_eq!(wands.len(), MAX_WANDS);
    assert!(wands.iter().all(|w| w.slots.len() == MAX_SPELLS_IN_WAND));
    assert!(wands.iter().all(|w| w.slots.iter().all(|s| s.is_some())));
}

#[test]
fn wand_with_spells_and_cursor() {
    let w = Wand::with_spells(&vec![None, Some(Spell::new("Heal"))]);
    assert!(!w.is_empty());
    assert!(w.slots[0].is_none());
    assert_eq!(w.slots[1].as_ref().unwrap().price, 0);
    let moved = w.with_cursor(3, 12);
    assert_eq!(moved.index, 3);
    assert_eq!(moved.delay, 12);
    assert_eq!(moved.slots[1].as_ref().unwrap().spell, Spell::new("Heal"));
    assert!(Wand::new().is_empty());
    let mut inv = Inventory::new();
    inv.0[0] = Some(InventoryItem { spell: Spell::new("Heal"), price: 7 });
    assert_eq!(inv.dept(), 7);
    assert_eq!(inv.paid().dept(), 0);
}

#[test]
fn names_are_kept_once() {
    let mut v = vec![Spell::new("Heal")];
    insert_name(&mut v, Spell::new("Dash"));
    insert_name(&mut v, Spell::new("Heal"));
    assert_eq!(v, vec![Spell::new("Heal"), Spell::new("Dash")]);
    assert!(contains_name(&v, &Spell::new("Dash")));
    assert!(!contains_name(&v, &Spell::new("Web")));
}

#[test]
fn a_second_liquidation_changes_nothing() {
    let mut a = witch_with_debt();
    a.golds = 120;
    assert!(a.liquidate());
    let golds = a.golds;
    assert!(a.liquidate());
    assert_eq!(a.golds, golds);
    assert_eq!(a.dept(), 0);
    assert_eq!(a.wands[1].slots[2].as_ref().unwrap().spell, Spell::new("Heal"));
}
