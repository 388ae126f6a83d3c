use magiaforge::actor::Actor;
use magiaforge::actor::ActorFireState;
use magiaforge::actor::ActorGroup;
use magiaforge::cast::rest_delay;
use magiaforge::cast::CastAction;
use magiaforge::cast::FireGate;
use magiaforge::cast::SpellCast;
use magiaforge::cast::SpellProps;
use magiaforge::spell::ActorType;
use magiaforge::spell::Spell;
use magiaforge::wand::WandSpell;

fn props(list: &[(usize, u32, SpellCast)]) -> Vec<Option<SpellProps>> {
    let mut v: Vec<Option<SpellProps>> = vec![None; 8];
    for (slot, delay, cast) in list {
        v[*slot] = Some(SpellProps { cast_delay: *delay, cast: *cast });
    }
    v
}

fn caster(slots: &[usize]) -> Actor {
    let mut a = Actor::default();
    a.actor_type = ActorType::new("Witch");
    a.actor_group = ActorGroup::Friend;
    for s in slots {
        a.wands[0].slots[*s] = Some(WandSpell { spell: Spell::new(&format!("Spell{}", s)), price: 0 });
    }
    a
}

fn bullet(slot: usize, damage: i32) -> CastAction {
    CastAction::Bullet {
        slot,
        damage,
        slash: None,
        dispel: false,
        web: false,
        metamorphose: None,
        remote: true,
    }
}

#[test]
fn one_pull_casts_one_bullet() {
    let p = props(&[(0, 20, SpellCast::Bullet { damage: 8 })]);
    let mut a = caster(&[0]);
    let r = a.cast_spell(0, &p, true);
    assert_eq!(r.actions, vec![bullet(0, 8)]);
    assert!(r.cleared);
    assert_eq!(r.delay, 20);
    assert_eq!(a.wands[0].index, 1);
    assert_eq!(a.wands[0].delay, 20);
}

#[test]
fn multiple_cast_extends_the_chain_and_skips_empty_slots() {
    let p = props(&[
        (0, 5, SpellCast::MultipleCast { amount: 2 }),
        (1, 10, SpellCast::Bullet { damage: 5 }),
        (3, 30, SpellCast::Bullet { damage: 7 }),
        (4, 99, SpellCast::Bullet { damage: 9 }),
    ]);
    let mut a = caster(&[0, 1, 3, 4]);
    let r = a.cast_spell(0, &p, true);
    assert_eq!(r.actions, vec![bullet(1, 5), bullet(3, 7)]);
    assert_eq!(a.wands[0].index, 4);
    assert_eq!(a.wands[0].delay, 30);
}

#[test]
fn a_resting_wand_casts_nothing() {
    let p = props(&[(0, 20, SpellCast::Bullet { damage: 8 })]);
    let mut a = caster(&[0]);
    a.wands[0].delay = 3;
    let r = a.cast_spell(0, &p, true);
    assert!(r.actions.is_empty());
    assert!(!r.cleared);
    assert_eq!(r.delay, 0);
    assert_eq!(a.wands[0].delay, 3);
    assert_eq!(a.wands[0].index, 0);
}

#[test]
fn buffs_wait_for_the_next_bullet() {
    let p = props(&[(0, 0, SpellCast::HeavyShot), (1, 0, SpellCast::Bullet { damage: 8 })]);
    let mut a = caster(&[0, 1]);
    let r = a.cast_spell(0, &p, false);
    assert!(r.actions.is_empty());
    assert!(!r.cleared);
    assert_eq!(a.effects.bullet_damage_buff_amount, 5);
    assert_eq!(a.wands[0].delay, 1);
    a.rest_wands();
    assert_eq!(a.wands[0].delay, 0);
    let r = a.cast_spell(0, &p, false);
    assert_eq!(
        r.actions,
        vec![CastAction::Bullet {
            slot: 1,
            damage: 13,
            slash: None,
            dispel: false,
            web: false,
            metamorphose: None,
            remote: false,
        }]
    );
    assert!(r.cleared);
    assert_eq!(a.effects.bullet_damage_buff_amount, 0);
}

#[test]
fn quick_cast_shortens_the_rest_but_not_below_one() {
    let p = props(&[
        (0, 1, SpellCast::MultipleCast { amount: 2 }),
        (1, 1, SpellCast::QuickCast),
        (2, 4, SpellCast::Bullet { damage: 1 }),
    ]);
    let mut a = caster(&[0, 1, 2]);
    let r = a.cast_spell(0, &p, true);
    assert_eq!(r.actions, vec![bullet(2, 1)]);
    assert_eq!(a.wands[0].delay, 1);
    assert_eq!(a.effects.quick_cast, 0);
}

#[test]
fn heal_is_capped_at_full_life() {
    let p = props(&[(0, 10, SpellCast::Heal)]);
    let mut a = caster(&[0]);
    a.life = 99;
    let r = a.cast_spell(0, &p, true);
    assert_eq!(r.actions, vec![CastAction::Heal]);
    assert_eq!(a.life, 100);
}

#[test]
fn leftover_slash_and_web_act_on_the_caster() {
    let p = props(&[
        (0, 1, SpellCast::MultipleCast { amount: 2 }),
        (1, 1, SpellCast::Slash { damage: 40 }),
        (2, 1, SpellCast::Web),
    ]);
    let mut a = caster(&[0, 1, 2]);
    let r = a.cast_spell(0, &p, true);
    assert_eq!(r.actions, vec![CastAction::SpawnWeb, CastAction::Slash(40)]);
    assert!(!r.cleared);
    assert_eq!(a.effects.web, 0);
    assert!(a.effects.slash.is_empty());
}

#[test]
fn slash_buff_rides_the_next_bullet() {
    let p = props(&[
        (0, 1, SpellCast::MultipleCast { amount: 2 }),
        (1, 1, SpellCast::Slash { damage: 40 }),
        (2, 1, SpellCast::Bullet { damage: 3 }),
    ]);
    let mut a = caster(&[0, 1, 2]);
    let r = a.cast_spell(0, &p, true);
    assert_eq!(
        r.actions,
        vec![CastAction::Bullet {
            slot: 2,
            damage: 3,
            slash: Some(40),
            dispel: false,
            web: false,
            metamorphose: None,
            remote: true,
        }]
    );
}

#[test]
fn summons_join_the_right_side() {
    let p = props(&[(0, 1, SpellCast::Summon { friend: false, servant: true })]);
    let mut a = caster(&[0]);
    let r = a.cast_spell(0, &p, true);
    assert_eq!(r.actions, vec![CastAction::Summon { slot: 0, group: ActorGroup::Enemy, servant: true }]);
    let p = props(&[(0, 1, SpellCast::Summon { friend: true, servant: false })]);
    let mut b = caster(&[0]);
    let r = b.cast_spell(0, &p, true);
    assert_eq!(r.actions, vec![CastAction::Summon { slot: 0, group: ActorGroup::Friend, servant: false }]);
}

#[test]
fn only_players_clone_themselves() {
    let p = props(&[(0, 1, SpellCast::Clone)]);
    let mut a = caster(&[0]);
    assert_eq!(a.cast_spell(0, &p, true).actions, vec![CastAction::Clone { lifetime: 600 }]);
    let mut b = caster(&[0]);
    assert!(b.cast_spell(0, &p, false).actions.is_empty());
    let p = props(&[(0, 1, SpellCast::InfinityClone)]);
    let mut c = caster(&[0]);
    assert_eq!(c.cast_spell(0, &p, false).actions, vec![CastAction::Clone { lifetime: u32::MAX }]);
}

#[test]
fn leftover_transformation_turns_the_caster_into_another_kind() {
    let kinds = [
        "Slime", "EyeBall", "Shadow", "Spider", "Salamander", "Chicken", "Sandbag", "Lantern",
        "Chest", "BookShelf",
    ];
    for _ in 0..20 {
        let p = props(&[(0, 1, SpellCast::Metamorphosis)]);
        let mut a = caster(&[0]);
        a.actor_type = ActorType::new("Slime");
        let r = a.cast_spell(0, &p, true);
        assert_eq!(r.actions.len(), 1);
        match &r.actions[0] {
            CastAction::Metamorphose(t) => {
                assert_ne!(t, &ActorType::new("Slime"));
                assert!(kinds.iter().any(|k| ActorType::new(k) == *t));
            }
            other => panic!("unexpected {:?}", other),
        }
    }
}

#[test]
fn the_cursor_wraps_after_the_last_slot() {
    let p = props(&[(7, 2, SpellCast::Bullet { damage: 1 })]);
    let mut a = caster(&[7]);
    a.wands[0].index = 7;
    let r = a.cast_spell(0, &p, true);
    assert_eq!(r.actions, vec![bullet(7, 1)]);
    assert_eq!(a.wands[0].index, 0);
}

#[test]
fn rest_delay_counts_down() {
    assert_eq!(rest_delay(5), 4);
    assert_eq!(rest_delay(0), 0);
    assert_eq!(rest_delay(0x8000_0001), 0);
}

#[test]
fn fire_waits_then_pulls_both_triggers() {
    let primary = props(&[(0, 5, SpellCast::Bullet { damage: 2 })]);
    let secondary = props(&[(0, 7, SpellCast::Dash)]);
    let mut a = caster(&[0]);
    a.wands[3].slots[0] = Some(WandSpell { spell: Spell::new("Dash"), price: 0 });
    a.wait = 1;
    a.fire_state = ActorFireState::Fire;
    a.fire_state_secondary = ActorFireState::Fire;
    let r = a.fire_bullet(&primary, &secondary, true);
    assert_eq!(r.gate, FireGate::Waiting);
    assert!(r.primary.is_none() && r.secondary.is_none());
    assert_eq!(a.wait, 0);
    let r = a.fire_bullet(&primary, &secondary, true);
    assert_eq!(r.gate, FireGate::Ready);
    assert_eq!(r.primary.unwrap().actions, vec![bullet(0, 2)]);
    assert_eq!(r.secondary.unwrap().actions, vec![CastAction::Dash]);
    assert_eq!(a.wands[0].delay, 4);
    assert_eq!(a.wands[3].delay, 6);
}

#[test]
fn frozen_or_staggered_actors_do_not_fire() {
    let primary = props(&[(0, 5, SpellCast::Bullet { damage: 2 })]);
    let mut a = caster(&[0]);
    a.wait = 0;
    a.fire_state = ActorFireState::Fire;
    let none = props(&[]);
    a.frozen = 3;
    assert_eq!(a.fire_bullet(&primary, &none, true).gate, FireGate::Frozen);
    a.frozen = 0;
    a.staggered = 3;
    assert_eq!(a.fire_bullet(&primary, &none, true).gate, FireGate::Staggered);
    a.staggered = 0;
    a.drown = 3;
    let r = a.fire_bullet(&primary, &none, true);
    assert_eq!(r.gate, FireGate::Drowning);
    assert!(r.primary.is_none() && r.secondary.is_none());
    assert_eq!(a.wands[0].delay, 0);
    assert_eq!(a.wands[0].index, 0);
}

#[test]
fn an_idle_trigger_casts_nothing() {
    let primary = props(&[(0, 5, SpellCast::Bullet { damage: 2 })]);
    let mut a = caster(&[0]);
    a.wait = 0;
    let r = a.fire_bullet(&primary, &props(&[]), true);
    assert_eq!(r.gate, FireGate::Ready);
    assert!(r.primary.is_none());
    assert!(r.secondary.is_none());
}

#[test]
fn dispel_buffs_pile_up_to_four() {
    let p = props(&[
        (0, 1, SpellCast::MultipleCast { amount: 6 }),
        (1, 1, SpellCast::Dispel),
        (2, 1, SpellCast::Dispel),
        (3, 1, SpellCast::Dispel),
        (4, 1, SpellCast::Dispel),
        (5, 1, SpellCast::Dispel),
        (6, 1, SpellCast::Dispel),
    ]);
    let mut a = caster(&[0, 1, 2, 3, 4, 5, 6]);
    let r = a.cast_spell(0, &p, true);
    assert!(r.actions.is_empty());
    assert_eq!(a.effects.dispel, 4);
}

#[test]
fn heals_never_pass_full_life() {
    let p = props(&[
        (0, 1, SpellCast::MultipleCast { amount: 3 }),
        (1, 1, SpellCast::Heal),
        (2, 1, SpellCast::Heal),
        (3, 1, SpellCast::Heal),
    ]);
    let mut a = caster(&[0, 1, 2, 3]);
    a.life = 97;
    let r = a.cast_spell(0, &p, true);
    assert_eq!(r.actions, vec![CastAction::Heal, CastAction::Heal, CastAction::Heal]);
    assert_eq!(a.life, 100);
}

#[test]
fn a_cast_never_costs_life() {
    let p = props(&[
        (0, 1, SpellCast::MultipleCast { amount: 2 }),
        (1, 1, SpellCast::Bullet { damage: 4 }),
        (2, 1, SpellCast::Heal),
    ]);
    let mut a = caster(&[0, 1, 2]);
    a.life = 40;
    a.cast_spell(0, &p, true);
    assert!(40 <= a.life && a.life <= a.max_life);
    assert_eq!(a.life, 42);
}

#[test]
fn a_summon_names_the_slot_of_its_spell() {
    let p = props(&[(2, 1, SpellCast::Summon { friend: true, servant: true })]);
    let mut a = caster(&[2]);
    a.wands[0].index = 2;
    let r = a.cast_spell(0, &p, true);
    assert_eq!(r.actions, vec![CastAction::Summon { slot: 2, group: ActorGroup::Friend, servant: true }]);
}

#[test]
fn each_transformation_draws_its_own_kind() {
    let kinds = [
        "Slime", "EyeBall", "Shadow", "Spider", "Salamander", "Chicken", "Sandbag", "Lantern",
        "Chest", "BookShelf",
    ];
    let mut differed = false;
    for _ in 0..200 {
        let p = props(&[
            (0, 1, SpellCast::MultipleCast { amount: 4 }),
            (1, 1, SpellCast::Metamorphosis),
            (2, 1, SpellCast::Bullet { damage: 3 }),
            (3, 1, SpellCast::Metamorphosis),
            (4, 1, SpellCast::Bullet { damage: 3 }),
        ]);
        let mut a = caster(&[0, 1, 2, 3, 4]);
        let r = a.cast_spell(0, &p, true);
        assert_eq!(r.actions.len(), 2);
        let kind = |action: &CastAction| match action {
            CastAction::Bullet { metamorphose: Some(t), .. } => t.clone(),
            other => panic!("unexpected {:?}", other),
        };
        let first = kind(&r.actions[0]);
        let second = kind(&r.actions[1]);
        assert!(kinds.iter().any(|k| ActorType::new(k) == first));
        assert!(kinds.iter().any(|k| ActorType::new(k) == second));
        assert_ne!(first, ActorType::new("Witch"));
        assert_ne!(second, ActorType::new("Witch"));
        if first != second {
            differed = true;
        }
    }
    assert!(differed);
}
