use magiaforge::actor::Actor;
use magiaforge::actor::ActorGroup;
use magiaforge::actor::ActorState;
use magiaforge::collision::flying_player_groups;
use magiaforge::status::basic_animate;
use magiaforge::status::bomb_explodes;
use magiaforge::status::count_up_broken_chests;
use magiaforge::status::decrement_cloned;
use magiaforge::status::decrement_levitation;
use magiaforge::status::defreeze;
use magiaforge::status::despawn;
use magiaforge::status::drown;
use magiaforge::status::drown_damage;
use magiaforge::status::fire_damage;
use magiaforge::status::getting_up;
use magiaforge::status::is_broken;
use magiaforge::status::jump_actor;
use magiaforge::status::levitation_effect;
use magiaforge::status::move_ratio;
use magiaforge::status::stagger;
use magiaforge::status::wand_visible;
use magiaforge::status::AnimationTag;
use magiaforge::status::DamageOutcome;
use magiaforge::status::DespawnOutcome;
use magiaforge::status::DrownOutcome;
use magiaforge::status::Facing;
use magiaforge::status::MoveRatio;
use magiaforge::status::TileKind;
use magiaforge::status::Visibility;

#[test]
fn thawing_and_staggering_stop_at_zero() {
    assert_eq!(defreeze(10, 3), 7);
    assert_eq!(defreeze(2, 3), 0);
    assert_eq!(defreeze(0, 3), 0);
    assert_eq!(stagger(10, 4), 6);
    assert_eq!(stagger(4, 4), 0);
    assert_eq!(stagger(3, 4), 0);
}

#[test]
fn levitation_wears_off_but_auto_levitation_keeps_240() {
    assert_eq!(decrement_levitation(10, false), 9);
    assert_eq!(decrement_levitation(0, false), 0);
    assert_eq!(decrement_levitation(10, true), 240);
    assert_eq!(decrement_levitation(500, true), 499);
    assert_eq!(decrement_levitation(241, true), 240);
}

#[test]
fn counters_count_down() {
    assert_eq!(getting_up(5), 4);
    assert_eq!(getting_up(0), 0);
    assert_eq!(decrement_cloned(Some(3)), Some(2));
    assert_eq!(decrement_cloned(Some(0)), Some(0));
    assert_eq!(decrement_cloned(None), None);
}

#[test]
fn drowning_counts_only_on_liquid_on_the_ground() {
    assert_eq!(drown(0, 0, false, true), (1, true));
    assert_eq!(drown(5, 0, false, true), (6, false));
    assert_eq!(drown(5, 0, false, false), (0, false));
    assert_eq!(drown(5, 10, false, true), (0, false));
    assert_eq!(drown(5, 0, true, true), (0, false));
}

#[test]
fn drowning_damage_by_tile() {
    assert_eq!(drown_damage(TileKind::Water, 61, false), (DrownOutcome::Damage(3), 0));
    assert_eq!(drown_damage(TileKind::Water, 60, false), (DrownOutcome::Nothing, 60));
    assert_eq!(drown_damage(TileKind::Lava, 21, false), (DrownOutcome::Damage(10), 0));
    assert_eq!(drown_damage(TileKind::Lava, 20, false), (DrownOutcome::Nothing, 20));
    assert_eq!(drown_damage(TileKind::Crack, 0, false), (DrownOutcome::Fall, 0));
    assert_eq!(drown_damage(TileKind::Crack, 5, true), (DrownOutcome::Nothing, 5));
    assert_eq!(drown_damage(TileKind::Ice, 100, false), (DrownOutcome::Nothing, 100));
}

#[test]
fn fire_burns_only_when_sought_and_found() {
    assert_eq!(fire_damage(0, false, true), (true, 0));
    assert_eq!(fire_damage(0, true, true), (false, 0));
    assert_eq!(fire_damage(0, false, false), (false, 0));
    assert_eq!(fire_damage(5, false, true), (false, 4));
}

#[test]
fn damage_takes_life_off_and_stops_at_zero() {
    let mut a = Actor::default();
    a.life = 30;
    let r = a.apply_damage(10, 50, false, false, false, 0);
    assert_eq!(r, DamageOutcome::Nothing);
    assert_eq!(a.life, 20);
    assert_eq!(a.staggered, 50);
    let r = a.apply_damage(100, 100, true, false, false, 125);
    assert_eq!(r, DamageOutcome::Nothing);
    assert_eq!(a.life, 0);
    assert_eq!(a.staggered, 120);
    assert_eq!(a.fire_damage_wait, 65);
}

#[test]
fn damage_outcomes() {
    let mut a = Actor::default();
    a.life = 30;
    assert_eq!(a.apply_damage(1, 0, false, true, false, 0), DamageOutcome::Metamorphose);
    assert_eq!(a.apply_damage(1, 0, false, false, true, 0), DamageOutcome::Dispel);
    assert_eq!(a.apply_damage(100, 0, false, true, true, 0), DamageOutcome::Nothing);
}

#[test]
fn random_burn_wait_is_within_a_second_to_two() {
    for _ in 0..50 {
        let mut a = Actor::default();
        a.life = 30;
        a.damage(1, 0, true, false, false);
        assert!(60 <= a.fire_damage_wait && a.fire_damage_wait < 120);
        assert_eq!(a.life, 29);
    }
}

#[test]
fn struggling_out_of_a_web() {
    let mut a = Actor::default();
    a.trapped = 16;
    assert!(!a.struggle(true, 8));
    assert_eq!(a.trapped, 8);
    assert!(a.struggle(true, 8));
    assert_eq!(a.trapped, 0);
    assert_eq!(a.trap_moratorium, 179);
    assert!(!a.struggle(false, 8));
    assert_eq!(a.trap_moratorium, 179);
    assert!(!a.struggle(true, 8));
    assert_eq!(a.trap_moratorium, 178);
}

#[test]
fn move_ratio_precedence() {
    assert_eq!(move_ratio(1, 0, 0, 1, true, true, true), MoveRatio::Stopped);
    assert_eq!(move_ratio(0, 0, 0, 1, true, true, true), MoveRatio::Drowning);
    assert_eq!(move_ratio(0, 0, 0, 0, true, true, true), MoveRatio::Air);
    assert_eq!(move_ratio(0, 0, 0, 0, false, true, true), MoveRatio::Ice);
    assert_eq!(move_ratio(0, 0, 0, 0, false, false, true), MoveRatio::Firing);
    assert_eq!(move_ratio(0, 0, 0, 0, false, false, false), MoveRatio::Full);
}

#[test]
fn levitation_ring_blinks_at_the_end() {
    assert_eq!(levitation_effect(true, 500, 0), (Visibility::Hidden, false));
    assert_eq!(levitation_effect(false, 500, 0), (Visibility::Visible, false));
    assert_eq!(levitation_effect(false, 100, 3), (Visibility::Visible, false));
    assert_eq!(levitation_effect(false, 100, 4), (Visibility::Hidden, false));
    assert_eq!(levitation_effect(false, 100, -5), (Visibility::Hidden, false));
    assert_eq!(levitation_effect(false, 0, 4), (Visibility::Hidden, true));
}

#[test]
fn animation_precedence_and_mirroring() {
    assert_eq!(
        basic_animate(1, 1, 1, 1, ActorState::Run, Facing::Left),
        (AnimationTag::Frozen, true)
    );
    assert_eq!(
        basic_animate(0, 1, 1, 1, ActorState::Run, Facing::Up),
        (AnimationTag::Drown, false)
    );
    assert_eq!(
        basic_animate(0, 0, 1, 1, ActorState::Run, Facing::Up),
        (AnimationTag::Staggered, false)
    );
    assert_eq!(
        basic_animate(0, 0, 0, 1, ActorState::Run, Facing::Up),
        (AnimationTag::GetUp, false)
    );
    assert_eq!(
        basic_animate(0, 0, 0, 0, ActorState::Run, Facing::Left),
        (AnimationTag::RunR, true)
    );
    assert_eq!(
        basic_animate(0, 0, 0, 0, ActorState::Idle, Facing::Down),
        (AnimationTag::IdleD, false)
    );
}

#[test]
fn wand_hidden_while_drowning_staggered_or_getting_up() {
    assert!(wand_visible(0, 0, 0));
    assert!(!wand_visible(1, 0, 0));
    assert!(!wand_visible(0, 1, 0));
    assert!(!wand_visible(0, 0, 1));
}

#[test]
fn despawn_outcomes() {
    assert_eq!(despawn(Some(0), 0, None, 5, false), DespawnOutcome::Vanish);
    assert_eq!(despawn(Some(3), 0, None, 5, false), DespawnOutcome::Die(5));
    assert_eq!(despawn(None, 0, None, 5, true), DespawnOutcome::Die(0));
    assert_eq!(despawn(None, 3, Some(0), 5, false), DespawnOutcome::Die(5));
    assert_eq!(despawn(None, 3, Some(1), 5, false), DespawnOutcome::Stays);
}

#[test]
fn broken_chests_are_counted() {
    assert_eq!(count_up_broken_chests(&vec![0, 3, 0, 0, 1]), 3);
    assert_eq!(count_up_broken_chests(&vec![]), 0);
}

#[test]
fn bombs_and_breakables() {
    assert!(bomb_explodes(0, 0));
    assert!(bomb_explodes(5, 180));
    assert!(!bomb_explodes(5, 179));
    assert!(is_broken(0, None));
    assert!(is_broken(3, Some(0)));
    assert!(!is_broken(3, Some(2)));
}

#[test]
fn jumping_leaves_the_ground_once() {
    let mut a = Actor::default();
    a.actor_group = ActorGroup::Friend;
    assert_eq!(jump_actor(&mut a), Some(flying_player_groups()));
    assert!(a.airborne);
    assert_eq!(jump_actor(&mut a), None);
}

#[test]
fn damage_reads_life_and_damage_as_signed_numbers() {
    let mut a = Actor::default();
    a.life = u32::MAX;
    a.apply_damage(3, 0, false, false, false, 0);
    assert_eq!(a.life, 0);
    let mut b = Actor::default();
    b.life = 5;
    b.apply_damage(8, 0, false, false, false, 0);
    assert_eq!(b.life, 0);
    let mut c = Actor::default();
    c.life = 10;
    c.apply_damage(3, 0, false, false, false, 0);
    assert_eq!(c.life, 7);
}
