use magiaforge::actor::ActorGroup;
use magiaforge::collision::collision_group_by_actor;
use magiaforge::collision::dropped_item_groups;
use magiaforge::collision::enemy_bullet_group;
use magiaforge::collision::enemy_groups;
use magiaforge::collision::entity_groups;
use magiaforge::collision::flying_enemy_groups;
use magiaforge::collision::flying_player_groups;
use magiaforge::collision::hidden_wall_groups;
use magiaforge::collision::piece_groups;
use magiaforge::collision::player_bullet_group;
use magiaforge::collision::player_groups;
use magiaforge::collision::remote_bullet_group;
use magiaforge::collision::rabbit_groups;
use magiaforge::collision::sensor_groups;
use magiaforge::collision::shadow_groups;
use magiaforge::collision::water_groups;
use magiaforge::collision::CollisionGroups;
use magiaforge::collision::PLAYER_MEMBERSHIPS;
use magiaforge::collision::WATER_MEMBERSHIPS;

#[test]
fn walking_actors_stop_at_water() {
    assert!(magiaforge::collision::test(player_groups(), water_groups()));
    assert!(magiaforge::collision::test(enemy_groups(), water_groups()));
}

#[test]
fn flying_actors_cross_water() {
    assert!(!magiaforge::collision::test(flying_player_groups(), water_groups()));
    assert!(!magiaforge::collision::test(flying_enemy_groups(), water_groups()));
}

#[test]
fn airborne_or_drowning_actor_takes_flying_groups() {
    assert_eq!(ActorGroup::Friend.to_groups(true, 0), flying_player_groups());
    assert_eq!(ActorGroup::Friend.to_groups(false, 3), flying_player_groups());
    assert_eq!(ActorGroup::Friend.to_groups(false, 0), player_groups());
    assert_eq!(ActorGroup::Enemy.to_groups(true, 0), flying_enemy_groups());
    assert!(!magiaforge::collision::test(ActorGroup::Enemy.to_groups(true, 0), water_groups()));
}

#[test]
fn bullets_hit_the_other_side_only() {
    assert!(magiaforge::collision::test(player_bullet_group(), enemy_groups()));
    assert!(!magiaforge::collision::test(player_bullet_group(), player_groups()));
    assert!(magiaforge::collision::test(enemy_bullet_group(), player_groups()));
    assert!(!magiaforge::collision::test(enemy_bullet_group(), enemy_groups()));
}

#[test]
fn neutral_bullets_touch_nothing() {
    let none = ActorGroup::Neutral.to_bullet_group();
    assert_eq!(none, CollisionGroups { memberships: 0, filters: 0 });
    assert!(!magiaforge::collision::test(none, player_groups()));
    assert!(!magiaforge::collision::test(none, entity_groups()));
    assert_eq!(ActorGroup::Entity.to_bullet_group(), none);
}

#[test]
fn hidden_shadow_dodges_bullets() {
    let hidden = collision_group_by_actor(true, false, ActorGroup::Enemy, false, 0);
    assert_eq!(hidden, shadow_groups());
    assert!(!magiaforge::collision::test(hidden, player_bullet_group()));
    assert!(!magiaforge::collision::test(hidden, enemy_bullet_group()));
}

#[test]
fn rabbits_take_rabbit_groups() {
    assert_eq!(collision_group_by_actor(false, true, ActorGroup::Friend, false, 0), rabbit_groups());
    assert_eq!(
        collision_group_by_actor(false, false, ActorGroup::Friend, false, 0),
        player_groups()
    );
}

#[test]
fn sensors_touch_sensors() {
    assert!(magiaforge::collision::test(sensor_groups(), sensor_groups()));
}

#[test]
fn dropped_items_ignore_enemies() {
    assert!(!magiaforge::collision::test(dropped_item_groups(), enemy_groups()));
    assert!(magiaforge::collision::test(dropped_item_groups(), player_groups()));
}

#[test]
fn hidden_wall_keeps_goods_in() {
    assert!(magiaforge::collision::test(hidden_wall_groups(), dropped_item_groups()));
    assert!(!magiaforge::collision::test(hidden_wall_groups(), player_groups()));
}

#[test]
fn remote_bullets_swap_sides() {
    assert_eq!(remote_bullet_group(ActorGroup::Friend), enemy_bullet_group());
    assert_eq!(remote_bullet_group(ActorGroup::Enemy), player_bullet_group());
    assert_eq!(
        remote_bullet_group(ActorGroup::Neutral),
        CollisionGroups { memberships: 0, filters: 0 }
    );
}

#[test]
fn collision_test_is_symmetric_on_samples() {
    let all = [
        player_groups(),
        enemy_groups(),
        water_groups(),
        piece_groups(),
        sensor_groups(),
        shadow_groups(),
        entity_groups(),
    ];
    for a in all.iter() {
        for b in all.iter() {
            assert_eq!(magiaforge::collision::test(*a, *b), magiaforge::collision::test(*b, *a));
        }
    }
}

#[test]
fn membership_bits_have_exact_values() {
    assert_eq!(player_groups().memberships, PLAYER_MEMBERSHIPS);
    assert_eq!(PLAYER_MEMBERSHIPS, 0x10);
    assert_eq!(water_groups().memberships, WATER_MEMBERSHIPS);
    assert_eq!(WATER_MEMBERSHIPS, 0x4000);
}
