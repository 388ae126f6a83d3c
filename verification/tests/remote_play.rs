use magiaforge::actor::ActorGroup;
use magiaforge::remote::apply_hit;
use magiaforge::remote::despawn_no_contact_remotes;
use magiaforge::remote::find_remote;
use magiaforge::remote::frames_since;
use magiaforge::remote::receive_events;
use magiaforge::remote::receive_message;
use magiaforge::remote::send_player_states;
use magiaforge::remote::RemoteAction;
use magiaforge::remote::RemoteMessage;
use magiaforge::remote::RemotePlayer;
use magiaforge::remote::PLAYER_DEFEAT_BONUS;
use magiaforge::spell::ActorType;

fn remote(uuid: u128, life: u32) -> RemotePlayer {
    RemotePlayer { uuid, name: format!("p{}", uuid), golds: 0, life, max_life: 60, last_update: 0 }
}

#[test]
fn frames_since_reads_counts_as_signed() {
    assert_eq!(frames_since(200, 50), 150);
    assert_eq!(frames_since(5, 0xFFFF_FFFF), 6);
}

#[test]
fn silent_remotes_are_dropped_after_120_frames() {
    assert!(!despawn_no_contact_remotes(120, 0));
    assert!(despawn_no_contact_remotes(121, 0));
}

#[test]
fn position_is_sent_on_moves_or_every_sixty_frames() {
    assert!(send_player_states(true, 10, 61, 0, false));
    assert!(!send_player_states(true, 10, 60, 0, false));
    assert!(send_player_states(true, 10, 1, 0, true));
    assert!(!send_player_states(true, 9, 1, 0, false));
    assert!(!send_player_states(true, 0, 100, 0, true));
    assert!(!send_player_states(false, 10, 100, 0, true));
}

#[test]
fn remote_hit_stops_at_zero() {
    assert_eq!(apply_hit(30, 10), 20);
    assert_eq!(apply_hit(30, 40), 0);
    assert_eq!(apply_hit(30, -5), 35);
}

#[test]
fn find_remote_gives_the_first_match() {
    let rs = vec![remote(1, 10), remote(2, 10), remote(2, 20)];
    assert_eq!(find_remote(&rs, 2), Some(1));
    assert_eq!(find_remote(&rs, 3), None);
}

#[test]
fn position_message_updates_the_player() {
    let mut rs = vec![remote(1, 10), remote(2, 10)];
    let m = RemoteMessage::Position {
        sender: 2,
        uuid: 2,
        name: "p2".to_string(),
        golds: 7,
        life: 40,
        max_life: 50,
    };
    assert_eq!(receive_message(&mut rs, &m, 99), RemoteAction::Moved(1));
    assert_eq!(rs[1].golds, 7);
    assert_eq!(rs[1].life, 40);
    assert_eq!(rs[1].max_life, 50);
    assert_eq!(rs[1].last_update, 99);
    assert_eq!(rs[0].life, 10);
    assert_eq!(rs[0].last_update, 0);
}

#[test]
fn hit_message_hurts_and_unknown_targets_are_ignored() {
    let mut rs = vec![remote(1, 10)];
    let hit = RemoteMessage::Hit { sender: 9, uuid: 1, damage: 4 };
    assert_eq!(receive_message(&mut rs, &hit, 5), RemoteAction::Hurt(0));
    assert_eq!(rs[0].life, 6);
    assert_eq!(rs[0].last_update, 5);
    let miss = RemoteMessage::Hit { sender: 9, uuid: 2, damage: 4 };
    assert_eq!(receive_message(&mut rs, &miss, 6), RemoteAction::Ignored);
    assert_eq!(rs[0].life, 6);
    let overkill = RemoteMessage::Hit { sender: 9, uuid: 1, damage: 100 };
    receive_message(&mut rs, &overkill, 7);
    assert_eq!(rs[0].life, 0);
}

#[test]
fn die_message_asks_for_defeat_and_golds() {
    let mut rs = vec![remote(1, 10), remote(2, 10)];
    let die = RemoteMessage::Die { sender: 2, uuid: 2 };
    assert_eq!(
        receive_message(&mut rs, &die, 5),
        RemoteAction::Defeated { index: 1, golds: PLAYER_DEFEAT_BONUS }
    );
    assert_eq!(rs.len(), 2);
    assert_eq!(PLAYER_DEFEAT_BONUS, 100);
    let nobody = RemoteMessage::Die { sender: 3, uuid: 3 };
    assert_eq!(receive_message(&mut rs, &nobody, 5), RemoteAction::Ignored);
}

#[test]
fn other_messages_spawn_things() {
    let mut rs = vec![remote(1, 10)];
    assert_eq!(receive_message(&mut rs, &RemoteMessage::Fire, 1), RemoteAction::SpawnBullet);
    let seed = RemoteMessage::ServantSeed {
        actor_group: ActorGroup::Enemy,
        servant_type: ActorType::new("Slime"),
    };
    assert_eq!(
        receive_message(&mut rs, &seed, 1),
        RemoteAction::SpawnSeed {
            actor_group: ActorGroup::Enemy,
            servant_type: ActorType::new("Slime")
        }
    );
}

#[test]
fn a_frame_of_messages_in_order_keeps_the_players() {
    let mut rs = vec![remote(1, 10), remote(2, 50)];
    let msgs = vec![
        RemoteMessage::Hit { sender: 1, uuid: 2, damage: 10 },
        RemoteMessage::Hit { sender: 1, uuid: 2, damage: 15 },
        RemoteMessage::Die { sender: 2, uuid: 2 },
        RemoteMessage::Fire,
    ];
    let actions = receive_events(&mut rs, &msgs, 42);
    assert_eq!(
        actions,
        vec![
            RemoteAction::Hurt(1),
            RemoteAction::Hurt(1),
            RemoteAction::Defeated { index: 1, golds: 100 },
            RemoteAction::SpawnBullet,
        ]
    );
    assert_eq!(rs.len(), 2);
    assert_eq!(rs[1].uuid, 2);
    assert_eq!(rs[1].life, 25);
    assert_eq!(rs[1].last_update, 42);
}
