use magiaforge::actor::Actor;
use magiaforge::actor::ActorFireState;
use magiaforge::actor::ActorGroup;
use magiaforge::actor::ActorProps;
use magiaforge::actor::ActorState;
use magiaforge::animated_slice::AnimatedSlice;
use magiaforge::asset_credit::asset_to_credit;
use magiaforge::asset_credit::bgm_credit_text;
use magiaforge::actor::FloatingContent;
use magiaforge::remote::on_enter;
use magiaforge::remote::on_exit;
use magiaforge::bullet_type::bullet_type_to_props;
use magiaforge::bullet_type::BulletType;
use magiaforge::chest::break_book_shelf;
use magiaforge::chest::break_chest;
use magiaforge::chest::break_effects;
use magiaforge::chest::break_stone_lantern;
use magiaforge::chest::chest_actor;
use magiaforge::chest::chest_or_barrel;
use magiaforge::chest::jar_piece_name;
use magiaforge::chest::piece_name;
use magiaforge::chest::update_sprite;
use magiaforge::chest::BreakDebris;
use magiaforge::chest::BreakSound;
use magiaforge::chest::Chest;
use magiaforge::chest::ChestType;
use magiaforge::chest::JarColor;
use magiaforge::command::command_action;
use magiaforge::command::process_game_commands;
use magiaforge::command::CommandAction;
use magiaforge::command::CommandState;
use magiaforge::command::GameCommand;
use magiaforge::command::GameState;
use magiaforge::command::SoundAsset;
use magiaforge::counter::Counter;
use magiaforge::debug_command::ends_with_level;
use magiaforge::debug_command::process_debug_command;
use magiaforge::debug_command::DebugCommand;
use magiaforge::enemy::default_eyeball;
use magiaforge::enemy::default_huge_slime;
use magiaforge::enemy::default_rabbit;
use magiaforge::enemy::default_salamander;
use magiaforge::enemy::default_sandbag;
use magiaforge::enemy::default_shadow;
use magiaforge::enemy::default_slime;
use magiaforge::enemy::default_spider;
use magiaforge::enemy::DespawnWithGold;
use magiaforge::enemy::Enemy;
use magiaforge::enemy::TraningDummyController;
use magiaforge::entity::EntityType;
use magiaforge::life::despawn_if_no_master;
use magiaforge::life::Life;
use magiaforge::metamorphosis::cast_metamorphosis;
use magiaforge::metamorphosis::metamorphosis_candidates;
use magiaforge::metamorphosis::morphed_group;
use magiaforge::metamorphosis::random_actor_type;
use magiaforge::metamorphosis::random_morphed_group;
use magiaforge::metamorphosis::revert;
use magiaforge::metamorphosis::scale_life;
use magiaforge::metamorphosis::turn_back;
use magiaforge::metamorphosis::METAMORPHOSIS_FRAMES;
use magiaforge::player::actor_cast;
use magiaforge::player::home_level;
use magiaforge::player::move_player;
use magiaforge::player::pick_gold;
use magiaforge::player::recovery;
use magiaforge::player::switch_wand;
use magiaforge::player::sync_wands;
use magiaforge::player::Player;
use magiaforge::rabbit::rabbit_role;
use magiaforge::rabbit::start_talk;
use magiaforge::rabbit::MessageRabbit;
use magiaforge::rabbit::RabbitRole;
use magiaforge::rabbit::Talk;
use magiaforge::shop::shop_checkout;
use magiaforge::shop::ShopSpeech;
use magiaforge::spawn::actor_spawn_plan;
use magiaforge::spawn::ActorBehaviour;
use magiaforge::spell::ActorType;
use magiaforge::spell::Spell;
use magiaforge::text::str_ends_with;
use magiaforge::text::str_eq;
use magiaforge::wand::InventoryItem;
use magiaforge::wand::WandSpell;

#[test]
fn bullet_kinds() {
    let b = bullet_type_to_props(BulletType::BlueBullet);
    assert_eq!((b.slice, b.lifetime, b.damage), ("bullet_magic_bolt", 240, 5));
    let p = bullet_type_to_props(BulletType::PurpleBullet);
    assert_eq!((p.slice, p.lifetime, p.damage), ("bullet_purple", 500, 5));
    let s = bullet_type_to_props(BulletType::SlimeAttackBullet);
    assert_eq!((s.slice, s.lifetime, s.damage), ("bullet_slime_charge", 5, 10));
}

#[test]
fn animated_slice_cycles() {
    let a = AnimatedSlice { slices: vec!["a".to_string(), "b".to_string(), "c".to_string()], wait: 5 };
    assert_eq!(a.update(0), "a");
    assert_eq!(a.update(4), "a");
    assert_eq!(a.update(5), "b");
    assert_eq!(a.update(14), "c");
    assert_eq!(a.update(15), "a");
}

#[test]
fn counters_step() {
    let mut c = Counter::default();
    c.count();
    c.count();
    assert_eq!(c.count, 2);
    let mut d = Counter::down(10);
    d.count();
    assert_eq!(d.count, 9);
    assert_eq!(Counter::up(3).delta, 1);
}

#[test]
fn commands_play_sounds_and_request_warps() {
    assert_eq!(command_action(GameCommand::SECry), CommandAction::PlaySe(SoundAsset::Hiyoko));
    assert_eq!(
        command_action(GameCommand::StateInGame),
        CommandAction::CloseOverlay(GameState::InGame)
    );
    let mut st = CommandState { next: None };
    let r = process_game_commands(&mut st, &vec![GameCommand::SEClick, GameCommand::StateWarp]);
    assert_eq!(
        r,
        vec![
            CommandAction::PlaySe(SoundAsset::Kettei),
            CommandAction::CloseOverlay(GameState::Warp)
        ]
    );
    assert_eq!(st.next, Some(GameState::Warp));
    let mut st2 = CommandState { next: Some(GameState::InGame) };
    process_game_commands(&mut st2, &vec![GameCommand::SEHeal]);
    assert_eq!(st2.next, Some(GameState::InGame));
}

#[test]
fn debug_commands() {
    let levels = vec!["level_1".to_string(), "arena".to_string()];
    assert_eq!(
        process_debug_command("xx@arena", &levels),
        DebugCommand::Warp("arena".to_string())
    );
    assert_eq!(process_debug_command("@next", &levels), DebugCommand::Next);
    assert_eq!(process_debug_command("abc@pause", &levels), DebugCommand::Pause);
    assert_eq!(process_debug_command("@resume", &levels), DebugCommand::Resume);
    assert_eq!(process_debug_command("@ending", &levels), DebugCommand::Ending);
    assert_eq!(process_debug_command("@item", &levels), DebugCommand::Item);
    assert_eq!(process_debug_command("@arenax", &levels), DebugCommand::Nothing);
    assert_eq!(process_debug_command("", &levels), DebugCommand::Nothing);
    assert!(ends_with_level("@level_1", "level_1"));
    assert!(!ends_with_level("level_1", "level_1"));
    assert!(str_ends_with("hello", "llo"));
    assert!(!str_ends_with("lo", "llo"));
    assert!(str_eq("魔女", "魔女"));
    assert!(!str_eq("魔女", "魔"));
}

#[test]
fn music_credits() {
    let c = asset_to_credit(Some("水のしたたる洞窟"));
    assert_eq!((c.authoer, c.title, c.appendix), ("のる", "茫漠たる庭", "(タイトル画面BGM)"));
    let c = asset_to_credit(Some("Decisive_Battle"));
    assert_eq!((c.authoer, c.title, c.appendix), ("Make a field Music", "Decisive Battle", ""));
    let c = asset_to_credit(Some("unknown"));
    assert_eq!((c.authoer, c.title, c.appendix), ("", "", ""));
    let c = asset_to_credit(None);
    assert_eq!((c.authoer, c.title, c.appendix), ("", "", ""));
}

#[test]
fn containers() {
    let all = chest_or_barrel();
    assert_eq!(all.len(), 12);
    assert_eq!(all.iter().filter(|t| **t == ChestType::Crate).count(), 4);
    for _ in 0..30 {
        assert!(all.contains(&Chest::random().chest_type));
    }
    assert_eq!(update_sprite(ChestType::Jar(JarColor::Blue)), "jar_blue");
    assert_eq!(update_sprite(ChestType::BarrelBomb), "barrel_bomb");
    assert_eq!(
        break_effects(ChestType::Jar(JarColor::Red)),
        (BreakSound::Glass, BreakDebris::Pieces(ChestType::Jar(JarColor::Red)))
    );
    assert_eq!(break_effects(ChestType::BarrelBomb), (BreakSound::Break, BreakDebris::Explosion));
    assert_eq!(break_effects(ChestType::Chest), (BreakSound::Break, BreakDebris::Nothing));
    assert_eq!(jar_piece_name("jar", JarColor::Green, 2), "jar_piece_green_2");
    assert_eq!(piece_name("crate", 5), "crate_piece_5");
    let c = chest_actor(12, Some(Spell::new("Heal")));
    assert_eq!(c.golds, 12);
    assert_eq!(c.life, 30);
    assert_eq!(c.actor_group, ActorGroup::Entity);
    assert_eq!(c.wands[0].slots[0].as_ref().unwrap().spell, Spell::new("Heal"));
}

#[test]
fn breakable_furniture() {
    assert!(break_book_shelf(3, 4).is_none());
    let names = break_book_shelf(0, 4).unwrap();
    assert_eq!(names.len(), 6);
    assert_eq!(names[0], "bookshelf_piece_0");
    assert_eq!(names[5], "bookshelf_piece_5");
    assert!(break_book_shelf(3, 0).is_some());
    assert!(break_stone_lantern(1).is_none());
    let names = break_stone_lantern(0).unwrap();
    assert_eq!(names, vec!["stone_lantern_piece_0", "stone_lantern_piece_1", "stone_lantern_piece_2", "stone_lantern_piece_3"]);
}

#[test]
fn life_component() {
    let mut l = Life::new(50);
    assert_eq!(l.apply_damage(0, 10, true, 7, Some(0), false), Some(0));
    assert_eq!(l.life, 50);
    assert_eq!(l.apply_damage(10, 100, true, 7, Some(30), false), Some(120));
    assert_eq!(l.life, 40);
    assert_eq!(l.fire_damage_wait, 67);
    assert_eq!(l.apply_damage(10, 5, false, 0, Some(30), true), Some(30));
    assert_eq!(l.life, 40);
    assert_eq!(l.apply_damage(100, 5, false, 0, None, true), None);
    assert_eq!(l.life, 0);
    assert_eq!(despawn_if_no_master(7, true), 7);
    assert_eq!(despawn_if_no_master(7, false), 0);
}

#[test]
fn player_record_and_controls() {
    let mut p = Player::new(
        "witch".to_string(),
        &vec![Spell::new("Heal"), Spell::new("Heal"), Spell::new("Dash")],
    );
    assert_eq!(p.discovered_spells.len(), 2);
    let mut a = Actor::default();
    a.wands[0].slots[0] = Some(WandSpell { spell: Spell::new("Web"), price: 0 });
    a.inventory.0[0] = Some(InventoryItem { spell: Spell::new("Fireball"), price: 30 });
    p.update_discovered_spells(&a);
    assert_eq!(p.discovered_spells.len(), 3);
    assert!(p.discovered_spells.contains(&Spell::new("Web")));
    assert!(!p.discovered_spells.contains(&Spell::new("Fireball")));
    assert_eq!(switch_wand(0, 1), (0, false));
    assert_eq!(switch_wand(0, -1), (1, true));
    assert_eq!(switch_wand(2, -1), (2, false));
    assert_eq!(switch_wand(2, 1), (1, true));
    assert_eq!(pick_gold(10, 3), 13);
    assert_eq!(home_level(), "level_0_0");
    let mut o = Actor::default();
    o.max_life = 80;
    a.max_life = 20;
    assert_eq!(recovery(&a, Some(&o)), (80, 80));
    assert_eq!(recovery(&a, None), (20, 20));
    let copies = sync_wands(&a.wands);
    assert_eq!(copies.len(), a.wands.len());
    assert_eq!(copies[0].slots[0].as_ref().unwrap().spell, Spell::new("Web"));
}

#[test]
fn triggers_and_walking() {
    let mut a = Actor::default();
    assert_eq!(actor_cast(&mut a, false, true, true, false, true), 2);
    assert_eq!(a.fire_state, ActorFireState::Fire);
    assert_eq!(a.fire_state_secondary, ActorFireState::Idle);
    assert_eq!(actor_cast(&mut a, true, true, true, true, true), 0);
    assert_eq!(a.fire_state, ActorFireState::Idle);
    a.wands[0].slots[0] = Some(WandSpell { spell: Spell::new("Web"), price: 0 });
    assert_eq!(actor_cast(&mut a, false, true, true, false, false), 0);
    assert!(move_player(&mut a, false, true));
    assert_eq!(a.state, ActorState::Run);
    assert!(!move_player(&mut a, true, true));
    assert_eq!(a.state, ActorState::Idle);
    a.getting_up = 3;
    assert!(move_player(&mut a, false, true));
    assert_eq!(a.state, ActorState::Idle);
}

#[test]
fn shop_rabbit_checkout() {
    let mut a = Actor::default();
    assert_eq!(shop_checkout(&mut a), ShopSpeech::Welcome);
    a.inventory.0[0] = Some(InventoryItem { spell: Spell::new("Fireball"), price: 30 });
    a.golds = 10;
    assert_eq!(shop_checkout(&mut a), ShopSpeech::TooFewGolds(20));
    assert_eq!(a.golds, 10);
    a.golds = 45;
    assert_eq!(shop_checkout(&mut a), ShopSpeech::Paid(30));
    assert_eq!(a.golds, 15);
    assert_eq!(shop_checkout(&mut a), ShopSpeech::Welcome);
}

#[test]
fn transformation_round_trip() {
    let props = ActorProps { actor_group: ActorGroup::Enemy, wands: vec![], life: 15 };
    let mut witch = Actor::default();
    witch.actor_type = ActorType::new("Witch");
    witch.actor_group = ActorGroup::Friend;
    witch.life = 70;
    witch.golds = 33;
    let uuid = witch.uuid;
    let (mut form, m) = cast_metamorphosis(witch, None, &props, &ActorType::new("Slime"));
    assert_eq!(m.count, METAMORPHOSIS_FRAMES);
    assert_eq!(form.actor_type, ActorType::new("Slime"));
    assert_eq!(form.actor_group, ActorGroup::Friend);
    assert_eq!(form.life, 15);
    form.life = 3;
    let back = turn_back(m, &form);
    assert_eq!(back.actor_type, ActorType::new("Witch"));
    assert_eq!(back.uuid, uuid);
    assert_eq!(back.life, 70);
    assert_eq!(back.golds, 33);
}

#[test]
fn transformation_keeps_the_first_original() {
    let props = ActorProps { actor_group: ActorGroup::Enemy, wands: vec![], life: 15 };
    let mut witch = Actor::default();
    witch.actor_type = ActorType::new("Witch");
    witch.life = 0;
    let (form, m) = cast_metamorphosis(witch, None, &props, &ActorType::new("Slime"));
    assert_eq!(form.life, 0);
    let (form2, m2) = cast_metamorphosis(form, Some(m), &props, &ActorType::new("Spider"));
    assert_eq!(form2.actor_type, ActorType::new("Spider"));
    assert_eq!(m2.original_actor.actor_type, ActorType::new("Witch"));
    let mut dead = Actor::default();
    dead.life = 0;
    assert_eq!(turn_back(m2, &dead).life, 0);
}

#[test]
fn transformation_sides_and_timers() {
    assert_eq!(morphed_group(ActorGroup::Friend, ActorGroup::Entity, true), ActorGroup::Entity);
    assert_eq!(morphed_group(ActorGroup::Entity, ActorGroup::Enemy, true), ActorGroup::Friend);
    assert_eq!(morphed_group(ActorGroup::Entity, ActorGroup::Enemy, false), ActorGroup::Enemy);
    assert_eq!(morphed_group(ActorGroup::Enemy, ActorGroup::Friend, true), ActorGroup::Enemy);
    for _ in 0..20 {
        let g = random_morphed_group(ActorGroup::Entity, ActorGroup::Neutral);
        assert!(g == ActorGroup::Friend || g == ActorGroup::Enemy);
        let t = random_actor_type(&ActorType::new("Chicken"));
        assert_ne!(t, ActorType::new("Chicken"));
    }
    assert_eq!(metamorphosis_candidates().len(), 10);
    assert_eq!(scale_life(40, 0, 10), 0);
    assert_eq!(scale_life(40, 3, 10), 40);
    assert_eq!(scale_life(40, 10, 10), 40);
    assert_eq!(scale_life(40, 11, 10), 80);
    assert_eq!(scale_life(40, 30, 10), 120);
    assert_eq!(scale_life(1, 5, 0), u32::MAX);
    assert_eq!(scale_life(0, 0, 0), 0);
    assert_eq!(revert(5), (4, false));
    assert_eq!(revert(0), (0, true));
}

#[test]
fn level_actors() {
    let e = default_eyeball();
    assert_eq!((e.actor_type.0.as_str(), e.life, e.golds), ("Eyeball", 25, 0));
    assert_eq!(e.wands[0].slots[0].as_ref().unwrap().spell, Spell::new("PurpleBolt"));
    let s = default_salamander();
    assert_eq!((s.life, s.golds, s.actor_group), (100, 10, ActorGroup::Enemy));
    let b = default_sandbag();
    assert_eq!((b.life, b.actor_group), (10000, ActorGroup::Neutral));
    assert_eq!(b.wands[0].slots[0].as_ref().unwrap().spell, Spell::new("Jump"));
    let h = default_huge_slime();
    assert_eq!(h.life, 4000);
    assert!(h.wands.iter().all(|w| w.is_empty()));
    let r = default_rabbit();
    assert_eq!((r.life, r.actor_group), (100000, ActorGroup::Friend));
    let (sh, life) = default_shadow();
    assert_eq!(sh.actor_group, ActorGroup::Enemy);
    assert_eq!(life.life, 40);
    let props = ActorProps {
        actor_group: ActorGroup::Friend,
        wands: vec![vec![Some(Spell::new("Charge"))]],
        life: 999,
    };
    let sl = default_slime(&props);
    assert_eq!((sl.life, sl.actor_group), (15, ActorGroup::Enemy));
    assert_eq!(sl.wands[0].slots[0].as_ref().unwrap().spell, Spell::new("Charge"));
    let sp = default_spider(&props);
    assert_eq!((sp.life, sp.golds), (40, 6));
}

#[test]
fn dummy_and_rewards() {
    let d = TraningDummyController { fire: true };
    assert_eq!(d.fire_state(Some(true)), ActorFireState::Fire);
    assert_eq!(d.fire_state(Some(false)), ActorFireState::Idle);
    assert_eq!(d.fire_state(None), ActorFireState::Idle);
    let quiet = TraningDummyController { fire: false };
    assert_eq!(quiet.fire_state(Some(true)), ActorFireState::Idle);
    let g = DespawnWithGold { golds: 7 };
    assert_eq!(g.dead_enemy(0), Some(7));
    assert_eq!(g.dead_enemy(1), None);
    assert_eq!(Enemy::golds_for(0), 1);
    assert_eq!(Enemy::golds_for(5), 3);
    for _ in 0..30 {
        let n = Enemy.dead_enemy(0).unwrap();
        assert!((1..=3).contains(&n));
    }
    assert_eq!(Enemy.dead_enemy(4), None);
}

#[test]
fn spawn_plans() {
    let p = actor_spawn_plan(&ActorType::new("Witch"), ActorGroup::Friend);
    assert!(p.witch && !p.obstacle && p.burnable.is_none());
    assert!(matches!(p.behaviour, ActorBehaviour::Plain));
    let p = actor_spawn_plan(&ActorType::new("Chest"), ActorGroup::Entity);
    assert!(p.obstacle);
    assert_eq!(p.burnable, Some(30));
    assert!(matches!(p.behaviour, ActorBehaviour::Chest(_)));
    let p = actor_spawn_plan(&ActorType::new("HugeSlime"), ActorGroup::Enemy);
    match p.behaviour {
        ActorBehaviour::HugeSlime(h) => assert!(!h.promoted),
        _ => panic!("the slime king has its behaviour"),
    }
    let p = actor_spawn_plan(&ActorType::new("Bookshelf"), ActorGroup::Entity);
    assert_eq!(p.burnable, Some(30));
    assert!(matches!(p.behaviour, ActorBehaviour::Bookshelf));
}

#[test]
fn rabbits() {
    assert_eq!(rabbit_role("ShopRabbit"), RabbitRole::Shop);
    assert_eq!(rabbit_role("SpellListRabbit"), RabbitRole::SpellList);
    assert_eq!(rabbit_role("HelloRabbit"), RabbitRole::Message);
    assert_eq!(MessageRabbit::new("HelloRabbit").senario, "HelloRabbit");
    assert!(start_talk(Some(4), 9, vec!["hi"]).is_none());
    let talk = start_talk(None, 9, vec!["hi", "bye"]).unwrap();
    assert_eq!(talk.len(), 4);
    assert!(matches!(talk[0], Talk::Focus(9)));
    assert!(matches!(talk[1], Talk::Line("hi")));
    assert!(matches!(talk[2], Talk::Line("bye")));
    assert!(matches!(talk[3], Talk::Close));
}

#[test]
fn entity_kinds_compare() {
    assert_eq!(EntityType::Chest, EntityType::Chest);
    assert_ne!(EntityType::Chest, EntityType::Crate);
}

#[test]
fn credit_line() {
    let c = asset_to_credit(Some("迷宮"));
    assert_eq!(bgm_credit_text(&c), "♪ オオヒラセイジ『迷宮』");
    let c = asset_to_credit(Some("水のしたたる洞窟"));
    assert_eq!(bgm_credit_text(&c), "♪ のる『茫漠たる庭』(タイトル画面BGM)");
}

#[test]
fn enemies_chase_and_bite() {
    assert!(Enemy::chases(10, true));
    assert!(!Enemy::chases(0, true));
    assert!(!Enemy::chases(10, false));
    assert_eq!(Enemy::bite(10, 3), Some(7));
    assert_eq!(Enemy::bite(2, 3), Some(0));
    assert_eq!(Enemy::bite(0, 3), None);
}

#[test]
fn arena_connection_opens_and_closes() {
    assert!(on_enter(false, true));
    assert!(!on_enter(true, true));
    assert!(!on_enter(false, false));
    assert!(on_exit(true, false));
    assert!(!on_exit(true, true));
}

#[test]
fn dragged_item_icons() {
    let mut a = Actor::default();
    a.inventory.0[3] = Some(InventoryItem { spell: Spell::new("Heal"), price: 5 });
    a.wands[1].slots[4] = Some(WandSpell { spell: Spell::new("Dash"), price: 0 });
    assert_eq!(a.get_item_icon(FloatingContent::Inventory(3)), Some(Spell::new("Heal")));
    assert_eq!(a.get_item_icon(FloatingContent::Inventory(4)), None);
    assert_eq!(a.get_item_icon(FloatingContent::Inventory(999)), None);
    assert_eq!(a.get_item_icon(FloatingContent::WandSpell(1, 4)), Some(Spell::new("Dash")));
    assert_eq!(a.get_item_icon(FloatingContent::WandSpell(0, 4)), None);
}

#[test]
fn breaking_containers() {
    let mut chest = chest_actor(3, Some(Spell::new("Heal")));
    chest.wands[2].slots[5] = Some(WandSpell { spell: Spell::new("Dash"), price: 9 });
    assert!(break_chest(ChestType::Crate, 5, 5, &chest.wands).is_none());
    let b = break_chest(ChestType::Crate, 0, 5, &chest.wands).unwrap();
    assert_eq!(b.sound, BreakSound::Break);
    assert_eq!(b.drops, vec![Spell::new("Heal"), Spell::new("Dash")]);
    assert_eq!(b.pieces, vec!["crate_piece_red_0", "crate_piece_red_1", "crate_piece_red_2", "crate_piece_red_3"]);
    let j = break_chest(ChestType::Jar(JarColor::Blue), 5, 0, &chest.wands).unwrap();
    assert_eq!(j.sound, BreakSound::Glass);
    assert_eq!(j.pieces[3], "jar_piece_blue_3");
    let bomb = break_chest(ChestType::BarrelBomb, 0, 0, &chest.wands).unwrap();
    assert_eq!(bomb.debris, BreakDebris::Explosion);
    assert!(bomb.pieces.is_empty());
    let plain = break_chest(ChestType::Chest, 0, 1, &chest_actor(0, None).wands).unwrap();
    assert!(plain.drops.is_empty());
    assert!(plain.pieces.is_empty());
}

#[test]
fn chest_actor_is_otherwise_fresh() {
    let c = chest_actor(5, None);
    assert_eq!(c.wait, 30);
    assert_eq!(c.frozen, 0);
    assert!(c.inventory.0.iter().all(|i| i.is_none()));
    assert!(c.wands.iter().all(|w| w.is_empty()));
}

#[test]
fn transforming_a_healed_actor_scales_its_life() {
    let props = ActorProps { actor_group: ActorGroup::Enemy, wands: vec![], life: 15 };
    let mut witch = Actor::default();
    witch.life = 150;
    witch.max_life = 100;
    let (form, _) = cast_metamorphosis(witch, None, &props, &ActorType::new("Slime"));
    assert_eq!(form.life, 30);
}
