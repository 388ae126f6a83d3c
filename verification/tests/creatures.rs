use magiaforge::actor::ActorGroup;
use magiaforge::chicken::control_chiken;
use magiaforge::chicken::control_step;
use magiaforge::chicken::hopping;
use magiaforge::chicken::new_chicken;
use magiaforge::chicken::ChickenControl;
use magiaforge::chicken::ChickenState;
use magiaforge::collision::enemy_groups;
use magiaforge::collision::shadow_groups;
use magiaforge::huge_slime::HugeSlime;
use magiaforge::huge_slime::HugeSlimeState;
use magiaforge::huge_slime::HUGE_SLIME_LIFE;
use magiaforge::huge_slime::HUGE_SLIME_PROMOTE_LIFE;
use magiaforge::mine::Mine;
use magiaforge::mine::MINE_DAMAGE;
use magiaforge::shadow::animate;
use magiaforge::shadow::approach;
use magiaforge::shadow::attack;
use magiaforge::shadow::new_shadow;
use magiaforge::shadow::transition;
use magiaforge::shadow::update_group_by_shadow;
use magiaforge::shadow::ShadowAnimation;
use magiaforge::shadow::ShadowMove;
use magiaforge::shadow::ShadowState;
use magiaforge::shadow::Target;

const NEAR: Target = Target { in_reach: true, in_sight: true };
const SEEN: Target = Target { in_reach: false, in_sight: true };
const FAR: Target = Target { in_reach: false, in_sight: false };

#[test]
fn shadow_cycle() {
    assert_eq!(new_shadow(), ShadowState::Wait(0));
    assert_eq!(transition(ShadowState::Wait(59), None), ShadowState::Wait(60));
    assert_eq!(transition(ShadowState::Wait(60), None), ShadowState::Hide(0));
    assert_eq!(transition(ShadowState::Hide(10), Some(SEEN)), ShadowState::Hide(11));
    assert_eq!(transition(ShadowState::Hide(10), Some(NEAR)), ShadowState::Attack(0));
    assert_eq!(transition(ShadowState::Hide(360), Some(NEAR)), ShadowState::Appear(0));
    assert_eq!(transition(ShadowState::Appear(30), Some(NEAR)), ShadowState::Attack(0));
    assert_eq!(transition(ShadowState::Appear(30), Some(FAR)), ShadowState::Wait(0));
    assert_eq!(transition(ShadowState::Appear(30), None), ShadowState::Appear(30));
    assert_eq!(transition(ShadowState::Attack(60), None), ShadowState::Wait(0));
}

#[test]
fn shadow_stays_within_its_bounds() {
    let mut s = new_shadow();
    for i in 0..5000u32 {
        let t = match i % 7 {
            0 => Some(NEAR),
            1 | 2 => Some(SEEN),
            3 => None,
            _ => Some(FAR),
        };
        s = transition(s, t);
        let ok = match s {
            ShadowState::Wait(c) => c <= 60,
            ShadowState::Hide(c) => c <= 360,
            ShadowState::Appear(c) => c <= 30,
            ShadowState::Attack(c) => c <= 60,
        };
        assert!(ok);
    }
}

#[test]
fn shadow_moves_strikes_and_hides_from_bullets() {
    assert_eq!(approach(ShadowState::Hide(61), Some(SEEN)), ShadowMove::TowardTarget);
    assert_eq!(approach(ShadowState::Hide(61), Some(NEAR)), ShadowMove::Stop);
    assert_eq!(approach(ShadowState::Hide(61), Some(FAR)), ShadowMove::Keep);
    assert_eq!(approach(ShadowState::Hide(60), Some(SEEN)), ShadowMove::Stop);
    assert_eq!(approach(ShadowState::Wait(0), Some(SEEN)), ShadowMove::Stop);
    assert_eq!(attack(ShadowState::Attack(20), Some(NEAR)), Some((4, 30)));
    assert_eq!(attack(ShadowState::Attack(19), Some(NEAR)), None);
    assert_eq!(attack(ShadowState::Attack(20), Some(SEEN)), None);
    assert_eq!(animate(ShadowState::Hide(3)), ShadowAnimation::Hide);
    assert_eq!(animate(ShadowState::Wait(3)), ShadowAnimation::Idle);
    assert_eq!(update_group_by_shadow(ShadowState::Hide(1), ActorGroup::Enemy, false, 0), shadow_groups());
    assert_eq!(update_group_by_shadow(ShadowState::Wait(1), ActorGroup::Enemy, false, 0), enemy_groups());
}

#[test]
fn chicken_rests_and_walks() {
    assert_eq!(new_chicken(), ChickenState::Wait(60));
    assert_eq!(
        control_step(ChickenState::Wait(0), 0, false, 7),
        (ChickenState::Walk(60), ChickenControl::Stand { new_walk: true })
    );
    assert_eq!(
        control_step(ChickenState::Wait(5), 0, false, 7),
        (ChickenState::Wait(4), ChickenControl::Stand { new_walk: false })
    );
    assert_eq!(
        control_step(ChickenState::Walk(0), 0, false, 250),
        (ChickenState::Wait(130), ChickenControl::Walk)
    );
    assert_eq!(
        control_step(ChickenState::Walk(3), 1, false, 0),
        (ChickenState::Walk(3), ChickenControl::Skip)
    );
    assert_eq!(
        control_step(ChickenState::Walk(3), 0, true, 0),
        (ChickenState::Walk(3), ChickenControl::Skip)
    );
    for _ in 0..50 {
        match control_chiken(ChickenState::Walk(0), 0, false) {
            (ChickenState::Wait(w), ChickenControl::Walk) => assert!((120..240).contains(&w)),
            other => panic!("unexpected {:?}", other),
        }
    }
    assert!(hopping(ChickenState::Walk(3), 0, true, false));
    assert!(!hopping(ChickenState::Walk(3), 1, true, true));
    assert!(!hopping(ChickenState::Wait(3), 0, true, true));
}

#[test]
fn huge_slime_growls_then_approaches() {
    let mut s = HugeSlime::new();
    assert_eq!(s.state, HugeSlimeState::Growl);
    let mut count = 120;
    let a = s.update(&mut count, HUGE_SLIME_LIFE, true);
    assert!(a.growl);
    let mut count = 300;
    s.update(&mut count, HUGE_SLIME_LIFE, true);
    assert_eq!(s.state, HugeSlimeState::Approach);
    assert_eq!(count, 0);
}

#[test]
fn huge_slime_jumps_and_summons() {
    let mut s = HugeSlime { state: HugeSlimeState::Approach, promoted: false };
    let mut count = 60;
    assert!(s.update(&mut count, HUGE_SLIME_LIFE, true).jump);
    let mut count = 61;
    assert!(!s.update(&mut count, HUGE_SLIME_LIFE, true).jump);
    let mut count = 360;
    s.update(&mut count, HUGE_SLIME_LIFE, true);
    assert_eq!(s.state, HugeSlimeState::Summon);
    let mut count = 60;
    assert_eq!(s.update(&mut count, HUGE_SLIME_LIFE, true).summon, 4);
    let mut count = 60;
    assert_eq!(s.update(&mut count, HUGE_SLIME_LIFE, false).summon, 0);
    let mut count = 120;
    s.update(&mut count, HUGE_SLIME_LIFE, true);
    assert_eq!(s.state, HugeSlimeState::Approach);
}

#[test]
fn huge_slime_is_promoted_once_below_half_life() {
    let mut s = HugeSlime { state: HugeSlimeState::Approach, promoted: false };
    let mut count = 17;
    s.update(&mut count, HUGE_SLIME_PROMOTE_LIFE - 1, true);
    assert_eq!(s.state, HugeSlimeState::Promote);
    assert!(s.promoted);
    assert_eq!(count, 0);
    let mut count = 120;
    let a = s.update(&mut count, 100, true);
    assert!(a.growl && a.sacred_bgm);
    let mut count = 300;
    s.update(&mut count, 100, true);
    assert_eq!(s.state, HugeSlimeState::Approach);
    let mut count = 35;
    assert!(s.update(&mut count, 100, true).jump);
    let mut s2 = HugeSlime { state: HugeSlimeState::Summon, promoted: true };
    let mut count = 60;
    assert_eq!(s2.update(&mut count, 100, true).summon, 32);
    let mut count = 5;
    assert!(s2.update(&mut count, 0, true).defeated);
}

#[test]
fn mines_go_off_under_the_other_side() {
    let m = Mine { actor_group: ActorGroup::Friend };
    assert_eq!(m.sensor(ActorGroup::Enemy), Some(MINE_DAMAGE));
    assert_eq!(m.sensor(ActorGroup::Neutral), Some(10));
    assert_eq!(m.sensor(ActorGroup::Friend), None);
    assert_eq!(m.sensor(ActorGroup::Entity), None);
}
