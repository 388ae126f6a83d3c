//! Kinds of plain bullets and their properties.
use vstd::prelude::*;

verus! {

#[derive(Clone, Copy, Debug, PartialEq, Eq, Hash, Structural)]
pub enum BulletType {
    BlueBullet,
    PurpleBullet,
    SlimeAttackBullet,
}

/// The whole-number properties of a kind of bullet: its picture, how many
/// frames it flies and the damage it does. Its size, speed, push and light
/// are fractional and kept by the engine.
#[derive(Clone, Copy, Debug, PartialEq, Eq)]
pub struct BulletProps {
    pub slice: &'static str,
    pub lifetime: u32,
    pub damage: i32,
}

/// The properties of each kind: the blue magic bolt flies 240 frames and
/// does 5, the purple bullet flies 500 and does 5, the slime's charge
/// lasts 5 and does 10.
pub fn bullet_type_to_props(bullet_type: BulletType) -> (r: BulletProps)
    ensures
        match bullet_type {
            BulletType::BlueBullet => r.slice@ == "bullet_magic_bolt"@ && r.lifetime == 240
                && r.damage == 5,
            BulletType::PurpleBullet => r.slice@ == "bullet_purple"@ && r.lifetime == 500 && r.damage
                == 5,
            BulletType::SlimeAttackBullet => r.slice@ == "bullet_slime_charge"@ && r.lifetime == 5
                && r.damage == 10,
        },
{
    match bullet_type {
        BulletType::BlueBullet => BulletProps { slice: "bullet_magic_bolt", lifetime: 240, damage: 5 },
        BulletType::PurpleBullet => BulletProps { slice: "bullet_purple", lifetime: 500, damage: 5 },
        BulletType::SlimeAttackBullet => BulletProps {
            slice: "bullet_slime_charge",
            lifetime: 5,
            damage: 10,
        },
    }
}

} // verus!
