//! The kinds of things a level map places.
use vstd::prelude::*;

verus! {

/// A thing that the level map places.
#[derive(Clone, Copy, Debug, PartialEq, Eq, Structural)]
pub enum EntityType {
    // Facilities.
    MagicCircle,
    MagicCircleHome,
    MultiPlayArenaMagicCircle,
    BrokenMagicCircle,
    Usage,
    Routes,
    ShopSpell,
    ShopDoor,
    BGM,
    // Rabbits.
    ShopRabbit,
    TrainingRabbit,
    GuideRabbit,
    SinglePlayRabbit,
    MultiplayerRabbit,
    ReadingRabbit,
    SpellListRabbit,
    // Things that spells can also make.
    Chest,
    Crate,
    CrateOrBarrel,
    BookShelf,
    StoneLantern,
    HugeSlime,
    Sandbug,
    Bomb,
    Chiken,
}

} // verus!
