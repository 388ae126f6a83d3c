//! Game rules of a twin-stick spell-casting action game: actor status,
//! wand casting, economy, collision groups and enemy behaviour, written as
//! verified functions over plain values. Rendering, physics and input stay
//! with the engine, which hands these functions plain values and applies
//! the results.
use vstd::prelude::*;

pub mod constant;
pub mod random;
pub mod spell;
pub mod wand;
pub mod actor;
pub mod collision;
pub mod status;
pub mod metamorphosis;
pub mod cast;
pub mod huge_slime;
pub mod shadow;
pub mod chicken;
pub mod counter;
pub mod life;
pub mod command;
pub mod shop;
pub mod player;
pub mod chest;
pub mod bullet_type;
pub mod animated_slice;
pub mod remote;
pub mod debug_command;
pub mod text;
pub mod asset_credit;
pub mod enemy;
pub mod spawn;
pub mod mine;
pub mod rabbit;
pub mod entity;

verus! {

} // verus!
