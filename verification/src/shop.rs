//! The shop: walking up to the shop's rabbit pays for the spells taken
//! from the shelves.
use vstd::prelude::*;
use crate::actor::Actor;
use crate::wand::InventoryItem;
use crate::wand::WandSpell;
use crate::wand::paid_item;
use crate::wand::paid_slot;

verus! {

/// What the shop's rabbit says.
#[derive(Clone, Copy, Debug, PartialEq, Eq, Structural)]
pub enum ShopSpeech {
    /// Thanks for paying this much.
    Paid(u32),
    /// The golds fall short by this much.
    TooFewGolds(u32),
    /// Nothing is owed: a plain welcome.
    Welcome,
}

/// Meeting the shop's rabbit: with nothing owed it welcomes the player;
/// otherwise the player pays everything owed if the golds cover it (see
/// `Actor::liquidate`) and the rabbit says how much was paid, or it says
/// how many golds are missing and nothing changes.
pub fn shop_checkout(actor: &mut Actor) -> (r: ShopSpeech)
    requires
        old(actor).total_dept() <= u32::MAX,
    ensures
        old(actor).total_dept() == 0 ==> r == ShopSpeech::Welcome && final(actor).golds == old(
            actor,
        ).golds,
        0 < old(actor).total_dept() <= old(actor).golds ==> {
            &&& r == ShopSpeech::Paid(old(actor).total_dept() as u32)
            &&& final(actor).golds == old(actor).golds - old(actor).total_dept()
            &&& final(actor).total_dept() == 0
            &&& final(actor).inventory.0@ == old(actor).inventory.0@.map_values(
                |s: Option<InventoryItem>| paid_item(s),
            )
            &&& forall|w: int|
                0 <= w < old(actor).wands@.len() ==> (#[trigger] final(actor).wands@[w]).slots@
                    == old(actor).wands@[w].slots@.map_values(|s: Option<WandSpell>| paid_slot(s))
        },
        old(actor).golds < old(actor).total_dept() ==> r == ShopSpeech::TooFewGolds(
            (old(actor).total_dept() - old(actor).golds) as u32,
        ) && final(actor).golds == old(actor).golds && final(actor).inventory.0@ == old(
            actor,
        ).inventory.0@ && final(actor).wands@ == old(actor).wands@,
        old(actor).total_dept() == 0 || old(actor).golds < old(actor).total_dept() ==> *final(actor)
            == *old(actor),
        *final(actor) == (Actor {
            golds: final(actor).golds,
            inventory: final(actor).inventory,
            wands: final(actor).wands,
            ..*old(actor)
        }),
{
    let dept = actor.dept();
    if 0 < dept {
        if actor.liquidate() {
            ShopSpeech::Paid(dept)
        } else {
            ShopSpeech::TooFewGolds(dept - actor.golds)
        }
    } else {
        ShopSpeech::Welcome
    }
}

} // verus!
