//! The rabbits of the town: the part each plays and what it says when the
//! player comes near.
use vstd::prelude::*;
use crate::text::str_eq;

verus! {

/// A rabbit that speaks its scenario.
pub struct MessageRabbit {
    pub senario: String,
}

impl MessageRabbit {
    pub fn new(senario: &str) -> (r: MessageRabbit)
        ensures
            r.senario@ == senario@,
    {
        MessageRabbit { senario: senario.to_string() }
    }
}

/// The part a rabbit plays, from its scenario.
#[derive(Clone, Copy, Debug, PartialEq, Eq, Structural)]
pub enum RabbitRole {
    /// Sells spells: it has the shop's sensors.
    Shop,
    /// Tells the list of spells: it has the speaking sensors.
    SpellList,
    /// Speaks its scenario: it has the speaking sensors.
    Message,
}

/// The part a rabbit plays: the scenarios `ShopRabbit` and
/// `SpellListRabbit` have their own, every other one speaks. Every rabbit
/// carries its scenario's messages.
pub open spec fn rabbit_role_spec(senario: Seq<char>) -> RabbitRole {
    if senario == "ShopRabbit"@ {
        RabbitRole::Shop
    } else if senario == "SpellListRabbit"@ {
        RabbitRole::SpellList
    } else {
        RabbitRole::Message
    }
}

/// The part a rabbit plays (see `rabbit_role_spec`).
pub fn rabbit_role(senario: &str) -> (r: RabbitRole)
    ensures
        r == rabbit_role_spec(senario@),
{
    if str_eq(senario, "ShopRabbit") {
        RabbitRole::Shop
    } else if str_eq(senario, "SpellListRabbit") {
        RabbitRole::SpellList
    } else {
        RabbitRole::Message
    }
}


/// A line of a conversation with a rabbit: the camera turns to the rabbit,
/// the lines of its scenario follow, and the speech bubble closes.
pub enum Talk<C> {
    Focus(u64),
    Line(C),
    Close,
}

/// The conversation that starts when the player comes near the rabbit
/// `rabbit`, whose scenario is `senario`: nothing while the camera already
/// follows something, else the camera turns to the rabbit (which the
/// engine records as the camera's target) and the scenario is played
/// between a focus on the rabbit and the closing of the bubble.
pub fn start_talk<C>(camera_target: Option<u64>, rabbit: u64, senario: Vec<C>) -> (r: Option<
    Vec<Talk<C>>,
>)
    ensures
        (r is None) <==> (camera_target is Some),
        r matches Some(v) ==> {
            &&& v@.len() == senario@.len() + 2
            &&& v@[0] == Talk::<C>::Focus(rabbit)
            &&& forall|i: int| 0 <= i < senario@.len() ==> v@[i + 1] == Talk::Line(senario@[i])
            &&& v@[v@.len() - 1] == Talk::<C>::Close
        },
{
    if camera_target.is_some() {
        return None;
    }
    let ghost lines = senario@;
    let mut v: Vec<Talk<C>> = Vec::new();
    v.push(Talk::Focus(rabbit));
    let mut rest = senario;
    let mut reversed: Vec<C> = Vec::new();
    while rest.len() > 0
        invariant
            rest@.len() + reversed@.len() == lines.len(),
            rest@ == lines.take(rest@.len() as int),
            forall|i: int|
                0 <= i < reversed@.len() ==> reversed@[i] == lines[lines.len() - 1 - i],
        decreases rest@.len(),
    {
        let c = rest.pop().unwrap();
        reversed.push(c);
        assert(rest@ =~= lines.take(rest@.len() as int));
    }
    while reversed.len() > 0
        invariant
            v@.len() == 1 + lines.len() - reversed@.len(),
            reversed@.len() <= lines.len(),
            v@[0] == Talk::<C>::Focus(rabbit),
            forall|i: int|
                0 <= i < reversed@.len() ==> reversed@[i] == lines[lines.len() - 1 - i],
            forall|i: int|
                0 <= i < lines.len() - reversed@.len() ==> v@[i + 1] == Talk::Line(lines[i]),
        decreases reversed@.len(),
    {
        let c = reversed.pop().unwrap();
        v.push(Talk::Line(c));
    }
    v.push(Talk::Close);
    Some(v)
}

} // verus!
