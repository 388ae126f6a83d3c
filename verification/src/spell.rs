//! Names of spells and of actor kinds.
use vstd::prelude::*;

verus! {

/// A spell, identified by its name in the spell registry.
#[derive(Debug, PartialEq, Eq)]
pub struct Spell(pub String);

impl View for Spell {
    type V = Seq<char>;

    open spec fn view(&self) -> Seq<char> {
        self.0@
    }
}

impl Spell {
    /// The spell with the given name.
    pub fn new(name: &str) -> (r: Spell)
        ensures
            r@ == name@,
    {
        Spell(name.to_string())
    }

    /// Whether the two spells carry the same name.
    pub fn same(&self, other: &Spell) -> (r: bool)
        ensures
            r == (self@ == other@),
    {
        self.0 == other.0
    }
}

impl Clone for Spell {
    fn clone(&self) -> (r: Self)
        ensures
            r == *self,
    {
        Spell(self.0.clone())
    }
}

/// The kind of an actor, identified by its name in the actor registry.
#[derive(Debug, PartialEq, Eq)]
pub struct ActorType(pub String);

impl View for ActorType {
    type V = Seq<char>;

    open spec fn view(&self) -> Seq<char> {
        self.0@
    }
}

impl ActorType {
    /// The actor kind with the given name.
    pub fn new(name: &str) -> (r: ActorType)
        ensures
            r@ == name@,
    {
        ActorType(name.to_string())
    }

    /// Whether the two kinds carry the same name.
    pub fn same(&self, other: &ActorType) -> (r: bool)
        ensures
            r == (self@ == other@),
    {
        self.0 == other.0
    }
}

impl Clone for ActorType {
    fn clone(&self) -> (r: Self)
        ensures
            r == *self,
    {
        ActorType(self.0.clone())
    }
}

} // verus!
