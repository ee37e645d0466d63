use vstd::prelude::*;
use crate::state::CharacterState;

verus! {

/// At most one value for each animation state.
#[derive(Clone, Debug)]
pub struct StateTable<T> {
    idle: Option<T>,
    walking: Option<T>,
    death: Option<T>,
}

impl<T> StateTable<T> {
    /// The value held for `s`, if any.
    pub closed spec fn lookup(self, s: CharacterState) -> Option<T> {
        match s {
            CharacterState::Idle => self.idle,
            CharacterState::Walking => self.walking,
            CharacterState::Death => self.death,
        }
    }

    /// A table that holds nothing.
    pub fn new() -> (r: StateTable<T>)
        ensures
            forall|s: CharacterState| r.lookup(s) == None::<T>,
    {
        StateTable { idle: None, walking: None, death: None }
    }

    /// Sets the value of `s` and leaves the others.
    pub fn insert(&mut self, s: CharacterState, value: T)
        ensures
            final(self).lookup(s) == Some(value),
            forall|o: CharacterState| o != s ==> final(self).lookup(o) == old(self).lookup(o),
    {
        match s {
            CharacterState::Idle => self.idle = Some(value),
            CharacterState::Walking => self.walking = Some(value),
            CharacterState::Death => self.death = Some(value),
        }
    }

    /// The value of `s`, if any.
    pub fn get(&self, s: CharacterState) -> (r: Option<&T>)
        ensures
            r is Some <==> self.lookup(s) is Some,
            r is Some ==> self.lookup(s) == Some(*r->0),
    {
        match s {
            CharacterState::Idle => self.idle.as_ref(),
            CharacterState::Walking => self.walking.as_ref(),
            CharacterState::Death => self.death.as_ref(),
        }
    }
}

} // verus!
