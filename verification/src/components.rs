//! What an entity can be besides a box: a person, a desk, a player.

use vstd::prelude::*;
use crate::interaction::Interaction;

verus! {

/// An entity is the number of its slot.
pub type EntityIndex = usize;

/// Someone to talk to. `id` picks the person's sprite, where there is one.
#[derive(Debug, PartialEq, Eq)]
pub struct Npc {
    pub id: Option<u32>,
    pub name: String,
}

impl Clone for Npc {
    fn clone(&self) -> (copy: Npc)
        ensures
            copy == *self,
    {
        Npc { id: self.id, name: self.name.clone() }
    }
}

/// A desk: which of the two kinds it is, and the phase of its animation.
#[derive(Clone, Copy, Debug, PartialEq, Eq, Structural)]
pub struct Desk {
    pub desk_type: i32,
    pub animation_id: i32,
}

/// What makes an entity a player: the conversation it is in, and the slot of
/// the entity it is in contact with.
#[derive(Debug, PartialEq, Eq)]
pub struct Player {
    pub interacting: Option<Interaction>,
    pub current_focus: Option<EntityIndex>,
}

} // verus!
