//! Keys, and what a key press does to a conversation.

use vstd::prelude::*;
use crate::game_state::GameState;
use crate::interaction::{
    lemma_after_key_with_keeps_well_formed,
    open_view,
    Interaction,
    InteractionView,
    LeafPolicy,
};

verus! {

/// The keys that the game gives a meaning to; every other key is `Other`.
#[derive(Clone, Copy, Debug, PartialEq, Eq, Hash, Structural)]
pub enum Key {
    Up,
    Down,
    Left,
    Right,
    /// Confirms: opens a conversation, or takes the hovered option.
    Return,
    /// Leaves a conversation.
    Escape,
    Other,
}

/// The movement keys that are held down in one tick.
#[derive(Clone, Copy, Debug, PartialEq, Eq, Structural)]
pub struct HeldKeys {
    pub up: bool,
    pub down: bool,
    pub left: bool,
    pub right: bool,
}

/// The movement keys that are held, in the order in which they count: up,
/// down, left, right.
pub open spec fn held_keys(held: HeldKeys) -> Seq<Key> {
    (if held.up {
        seq![Key::Up]
    } else {
        seq![]
    }) + (if held.down {
        seq![Key::Down]
    } else {
        seq![]
    }) + (if held.left {
        seq![Key::Left]
    } else {
        seq![]
    }) + (if held.right {
        seq![Key::Right]
    } else {
        seq![]
    })
}

/// The movement keys that are held, in the order in which they count.
pub fn player_movements(held: &HeldKeys) -> (pressed_mov_keys: Vec<Key>)
    ensures
        pressed_mov_keys@ == held_keys(*held),
{
    let mut pressed_mov_keys: Vec<Key> = Vec::new();
    if held.up {
        pressed_mov_keys.push(Key::Up);
    }
    if held.down {
        pressed_mov_keys.push(Key::Down);
    }
    if held.left {
        pressed_mov_keys.push(Key::Left);
    }
    if held.right {
        pressed_mov_keys.push(Key::Right);
    }
    assert(pressed_mov_keys@ =~= held_keys(*held));
    pressed_mov_keys
}

/// The movement keys that are held, in the order in which they count.
pub fn handle_input(held: &HeldKeys) -> (pressed_mov_keys: Vec<Key>)
    ensures
        pressed_mov_keys@ == held_keys(*held),
{
    player_movements(held)
}

/// What a key press makes of the conversation. `current` is the node that is
/// open and `root` the conversation that the entity in focus would open.
/// With a node open, the key acts on the node, under `policy`: `Escape`
/// closes the conversation and is the only key that always does. With none
/// open, `Return` opens `root` and every other key does nothing.
pub open spec fn next_interaction(
    current: Option<InteractionView>,
    root: Option<InteractionView>,
    key: Key,
    policy: LeafPolicy,
) -> Option<InteractionView> {
    match current {
        Some(node) => node.after_key_with(key, policy),
        None => match key {
            Key::Return => root,
            _ => None,
        },
    }
}

/// The conversation after `key` was pressed: the node that is open then, or
/// `None` where none is.
pub fn key_down_event_interaction(game_state: &GameState, key: Key) -> (next: Option<Interaction>)
    requires
        game_state.well_formed(),
    ensures
        open_view(next) == next_interaction(
            open_view(game_state.current_interaction),
            game_state.focused_root(),
            key,
            game_state.leaf_policy,
        ),
        match next {
            Some(node) => node@.well_formed(),
            None => true,
        },
{
    match game_state.current_interaction {
        Some(_) => interaction_input_handler(game_state, key),
        None => match key {
            Key::Return => begin_interaction(game_state),
            _ => None,
        },
    }
}

/// What `key` makes of the conversation that is open.
pub fn interaction_input_handler(game_state: &GameState, key: Key) -> (next: Option<Interaction>)
    requires
        game_state.well_formed(),
        game_state.current_interaction is Some,
    ensures
        open_view(next) == next_interaction(
            open_view(game_state.current_interaction),
            game_state.focused_root(),
            key,
            game_state.leaf_policy,
        ),
        match next {
            Some(node) => node@.well_formed(),
            None => true,
        },
{
    update_interaction(game_state, key)
}

/// The conversation that the entity in focus opens, with the cursor on its
/// first answer; `None` where nothing is in focus, or what is in focus has
/// no box, is no person, or has nothing to say.
pub fn begin_interaction(game_state: &GameState) -> (begun: Option<Interaction>)
    requires
        game_state.well_formed(),
    ensures
        open_view(begun) == game_state.focused_root(),
        match begun {
            Some(node) => node@.well_formed(),
            None => true,
        },
{
    match game_state.player_physics.current_focus {
        Some(focused_entity_id) => {
            if game_state.physics_components[focused_entity_id].is_some()
                && game_state.npcs_components[focused_entity_id].is_some() {
                match &game_state.npcs_interactions[focused_entity_id] {
                    Some(root) => Some(root.rewound()),
                    None => None,
                }
            } else {
                None
            }
        },
        None => None,
    }
}

/// What `action` makes of the node that is open.
pub fn update_interaction(game_state: &GameState, action: Key) -> (next: Option<Interaction>)
    requires
        game_state.current_interaction is Some,
        game_state.current_interaction->0@.coherent(),
    ensures
        open_view(next) == game_state.current_interaction->0@.after_key_with(
            action,
            game_state.leaf_policy,
        ),
        game_state.current_interaction->0@.well_formed() ==> match next {
            Some(node) => node@.well_formed(),
            None => true,
        },
{
    match &game_state.current_interaction {
        Some(interaction) => {
            proof {
                if interaction@.well_formed() {
                    lemma_after_key_with_keeps_well_formed(
                        interaction@,
                        action,
                        game_state.leaf_policy,
                    );
                }
            }
            interaction.after_key_with(action, game_state.leaf_policy)
        },
        None => None,
    }
}

/// `Escape` closes the conversation, whatever node of it is open and however
/// deep in the tree that node lies.
pub proof fn lemma_escape_closes(
    current: Option<InteractionView>,
    root: Option<InteractionView>,
    policy: LeafPolicy,
)
    ensures
        next_interaction(current, root, Key::Escape, policy) is None,
{
}

} // verus!
