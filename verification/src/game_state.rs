//! The state of a game: the slots of its entities, the player, the camera,
//! and the conversation that is open.

use vstd::prelude::*;
use crate::camera::Camera;
use crate::components::{Desk, Npc};
use crate::constants::{DESK_H, DESK_W, INTIAL_WORLD_H, INTIAL_WORLD_W, UNITS_PER_PIXEL};
use crate::input_system::{
    held_keys,
    key_down_event_interaction,
    next_interaction,
    player_movements,
    HeldKeys,
    Key,
};
use crate::interaction::{open_view, Interaction, InteractionView, LeafPolicy};
use crate::npcs_loader::{roster_well_formed, NpcJson};
use crate::physics::{Color, Direction, Physics};
use crate::physics_system::{
    generate_npc_physics,
    initial_player,
    initial_player_physics,
    lemma_tick_keeps_focus_in_range,
    npc_physics,
    npc_spawn_area,
    player_after_tick,
    random_desk_type,
    update_player_physics,
};
use crate::positioning::{Position, Size};

verus! {

/// A game. The four lists of components are parallel: slot `i` of each says
/// what entity `i` has of that kind, and `None` that it has nothing. The
/// player stands outside the slots. `current_interaction` is the node of the
/// conversation that is open, and `None` when no conversation is.
pub struct GameState {
    pub physics_components: Vec<Option<Physics>>,
    pub npcs_components: Vec<Option<Npc>>,
    pub player_physics: Physics,
    pub current_interaction: Option<Interaction>,
    pub npcs_interactions: Vec<Option<Interaction>>,
    pub desk_components: Vec<Option<Desk>>,
    pub camera: Camera,
    pub world_size: Size,
    /// Frames drawn so far; the phase of every animation.
    pub frames: usize,
    /// What the confirm key does where a conversation has come to its end.
    pub leaf_policy: LeafPolicy,
}

/// The desk that stands in row `row`, with `spacing` pixels between rows.
pub open spec fn desk_physics(row: i32, spacing: i32) -> Physics {
    Physics {
        position: Position {
            x: (200 * UNITS_PER_PIXEL) as i64,
            y: (row * spacing * UNITS_PER_PIXEL) as i64,
        },
        size: Size { width: DESK_W, height: DESK_H },
        speed: 0,
        color: Color { r: 255, g: 255, b: 255, a: 255 },
        direction: Some(Direction::Up),
        walking: false,
        current_focus: None,
    }
}

/// The desk that stands in row `row`, with `spacing` pixels between rows.
pub fn desk_physics_at(row: i32, spacing: i32) -> (desk: Physics)
    requires
        i64::MIN <= row * spacing * UNITS_PER_PIXEL <= i64::MAX,
    ensures
        desk == desk_physics(row, spacing),
{
    let rows: i128 = row as i128 * spacing as i128;
    assert(-0x4000_0000_0000_0000 <= row * spacing <= 0x4000_0000_0000_0000) by (nonlinear_arith)
        requires
            -0x8000_0000 <= row <= 0x7fff_ffff,
            -0x8000_0000 <= spacing <= 0x7fff_ffff,
    ;
    let y: i128 = rows * UNITS_PER_PIXEL as i128;
    Physics::new(
        Position { x: 200 * UNITS_PER_PIXEL as i64, y: y as i64 },
        Size { width: DESK_W, height: DESK_H },
        0,
        Color::white(),
        Some(Direction::Up),
        None,
    )
}

/// Someone who stands still at a pixel of the spawn area.
pub open spec fn is_spawned_npc(physics: Option<Physics>) -> bool {
    exists|x: i32, y: i32| npc_spawn_area(x, y) && physics == Some(#[trigger] npc_physics(x, y))
}

/// The first row of desks and the one after the last.
pub const FIRST_DESK_ROW: i32 = 2;

pub const END_DESK_ROW: i32 = 6;

/// Pixels from one row of desks to the next.
pub const DESK_ROW_SPACING: i32 = 130;

impl GameState {
    /// The number of slots.
    pub open spec fn slots(&self) -> nat {
        self.physics_components@.len()
    }

    /// The four lists have one slot for each entity.
    pub open spec fn aligned(&self) -> bool {
        &&& self.npcs_components@.len() == self.slots()
        &&& self.npcs_interactions@.len() == self.slots()
        &&& self.desk_components@.len() == self.slots()
    }

    /// While a conversation is open, the entity in focus is a person.
    pub open spec fn talks_to_a_person(&self) -> bool {
        self.current_interaction is Some ==> match self.player_physics.current_focus {
            Some(slot) => slot < self.npcs_components@.len() && self.npcs_components@[slot as int]
                is Some,
            None => false,
        }
    }

    /// The lists are aligned, the player's focus is one of the slots, a
    /// conversation is open only with a person, and every conversation, open
    /// or in store, is well formed.
    pub open spec fn well_formed(&self) -> bool {
        &&& self.aligned()
        &&& match self.player_physics.current_focus {
            Some(slot) => slot < self.slots(),
            None => true,
        }
        &&& self.talks_to_a_person()
        &&& match self.current_interaction {
            Some(node) => node@.well_formed(),
            None => true,
        }
        &&& forall|i: int|
            0 <= i < self.npcs_interactions@.len() ==> match #[trigger] self.npcs_interactions@[i] {
                Some(root) => root@.well_formed(),
                None => true,
            }
    }

    /// The conversation that the confirm key would open: that of the entity
    /// in focus, if it has a box, is a person, and has something to say. The
    /// cursor starts on the first answer.
    pub open spec fn focused_root(&self) -> Option<InteractionView> {
        match self.player_physics.current_focus {
            Some(slot) => if self.physics_components@[slot as int] is Some
                && self.npcs_components@[slot as int] is Some {
                match self.npcs_interactions@[slot as int] {
                    Some(root) => Some(root@.rewound()),
                    None => None,
                }
            } else {
                None
            },
            None => None,
        }
    }

    /// Whether the state is well formed.
    pub fn is_well_formed(&self) -> (ok: bool)
        ensures
            ok == self.well_formed(),
    {
        let slots = self.physics_components.len();
        if self.npcs_components.len() != slots || self.npcs_interactions.len() != slots
            || self.desk_components.len() != slots {
            return false;
        }
        match self.player_physics.current_focus {
            Some(slot) => {
                if slot >= slots {
                    return false;
                }
                if self.current_interaction.is_some() && self.npcs_components[slot].is_none() {
                    return false;
                }
            },
            None => {
                if self.current_interaction.is_some() {
                    return false;
                }
            },
        }
        match &self.current_interaction {
            Some(node) => {
                if !node.is_well_formed() {
                    return false;
                }
            },
            None => {},
        }
        let mut index: usize = 0;
        while index < self.npcs_interactions.len()
            invariant
                index <= self.npcs_interactions.len(),
                forall|i: int|
                    0 <= i < index ==> match #[trigger] self.npcs_interactions@[i] {
                        Some(root) => root@.well_formed(),
                        None => true,
                    },
            decreases self.npcs_interactions.len() - index,
        {
            match &self.npcs_interactions[index] {
                Some(root) => {
                    if !root.is_well_formed() {
                        return false;
                    }
                },
                None => {},
            }
            index = index + 1;
        }
        true
    }

    /// The person that the open conversation is with; `None` while no
    /// conversation is open.
    pub fn interlocutor(&self) -> (person: Option<&Npc>)
        requires
            self.well_formed(),
        ensures
            person is Some == self.current_interaction is Some,
            person is Some ==> Some(*person->0) == self.npcs_components@[
                self.player_physics.current_focus->0 as int
            ],
    {
        if self.current_interaction.is_none() {
            return None;
        }
        match self.player_physics.current_focus {
            Some(slot) => match &self.npcs_components[slot] {
                Some(npc) => Some(npc),
                None => None,
            },
            None => None,
        }
    }

    /// A game without entities: the player at its starting point, the camera
    /// on the player, no conversation open.
    pub fn empty() -> (game_state: GameState)
        ensures
            game_state.well_formed(),
            game_state.slots() == 0,
            game_state.player_physics == initial_player(),
            game_state.current_interaction is None,
            game_state.camera == Camera::centred_on(initial_player().position),
            game_state.world_size == (Size { width: INTIAL_WORLD_W, height: INTIAL_WORLD_H }),
            game_state.frames == 0,
            game_state.leaf_policy == LeafPolicy::Close,
    {
        let player_physics = initial_player_physics();
        GameState {
            physics_components: Vec::new(),
            npcs_components: Vec::new(),
            player_physics,
            current_interaction: None,
            npcs_interactions: Vec::new(),
            desk_components: Vec::new(),
            camera: Camera::new(player_physics.position),
            world_size: Size { width: INTIAL_WORLD_W, height: INTIAL_WORLD_H },
            frames: 0,
            leaf_policy: LeafPolicy::Close,
        }
    }

    /// Adds one entity: one slot at the end of each list.
    pub fn add_entity(
        &mut self,
        physics: Option<Physics>,
        npc: Option<Npc>,
        interaction: Option<Interaction>,
        desk: Option<Desk>,
    )
        ensures
            final(self).physics_components@ == old(self).physics_components@.push(physics),
            final(self).npcs_components@ == old(self).npcs_components@.push(npc),
            final(self).npcs_interactions@ == old(self).npcs_interactions@.push(interaction),
            final(self).desk_components@ == old(self).desk_components@.push(desk),
            final(self).player_physics == old(self).player_physics,
            final(self).current_interaction == old(self).current_interaction,
            final(self).camera == old(self).camera,
            final(self).world_size == old(self).world_size,
            final(self).frames == old(self).frames,
            final(self).leaf_policy == old(self).leaf_policy,
            old(self).aligned() ==> final(self).aligned(),
            old(self).well_formed() && (match interaction {
                Some(root) => root@.well_formed(),
                None => true,
            }) ==> final(self).well_formed(),
    {
        self.physics_components.push(physics);
        self.npcs_components.push(npc);
        self.npcs_interactions.push(interaction);
        self.desk_components.push(desk);
    }

    /// Closes the conversation and lets go of the entity in focus.
    pub fn end_interaction(&mut self)
        ensures
            final(self).current_interaction is None,
            final(self).player_physics == (Physics {
                current_focus: None,
                ..old(self).player_physics
            }),
            final(self).physics_components == old(self).physics_components,
            final(self).npcs_components == old(self).npcs_components,
            final(self).npcs_interactions == old(self).npcs_interactions,
            final(self).desk_components == old(self).desk_components,
            final(self).camera == old(self).camera,
            final(self).world_size == old(self).world_size,
            final(self).frames == old(self).frames,
            final(self).leaf_policy == old(self).leaf_policy,
            old(self).well_formed() ==> final(self).well_formed(),
    {
        self.current_interaction = None;
        self.player_physics.current_focus = None;
    }

    /// One tick: while no conversation is open, the player moves as the held
    /// keys say and the camera follows; while one is open, nothing moves.
    pub fn update(&mut self, dt_micros: u32, held: &HeldKeys)
        requires
            old(self).well_formed(),
        ensures
            final(self).well_formed(),
            final(self).player_physics == (if old(self).current_interaction is Some {
                old(self).player_physics
            } else {
                player_after_tick(
                    old(self).player_physics,
                    old(self).physics_components@,
                    None,
                    held_keys(*held),
                    dt_micros,
                    old(self).world_size,
                )
            }),
            final(self).camera == (if old(self).current_interaction is Some {
                old(self).camera
            } else {
                old(self).camera.after_tick(
                    final(self).player_physics,
                    old(self).world_size,
                    dt_micros,
                )
            }),
            final(self).current_interaction == old(self).current_interaction,
            final(self).physics_components == old(self).physics_components,
            final(self).npcs_components == old(self).npcs_components,
            final(self).npcs_interactions == old(self).npcs_interactions,
            final(self).desk_components == old(self).desk_components,
            final(self).world_size == old(self).world_size,
            final(self).frames == old(self).frames,
            final(self).leaf_policy == old(self).leaf_policy,
    {
        let player_mov_actions = player_movements(held);
        if self.current_interaction.is_none() {
            proof {
                assert(self.physics_components@.len() == self.physics_components.len());
                lemma_tick_keeps_focus_in_range(
                    self.player_physics,
                    self.physics_components@,
                    None,
                    player_mov_actions@,
                    dt_micros,
                    self.world_size,
                );
            }
            self.player_physics =
            update_player_physics(
                dt_micros,
                &player_mov_actions,
                &self.player_physics,
                &self.physics_components,
                &self.world_size,
            );
            self.camera.maybe_update(dt_micros, &self.player_physics, &self.world_size);
        }
    }

    /// One frame has been drawn.
    pub fn frame_drawn(&mut self)
        ensures
            final(self).frames == (if old(self).frames == usize::MAX {
                0
            } else {
                old(self).frames + 1
            }),
            final(self).player_physics == old(self).player_physics,
            final(self).current_interaction == old(self).current_interaction,
            final(self).physics_components == old(self).physics_components,
            final(self).npcs_components == old(self).npcs_components,
            final(self).npcs_interactions == old(self).npcs_interactions,
            final(self).desk_components == old(self).desk_components,
            final(self).camera == old(self).camera,
            final(self).world_size == old(self).world_size,
            final(self).leaf_policy == old(self).leaf_policy,
    {
        self.frames = if self.frames == usize::MAX {
            0
        } else {
            self.frames + 1
        };
    }

    /// A key was pressed. The conversation goes on as `next_interaction`
    /// says. `Escape` pressed in a conversation also lets go of the entity
    /// in focus; no other key touches the focus.
    pub fn key_down_event(&mut self, key: Key)
        requires
            old(self).well_formed(),
        ensures
            final(self).well_formed(),
            open_view(final(self).current_interaction) == next_interaction(
                open_view(old(self).current_interaction),
                old(self).focused_root(),
                key,
                old(self).leaf_policy,
            ),
            final(self).player_physics == (if old(self).current_interaction is Some && key
                == Key::Escape {
                Physics { current_focus: None, ..old(self).player_physics }
            } else {
                old(self).player_physics
            }),
            old(self).current_interaction is Some && key == Key::Escape ==> {
                &&& final(self).current_interaction is None
                &&& final(self).player_physics.current_focus is None
            },
            final(self).physics_components == old(self).physics_components,
            final(self).npcs_components == old(self).npcs_components,
            final(self).npcs_interactions == old(self).npcs_interactions,
            final(self).desk_components == old(self).desk_components,
            final(self).camera == old(self).camera,
            final(self).world_size == old(self).world_size,
            final(self).frames == old(self).frames,
            final(self).leaf_policy == old(self).leaf_policy,
    {
        let leaving = self.current_interaction.is_some() && key == Key::Escape;
        let next = key_down_event_interaction(self, key);
        self.current_interaction = next;
        if leaving {
            self.player_physics.current_focus = None;
        }
    }

    /// Everything but the slots is as in `before`, and the slots of `before`
    /// are the first slots here, unchanged.
    pub open spec fn extends(&self, before: &GameState) -> bool {
        &&& self.slots() >= before.slots()
        &&& self.physics_components@.take(before.slots() as int) == before.physics_components@
        &&& self.npcs_components@.take(before.slots() as int) == before.npcs_components@
        &&& self.npcs_interactions@.take(before.slots() as int) == before.npcs_interactions@
        &&& self.desk_components@.take(before.slots() as int) == before.desk_components@
        &&& self.player_physics == before.player_physics
        &&& self.current_interaction == before.current_interaction
        &&& self.camera == before.camera
        &&& self.world_size == before.world_size
        &&& self.frames == before.frames
        &&& self.leaf_policy == before.leaf_policy
    }

    /// A game extends itself.
    pub proof fn lemma_extends_itself(&self)
        requires
            self.aligned(),
        ensures
            self.extends(self),
    {
        let slots = self.slots() as int;
        assert(self.physics_components@.take(slots) == self.physics_components@);
        assert(self.npcs_components@.take(slots) == self.npcs_components@);
        assert(self.npcs_interactions@.take(slots) == self.npcs_interactions@);
        assert(self.desk_components@.take(slots) == self.desk_components@);
    }

    /// The slots from `from` on hold the people of `npcs`, in their order:
    /// each stands still at some pixel of the spawn area, has the name and
    /// the number of the roster and a copy of the conversation, and is no
    /// desk.
    pub open spec fn holds_roster(&self, from: int, npcs: Seq<NpcJson>) -> bool {
        forall|i: int|
            #![trigger npcs[i]]
            0 <= i < npcs.len() ==> {
                &&& is_spawned_npc(self.physics_components@[from + i])
                &&& self.npcs_components@[from + i] == Some(
                    Npc { id: npcs[i].id, name: npcs[i].name },
                )
                &&& open_view(self.npcs_interactions@[from + i]) == open_view(
                    npcs[i].main_interaction,
                )
                &&& self.desk_components@[from + i] is None
            }
    }

    /// The slots from `from` on hold `rows` desks, one for each row from
    /// `FIRST_DESK_ROW` on: each has the box of its row, is of one of the two
    /// kinds, animates in the phase of its row, and is no person.
    pub open spec fn holds_desk_rows(&self, from: int, rows: int, spacing: i32) -> bool {
        forall|k: int|
            #![trigger self.desk_components@[from + k]]
            0 <= k < rows ==> {
                &&& self.physics_components@[from + k] == Some(
                    desk_physics((FIRST_DESK_ROW + k) as i32, spacing),
                )
                &&& self.npcs_components@[from + k] is None
                &&& self.npcs_interactions@[from + k] is None
                &&& self.desk_components@[from + k] is Some
                &&& self.desk_components@[from + k]->0.animation_id == FIRST_DESK_ROW + k
                &&& (self.desk_components@[from + k]->0.desk_type == 0
                    || self.desk_components@[from + k]->0.desk_type == 1)
            }
    }

    /// Adds the people of the roster, each at a random pixel of the spawn
    /// area.
    pub fn add_npcs(&mut self, npcs: &Vec<NpcJson>)
        requires
            old(self).well_formed(),
            roster_well_formed(npcs@),
        ensures
            final(self).well_formed(),
            final(self).extends(old(self)),
            final(self).slots() == old(self).slots() + npcs@.len(),
            final(self).holds_roster(old(self).slots() as int, npcs@),
    {
        let mut index: usize = 0;
        proof {
            self.lemma_extends_itself();
        }
        while index < npcs.len()
            invariant
                index <= npcs.len(),
                roster_well_formed(npcs@),
                self.well_formed(),
                self.extends(old(self)),
                self.slots() == old(self).slots() + index,
                self.holds_roster(old(self).slots() as int, npcs@.take(index as int)),
            decreases npcs.len() - index,
        {
            let npc_data = &npcs[index];
            let ghost before = *self;
            let interaction = match &npc_data.main_interaction {
                Some(root) => Some(root.clone()),
                None => None,
            };
            let physics = generate_npc_physics();
            self.add_entity(
                Some(physics),
                Some(Npc { id: npc_data.id, name: npc_data.name.clone() }),
                interaction,
                None,
            );
            proof {
                let from = old(self).slots() as int;
                let now = npcs@.take(index + 1);
                let earlier = npcs@.take(index as int);
                assert(self.physics_components@.take(from) == before.physics_components@.take(
                    from,
                ));
                assert(self.npcs_components@.take(from) == before.npcs_components@.take(from));
                assert(self.npcs_interactions@.take(from) == before.npcs_interactions@.take(
                    from,
                ));
                assert(self.desk_components@.take(from) == before.desk_components@.take(from));
                assert forall|i: int| #![trigger now[i]] 0 <= i < now.len() implies {
                    &&& is_spawned_npc(self.physics_components@[from + i])
                    &&& self.npcs_components@[from + i] == Some(
                        Npc { id: now[i].id, name: now[i].name },
                    )
                    &&& open_view(self.npcs_interactions@[from + i]) == open_view(
                        now[i].main_interaction,
                    )
                    &&& self.desk_components@[from + i] is None
                } by {
                    if i < index {
                        assert(now[i] == earlier[i]);
                        assert(self.physics_components@[from + i]
                            == before.physics_components@[from + i]);
                    }
                }
            }
            index = index + 1;
        }
        proof {
            assert(npcs@.take(index as int) == npcs@);
        }
    }

    /// Adds the rows of desks, each desk of a kind picked at random.
    pub fn add_desks(&mut self)
        requires
            old(self).well_formed(),
        ensures
            final(self).well_formed(),
            final(self).extends(old(self)),
            final(self).slots() == old(self).slots() + (END_DESK_ROW - FIRST_DESK_ROW),
            final(self).holds_desk_rows(
                old(self).slots() as int,
                END_DESK_ROW - FIRST_DESK_ROW,
                DESK_ROW_SPACING,
            ),
    {
        let mut animation_id: i32 = FIRST_DESK_ROW;
        proof {
            self.lemma_extends_itself();
        }
        while animation_id < END_DESK_ROW
            invariant
                FIRST_DESK_ROW <= animation_id <= END_DESK_ROW,
                self.well_formed(),
                self.extends(old(self)),
                self.slots() == old(self).slots() + (animation_id - FIRST_DESK_ROW),
                self.holds_desk_rows(
                    old(self).slots() as int,
                    animation_id - FIRST_DESK_ROW,
                    DESK_ROW_SPACING,
                ),
            decreases END_DESK_ROW - animation_id,
        {
            let ghost before = *self;
            let desk_type = random_desk_type();
            let object_physics = desk_physics_at(animation_id, DESK_ROW_SPACING);
            self.add_entity(
                Some(object_physics),
                None,
                None,
                Some(Desk { desk_type, animation_id }),
            );
            proof {
                let from = old(self).slots() as int;
                assert(self.physics_components@.take(from) == before.physics_components@.take(
                    from,
                ));
                assert(self.npcs_components@.take(from) == before.npcs_components@.take(from));
                assert(self.npcs_interactions@.take(from) == before.npcs_interactions@.take(
                    from,
                ));
                assert(self.desk_components@.take(from) == before.desk_components@.take(from));
                assert forall|k: int|
                    #![trigger self.desk_components@[from + k]]
                    0 <= k < animation_id + 1 - FIRST_DESK_ROW implies {
                    &&& self.physics_components@[from + k] == Some(
                        desk_physics((FIRST_DESK_ROW + k) as i32, DESK_ROW_SPACING),
                    )
                    &&& self.npcs_components@[from + k] is None
                    &&& self.npcs_interactions@[from + k] is None
                    &&& self.desk_components@[from + k] is Some
                    &&& self.desk_components@[from + k]->0.animation_id == FIRST_DESK_ROW + k
                    &&& (self.desk_components@[from + k]->0.desk_type == 0
                        || self.desk_components@[from + k]->0.desk_type == 1)
                } by {
                    if k < animation_id - FIRST_DESK_ROW {
                        assert(self.desk_components@[from + k] == before.desk_components@[from
                            + k]);
                    }
                }
            }
            animation_id = animation_id + 1;
        }
    }

    /// Adds the people of the roster and, after them, the desks.
    pub fn load_initial_components(&mut self, npcs: &Vec<NpcJson>)
        requires
            old(self).well_formed(),
            roster_well_formed(npcs@),
        ensures
            final(self).well_formed(),
            final(self).extends(old(self)),
            final(self).slots() == old(self).slots() + npcs@.len() + (END_DESK_ROW
                - FIRST_DESK_ROW),
            final(self).holds_roster(old(self).slots() as int, npcs@),
            final(self).holds_desk_rows(
                (old(self).slots() + npcs@.len()) as int,
                END_DESK_ROW - FIRST_DESK_ROW,
                DESK_ROW_SPACING,
            ),
    {
        self.add_npcs(npcs);
        let ghost middle = *self;
        self.add_desks();
        proof {
            let from = old(self).slots() as int;
            assert(self.physics_components@.take(from) == middle.physics_components@.take(from));
            assert(self.npcs_components@.take(from) == middle.npcs_components@.take(from));
            assert(self.npcs_interactions@.take(from) == middle.npcs_interactions@.take(from));
            assert(self.desk_components@.take(from) == middle.desk_components@.take(from));
            assert forall|i: int| #![trigger npcs@[i]] 0 <= i < npcs@.len() implies {
                &&& is_spawned_npc(self.physics_components@[from + i])
                &&& self.npcs_components@[from + i] == Some(
                    Npc { id: npcs@[i].id, name: npcs@[i].name },
                )
                &&& open_view(self.npcs_interactions@[from + i]) == open_view(
                    npcs@[i].main_interaction,
                )
                &&& self.desk_components@[from + i] is None
            } by {
                assert(self.physics_components@[from + i] == middle.physics_components@[from
                    + i]);
                assert(self.npcs_components@[from + i] == middle.npcs_components@[from + i]);
                assert(self.npcs_interactions@[from + i] == middle.npcs_interactions@[from + i]);
                assert(self.desk_components@[from + i] == middle.desk_components@[from + i]);
            }
        }
    }

    /// A game as it begins: the people of the roster in the first slots, the
    /// desks in the slots after them, the player at its starting point, the
    /// camera on the player, no conversation open. The confirm key closes a
    /// conversation that has come to its end; `leaf_policy` can be set to
    /// have it otherwise.
    pub fn new(npcs: &Vec<NpcJson>) -> (game_state: GameState)
        requires
            roster_well_formed(npcs@),
        ensures
            game_state.well_formed(),
            game_state.slots() == npcs@.len() + (END_DESK_ROW - FIRST_DESK_ROW),
            game_state.holds_roster(0, npcs@),
            game_state.holds_desk_rows(
                npcs@.len() as int,
                END_DESK_ROW - FIRST_DESK_ROW,
                DESK_ROW_SPACING,
            ),
            game_state.player_physics == initial_player(),
            game_state.current_interaction is None,
            game_state.camera == Camera::centred_on(initial_player().position),
            game_state.world_size == (Size { width: INTIAL_WORLD_W, height: INTIAL_WORLD_H }),
            game_state.frames == 0,
            game_state.leaf_policy == LeafPolicy::Close,
    {
        let mut game_state = GameState::empty();
        game_state.load_initial_components(npcs);
        game_state
    }

    /// Starts the game over: everything is as `GameState::new` makes it, and
    /// nothing of the old game is left but the policy.
    pub fn reset(&mut self, npcs: &Vec<NpcJson>)
        requires
            roster_well_formed(npcs@),
        ensures
            final(self).well_formed(),
            final(self).slots() == npcs@.len() + (END_DESK_ROW - FIRST_DESK_ROW),
            final(self).holds_roster(0, npcs@),
            final(self).holds_desk_rows(
                npcs@.len() as int,
                END_DESK_ROW - FIRST_DESK_ROW,
                DESK_ROW_SPACING,
            ),
            final(self).player_physics == initial_player(),
            final(self).current_interaction is None,
            final(self).camera == Camera::centred_on(initial_player().position),
            final(self).world_size == (Size { width: INTIAL_WORLD_W, height: INTIAL_WORLD_H }),
            final(self).frames == 0,
            final(self).leaf_policy == old(self).leaf_policy,
    {
        let leaf_policy = self.leaf_policy;
        *self = GameState::new(npcs);
        self.leaf_policy = leaf_policy;
    }
}

} // verus!
