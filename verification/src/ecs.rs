//! A smaller store: boxes and people in two parallel lists, the player
//! beside them, and one greeting for everyone.

use vstd::prelude::*;
use crate::components::{EntityIndex, Npc};
use crate::game_state::{
    desk_physics,
    desk_physics_at,
    is_spawned_npc,
    END_DESK_ROW,
    FIRST_DESK_ROW,
};
use crate::input_system::{held_keys, player_movements, HeldKeys};
use crate::interaction::{Interaction, InteractionView};
use crate::physics::Physics;
use crate::physics_system::{
    generate_npc_physics,
    initial_player,
    initial_player_physics,
    lemma_tick_keeps_focus_in_range,
    player_after_tick,
    update_player_physics,
};
use crate::positioning::Size;

verus! {

/// Pixels from one row of desks to the next in this store.
pub const FIRST_DESK_ROW_SPACING: i32 = 120;

/// The names of the people of the office.
pub open spec fn wyeworkers() -> Seq<Seq<char>> {
    seq!["Juan"@, "Andrés"@, "Nico"@, "Mauri"@]
}

/// The names of the people of the office.
pub fn get_wyeworkers_npcs() -> (wyeworkers: Vec<String>)
    ensures
        wyeworkers@.len() == 4,
        forall|i: int| 0 <= i < 4 ==> (#[trigger] wyeworkers@[i])@ == self::wyeworkers()[i],
{
    let mut wyeworkers: Vec<String> = Vec::new();
    wyeworkers.push("Juan".to_owned());
    wyeworkers.push("Andrés".to_owned());
    wyeworkers.push("Nico".to_owned());
    wyeworkers.push("Mauri".to_owned());
    wyeworkers
}

/// The greeting that everyone of this store opens with.
pub open spec fn greeting() -> InteractionView {
    InteractionView { hovered_option: 0, options: None, sub_interactions: None, dialog: "Hi!"@ }
}

/// Boxes and people in two parallel lists. The player stands outside the
/// slots; `current_focus` is the slot that the player is in contact with.
pub struct Ecs {
    pub physics_components: Vec<Option<Physics>>,
    pub npcs_components: Vec<Option<Npc>>,
    pub player_physics: Physics,
    pub current_interaction: Option<Interaction>,
    pub current_focus: Option<EntityIndex>,
}

impl Ecs {
    /// The number of slots.
    pub open spec fn slots(&self) -> nat {
        self.physics_components@.len()
    }

    /// The lists are aligned, the focus is one of the slots and the
    /// player's own record of it agrees, and the conversation that is open
    /// is well formed.
    pub open spec fn well_formed(&self) -> bool {
        &&& self.npcs_components@.len() == self.slots()
        &&& self.player_physics.current_focus == self.current_focus
        &&& match self.current_focus {
            Some(slot) => slot < self.slots(),
            None => true,
        }
        &&& match self.current_interaction {
            Some(node) => node@.well_formed(),
            None => true,
        }
    }

    /// Everything but the slots is as in `before`, and the slots of `before`
    /// are the first slots here, unchanged.
    pub open spec fn extends(&self, before: &Ecs) -> bool {
        &&& self.slots() >= before.slots()
        &&& self.physics_components@.take(before.slots() as int) == before.physics_components@
        &&& self.npcs_components@.take(before.slots() as int) == before.npcs_components@
        &&& self.player_physics == before.player_physics
        &&& self.current_interaction == before.current_interaction
        &&& self.current_focus == before.current_focus
    }

    /// The slots from `from` on hold one person for each of `names`, in
    /// their order, each at some pixel of the spawn area.
    pub open spec fn holds_people(&self, from: int, names: Seq<Seq<char>>) -> bool {
        forall|i: int|
            #![trigger self.npcs_components@[from + i]]
            0 <= i < names.len() ==> {
                &&& is_spawned_npc(self.physics_components@[from + i])
                &&& self.npcs_components@[from + i] is Some
                &&& self.npcs_components@[from + i]->0.id is None
                &&& self.npcs_components@[from + i]->0.name@ == names[i]
            }
    }

    /// The slots from `from` on hold `rows` desks, one for each row from
    /// `FIRST_DESK_ROW` on, and none of them is a person.
    pub open spec fn holds_desk_rows(&self, from: int, rows: int) -> bool {
        forall|k: int|
            #![trigger self.physics_components@[from + k]]
            0 <= k < rows ==> {
                &&& self.physics_components@[from + k] == Some(
                    desk_physics((FIRST_DESK_ROW + k) as i32, FIRST_DESK_ROW_SPACING),
                )
                &&& self.npcs_components@[from + k] is None
            }
    }

    /// A store without entities: the player at its starting point, nothing
    /// in focus, no conversation open.
    pub fn new() -> (ecs: Ecs)
        ensures
            ecs.well_formed(),
            ecs.slots() == 0,
            ecs.player_physics == initial_player(),
            ecs.current_interaction is None,
            ecs.current_focus is None,
    {
        Ecs {
            physics_components: Vec::new(),
            npcs_components: Vec::new(),
            player_physics: initial_player_physics(),
            current_interaction: None,
            current_focus: None,
        }
    }

    /// A store extends itself.
    pub proof fn lemma_extends_itself(&self)
        requires
            self.npcs_components@.len() == self.slots(),
        ensures
            self.extends(self),
    {
        let slots = self.slots() as int;
        assert(self.physics_components@.take(slots) == self.physics_components@);
        assert(self.npcs_components@.take(slots) == self.npcs_components@);
    }

    /// Adds one entity: one slot at the end of each list.
    pub fn add_entity(&mut self, physics: Option<Physics>, npc: Option<Npc>)
        ensures
            final(self).physics_components@ == old(self).physics_components@.push(physics),
            final(self).npcs_components@ == old(self).npcs_components@.push(npc),
            final(self).player_physics == old(self).player_physics,
            final(self).current_interaction == old(self).current_interaction,
            final(self).current_focus == old(self).current_focus,
            old(self).well_formed() ==> final(self).well_formed(),
    {
        self.physics_components.push(physics);
        self.npcs_components.push(npc);
    }

    /// Adds the people of the office, each at a random pixel of the spawn
    /// area.
    pub fn add_npcs(&mut self)
        requires
            old(self).well_formed(),
        ensures
            final(self).well_formed(),
            final(self).extends(old(self)),
            final(self).slots() == old(self).slots() + 4,
            final(self).holds_people(old(self).slots() as int, wyeworkers()),
    {
        let npcs = get_wyeworkers_npcs();
        let mut index: usize = 0;
        proof {
            self.lemma_extends_itself();
        }
        while index < npcs.len()
            invariant
                index <= npcs.len(),
                npcs@.len() == 4,
                forall|i: int| 0 <= i < 4 ==> (#[trigger] npcs@[i])@ == wyeworkers()[i],
                self.well_formed(),
                self.extends(old(self)),
                self.slots() == old(self).slots() + index,
                self.holds_people(old(self).slots() as int, wyeworkers().take(index as int)),
            decreases npcs.len() - index,
        {
            let ghost before = *self;
            let physics = generate_npc_physics();
            self.add_entity(Some(physics), Some(Npc { id: None, name: npcs[index].clone() }));
            index = index + 1;
            proof {
                let from = old(self).slots() as int;
                let now = wyeworkers().take(index as int);
                let earlier = wyeworkers().take(index - 1);
                assert(self.physics_components@.take(from) == before.physics_components@.take(
                    from,
                ));
                assert(self.npcs_components@.take(from) == before.npcs_components@.take(from));
                assert forall|i: int|
                    #![trigger self.npcs_components@[from + i]]
                    0 <= i < now.len() implies {
                    &&& is_spawned_npc(self.physics_components@[from + i])
                    &&& self.npcs_components@[from + i] is Some
                    &&& self.npcs_components@[from + i]->0.id is None
                    &&& self.npcs_components@[from + i]->0.name@ == now[i]
                } by {
                    if i < index - 1 {
                        assert(now[i] == earlier[i]);
                        assert(self.physics_components@[from + i]
                            == before.physics_components@[from + i]);
                    } else {
                        assert(npcs@[i]@ == wyeworkers()[i]);
                    }
                }
            }
        }
        proof {
            assert(wyeworkers().take(4) == wyeworkers());
        }
    }

    /// Adds the first row of desks.
    pub fn add_first_desk_row(&mut self)
        requires
            old(self).well_formed(),
        ensures
            final(self).well_formed(),
            final(self).extends(old(self)),
            final(self).slots() == old(self).slots() + (END_DESK_ROW - FIRST_DESK_ROW),
            final(self).holds_desk_rows(old(self).slots() as int, END_DESK_ROW - FIRST_DESK_ROW),
    {
        let mut n: i32 = FIRST_DESK_ROW;
        proof {
            self.lemma_extends_itself();
        }
        while n < END_DESK_ROW
            invariant
                FIRST_DESK_ROW <= n <= END_DESK_ROW,
                self.well_formed(),
                self.extends(old(self)),
                self.slots() == old(self).slots() + (n - FIRST_DESK_ROW),
                self.holds_desk_rows(old(self).slots() as int, n - FIRST_DESK_ROW),
            decreases END_DESK_ROW - n,
        {
            let ghost before = *self;
            let object_physics = desk_physics_at(n, FIRST_DESK_ROW_SPACING);
            self.add_entity(Some(object_physics), None);
            proof {
                let from = old(self).slots() as int;
                assert(self.physics_components@.take(from) == before.physics_components@.take(
                    from,
                ));
                assert(self.npcs_components@.take(from) == before.npcs_components@.take(from));
                assert forall|k: int|
                    #![trigger self.physics_components@[from + k]]
                    0 <= k < n + 1 - FIRST_DESK_ROW implies {
                    &&& self.physics_components@[from + k] == Some(
                        desk_physics((FIRST_DESK_ROW + k) as i32, FIRST_DESK_ROW_SPACING),
                    )
                    &&& self.npcs_components@[from + k] is None
                } by {
                    if k < n - FIRST_DESK_ROW {
                        assert(self.physics_components@[from + k]
                            == before.physics_components@[from + k]);
                    }
                }
            }
            n = n + 1;
        }
    }

    /// Adds what does not move: the first row of desks.
    pub fn add_innanimate_objects(&mut self)
        requires
            old(self).well_formed(),
        ensures
            final(self).well_formed(),
            final(self).extends(old(self)),
            final(self).slots() == old(self).slots() + (END_DESK_ROW - FIRST_DESK_ROW),
            final(self).holds_desk_rows(old(self).slots() as int, END_DESK_ROW - FIRST_DESK_ROW),
    {
        self.add_first_desk_row();
    }

    /// Adds the people of the office and, after them, the desks.
    pub fn load_initial_components(&mut self)
        requires
            old(self).well_formed(),
        ensures
            final(self).well_formed(),
            final(self).extends(old(self)),
            final(self).slots() == old(self).slots() + 4 + (END_DESK_ROW - FIRST_DESK_ROW),
            final(self).holds_people(old(self).slots() as int, wyeworkers()),
            final(self).holds_desk_rows(
                (old(self).slots() + 4) as int,
                END_DESK_ROW - FIRST_DESK_ROW,
            ),
    {
        self.add_npcs();
        let ghost middle = *self;
        self.add_innanimate_objects();
        proof {
            let from = old(self).slots() as int;
            assert(self.physics_components@.take(from) == middle.physics_components@.take(from));
            assert(self.npcs_components@.take(from) == middle.npcs_components@.take(from));
            assert forall|i: int|
                #![trigger self.npcs_components@[from + i]]
                0 <= i < 4 implies {
                &&& is_spawned_npc(self.physics_components@[from + i])
                &&& self.npcs_components@[from + i] is Some
                &&& self.npcs_components@[from + i]->0.id is None
                &&& self.npcs_components@[from + i]->0.name@ == wyeworkers()[i]
            } by {
                assert(self.physics_components@[from + i] == middle.physics_components@[from
                    + i]);
                assert(self.npcs_components@[from + i] == middle.npcs_components@[from + i]);
            }
        }
    }

    /// One tick: while no conversation is open the player moves as the held
    /// keys say, inside `world_size`; while one is open, nothing moves.
    pub fn update(&mut self, dt_micros: u32, held: &HeldKeys, world_size: &Size)
        requires
            old(self).well_formed(),
        ensures
            final(self).well_formed(),
            final(self).player_physics == (if old(self).current_interaction is Some {
                old(self).player_physics
            } else {
                player_after_tick(
                    old(self).player_physics,
                    old(self).physics_components@,
                    None,
                    held_keys(*held),
                    dt_micros,
                    *world_size,
                )
            }),
            final(self).current_focus == final(self).player_physics.current_focus,
            final(self).current_interaction == old(self).current_interaction,
            final(self).physics_components == old(self).physics_components,
            final(self).npcs_components == old(self).npcs_components,
    {
        if self.current_interaction.is_none() {
            let player_mov_actions = player_movements(held);
            proof {
                assert(self.physics_components@.len() == self.physics_components.len());
                lemma_tick_keeps_focus_in_range(
                    self.player_physics,
                    self.physics_components@,
                    None,
                    player_mov_actions@,
                    dt_micros,
                    *world_size,
                );
            }
            self.player_physics =
            update_player_physics(
                dt_micros,
                &player_mov_actions,
                &self.player_physics,
                &self.physics_components,
                world_size,
            );
            self.current_focus = self.player_physics.current_focus;
        }
    }

    /// The focus is nobody, or one of the slots.
    pub open spec fn focus_in_range(&self) -> bool {
        match self.current_focus {
            Some(slot) => slot < self.npcs_components@.len(),
            None => true,
        }
    }

    /// Whether the focus is nobody or one of the slots.
    pub fn is_focus_in_range(&self) -> (ok: bool)
        ensures
            ok == self.focus_in_range(),
    {
        match self.current_focus {
            Some(slot) => slot < self.npcs_components.len(),
            None => true,
        }
    }

    /// Whether the store is well formed.
    pub fn is_well_formed(&self) -> (ok: bool)
        ensures
            ok == self.well_formed(),
    {
        if self.npcs_components.len() != self.physics_components.len() {
            return false;
        }
        let same_focus = match (self.player_physics.current_focus, self.current_focus) {
            (Some(of_player), Some(of_store)) => of_player == of_store,
            (None, None) => true,
            _ => false,
        };
        if !same_focus || !self.is_focus_in_range() {
            return false;
        }
        match &self.current_interaction {
            Some(node) => node.is_well_formed(),
            None => true,
        }
    }

    /// Whether the entity in focus is a person.
    pub open spec fn person_in_focus(&self) -> bool {
        match self.current_focus {
            Some(slot) => self.npcs_components@[slot as int] is Some,
            None => false,
        }
    }

    /// Opens the greeting, if the entity in focus is a person. Whatever
    /// conversation was open before is replaced by it. A focus that is none
    /// of the slots is a fault of the caller.
    pub fn begin_interaction(&mut self)
        requires
            old(self).focus_in_range(),
        ensures
            old(self).person_in_focus() ==> {
                &&& final(self).current_interaction is Some
                &&& final(self).current_interaction->0@ == greeting()
            },
            !old(self).person_in_focus() ==> {
                final(self).current_interaction == old(self).current_interaction
            },
            final(self).physics_components == old(self).physics_components,
            final(self).npcs_components == old(self).npcs_components,
            final(self).player_physics == old(self).player_physics,
            final(self).current_focus == old(self).current_focus,
            old(self).well_formed() ==> final(self).well_formed(),
    {
        match self.current_focus {
            Some(focused_entity_id) => {
                if self.npcs_components[focused_entity_id].is_some() {
                    self.current_interaction = Some(Interaction::default());
                }
            },
            None => {},
        }
    }

    /// Closes the conversation and lets go of the entity in focus.
    pub fn end_interaction(&mut self)
        ensures
            final(self).current_interaction is None,
            final(self).current_focus is None,
            final(self).player_physics == (Physics {
                current_focus: None,
                ..old(self).player_physics
            }),
            final(self).physics_components == old(self).physics_components,
            final(self).npcs_components == old(self).npcs_components,
            old(self).well_formed() ==> final(self).well_formed(),
    {
        self.current_interaction = None;
        self.current_focus = None;
        self.player_physics.current_focus = None;
    }
}

} // verus!
