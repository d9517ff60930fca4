//! A store in which the players stand in slots of their own, beside the
//! people and the desks.

use vstd::prelude::*;
use crate::components::{EntityIndex, Npc, Player};
use crate::ecs::{get_wyeworkers_npcs, greeting, wyeworkers, FIRST_DESK_ROW_SPACING};
use crate::game_state::{
    desk_physics,
    desk_physics_at,
    is_spawned_npc,
    END_DESK_ROW,
    FIRST_DESK_ROW,
};
use crate::input_system::{held_keys, player_movements, HeldKeys, Key};
use crate::interaction::Interaction;
use crate::physics::Physics;
use crate::physics_system::{
    generate_npc_physics,
    initial_player,
    initial_player_physics,
    lemma_tick_keeps_focus_in_range,
    player_after_tick,
    update_physics_in_slot,
};
use crate::positioning::Size;

verus! {

/// Three parallel lists of components, and the slots of the players in
/// ascending order.
pub struct World {
    pub player_components: Vec<Option<Player>>,
    pub physics_components: Vec<Option<Physics>>,
    pub npcs_components: Vec<Option<Npc>>,
    pub players: Vec<EntityIndex>,
}

/// Whether the entity in `slot` moves in a tick: it has a box, is a player,
/// and is in no conversation.
pub open spec fn moves(
    physics: Seq<Option<Physics>>,
    players: Seq<Option<Player>>,
    slot: int,
) -> bool {
    &&& 0 <= slot < physics.len()
    &&& slot < players.len()
    &&& physics[slot] is Some
    &&& players[slot] is Some
    &&& players[slot]->0.interacting is None
}

/// The boxes and the players after the player in `slot` has had its tick.
/// A player that moves does so as the keys say, among all the other boxes;
/// what it comes into contact with is its focus from then on.
pub open spec fn slot_after_tick(
    physics: Seq<Option<Physics>>,
    players: Seq<Option<Player>>,
    slot: int,
    keys: Seq<Key>,
    dt_micros: u32,
    world_size: Size,
) -> (Seq<Option<Physics>>, Seq<Option<Player>>) {
    if moves(physics, players, slot) {
        let start = Physics { current_focus: players[slot]->0.current_focus, ..physics[slot]->0 };
        let moved = player_after_tick(
            start,
            physics,
            Some(slot as usize),
            keys,
            dt_micros,
            world_size,
        );
        (
            physics.update(slot, Some(moved)),
            players.update(
                slot,
                Some(Player { interacting: None, current_focus: moved.current_focus }),
            ),
        )
    } else {
        (physics, players)
    }
}

/// The boxes and the players after each player of `order` has had its
/// tick, one after the other.
pub open spec fn slots_after_tick(
    physics: Seq<Option<Physics>>,
    players: Seq<Option<Player>>,
    order: Seq<usize>,
    keys: Seq<Key>,
    dt_micros: u32,
    world_size: Size,
) -> (Seq<Option<Physics>>, Seq<Option<Player>>)
    decreases order.len(),
{
    if order.len() == 0 {
        (physics, players)
    } else {
        let before = slots_after_tick(
            physics,
            players,
            order.drop_last(),
            keys,
            dt_micros,
            world_size,
        );
        slot_after_tick(before.0, before.1, order.last() as int, keys, dt_micros, world_size)
    }
}

/// What `begin_interaction` makes of one slot: a player that is in contact
/// with someone opens the greeting, and nothing else changes.
pub open spec fn greets(before: Option<Player>, after: Option<Player>) -> bool {
    match before {
        Some(player) => if player.current_focus is Some {
            &&& after is Some
            &&& after->0.current_focus == player.current_focus
            &&& after->0.interacting is Some
            &&& after->0.interacting->0@ == greeting()
        } else {
            after == before
        },
        None => after is None,
    }
}

impl World {
    /// The number of slots.
    pub open spec fn slots(&self) -> nat {
        self.physics_components@.len()
    }

    /// The three lists have one slot for each entity.
    pub open spec fn aligned(&self) -> bool {
        &&& self.npcs_components@.len() == self.slots()
        &&& self.player_components@.len() == self.slots()
    }

    /// `players` holds the slots of the players, each once and in ascending
    /// order.
    pub open spec fn players_listed(&self) -> bool {
        &&& forall|k: int|
            0 <= k < self.players@.len() ==> {
                &&& (#[trigger] self.players@[k]) < self.player_components@.len()
                &&& self.player_components@[self.players@[k] as int] is Some
            }
        &&& forall|j: int, k: int|
            0 <= j < k < self.players@.len() ==> self.players@[j] < self.players@[k]
        &&& forall|slot: int|
            0 <= slot < self.player_components@.len() && (
            #[trigger] self.player_components@[slot]) is Some ==> self.players@.contains(
                slot as usize,
            )
    }

    /// Every player's focus is one of the slots, and every conversation is
    /// well formed.
    pub open spec fn players_sound(&self) -> bool {
        forall|slot: int|
            0 <= slot < self.player_components@.len() ==> match #[trigger] self.player_components@[slot] {
                Some(player) => {
                    &&& match player.current_focus {
                        Some(focus) => focus < self.slots(),
                        None => true,
                    }
                    &&& match player.interacting {
                        Some(node) => node@.well_formed(),
                        None => true,
                    }
                },
                None => true,
            }
    }

    pub open spec fn well_formed(&self) -> bool {
        &&& self.aligned()
        &&& self.players_listed()
        &&& self.players_sound()
    }

    /// A world without entities.
    pub fn new() -> (world: World)
        ensures
            world.well_formed(),
            world.slots() == 0,
            world.players@.len() == 0,
    {
        World {
            players: Vec::new(),
            physics_components: Vec::new(),
            npcs_components: Vec::new(),
            player_components: Vec::new(),
        }
    }

    /// Adds one entity: one slot at the end of each list. The slot of a
    /// player is also added to `players`.
    pub fn add_entity(&mut self, physics: Option<Physics>, player: Option<Player>, npc: Option<Npc>)
        ensures
            final(self).physics_components@ == old(self).physics_components@.push(physics),
            final(self).npcs_components@ == old(self).npcs_components@.push(npc),
            final(self).player_components@ == old(self).player_components@.push(player),
            final(self).players@ == (if player is Some {
                old(self).players@.push(old(self).player_components@.len() as usize)
            } else {
                old(self).players@
            }),
            old(self).aligned() ==> final(self).aligned(),
            old(self).well_formed() && (match player {
                Some(new_player) => {
                    &&& match new_player.current_focus {
                        Some(focus) => focus <= old(self).slots(),
                        None => true,
                    }
                    &&& match new_player.interacting {
                        Some(node) => node@.well_formed(),
                        None => true,
                    }
                },
                None => true,
            }) ==> final(self).well_formed(),
    {
        let is_player = player.is_some();
        let slot = self.player_components.len();
        self.physics_components.push(physics);
        self.npcs_components.push(npc);
        self.player_components.push(player);
        if is_player {
            self.players.push(slot);
        }
        proof {
            if old(self).well_formed() {
                assert forall|candidate: int|
                    0 <= candidate < self.player_components@.len() && (
                    #[trigger] self.player_components@[candidate]) is Some implies self.players@.contains(
                    candidate as usize,
                ) by {
                    if candidate < slot {
                        assert(old(self).player_components@[candidate] is Some);
                        let k = choose|k: int|
                            0 <= k < old(self).players@.len() && old(self).players@[k]
                                == candidate as usize;
                        assert(self.players@[k] == candidate as usize);
                    } else {
                        assert(self.players@[self.players@.len() - 1] == candidate as usize);
                    }
                }
            }
        }
    }

    /// The slots of `before` are the first slots here, unchanged.
    pub open spec fn extends(&self, before: &World) -> bool {
        &&& self.slots() >= before.slots()
        &&& self.physics_components@.take(before.slots() as int) == before.physics_components@
        &&& self.npcs_components@.take(before.slots() as int) == before.npcs_components@
        &&& self.player_components@.take(before.slots() as int) == before.player_components@
    }

    /// A world extends itself.
    pub proof fn lemma_extends_itself(&self)
        requires
            self.aligned(),
        ensures
            self.extends(self),
    {
        let slots = self.slots() as int;
        assert(self.physics_components@.take(slots) == self.physics_components@);
        assert(self.npcs_components@.take(slots) == self.npcs_components@);
        assert(self.player_components@.take(slots) == self.player_components@);
    }

    /// The slots from `from` on hold one person for each of `names`, in
    /// their order, each at some pixel of the spawn area; none is a player.
    pub open spec fn holds_people(&self, from: int, names: Seq<Seq<char>>) -> bool {
        forall|i: int|
            #![trigger self.npcs_components@[from + i]]
            0 <= i < names.len() ==> {
                &&& is_spawned_npc(self.physics_components@[from + i])
                &&& self.npcs_components@[from + i] is Some
                &&& self.npcs_components@[from + i]->0.id is None
                &&& self.npcs_components@[from + i]->0.name@ == names[i]
                &&& self.player_components@[from + i] is None
            }
    }

    /// The slots from `from` on hold `rows` desks, one for each row from
    /// `FIRST_DESK_ROW` on; none is a person or a player.
    pub open spec fn holds_desk_rows(&self, from: int, rows: int) -> bool {
        forall|k: int|
            #![trigger self.physics_components@[from + k]]
            0 <= k < rows ==> {
                &&& self.physics_components@[from + k] == Some(
                    desk_physics((FIRST_DESK_ROW + k) as i32, FIRST_DESK_ROW_SPACING),
                )
                &&& self.npcs_components@[from + k] is None
                &&& self.player_components@[from + k] is None
            }
    }

    /// Adds the player: at its starting point, in contact with nobody, in no
    /// conversation.
    pub fn add_player(&mut self)
        requires
            old(self).well_formed(),
        ensures
            final(self).well_formed(),
            final(self).physics_components@ == old(self).physics_components@.push(
                Some(initial_player()),
            ),
            final(self).player_components@ == old(self).player_components@.push(
                Some(Player { interacting: None, current_focus: None }),
            ),
            final(self).npcs_components@ == old(self).npcs_components@.push(None),
            final(self).players@ == old(self).players@.push(old(self).slots() as usize),
    {
        let player_component: Option<Player> = Some(
            Player { interacting: None, current_focus: None },
        );
        let player_physics = Some(initial_player_physics());
        self.add_entity(player_physics, player_component, None);
    }

    /// Adds the people of the office, each at a random pixel of the spawn
    /// area.
    pub fn add_npcs(&mut self)
        requires
            old(self).well_formed(),
        ensures
            final(self).well_formed(),
            final(self).extends(old(self)),
            final(self).slots() == old(self).slots() + 4,
            final(self).holds_people(old(self).slots() as int, wyeworkers()),
            final(self).players@ == old(self).players@,
    {
        let npcs = get_wyeworkers_npcs();
        let mut index: usize = 0;
        proof {
            self.lemma_extends_itself();
        }
        while index < npcs.len()
            invariant
                index <= npcs.len(),
                npcs@.len() == 4,
                forall|i: int| 0 <= i < 4 ==> (#[trigger] npcs@[i])@ == wyeworkers()[i],
                self.well_formed(),
                self.extends(old(self)),
                self.slots() == old(self).slots() + index,
                self.holds_people(old(self).slots() as int, wyeworkers().take(index as int)),
                self.players@ == old(self).players@,
            decreases npcs.len() - index,
        {
            let ghost before = *self;
            let physics = generate_npc_physics();
            self.add_entity(Some(physics), None, Some(Npc { id: None, name: npcs[index].clone() }));
            index = index + 1;
            proof {
                let from = old(self).slots() as int;
                let now = wyeworkers().take(index as int);
                assert(self.physics_components@.take(from) == before.physics_components@.take(
                    from,
                ));
                assert(self.npcs_components@.take(from) == before.npcs_components@.take(from));
                assert(self.player_components@.take(from) == before.player_components@.take(
                    from,
                ));
                assert forall|i: int|
                    #![trigger self.npcs_components@[from + i]]
                    0 <= i < now.len() implies {
                    &&& is_spawned_npc(self.physics_components@[from + i])
                    &&& self.npcs_components@[from + i] is Some
                    &&& self.npcs_components@[from + i]->0.id is None
                    &&& self.npcs_components@[from + i]->0.name@ == now[i]
                    &&& self.player_components@[from + i] is None
                } by {
                    if i < index - 1 {
                        assert(self.npcs_components@[from + i] == before.npcs_components@[from
                            + i]);
                        assert(self.physics_components@[from + i]
                            == before.physics_components@[from + i]);
                        assert(self.player_components@[from + i]
                            == before.player_components@[from + i]);
                        assert(now[i] == wyeworkers().take(index - 1)[i]);
                    } else {
                        assert(npcs@[i]@ == wyeworkers()[i]);
                    }
                }
            }
        }
        proof {
            assert(wyeworkers().take(4) == wyeworkers());
        }
    }

    /// Adds the first row of desks.
    pub fn add_first_desk_row(&mut self)
        requires
            old(self).well_formed(),
        ensures
            final(self).well_formed(),
            final(self).extends(old(self)),
            final(self).slots() == old(self).slots() + (END_DESK_ROW - FIRST_DESK_ROW),
            final(self).holds_desk_rows(old(self).slots() as int, END_DESK_ROW - FIRST_DESK_ROW),
            final(self).players@ == old(self).players@,
    {
        let mut n: i32 = FIRST_DESK_ROW;
        proof {
            self.lemma_extends_itself();
        }
        while n < END_DESK_ROW
            invariant
                FIRST_DESK_ROW <= n <= END_DESK_ROW,
                self.well_formed(),
                self.extends(old(self)),
                self.slots() == old(self).slots() + (n - FIRST_DESK_ROW),
                self.holds_desk_rows(old(self).slots() as int, n - FIRST_DESK_ROW),
                self.players@ == old(self).players@,
            decreases END_DESK_ROW - n,
        {
            let ghost before = *self;
            let object_physics = desk_physics_at(n, FIRST_DESK_ROW_SPACING);
            self.add_entity(Some(object_physics), None, None);
            proof {
                let from = old(self).slots() as int;
                assert(self.physics_components@.take(from) == before.physics_components@.take(
                    from,
                ));
                assert(self.npcs_components@.take(from) == before.npcs_components@.take(from));
                assert(self.player_components@.take(from) == before.player_components@.take(
                    from,
                ));
                assert forall|k: int|
                    #![trigger self.physics_components@[from + k]]
                    0 <= k < n + 1 - FIRST_DESK_ROW implies {
                    &&& self.physics_components@[from + k] == Some(
                        desk_physics((FIRST_DESK_ROW + k) as i32, FIRST_DESK_ROW_SPACING),
                    )
                    &&& self.npcs_components@[from + k] is None
                    &&& self.player_components@[from + k] is None
                } by {
                    if k < n - FIRST_DESK_ROW {
                        assert(self.physics_components@[from + k]
                            == before.physics_components@[from + k]);
                        assert(self.npcs_components@[from + k] == before.npcs_components@[from
                            + k]);
                        assert(self.player_components@[from + k]
                            == before.player_components@[from + k]);
                    }
                }
            }
            n = n + 1;
        }
    }

    /// Adds what does not move: the first row of desks.
    pub fn add_innanimate_objects(&mut self)
        requires
            old(self).well_formed(),
        ensures
            final(self).well_formed(),
            final(self).extends(old(self)),
            final(self).slots() == old(self).slots() + (END_DESK_ROW - FIRST_DESK_ROW),
            final(self).holds_desk_rows(old(self).slots() as int, END_DESK_ROW - FIRST_DESK_ROW),
            final(self).players@ == old(self).players@,
    {
        self.add_first_desk_row();
    }

    /// Adds the player, then the people of the office, then the desks.
    pub fn load_initial_components(&mut self)
        requires
            old(self).well_formed(),
        ensures
            final(self).well_formed(),
            final(self).extends(old(self)),
            final(self).slots() == old(self).slots() + 5 + (END_DESK_ROW - FIRST_DESK_ROW),
            final(self).physics_components@[old(self).slots() as int] == Some(initial_player()),
            final(self).player_components@[old(self).slots() as int] == Some(
                Player { interacting: None, current_focus: None },
            ),
            final(self).npcs_components@[old(self).slots() as int] is None,
            final(self).holds_people((old(self).slots() + 1) as int, wyeworkers()),
            final(self).holds_desk_rows(
                (old(self).slots() + 5) as int,
                END_DESK_ROW - FIRST_DESK_ROW,
            ),
            final(self).players@ == old(self).players@.push(old(self).slots() as usize),
    {
        let ghost from = self.slots() as int;
        self.add_player();
        let ghost first = *self;
        self.add_npcs();
        let ghost second = *self;
        self.add_innanimate_objects();
        proof {
            assert(second.physics_components@[from] == second.physics_components@.take(
                from + 1,
            )[from]);
            assert(second.player_components@[from] == second.player_components@.take(
                from + 1,
            )[from]);
            assert(second.npcs_components@[from] == second.npcs_components@.take(from + 1)[from]);
            assert forall|i: int| 0 <= i < from + 5 implies {
                &&& self.physics_components@[i] == second.physics_components@[i]
                &&& self.npcs_components@[i] == second.npcs_components@[i]
                &&& self.player_components@[i] == second.player_components@[i]
            } by {
                assert(self.physics_components@[i] == self.physics_components@.take(
                    from + 5,
                )[i]);
                assert(self.npcs_components@[i] == self.npcs_components@.take(from + 5)[i]);
                assert(self.player_components@[i] == self.player_components@.take(from + 5)[i]);
            }
            assert forall|i: int| 0 <= i < from implies {
                &&& self.physics_components@[i] == old(self).physics_components@[i]
                &&& self.npcs_components@[i] == old(self).npcs_components@[i]
                &&& self.player_components@[i] == old(self).player_components@[i]
            } by {
                assert(second.physics_components@[i] == second.physics_components@.take(
                    from + 1,
                )[i]);
                assert(second.npcs_components@[i] == second.npcs_components@.take(from + 1)[i]);
                assert(second.player_components@[i] == second.player_components@.take(
                    from + 1,
                )[i]);
            }
            assert(self.physics_components@.take(from) =~= old(self).physics_components@);
            assert(self.npcs_components@.take(from) =~= old(self).npcs_components@);
            assert(self.player_components@.take(from) =~= old(self).player_components@);
            assert forall|i: int|
                #![trigger self.npcs_components@[from + 1 + i]]
                0 <= i < 4 implies {
                &&& is_spawned_npc(self.physics_components@[from + 1 + i])
                &&& self.npcs_components@[from + 1 + i] is Some
                &&& self.npcs_components@[from + 1 + i]->0.id is None
                &&& self.npcs_components@[from + 1 + i]->0.name@ == wyeworkers()[i]
                &&& self.player_components@[from + 1 + i] is None
            } by {
                assert(self.npcs_components@[from + 1 + i] == second.npcs_components@[from + 1
                    + i]);
            }
        }
    }

    /// Every player that is in contact with someone opens the greeting.
    pub fn begin_interaction(&mut self)
        ensures
            final(self).player_components@.len() == old(self).player_components@.len(),
            forall|slot: int|
                0 <= slot < old(self).player_components@.len() ==> greets(
                    old(self).player_components@[slot],
                    #[trigger] final(self).player_components@[slot],
                ),
            final(self).physics_components == old(self).physics_components,
            final(self).npcs_components == old(self).npcs_components,
            final(self).players == old(self).players,
            old(self).well_formed() ==> final(self).well_formed(),
    {
        let mut slot: usize = 0;
        while slot < self.player_components.len()
            invariant
                slot <= self.player_components.len(),
                self.player_components@.len() == old(self).player_components@.len(),
                forall|i: int|
                    0 <= i < slot ==> greets(
                        old(self).player_components@[i],
                        #[trigger] self.player_components@[i],
                    ),
                forall|i: int|
                    slot <= i < self.player_components@.len() ==> #[trigger] self.player_components@[i]
                        == old(self).player_components@[i],
                self.physics_components == old(self).physics_components,
                self.npcs_components == old(self).npcs_components,
                self.players == old(self).players,
                forall|i: int|
                    0 <= i < self.player_components@.len() ==> (
                    #[trigger] self.player_components@[i]) is Some == old(
                        self,
                    ).player_components@[i] is Some,
                old(self).well_formed() ==> self.players_sound(),
            decreases self.player_components.len() - slot,
        {
            let current_focus = match &self.player_components[slot] {
                Some(player) => player.current_focus,
                None => None,
            };
            if current_focus.is_some() {
                self.player_components[slot] = Some(
                    Player { interacting: Some(Interaction::default()), current_focus },
                );
            }
            slot = slot + 1;
        }
    }

    /// One tick: every player that is in no conversation moves as the held
    /// keys say, inside `world_size`, the players in the order of their
    /// slots.
    pub fn update(&mut self, dt_micros: u32, held: &HeldKeys, world_size: &Size)
        requires
            old(self).well_formed(),
        ensures
            final(self).well_formed(),
            (final(self).physics_components@, final(self).player_components@) == slots_after_tick(
                old(self).physics_components@,
                old(self).player_components@,
                old(self).players@,
                held_keys(*held),
                dt_micros,
                *world_size,
            ),
            final(self).npcs_components == old(self).npcs_components,
            final(self).players == old(self).players,
    {
        let keys = player_movements(held);
        let mut turn: usize = 0;
        while turn < self.players.len()
            invariant
                turn <= self.players.len(),
                keys@ == held_keys(*held),
                self.well_formed(),
                self.npcs_components == old(self).npcs_components,
                self.players == old(self).players,
                (self.physics_components@, self.player_components@) == slots_after_tick(
                    old(self).physics_components@,
                    old(self).player_components@,
                    old(self).players@.take(turn as int),
                    held_keys(*held),
                    dt_micros,
                    *world_size,
                ),
            decreases self.players.len() - turn,
        {
            proof {
                let order = old(self).players@.take(turn + 1);
                assert(order.drop_last() == old(self).players@.take(turn as int));
                assert(order.last() == old(self).players@[turn as int]);
            }
            let slot = self.players[turn];
            self.update_player(slot, &keys, dt_micros, world_size);
            turn = turn + 1;
        }
        proof {
            assert(old(self).players@.take(turn as int) == old(self).players@);
        }
    }

    /// The tick of the player in `slot`.
    pub fn update_player(&mut self, slot: usize, keys: &Vec<Key>, dt_micros: u32, world_size: &Size)
        requires
            old(self).well_formed(),
        ensures
            final(self).well_formed(),
            (final(self).physics_components@, final(self).player_components@) == slot_after_tick(
                old(self).physics_components@,
                old(self).player_components@,
                slot as int,
                keys@,
                dt_micros,
                *world_size,
            ),
            final(self).npcs_components == old(self).npcs_components,
            final(self).players == old(self).players,
    {
        if slot >= self.physics_components.len() {
            return ;
        }
        let current_focus = match &self.player_components[slot] {
            Some(player) => {
                if player.interacting.is_some() {
                    return ;
                }
                player.current_focus
            },
            None => {
                return ;
            },
        };
        let start = match &self.physics_components[slot] {
            Some(physics) => {
                let mut start: Physics = *physics;
                start.current_focus = current_focus;
                start
            },
            None => {
                return ;
            },
        };
        proof {
            assert(self.physics_components@.len() == self.physics_components.len());
            lemma_tick_keeps_focus_in_range(
                start,
                self.physics_components@,
                Some(slot),
                keys@,
                dt_micros,
                *world_size,
            );
        }
        let moved = update_physics_in_slot(
            dt_micros,
            keys,
            &start,
            &self.physics_components,
            Some(slot),
            world_size,
        );
        let ghost before = *self;
        self.physics_components[slot] = Some(moved);
        self.player_components[slot] = Some(
            Player { interacting: None, current_focus: moved.current_focus },
        );
        proof {
            assert forall|candidate: int|
                0 <= candidate < self.player_components@.len() && (
                #[trigger] self.player_components@[candidate]) is Some implies self.players@.contains(
                candidate as usize,
            ) by {
                assert(before.player_components@[candidate] is Some);
            }
        }
    }
}

} // verus!
