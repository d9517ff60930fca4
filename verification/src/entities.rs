//! The office as a player and a row of desks, each a plain body.

use vstd::prelude::*;
use crate::collision::{aabb, boxes_collide, objects_collide};
use crate::constants::{DESK_H, DESK_W, UNITS_PER_PIXEL};
use crate::input_system::{held_keys, player_movements, HeldKeys, Key};
use crate::positioning::{combined_candidate, move_along, Body, Position, Size};

verus! {

pub const PLAYER_W: u32 = 25_000;

pub const PLAYER_H: u32 = 25_000;

pub const PLAYER_SPEED: u32 = 150_000;

pub const PLAYER_START_X: i64 = 600_000;

pub const PLAYER_START_Y: i64 = 500_000;

/// A desk: a body that never moves.
#[derive(Clone, Copy, Debug, PartialEq, Eq, Structural)]
pub struct Desk {
    pub body: Body,
}

impl Desk {
    /// A desk centred on `position`.
    pub fn new(position: Position) -> (desk: Desk)
        ensures
            desk == (Desk {
                body: Body { position, size: Size { width: DESK_W, height: DESK_H }, speed: 0 },
            }),
    {
        Desk { body: Body { position, size: Size { width: DESK_W, height: DESK_H }, speed: 0 } }
    }
}

/// The player: a body that walks.
#[derive(Clone, Copy, Debug, PartialEq, Eq, Structural)]
pub struct Player {
    pub body: Body,
}

impl Player {
    /// The player at its starting point.
    pub fn new() -> (player: Player)
        ensures
            player == (Player {
                body: Body {
                    position: Position { x: PLAYER_START_X, y: PLAYER_START_Y },
                    size: Size { width: PLAYER_W, height: PLAYER_H },
                    speed: PLAYER_SPEED,
                },
            }),
    {
        Player {
            body: Body {
                position: Position { x: PLAYER_START_X, y: PLAYER_START_Y },
                size: Size { width: PLAYER_W, height: PLAYER_H },
                speed: PLAYER_SPEED,
            },
        }
    }
}

/// The desk of row `row`: rows lie 120 pixels apart, 200 pixels from the
/// left wall.
pub open spec fn desk_of_row(row: int) -> Desk {
    Desk {
        body: Body {
            position: Position {
                x: (200 * UNITS_PER_PIXEL) as i64,
                y: (row * 120 * UNITS_PER_PIXEL) as i64,
            },
            size: Size { width: DESK_W, height: DESK_H },
            speed: 0,
        },
    }
}

/// Whether a box of `size` at `position` collides with one of the first
/// `upto` desks.
pub open spec fn hits_desk(desks: Seq<Desk>, position: Position, size: Size, upto: int) -> bool {
    exists|i: int|
        0 <= i < upto && i < desks.len() && boxes_collide(
            aabb(position, size),
            #[trigger] aabb(desks[i].body.position, desks[i].body.size),
        )
}

/// The body after one tick in which `keys` are pressed. There is one
/// candidate position for the whole tick: one step for each key, in their
/// order, each clamped to the drawable area. The tick is taken whole or not
/// at all: the body stands at the candidate where no desk is in the way
/// there, and exactly where it was where one is.
pub open spec fn body_after_tick(
    body: Body,
    desks: Seq<Desk>,
    keys: Seq<Key>,
    dt_micros: u32,
    drawable_size: Size,
) -> Body {
    let moved = combined_candidate(
        body.position,
        body.size,
        body.speed,
        keys,
        dt_micros,
        drawable_size,
    );
    if hits_desk(desks, moved, body.size, desks.len() as int) {
        body
    } else {
        Body { position: moved, ..body }
    }
}

/// The office: the player and the desks.
pub struct OfficeMap {
    pub player: Player,
    pub desks: Vec<Desk>,
}

impl OfficeMap {
    /// The office as a game begins: the player at its starting point and one
    /// desk in each of the rows 2 to 5.
    pub fn new() -> (office: OfficeMap)
        ensures
            office.player == (Player {
                body: Body {
                    position: Position { x: PLAYER_START_X, y: PLAYER_START_Y },
                    size: Size { width: PLAYER_W, height: PLAYER_H },
                    speed: PLAYER_SPEED,
                },
            }),
            office.desks@.len() == 4,
            forall|k: int| 0 <= k < 4 ==> #[trigger] office.desks@[k] == desk_of_row(k + 2),
    {
        let mut initial_desks: Vec<Desk> = Vec::new();
        let mut n: i64 = 2;
        while n < 6
            invariant
                2 <= n <= 6,
                initial_desks@.len() == n - 2,
                forall|k: int|
                    0 <= k < n - 2 ==> #[trigger] initial_desks@[k] == desk_of_row(k + 2),
            decreases 6 - n,
        {
            initial_desks.push(
                Desk::new(
                    Position {
                        x: 200 * UNITS_PER_PIXEL as i64,
                        y: n * 120 * UNITS_PER_PIXEL as i64,
                    },
                ),
            );
            n = n + 1;
        }
        OfficeMap { player: Player::new(), desks: initial_desks }
    }

    /// Whether `body` collides with one of the desks.
    pub fn collides_with_desk(&self, body: &Body) -> (player_collides: bool)
        ensures
            player_collides == hits_desk(
                self.desks@,
                body.position,
                body.size,
                self.desks@.len() as int,
            ),
    {
        let mut player_collides: bool = false;
        let mut index: usize = 0;
        while index < self.desks.len()
            invariant
                index <= self.desks.len(),
                player_collides == hits_desk(self.desks@, body.position, body.size, index as int),
            decreases self.desks.len() - index,
        {
            if objects_collide(body, &self.desks[index].body) {
                player_collides = true;
            }
            index = index + 1;
        }
        player_collides
    }

    /// One tick: the player takes one step for each held key, in their
    /// order, unless that would take it into a desk; then it stays where it
    /// is. The desks stay.
    pub fn update(&mut self, dt_micros: u32, held: &HeldKeys, drawable_size: &Size)
        ensures
            final(self).player.body == body_after_tick(
                old(self).player.body,
                old(self).desks@,
                held_keys(*held),
                dt_micros,
                *drawable_size,
            ),
            final(self).desks == old(self).desks,
    {
        let keys = player_movements(held);
        let mut new_potential_player_body: Body = self.player.body;
        new_potential_player_body.position = move_along(
            self.player.body.position,
            &self.player.body.size,
            self.player.body.speed,
            &keys,
            dt_micros,
            drawable_size,
        );
        if !self.collides_with_desk(&new_potential_player_body) {
            self.player.body.position = new_potential_player_body.position;
        }
    }
}

/// A tick that would take the body into a desk leaves it exactly where it
/// is, whichever of the pressed keys would have been free by itself.
pub proof fn lemma_desk_blocks_tick(
    body: Body,
    desks: Seq<Desk>,
    keys: Seq<Key>,
    dt_micros: u32,
    drawable_size: Size,
)
    requires
        hits_desk(
            desks,
            combined_candidate(
                body.position,
                body.size,
                body.speed,
                keys,
                dt_micros,
                drawable_size,
            ),
            body.size,
            desks.len() as int,
        ),
    ensures
        body_after_tick(body, desks, keys, dt_micros, drawable_size) == body,
{
}

/// A tick without keys leaves the body exactly where it is.
pub proof fn lemma_no_key_no_step(body: Body, desks: Seq<Desk>, dt_micros: u32, drawable_size: Size)
    ensures
        body_after_tick(body, desks, Seq::empty(), dt_micros, drawable_size) == body,
{
}

} // verus!
