//! How the player moves: one candidate position for each tick, built over
//! the keys that are pressed, taken when nothing is in the way there and
//! dropped as a whole when something is.

use vstd::prelude::*;
use crate::collision::{aabb, boxes_collide, objects_collide};
use crate::constants::{
    HUMANOID_H,
    HUMANOID_W,
    INITIAL_PLAYER_SPEED,
    INITIAL_PLAYER_X,
    INITIAL_PLAYER_Y,
    UNITS_PER_PIXEL,
};
use crate::input_system::Key;
use crate::physics::{Color, Direction, Physics};
use crate::positioning::{combined_candidate, move_along, Position, Size};

verus! {

/// The player as a game begins: at the starting point, facing down, at rest.
pub open spec fn initial_player() -> Physics {
    Physics {
        position: Position { x: INITIAL_PLAYER_X, y: INITIAL_PLAYER_Y },
        size: Size { width: HUMANOID_W, height: HUMANOID_H },
        speed: INITIAL_PLAYER_SPEED,
        color: Color { r: 0, g: 171, b: 169, a: 255 },
        direction: Some(Direction::Down),
        walking: false,
        current_focus: None,
    }
}

/// The player as a game begins.
pub fn initial_player_physics() -> (player: Physics)
    ensures
        player == initial_player(),
{
    Physics {
        position: Position { x: INITIAL_PLAYER_X, y: INITIAL_PLAYER_Y },
        size: Size { width: HUMANOID_W, height: HUMANOID_H },
        speed: INITIAL_PLAYER_SPEED,
        color: Color::from_rgb(0, 171, 169),
        direction: Some(Direction::Down),
        walking: false,
        current_focus: None,
    }
}

/// `rand::Rng::gen_range` on the generator of the running thread, with the
/// half-open range `low..high`. It is trusted to return a number of that
/// range; which one is not known.
#[verifier::external_body]
fn random_in_range(low: i32, high: i32) -> (value: i32)
    requires
        low < high,
    ensures
        low <= value < high,
{
    rand::Rng::gen_range(&mut rand::thread_rng(), low..high)
}

/// One of the two kinds of desk, picked at random.
pub fn random_desk_type() -> (desk_type: i32)
    ensures
        desk_type == 0 || desk_type == 1,
{
    random_in_range(0, 2)
}

/// Someone who stands at the pixel (`x`, `y`) and never moves.
pub open spec fn npc_physics(x: i32, y: i32) -> Physics {
    Physics {
        position: Position {
            x: (x * UNITS_PER_PIXEL) as i64,
            y: (y * UNITS_PER_PIXEL) as i64,
        },
        size: Size { width: HUMANOID_W, height: HUMANOID_H },
        speed: 0,
        color: Color { r: 112, g: 111, b: 211, a: 255 },
        direction: None,
        walking: false,
        current_focus: None,
    }
}

/// The pixels at which someone may be placed at random.
pub open spec fn npc_spawn_area(x: i32, y: i32) -> bool {
    300 <= x < 900 && 200 <= y < 700
}

/// Someone who stands at the pixel (`x`, `y`) and never moves.
pub fn npc_physics_at(x: i32, y: i32) -> (npc: Physics)
    ensures
        npc == npc_physics(x, y),
{
    Physics {
        position: Position {
            x: x as i64 * UNITS_PER_PIXEL as i64,
            y: y as i64 * UNITS_PER_PIXEL as i64,
        },
        size: Size { width: HUMANOID_W, height: HUMANOID_H },
        speed: 0,
        color: Color::from_rgb(112, 111, 211),
        direction: None,
        walking: false,
        current_focus: None,
    }
}

/// A pixel of the spawn area, picked at random.
pub fn get_random_position() -> (pixel: (i32, i32))
    ensures
        npc_spawn_area(pixel.0, pixel.1),
{
    let x: i32 = random_in_range(300, 900);
    let y: i32 = random_in_range(200, 700);
    (x, y)
}

/// Someone placed at a random pixel of the spawn area.
pub fn generate_npc_physics() -> (npc: Physics)
    ensures
        exists|x: i32, y: i32| npc_spawn_area(x, y) && npc == #[trigger] npc_physics(x, y),
{
    let pixel = get_random_position();
    npc_physics_at(pixel.0, pixel.1)
}

/// Whether a box of `size` at `position` collides with the entity in slot
/// `slot`. Empty slots collide with nothing, and neither does the slot
/// `skip`, which is the moving entity's own.
pub open spec fn collides_with(
    others: Seq<Option<Physics>>,
    skip: Option<usize>,
    position: Position,
    size: Size,
    slot: int,
) -> bool {
    &&& 0 <= slot < others.len()
    &&& skip != Some(slot as usize)
    &&& others[slot] is Some
    &&& boxes_collide(
        aabb(position, size),
        aabb(others[slot]->0.position, others[slot]->0.size),
    )
}

/// The last of the first `upto` slots that a box of `size` at `position`
/// collides with.
pub open spec fn last_collision(
    others: Seq<Option<Physics>>,
    skip: Option<usize>,
    position: Position,
    size: Size,
    upto: nat,
) -> Option<usize>
    decreases upto,
{
    if upto == 0 {
        None
    } else if collides_with(others, skip, position, size, upto - 1) {
        Some((upto - 1) as usize)
    } else {
        last_collision(others, skip, position, size, (upto - 1) as nat)
    }
}

/// Where the pressed keys would take the player in one tick: one step for
/// each key, in their order, each clamped to the world.
pub open spec fn target_position(
    player: Physics,
    keys: Seq<Key>,
    dt_micros: u32,
    world_size: Size,
) -> Position {
    combined_candidate(player.position, player.size, player.speed, keys, dt_micros, world_size)
}

/// The slot of the entity that stands where the pressed keys would take
/// the player: the last one that the player's box would collide with there.
pub open spec fn hit(
    player: Physics,
    others: Seq<Option<Physics>>,
    skip: Option<usize>,
    keys: Seq<Key>,
    dt_micros: u32,
    world_size: Size,
) -> Option<usize> {
    last_collision(
        others,
        skip,
        target_position(player, keys, dt_micros, world_size),
        player.size,
        others.len(),
    )
}

/// Whether someone stands where the pressed keys would take the player.
pub open spec fn blocked(
    player: Physics,
    others: Seq<Option<Physics>>,
    skip: Option<usize>,
    keys: Seq<Key>,
    dt_micros: u32,
    world_size: Size,
) -> bool {
    hit(player, others, skip, keys, dt_micros, world_size) is Some
}

/// The way the player faces after a step on which `facing` was the last key
/// pressed: the way of that key, or as before where the key is no arrow.
pub open spec fn facing_after(player: Physics, facing: Key) -> Option<Direction> {
    match Direction::from_key(facing) {
        Some(direction) => Some(direction),
        None => player.direction,
    }
}

/// The player after one tick.
///
/// With no key pressed it stops walking and nothing else changes.
///
/// With keys pressed there is one candidate position for the whole tick:
/// one step for each key, in their order, each clamped to the world. The
/// tick is taken whole or not at all. If the player's box at the candidate
/// collides with anyone, the player stays exactly where it is and only
/// turns its focus to the last slot it would hit. If not, the player moves
/// to the candidate, walks, faces the way of the last key, and has no
/// focus.
pub open spec fn player_after_tick(
    player: Physics,
    others: Seq<Option<Physics>>,
    skip: Option<usize>,
    keys: Seq<Key>,
    dt_micros: u32,
    world_size: Size,
) -> Physics {
    if keys.len() == 0 {
        Physics { walking: false, ..player }
    } else {
        match hit(player, others, skip, keys, dt_micros, world_size) {
            Some(slot) => Physics { current_focus: Some(slot), ..player },
            None => Physics {
                position: target_position(player, keys, dt_micros, world_size),
                walking: true,
                direction: facing_after(player, keys.last()),
                current_focus: None,
                ..player
            },
        }
    }
}

/// The last slot, other than `skip`, whose entity collides with `moving`.
pub fn find_collision(
    moving: &Physics,
    physics_components: &Vec<Option<Physics>>,
    skip: Option<usize>,
) -> (hit: Option<usize>)
    ensures
        hit == last_collision(
            physics_components@,
            skip,
            moving.position,
            moving.size,
            physics_components@.len(),
        ),
{
    let mut hit: Option<usize> = None;
    let mut index: usize = 0;
    while index < physics_components.len()
        invariant
            index <= physics_components.len(),
            hit == last_collision(
                physics_components@,
                skip,
                moving.position,
                moving.size,
                index as nat,
            ),
        decreases physics_components.len() - index,
    {
        let own = match skip {
            Some(slot) => slot == index,
            None => false,
        };
        if !own {
            match &physics_components[index] {
                Some(physics) => {
                    if objects_collide(moving, physics) {
                        hit = Some(index);
                    }
                },
                None => {},
            }
        }
        index = index + 1;
    }
    hit
}

/// Moves the player for one tick: `player_mov_actions` are the movement keys
/// that are held, in the order in which they count.
pub fn update_player_physics(
    dt_micros: u32,
    player_mov_actions: &Vec<Key>,
    player_physics: &Physics,
    physics_components: &Vec<Option<Physics>>,
    world_size: &Size,
) -> (new_player_physics: Physics)
    ensures
        new_player_physics == player_after_tick(
            *player_physics,
            physics_components@,
            None,
            player_mov_actions@,
            dt_micros,
            *world_size,
        ),
        player_mov_actions@.len() == 0 ==> new_player_physics == (Physics {
            walking: false,
            ..*player_physics
        }),
        blocked(
            *player_physics,
            physics_components@,
            None,
            player_mov_actions@,
            dt_micros,
            *world_size,
        ) ==> new_player_physics.position == player_physics.position,
{
    update_physics_in_slot(
        dt_micros,
        player_mov_actions,
        player_physics,
        physics_components,
        None,
        world_size,
    )
}

/// Moves for one tick an entity that may itself stand in one of the slots:
/// the slot `skip` is left out when collisions are looked for.
pub fn update_physics_in_slot(
    dt_micros: u32,
    player_mov_actions: &Vec<Key>,
    player_physics: &Physics,
    physics_components: &Vec<Option<Physics>>,
    skip: Option<usize>,
    world_size: &Size,
) -> (new_player_physics: Physics)
    ensures
        new_player_physics == player_after_tick(
            *player_physics,
            physics_components@,
            skip,
            player_mov_actions@,
            dt_micros,
            *world_size,
        ),
        blocked(
            *player_physics,
            physics_components@,
            skip,
            player_mov_actions@,
            dt_micros,
            *world_size,
        ) ==> new_player_physics.position == player_physics.position,
{
    let mut new_player_physics: Physics = *player_physics;
    if player_mov_actions.len() == 0 {
        new_player_physics.walking = false;
        return new_player_physics;
    }
    let last_mov_key: Key = player_mov_actions[player_mov_actions.len() - 1];
    let mut new_potential_player_physics: Physics = *player_physics;
    new_potential_player_physics.position = move_along(
        player_physics.position,
        &player_physics.size,
        player_physics.speed,
        player_mov_actions,
        dt_micros,
        world_size,
    );
    match find_collision(&new_potential_player_physics, physics_components, skip) {
        Some(slot) => {
            new_player_physics.current_focus = Some(slot);
        },
        None => {
            match Direction::from_key(last_mov_key) {
                Some(direction) => {
                    new_potential_player_physics.direction = Some(direction);
                },
                None => {},
            }
            new_potential_player_physics.walking = true;
            new_potential_player_physics.current_focus = None;
            new_player_physics = new_potential_player_physics;
        },
    }
    new_player_physics
}

/// What `last_collision` finds: a slot that collides and is followed by none
/// that does, or nothing where no slot collides.
pub proof fn lemma_last_collision(
    others: Seq<Option<Physics>>,
    skip: Option<usize>,
    position: Position,
    size: Size,
    upto: nat,
)
    requires
        upto <= others.len(),
        upto <= usize::MAX,
    ensures
        match last_collision(others, skip, position, size, upto) {
            Some(slot) => {
                &&& slot < upto
                &&& collides_with(others, skip, position, size, slot as int)
                &&& forall|later: int|
                    slot < later < upto ==> !collides_with(others, skip, position, size, later)
            },
            None => forall|slot: int|
                0 <= slot < upto ==> !collides_with(others, skip, position, size, slot),
        },
    decreases upto,
{
    if upto > 0 && !collides_with(others, skip, position, size, upto - 1) {
        lemma_last_collision(others, skip, position, size, (upto - 1) as nat);
    }
}

/// A tick whose candidate is blocked is not taken, not even in part: the
/// player stays exactly where it is, whichever of the pressed keys would
/// have been free by itself. Nothing changes but the focus, which turns to
/// someone that the player's box would collide with at the candidate.
pub proof fn lemma_blocked_tick_keeps_position(
    player: Physics,
    others: Seq<Option<Physics>>,
    skip: Option<usize>,
    keys: Seq<Key>,
    dt_micros: u32,
    world_size: Size,
)
    requires
        keys.len() > 0,
        blocked(player, others, skip, keys, dt_micros, world_size),
        others.len() <= usize::MAX,
    ensures
        ({
            let next = player_after_tick(player, others, skip, keys, dt_micros, world_size);
            &&& next.position == player.position
            &&& next == (Physics { current_focus: next.current_focus, ..player })
            &&& next.current_focus is Some
            &&& collides_with(
                others,
                skip,
                target_position(player, keys, dt_micros, world_size),
                player.size,
                next.current_focus->0 as int,
            )
        }),
{
    lemma_last_collision(
        others,
        skip,
        target_position(player, keys, dt_micros, world_size),
        player.size,
        others.len(),
    );
}

/// A tick whose candidate nobody blocks is taken whole: the player stands
/// at the candidate, walks, faces the way of the last key, and has no
/// focus.
pub proof fn lemma_free_tick_moves(
    player: Physics,
    others: Seq<Option<Physics>>,
    skip: Option<usize>,
    keys: Seq<Key>,
    dt_micros: u32,
    world_size: Size,
)
    requires
        keys.len() > 0,
        !blocked(player, others, skip, keys, dt_micros, world_size),
    ensures
        ({
            let next = player_after_tick(player, others, skip, keys, dt_micros, world_size);
            &&& next.position == target_position(player, keys, dt_micros, world_size)
            &&& next.walking
            &&& next.current_focus is None
            &&& Direction::from_key(keys.last()) is Some ==> next.direction == Direction::from_key(
                keys.last(),
            )
        }),
{
}

/// No tick ever changes the player's size, speed or colour, and the player
/// ends either where it was or at the candidate of the tick.
pub proof fn lemma_tick_keeps_build(
    player: Physics,
    others: Seq<Option<Physics>>,
    skip: Option<usize>,
    keys: Seq<Key>,
    dt_micros: u32,
    world_size: Size,
)
    ensures
        ({
            let next = player_after_tick(player, others, skip, keys, dt_micros, world_size);
            &&& next.size == player.size
            &&& next.speed == player.speed
            &&& next.color == player.color
            &&& next.position == player.position || next.position == target_position(
                player,
                keys,
                dt_micros,
                world_size,
            )
        }),
{
}

/// The focus is nobody, or one of the slots.
pub open spec fn focus_in_range(player: Physics, slots: nat) -> bool {
    match player.current_focus {
        Some(slot) => slot < slots,
        None => true,
    }
}

/// A focus that is one of the slots before a tick is one of them after it.
pub proof fn lemma_tick_keeps_focus_in_range(
    player: Physics,
    others: Seq<Option<Physics>>,
    skip: Option<usize>,
    keys: Seq<Key>,
    dt_micros: u32,
    world_size: Size,
)
    requires
        focus_in_range(player, others.len()),
        others.len() <= usize::MAX,
    ensures
        focus_in_range(
            player_after_tick(player, others, skip, keys, dt_micros, world_size),
            others.len(),
        ),
{
    lemma_last_collision(
        others,
        skip,
        target_position(player, keys, dt_micros, world_size),
        player.size,
        others.len(),
    );
}

/// A tick without keys only stops the walk, and a second such tick changes
/// nothing more.
pub proof fn lemma_idle_tick(
    player: Physics,
    others: Seq<Option<Physics>>,
    skip: Option<usize>,
    dt_micros: u32,
    world_size: Size,
)
    ensures
        ({
            let rested = player_after_tick(
                player,
                others,
                skip,
                Seq::empty(),
                dt_micros,
                world_size,
            );
            &&& rested == (Physics { walking: false, ..player })
            &&& rested.position == player.position
            &&& player_after_tick(rested, others, skip, Seq::empty(), dt_micros, world_size)
                == rested
        }),
{
}

} // verus!
