//! The pictures of the player: one at rest and seven of a walk, for each
//! direction.

use vstd::prelude::*;
use std::collections::HashMap;
use vstd::string::*;
use crate::atlas::{are_numbered, atlas_sprite, has_numbered, Atlas};
use crate::camera::Camera;
use crate::draw::{
    can_draw_entity,
    draw_entity,
    entity_picture,
    in_range,
    sprite_destination,
    Draw,
};
use crate::physics::{Direction, Physics};
use crate::positioning::Position;
use crate::sprite::{DrawCommand, Sprite};
use crate::sprite_keys::{
    player_idle_key,
    player_idle_sprite_key,
    player_walking_key,
    player_walking_sprite_key,
};

verus! {

/// The frames of one walk.
pub const WALK_FRAMES: usize = 7;

/// How many frames of the game each frame of the walk is shown.
pub const FRAMES_PER_WALK_FRAME: usize = 10;

/// The frame of the walk that is shown in frame `frames` of the game: each
/// of the seven is shown for ten frames, and then the walk starts over.
pub open spec fn walk_frame(frames: usize) -> usize {
    ((frames % 70) / 10) as usize
}

pub fn animation_sprite_index(frames: usize) -> (index: usize)
    ensures
        index == walk_frame(frames),
        index < WALK_FRAMES,
{
    (frames % (WALK_FRAMES * FRAMES_PER_WALK_FRAME)) / FRAMES_PER_WALK_FRAME
}

/// The name of the picture that shows the player in frame `frames`: the one
/// at rest, or the frame of the walk, for the direction that it faces.
pub open spec fn active_key(physics: Physics, frames: usize) -> Seq<char> {
    if physics.walking {
        player_walking_key(physics.direction->0, walk_frame(frames) as nat)
    } else {
        player_idle_key(physics.direction->0)
    }
}

/// The name of the picture that shows the player in frame `frames`.
pub fn active_sprite_key(physics: &Physics, frames: usize) -> (key: String)
    requires
        physics.direction is Some,
    ensures
        key@ == active_key(*physics, frames),
{
    let direction = match physics.direction {
        Some(direction) => direction,
        None => vstd::pervasive::unreached(),
    };
    if physics.walking {
        player_walking_sprite_key(direction, animation_sprite_index(frames))
    } else {
        player_idle_sprite_key(direction)
    }
}

/// The text before the number in the names of the walk in `direction`.
pub open spec fn walk_prefix(direction: Direction) -> Seq<char> {
    "player-"@ + direction.name()@ + "-"@
}

/// The pictures of the player. Both maps have one entry for each
/// direction, under the number that `Direction::to_index` gives.
pub struct PlayerSprite {
    pub idle_sprites: HashMap<usize, Sprite>,
    pub walking_sprites: HashMap<usize, Vec<Sprite>>,
    pub position: Position,
}

/// The sheet holds every picture of the player.
pub open spec fn has_player_sprites(atlas: Atlas) -> bool {
    &&& has_numbered(atlas, "player-idle-"@, 4)
    &&& forall|direction: Direction|
        has_numbered(atlas, #[trigger] walk_prefix(direction), WALK_FRAMES as nat)
}

impl PlayerSprite {
    /// There are pictures of the player facing `direction`: one at rest and
    /// a walk of seven.
    pub open spec fn has_pictures_of(&self, direction: Direction) -> bool {
        &&& self.idle_sprites@.contains_key(direction.to_index())
        &&& self.walking_sprites@.contains_key(direction.to_index())
        &&& self.walking_sprites@[direction.to_index()]@.len() == WALK_FRAMES
    }

    /// Whether there are pictures of the player facing `direction`.
    pub fn has_sprites_for(&self, direction: Direction) -> (found: bool)
        ensures
            found == self.has_pictures_of(direction),
    {
        broadcast use vstd::std_specs::hash::group_hash_axioms;

        let row: usize = direction.to_index();
        if !self.idle_sprites.contains_key(&row) {
            return false;
        }
        match self.walking_sprites.get(&row) {
            Some(walk) => walk.len() == WALK_FRAMES,
            None => false,
        }
    }

    /// The first `rows` directions have the pictures that `atlas` holds for
    /// them: at rest under `player-idle-` and the number of the direction,
    /// walking under `player-`, the word for the direction, `-` and the
    /// number of the frame. Neither map has an entry under another number.
    pub open spec fn shows_rows(&self, atlas: Atlas, rows: int) -> bool {
        &&& forall|row: usize| #[trigger]
            self.idle_sprites@.contains_key(row) <==> row < rows
        &&& forall|row: usize| #[trigger]
            self.walking_sprites@.contains_key(row) <==> row < rows
        &&& forall|direction: Direction|
            #![trigger direction.to_index()]
            direction.to_index() < rows ==> {
                &&& self.idle_sprites@[direction.to_index()] == atlas_sprite(
                    atlas,
                    player_idle_key(direction),
                )
                &&& are_numbered(
                    self.walking_sprites@[direction.to_index()]@,
                    atlas,
                    walk_prefix(direction),
                    WALK_FRAMES as nat,
                )
            }
    }

    /// Every direction has the pictures that `atlas` holds for it, and there
    /// are no others.
    pub open spec fn shows(&self, atlas: Atlas) -> bool {
        self.shows_rows(atlas, 4)
    }

    /// The picture for these physics in frame `frames`: the one at rest, or
    /// the frame of the walk.
    pub open spec fn chosen(&self, physics: Physics, frames: usize) -> Sprite {
        let row = physics.direction->0.to_index();
        if !physics.walking {
            self.idle_sprites@[row]
        } else {
            self.walking_sprites@[row]@[walk_frame(frames) as int]
        }
    }

    /// The direction of the number `index`.
    fn direction_at(index: usize) -> (direction: Direction)
        requires
            index < 4,
        ensures
            direction.to_index() == index,
    {
        if index == 0 {
            Direction::Up
        } else if index == 1 {
            Direction::Right
        } else if index == 2 {
            Direction::Down
        } else {
            Direction::Left
        }
    }

    /// The pictures of the player as `atlas` holds them, if it holds them
    /// all.
    pub fn load(atlas: &Atlas) -> (loaded: Option<PlayerSprite>)
        ensures
            loaded is Some == has_player_sprites(*atlas),
            loaded is Some ==> loaded->0.shows(*atlas),
            loaded is Some ==> loaded->0.position == (Position { x: 500_000, y: 500_000 }),
    {
        broadcast use vstd::std_specs::hash::group_hash_axioms;

        let idle = match atlas.load_numbered("player-idle-", 4) {
            Some(sprites) => sprites,
            None => {
                return None;
            },
        };
        let mut loaded = PlayerSprite {
            idle_sprites: HashMap::new(),
            walking_sprites: HashMap::new(),
            position: Position { x: 500_000, y: 500_000 },
        };
        let mut index: usize = 0;
        while index < 4
            invariant
                index <= 4,
                are_numbered(idle@, *atlas, "player-idle-"@, 4),
                loaded.position == (Position { x: 500_000, y: 500_000 }),
                loaded.shows_rows(*atlas, index as int),
                forall|direction: Direction|
                    direction.to_index() < index ==> has_numbered(
                        *atlas,
                        #[trigger] walk_prefix(direction),
                        WALK_FRAMES as nat,
                    ),
            decreases 4 - index,
        {
            let direction = PlayerSprite::direction_at(index);
            let mut prefix = "player-".to_owned();
            prefix.append(direction.name());
            prefix.append("-");
            assert(prefix@ == walk_prefix(direction));
            let walk = match atlas.load_numbered(prefix.as_str(), WALK_FRAMES) {
                Some(direction_sprites) => direction_sprites,
                None => {
                    return None;
                },
            };
            let ghost before = loaded;
            loaded.idle_sprites.insert(index, idle[index]);
            loaded.walking_sprites.insert(index, walk);
            proof {
                assert forall|other: Direction|
                    #![trigger other.to_index()]
                    other.to_index() < index + 1 implies {
                    &&& loaded.idle_sprites@[other.to_index()] == atlas_sprite(
                        *atlas,
                        player_idle_key(other),
                    )
                    &&& are_numbered(
                        loaded.walking_sprites@[other.to_index()]@,
                        *atlas,
                        walk_prefix(other),
                        WALK_FRAMES as nat,
                    )
                } by {
                    let row = other.to_index();
                    if row < index {
                        assert(before.shows_rows(*atlas, index as int));
                        assert(before.idle_sprites@.contains_key(row));
                        assert(loaded.idle_sprites@[row] == before.idle_sprites@[row]);
                        assert(loaded.walking_sprites@[row] == before.walking_sprites@[row]);
                        assert(are_numbered(
                            before.walking_sprites@[row]@,
                            *atlas,
                            walk_prefix(other),
                            WALK_FRAMES as nat,
                        ));
                    } else {
                        assert(other == direction);
                        assert(loaded.idle_sprites@[row] == idle@[index as int]);
                        assert(loaded.walking_sprites@[row] == walk);
                    }
                }
                assert forall|row: usize| #[trigger]
                    loaded.idle_sprites@.contains_key(row) <==> row < index + 1 by {
                    assert(before.idle_sprites@.contains_key(row) <==> row < index);
                }
                assert forall|row: usize| #[trigger]
                    loaded.walking_sprites@.contains_key(row) <==> row < index + 1 by {
                    assert(before.walking_sprites@.contains_key(row) <==> row < index);
                }
                assert(loaded.shows_rows(*atlas, index + 1));
            }
            index = index + 1;
        }
        Some(loaded)
    }

    /// The pictures of the player as `atlas` holds them.
    pub fn new(atlas: &Atlas) -> (sprite: PlayerSprite)
        requires
            has_player_sprites(*atlas),
        ensures
            sprite.shows(*atlas),
            sprite.position == (Position { x: 500_000, y: 500_000 }),
    {
        match PlayerSprite::load(atlas) {
            Some(sprite) => sprite,
            None => vstd::pervasive::unreached(),
        }
    }
}

impl Draw for PlayerSprite {
    open spec fn drawable(&self, camera: &Camera, physics: &Physics, frames: usize) -> bool {
        &&& physics.direction is Some
        &&& self.has_pictures_of(physics.direction->0)
        &&& in_range(sprite_destination(*camera, physics.position, self.chosen(*physics, frames)))
    }

    open spec fn picture(&self, camera: &Camera, physics: &Physics, frames: usize) -> DrawCommand {
        entity_picture(*camera, physics.position, self.chosen(*physics, frames))
    }

    fn can_draw(&self, camera: &Camera, physics: &Physics, frames: usize) -> (ok: bool) {
        broadcast use vstd::std_specs::hash::group_hash_axioms;

        let direction = match physics.direction {
            Some(direction) => direction,
            None => {
                return false;
            },
        };
        if !self.has_sprites_for(direction) {
            return false;
        }
        let row: usize = direction.to_index();
        if !physics.walking {
            match self.idle_sprites.get(&row) {
                Some(sprite) => can_draw_entity(camera, &physics.position, sprite),
                None => false,
            }
        } else {
            match self.walking_sprites.get(&row) {
                Some(walk) => can_draw_entity(
                    camera,
                    &physics.position,
                    &walk[animation_sprite_index(frames)],
                ),
                None => false,
            }
        }
    }

    fn draw(&self, camera: &Camera, physics: &Physics, frames: usize) -> (command: DrawCommand) {
        broadcast use vstd::std_specs::hash::group_hash_axioms;

        let row: usize = match physics.direction {
            Some(direction) => direction.to_index(),
            None => vstd::pervasive::unreached(),
        };
        if !physics.walking {
            match self.idle_sprites.get(&row) {
                Some(sprite) => draw_entity(camera, &physics.position, sprite),
                None => vstd::pervasive::unreached(),
            }
        } else {
            match self.walking_sprites.get(&row) {
                Some(walk) => draw_entity(
                    camera,
                    &physics.position,
                    &walk[animation_sprite_index(frames)],
                ),
                None => vstd::pervasive::unreached(),
            }
        }
    }
}

/// The picture that is drawn for the player is the one that the sheet holds
/// under the name that is active in that frame, and there are pictures for
/// every direction.
pub proof fn lemma_chosen_is_the_active_picture(
    sprite: PlayerSprite,
    atlas: Atlas,
    physics: Physics,
    frames: usize,
)
    requires
        sprite.shows(atlas),
        physics.direction is Some,
    ensures
        sprite.has_pictures_of(physics.direction->0),
        sprite.chosen(physics, frames) == atlas_sprite(atlas, active_key(physics, frames)),
{
    let direction = physics.direction->0;
    assert(are_numbered(
        sprite.walking_sprites@[direction.to_index()]@,
        atlas,
        walk_prefix(direction),
        WALK_FRAMES as nat,
    ));
}

} // verus!
