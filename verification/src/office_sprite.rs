//! The pictures of the desks: two frames for each of the two kinds.

use vstd::prelude::*;
use std::collections::HashMap;
use crate::atlas::{are_numbered, atlas_sprite, has_numbered, Atlas};
use crate::camera::Camera;
use crate::components::Desk;
use crate::draw::{
    can_draw_entity,
    draw_entity,
    entity_picture,
    in_range,
    sprite_destination,
    DrawComponent,
};
use crate::physics::Physics;
use crate::positioning::Position;
use crate::sprite::{DrawCommand, Sprite};
use crate::sprite_keys::{desk_key, desk_sprite_key};

verus! {

/// Frames of the game for which a desk shows one frame of its animation.
pub const FRAME_INTERVAL_DESK_ANIMATION: i32 = 120;

/// The frame of a desk's animation in frame `frames` of the game. The
/// animation has a period of 240 frames; a desk shows frame 0 for the first
/// 120 of them and for ten more for each unit of its `animation_id`, and
/// frame 1 for the rest.
pub open spec fn desk_frame(frames: usize, animation_id: i32) -> usize {
    let phase = frames as int % (2 * FRAME_INTERVAL_DESK_ANIMATION);
    if phase < FRAME_INTERVAL_DESK_ANIMATION + animation_id * 10 {
        0
    } else {
        1
    }
}

pub fn animation_sprite_index(frames: usize, animation_id: i32) -> (index: usize)
    ensures
        index == desk_frame(frames, animation_id),
        index < 2,
{
    let modifier: i64 = animation_id as i64 * 10;
    let phase: i64 = (frames % 240) as i64;
    if phase < FRAME_INTERVAL_DESK_ANIMATION as i64 + modifier {
        0
    } else {
        1
    }
}

/// The name of the picture that shows `desk` in frame `frames`.
pub open spec fn active_key(desk: Desk, frames: usize) -> Seq<char> {
    desk_key(desk.desk_type as int, desk_frame(frames, desk.animation_id) as nat)
}

/// The name of the picture that shows `desk` in frame `frames`.
pub fn active_sprite_key(desk: &Desk, frames: usize) -> (key: String)
    ensures
        key@ == active_key(*desk, frames),
{
    desk_sprite_key(desk.desk_type, animation_sprite_index(frames, desk.animation_id))
}

/// The pictures of the desks: for each kind of desk, the frames of its
/// animation.
pub struct OfficeSprite {
    pub desk_sprites: HashMap<i32, Vec<Sprite>>,
    pub position: Position,
}

/// The sheet holds both frames of both kinds of desk.
pub open spec fn has_desk_sprites(atlas: Atlas) -> bool {
    has_numbered(atlas, "desk-type-a-"@, 2) && has_numbered(atlas, "desk-type-b-"@, 2)
}

impl OfficeSprite {
    /// The pictures are those of `atlas`, and no others: kind 0 under
    /// `desk-type-a-` and the number of the frame, kind 1 under
    /// `desk-type-b-`.
    pub open spec fn shows(&self, atlas: Atlas) -> bool {
        &&& self.desk_sprites@.dom() =~= set![0i32, 1i32]
        &&& are_numbered(self.desk_sprites@[0]@, atlas, "desk-type-a-"@, 2)
        &&& are_numbered(self.desk_sprites@[1]@, atlas, "desk-type-b-"@, 2)
    }

    /// There are pictures for the kind of `desk`: both frames.
    pub open spec fn has_pictures_of(&self, desk: Desk) -> bool {
        &&& self.desk_sprites@.contains_key(desk.desk_type)
        &&& self.desk_sprites@[desk.desk_type]@.len() == 2
    }

    /// Whether there are pictures for the kind of `desk`.
    pub fn has_sprites_for(&self, desk: &Desk) -> (found: bool)
        ensures
            found == self.has_pictures_of(*desk),
    {
        broadcast use vstd::std_specs::hash::group_hash_axioms;

        match self.desk_sprites.get(&desk.desk_type) {
            Some(frames) => frames.len() == 2,
            None => false,
        }
    }

    /// The pictures of the desks as `atlas` holds them, if it holds them all.
    pub fn load(atlas: &Atlas) -> (loaded: Option<OfficeSprite>)
        ensures
            loaded is Some == has_desk_sprites(*atlas),
            loaded is Some ==> loaded->0.shows(*atlas),
            loaded is Some ==> loaded->0.position == (Position { x: 0, y: 0 }),
    {
        broadcast use vstd::std_specs::hash::group_hash_axioms;

        let kind_a = match atlas.load_numbered("desk-type-a-", 2) {
            Some(sprites) => sprites,
            None => {
                return None;
            },
        };
        let kind_b = match atlas.load_numbered("desk-type-b-", 2) {
            Some(sprites) => sprites,
            None => {
                return None;
            },
        };
        let mut desk_sprites: HashMap<i32, Vec<Sprite>> = HashMap::new();
        desk_sprites.insert(0, kind_a);
        desk_sprites.insert(1, kind_b);
        Some(OfficeSprite { desk_sprites, position: Position { x: 0, y: 0 } })
    }

    /// The pictures of the desks as `atlas` holds them.
    pub fn new(atlas: &Atlas) -> (sprite: OfficeSprite)
        requires
            has_desk_sprites(*atlas),
        ensures
            sprite.shows(*atlas),
            sprite.position == (Position { x: 0, y: 0 }),
    {
        match OfficeSprite::load(atlas) {
            Some(sprite) => sprite,
            None => vstd::pervasive::unreached(),
        }
    }

    /// The picture of `desk` in frame `frames`.
    pub open spec fn chosen(&self, frames: usize, desk: Desk) -> Sprite {
        self.desk_sprites@[desk.desk_type]@[desk_frame(frames, desk.animation_id) as int]
    }
}

impl DrawComponent for OfficeSprite {
    type Component = Desk;

    open spec fn drawable(
        &self,
        camera: &Camera,
        physics: &Physics,
        frames: usize,
        component: &Desk,
    ) -> bool {
        &&& self.has_pictures_of(*component)
        &&& in_range(sprite_destination(*camera, physics.position, self.chosen(frames, *component)))
    }

    open spec fn picture(
        &self,
        camera: &Camera,
        physics: &Physics,
        frames: usize,
        component: &Desk,
    ) -> DrawCommand {
        entity_picture(*camera, physics.position, self.chosen(frames, *component))
    }

    fn can_draw_component(
        &self,
        camera: &Camera,
        physics: &Physics,
        frames: usize,
        component: &Desk,
    ) -> (ok: bool) {
        broadcast use vstd::std_specs::hash::group_hash_axioms;

        match self.desk_sprites.get(&component.desk_type) {
            Some(sprites) => {
                if sprites.len() == 2 {
                    can_draw_entity(
                        camera,
                        &physics.position,
                        &sprites[animation_sprite_index(frames, component.animation_id)],
                    )
                } else {
                    false
                }
            },
            None => false,
        }
    }

    fn draw_component(
        &self,
        camera: &Camera,
        physics: &Physics,
        frames: usize,
        component: &Desk,
    ) -> (command: DrawCommand) {
        broadcast use vstd::std_specs::hash::group_hash_axioms;

        match self.desk_sprites.get(&component.desk_type) {
            Some(sprites) => draw_entity(
                camera,
                &physics.position,
                &sprites[animation_sprite_index(frames, component.animation_id)],
            ),
            None => vstd::pervasive::unreached(),
        }
    }
}

/// The picture that is drawn for a desk of one of the two kinds is the one
/// that the sheet holds under the name that is active in that frame, and
/// there are pictures for no other kind.
pub proof fn lemma_chosen_is_the_active_picture(
    sprite: OfficeSprite,
    atlas: Atlas,
    desk: Desk,
    frames: usize,
)
    requires
        sprite.shows(atlas),
    ensures
        sprite.has_pictures_of(desk) <==> desk.desk_type == 0 || desk.desk_type == 1,
        sprite.has_pictures_of(desk) ==> sprite.chosen(frames, desk) == atlas_sprite(
            atlas,
            active_key(desk, frames),
        ),
{
}

} // verus!
