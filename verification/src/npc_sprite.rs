//! The pictures of the people of the office.

use vstd::prelude::*;
use crate::atlas::{are_numbered, atlas_sprite, has_numbered, Atlas};
use crate::camera::Camera;
use crate::components::Npc;
use crate::constants::NPC_COUNT;
use crate::draw::{can_draw_entity, draw_entity, entity_picture, in_range, sprite_destination};
use crate::physics::Physics;
use crate::sprite::{DrawCommand, Sprite};
use crate::sprite_keys::npc_key;

verus! {

/// One picture for each person, at the place of the person's number.
pub struct NpcSprite {
    pub sprites: Vec<Sprite>,
}

impl NpcSprite {
    /// The pictures of the people as `atlas` holds them under `npc_` and the
    /// person's number, if it holds them all.
    pub fn load(atlas: &Atlas) -> (loaded: Option<NpcSprite>)
        ensures
            loaded is Some == has_numbered(*atlas, "npc_"@, NPC_COUNT as nat),
            loaded is Some ==> are_numbered(
                loaded->0.sprites@,
                *atlas,
                "npc_"@,
                NPC_COUNT as nat,
            ),
    {
        match atlas.load_numbered("npc_", NPC_COUNT as usize) {
            Some(sprites) => Some(NpcSprite { sprites }),
            None => None,
        }
    }

    /// The pictures of the people as `atlas` holds them.
    pub fn new(atlas: &Atlas) -> (sprite: NpcSprite)
        requires
            has_numbered(*atlas, "npc_"@, NPC_COUNT as nat),
        ensures
            are_numbered(sprite.sprites@, *atlas, "npc_"@, NPC_COUNT as nat),
    {
        match NpcSprite::load(atlas) {
            Some(sprite) => sprite,
            None => vstd::pervasive::unreached(),
        }
    }

    /// Whether there is a picture of `npc`: the person has a number, and the
    /// number is one of the pictures.
    pub open spec fn has_picture_of(&self, npc: Npc) -> bool {
        npc.id is Some && npc.id->0 < self.sprites@.len()
    }

    /// Whether there is a picture of `npc`.
    pub fn has_sprite_for(&self, npc: &Npc) -> (found: bool)
        ensures
            found == self.has_picture_of(*npc),
    {
        match npc.id {
            Some(id) => (id as usize) < self.sprites.len(),
            None => false,
        }
    }

    /// Whether there is a picture of `npc`, and a place for it on screen.
    pub fn can_draw(&self, camera: &Camera, physics: &Physics, npc: &Npc) -> (ok: bool)
        ensures
            ok == (self.has_picture_of(*npc) && in_range(
                sprite_destination(*camera, physics.position, self.sprites@[npc.id->0 as int]),
            )),
    {
        match npc.id {
            Some(id) => {
                if (id as usize) < self.sprites.len() {
                    can_draw_entity(camera, &physics.position, &self.sprites[id as usize])
                } else {
                    false
                }
            },
            None => false,
        }
    }

    /// The order to draw `npc`.
    pub fn draw(&self, camera: &Camera, physics: &Physics, npc: &Npc) -> (command: DrawCommand)
        requires
            self.has_picture_of(*npc),
            in_range(
                sprite_destination(*camera, physics.position, self.sprites@[npc.id->0 as int]),
            ),
        ensures
            command == entity_picture(*camera, physics.position, self.sprites@[npc.id->0 as int]),
    {
        let id: usize = match npc.id {
            Some(id) => id as usize,
            None => vstd::pervasive::unreached(),
        };
        draw_entity(camera, &physics.position, &self.sprites[id])
    }
}

/// The picture that is drawn for a person is the one that the sheet holds
/// under the person's number.
pub proof fn lemma_picture_of_a_person(sprite: NpcSprite, atlas: Atlas, npc: Npc)
    requires
        are_numbered(sprite.sprites@, atlas, "npc_"@, NPC_COUNT as nat),
        npc.id is Some,
        npc.id->0 < NPC_COUNT,
    ensures
        sprite.has_picture_of(npc),
        sprite.sprites@[npc.id->0 as int] == atlas_sprite(atlas, npc_key(npc.id->0 as nat)),
{
}

} // verus!
