//! A sprite sheet's table of contents: named rectangles in one image.

use vstd::prelude::*;
use crate::sprite::Sprite;
use crate::sprite_keys::{decimal_text, numbered_key};

verus! {

/// The extents of the sheet's image, in pixels.
#[derive(Clone, Copy, Debug, PartialEq, Eq, Structural)]
pub struct AtlasSize {
    pub w: i32,
    pub h: i32,
}

#[derive(Clone, Copy, Debug, PartialEq, Eq, Structural)]
pub struct Meta {
    pub size: AtlasSize,
}

/// A rectangle of the sheet, in pixels.
#[derive(Clone, Copy, Debug, PartialEq, Eq, Structural)]
pub struct JsonRect {
    pub x: i32,
    pub y: i32,
    pub w: i32,
    pub h: i32,
}

/// One named rectangle of the sheet.
#[derive(Debug, PartialEq, Eq)]
pub struct SpriteData {
    pub filename: String,
    pub frame: JsonRect,
}

/// The named rectangles of a sheet, and the size of its image.
#[derive(Debug, PartialEq, Eq)]
pub struct Atlas {
    pub frames: Vec<SpriteData>,
    pub meta: Meta,
}

/// Frame `index` is the first of `frames` that is called `name`.
pub open spec fn is_first_named(frames: Seq<SpriteData>, name: Seq<char>, index: int) -> bool {
    &&& 0 <= index < frames.len()
    &&& frames[index].filename@ == name
    &&& forall|earlier: int| 0 <= earlier < index ==> (#[trigger] frames[earlier]).filename@ != name
}

/// Some frame of `frames` is called `name`.
pub open spec fn has_frame(frames: Seq<SpriteData>, name: Seq<char>) -> bool {
    exists|index: int| 0 <= index < frames.len() && (#[trigger] frames[index]).filename@ == name
}

/// The place of the first frame that is called `name`.
pub open spec fn first_named(frames: Seq<SpriteData>, name: Seq<char>) -> int {
    choose|index: int| is_first_named(frames, name, index)
}

/// The sprite that a frame of a sheet of `size` makes.
pub open spec fn sprite_of(data: SpriteData, size: AtlasSize) -> Sprite {
    Sprite {
        rect: data.frame,
        sheet: size,
        scale_x: 1,
        scale_y: 1,
        width: data.frame.w,
        height: data.frame.h,
    }
}

/// The sprite that the sheet holds under `name`.
pub open spec fn atlas_sprite(atlas: Atlas, name: Seq<char>) -> Sprite {
    sprite_of(atlas.frames@[first_named(atlas.frames@, name)], atlas.meta.size)
}

/// The sheet holds a picture under `prefix` followed by each of the numbers
/// below `count`.
pub open spec fn has_numbered(atlas: Atlas, prefix: Seq<char>, count: nat) -> bool {
    forall|number: nat|
        number < count ==> has_frame(atlas.frames@, prefix + #[trigger] decimal_text(number))
}

/// `sprites` are the pictures that the sheet holds under `prefix` followed
/// by the numbers below `count`, in the numbers' order.
pub open spec fn are_numbered(
    sprites: Seq<Sprite>,
    atlas: Atlas,
    prefix: Seq<char>,
    count: nat,
) -> bool {
    &&& sprites.len() == count
    &&& forall|number: int|
        0 <= number < count ==> #[trigger] sprites[number] == atlas_sprite(
            atlas,
            prefix + decimal_text(number as nat),
        )
}

impl Atlas {
    /// The place of the first frame that is called `sprite_name`, if there is
    /// one.
    pub fn find_sprite(&self, sprite_name: &str) -> (found: Option<usize>)
        ensures
            match found {
                Some(index) => is_first_named(self.frames@, sprite_name@, index as int),
                None => !has_frame(self.frames@, sprite_name@),
            },
            found is Some == has_frame(self.frames@, sprite_name@),
            found is Some ==> found->0 == first_named(self.frames@, sprite_name@),
    {
        let wanted: String = sprite_name.to_owned();
        let mut index: usize = 0;
        while index < self.frames.len()
            invariant
                index <= self.frames.len(),
                wanted@ == sprite_name@,
                forall|earlier: int|
                    0 <= earlier < index ==> (#[trigger] self.frames@[earlier]).filename@
                        != sprite_name@,
            decreases self.frames.len() - index,
        {
            if self.frames[index].filename == wanted {
                proof {
                    lemma_first_named_is_unique(self.frames@, sprite_name@, index as int);
                }
                return Some(index);
            }
            index = index + 1;
        }
        None
    }

    /// Whether the sheet has a frame that is called `sprite_name`.
    pub fn has_sprite(&self, sprite_name: &str) -> (found: bool)
        ensures
            found == has_frame(self.frames@, sprite_name@),
    {
        self.find_sprite(sprite_name).is_some()
    }

    /// The sprite of the first frame that is called `sprite_name`, if there
    /// is one.
    pub fn try_create_sprite(&self, sprite_name: &str) -> (sprite: Option<Sprite>)
        ensures
            sprite is Some == has_frame(self.frames@, sprite_name@),
            sprite is Some ==> sprite->0 == atlas_sprite(*self, sprite_name@),
    {
        match self.find_sprite(sprite_name) {
            Some(index) => {
                let frame = self.frames[index].frame;
                Some(Sprite::new(frame, self.meta.size, frame.w, frame.h))
            },
            None => None,
        }
    }

    /// The pictures that the sheet holds under `prefix` followed by the
    /// numbers below `count`, if it holds them all.
    pub fn load_numbered(&self, prefix: &str, count: usize) -> (sprites: Option<Vec<Sprite>>)
        ensures
            sprites is Some == has_numbered(*self, prefix@, count as nat),
            sprites is Some ==> are_numbered(sprites->0@, *self, prefix@, count as nat),
    {
        let mut sprites: Vec<Sprite> = Vec::new();
        let mut number: usize = 0;
        while number < count
            invariant
                number <= count,
                has_numbered(*self, prefix@, number as nat),
                are_numbered(sprites@, *self, prefix@, number as nat),
            decreases count - number,
        {
            let key = numbered_key(prefix, number);
            match self.try_create_sprite(key.as_str()) {
                Some(sprite) => {
                    sprites.push(sprite);
                },
                None => {
                    assert(!has_frame(self.frames@, prefix@ + decimal_text(number as nat)));
                    return None;
                },
            }
            number = number + 1;
        }
        Some(sprites)
    }

    /// The sprite of the first frame that is called `sprite_name`.
    pub fn create_sprite(&self, sprite_name: &str) -> (sprite: Sprite)
        requires
            has_frame(self.frames@, sprite_name@),
        ensures
            sprite == atlas_sprite(*self, sprite_name@),
    {
        match self.try_create_sprite(sprite_name) {
            Some(sprite) => sprite,
            None => vstd::pervasive::unreached(),
        }
    }
}

/// Only one frame is the first of its name.
pub proof fn lemma_first_named_is_unique(frames: Seq<SpriteData>, name: Seq<char>, index: int)
    requires
        is_first_named(frames, name, index),
    ensures
        first_named(frames, name) == index,
        has_frame(frames, name),
{
    let chosen = first_named(frames, name);
    assert(is_first_named(frames, name, chosen));
    if chosen < index {
        assert(frames[chosen].filename@ != name);
    }
    if index < chosen {
        assert(frames[index].filename@ != name);
    }
}

} // verus!
