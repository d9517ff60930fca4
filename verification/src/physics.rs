//! The physical side of an entity: where it is, how large, how fast, and
//! which way it faces.

use vstd::prelude::*;
use crate::input_system::Key;
use crate::positioning::{candidate, move_within, Position, Sizable, Size};

verus! {

/// The way an entity faces.
#[derive(Clone, Copy, Debug, PartialEq, Eq, Hash, Structural)]
pub enum Direction {
    Up,
    Down,
    Left,
    Right,
}

impl Direction {
    /// The place of a direction in the sprite sheet's rows, which run
    /// clockwise from `Up`.
    pub open spec fn spec_to_index(self) -> usize {
        match self {
            Direction::Up => 0,
            Direction::Right => 1,
            Direction::Down => 2,
            Direction::Left => 3,
        }
    }

    #[verifier::when_used_as_spec(spec_to_index)]
    pub fn to_index(self) -> (index: usize)
        ensures
            index == self.spec_to_index(),
    {
        match self {
            Direction::Up => 0,
            Direction::Right => 1,
            Direction::Down => 2,
            Direction::Left => 3,
        }
    }

    /// The word for a direction in the names of the sprite sheets.
    pub open spec fn spec_name(self) -> &'static str {
        match self {
            Direction::Up => "up",
            Direction::Down => "down",
            Direction::Left => "left",
            Direction::Right => "right",
        }
    }

    #[verifier::when_used_as_spec(spec_name)]
    pub fn name(self) -> (name: &'static str)
        ensures
            name == self.spec_name(),
    {
        match self {
            Direction::Up => "up",
            Direction::Down => "down",
            Direction::Left => "left",
            Direction::Right => "right",
        }
    }

    /// The four directions, in the order in which they are declared.
    pub open spec fn every() -> Seq<Direction> {
        seq![Direction::Up, Direction::Down, Direction::Left, Direction::Right]
    }

    /// The four directions, in the order in which they are declared.
    pub fn iter() -> (directions: Vec<Direction>)
        ensures
            directions@ == Direction::every(),
    {
        let mut directions: Vec<Direction> = Vec::new();
        directions.push(Direction::Up);
        directions.push(Direction::Down);
        directions.push(Direction::Left);
        directions.push(Direction::Right);
        assert(directions@ =~= Direction::every());
        directions
    }

    /// The direction of an arrow key; no other key has one.
    pub open spec fn spec_from_key(key: Key) -> Option<Direction> {
        match key {
            Key::Up => Some(Direction::Up),
            Key::Down => Some(Direction::Down),
            Key::Left => Some(Direction::Left),
            Key::Right => Some(Direction::Right),
            _ => None,
        }
    }

    #[verifier::when_used_as_spec(spec_from_key)]
    pub fn from_key(key: Key) -> (direction: Option<Direction>)
        ensures
            direction == Direction::spec_from_key(key),
    {
        match key {
            Key::Up => Some(Direction::Up),
            Key::Down => Some(Direction::Down),
            Key::Left => Some(Direction::Left),
            Key::Right => Some(Direction::Right),
            _ => None,
        }
    }

    /// The arrow key that moves an entity this way.
    pub open spec fn spec_key(self) -> Key {
        match self {
            Direction::Up => Key::Up,
            Direction::Down => Key::Down,
            Direction::Left => Key::Left,
            Direction::Right => Key::Right,
        }
    }

    #[verifier::when_used_as_spec(spec_key)]
    pub fn key(self) -> (key: Key)
        ensures
            key == self.spec_key(),
    {
        match self {
            Direction::Up => Key::Up,
            Direction::Down => Key::Down,
            Direction::Left => Key::Left,
            Direction::Right => Key::Right,
        }
    }
}

/// A colour, one byte per channel.
#[derive(Clone, Copy, Debug, PartialEq, Eq, Structural)]
pub struct Color {
    pub r: u8,
    pub g: u8,
    pub b: u8,
    pub a: u8,
}

impl Color {
    /// An opaque colour.
    pub fn from_rgb(r: u8, g: u8, b: u8) -> (color: Color)
        ensures
            color == (Color { r, g, b, a: 255 }),
    {
        Color { r, g, b, a: 255 }
    }

    pub fn white() -> (color: Color)
        ensures
            color == (Color { r: 255, g: 255, b: 255, a: 255 }),
    {
        Color { r: 255, g: 255, b: 255, a: 255 }
    }
}

/// The physical side of one entity. `speed` is in world units per second;
/// `current_focus` is the slot of the entity that this one is in contact
/// with, if any.
#[derive(Clone, Copy, Debug, PartialEq, Eq)]
pub struct Physics {
    pub position: Position,
    pub size: Size,
    pub speed: u32,
    pub color: Color,
    pub direction: Option<Direction>,
    pub walking: bool,
    pub current_focus: Option<usize>,
}

impl Sizable for Physics {
    open spec fn size_of(&self) -> Size {
        self.size
    }

    open spec fn position_of(&self) -> Position {
        self.position
    }

    fn get_size(&self) -> (size: &Size) {
        &self.size
    }

    fn get_position(&self) -> (position: &Position) {
        &self.position
    }
}

impl Physics {
    /// An entity that stands still.
    pub fn new(
        position: Position,
        size: Size,
        speed: u32,
        color: Color,
        direction: Option<Direction>,
        current_focus: Option<usize>,
    ) -> (physics: Physics)
        ensures
            physics == (Physics {
                position,
                size,
                speed,
                color,
                direction,
                walking: false,
                current_focus,
            }),
    {
        Physics { position, size, speed, color, direction, walking: false, current_focus }
    }

    /// Walks along `direction` for `dt_micros` and stays inside the world.
    /// The entity counts as walking afterwards, whether or not it got
    /// anywhere; nothing else about it changes.
    pub fn update_position(&mut self, dt_micros: u32, direction: Key, world_size: &Size)
        ensures
            (final(self).position.x as int, final(self).position.y as int) == candidate(
                old(self).position,
                old(self).size,
                old(self).speed,
                direction,
                dt_micros,
                *world_size,
            ),
            final(self).walking,
            final(self).size == old(self).size,
            final(self).speed == old(self).speed,
            final(self).color == old(self).color,
            final(self).direction == old(self).direction,
            final(self).current_focus == old(self).current_focus,
    {
        self.position = move_within(
            self.position,
            &self.size,
            self.speed,
            direction,
            dt_micros,
            world_size,
        );
        self.walking = true;
    }
}

} // verus!
