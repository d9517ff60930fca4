//! The names under which the sheets hold their pictures.

use vstd::prelude::*;
use vstd::string::*;
use crate::physics::Direction;

verus! {

/// The character of one decimal digit.
pub open spec fn digit_char(digit: nat) -> char {
    if digit == 0 {
        '0'
    } else if digit == 1 {
        '1'
    } else if digit == 2 {
        '2'
    } else if digit == 3 {
        '3'
    } else if digit == 4 {
        '4'
    } else if digit == 5 {
        '5'
    } else if digit == 6 {
        '6'
    } else if digit == 7 {
        '7'
    } else if digit == 8 {
        '8'
    } else {
        '9'
    }
}

/// A number written in decimal digits, without leading zeros.
pub open spec fn decimal_text(number: nat) -> Seq<char>
    decreases number,
{
    if number < 10 {
        seq![digit_char(number)]
    } else {
        decimal_text(number / 10).push(digit_char(number % 10))
    }
}

/// One decimal digit as a text.
fn digit_str(digit: usize) -> (text: &'static str)
    requires
        digit < 10,
    ensures
        text@ == seq![digit_char(digit as nat)],
{
    proof {
        reveal_strlit("0");
        reveal_strlit("1");
        reveal_strlit("2");
        reveal_strlit("3");
        reveal_strlit("4");
        reveal_strlit("5");
        reveal_strlit("6");
        reveal_strlit("7");
        reveal_strlit("8");
        reveal_strlit("9");
    }
    let text = if digit == 0 {
        "0"
    } else if digit == 1 {
        "1"
    } else if digit == 2 {
        "2"
    } else if digit == 3 {
        "3"
    } else if digit == 4 {
        "4"
    } else if digit == 5 {
        "5"
    } else if digit == 6 {
        "6"
    } else if digit == 7 {
        "7"
    } else if digit == 8 {
        "8"
    } else {
        "9"
    };
    assert(text@ =~= seq![digit_char(digit as nat)]);
    text
}

/// A number written in decimal digits.
pub fn decimal_string(number: usize) -> (text: String)
    ensures
        text@ == decimal_text(number as nat),
    decreases number,
{
    if number < 10 {
        digit_str(number).to_owned()
    } else {
        let mut text = decimal_string(number / 10);
        text.append(digit_str(number % 10));
        assert(text@ =~= decimal_text(number as nat));
        text
    }
}

/// The text `prefix` followed by `number` in decimal digits.
pub fn numbered_key(prefix: &str, number: usize) -> (key: String)
    ensures
        key@ == prefix@ + decimal_text(number as nat),
{
    let mut key = prefix.to_owned();
    let digits = decimal_string(number);
    key.append(digits.as_str());
    key
}

/// The name of the picture of the player at rest, facing `direction`.
pub open spec fn player_idle_key(direction: Direction) -> Seq<char> {
    "player-idle-"@ + decimal_text(direction.to_index() as nat)
}

/// The name of frame `animation_frame` of the player's walk in `direction`.
pub open spec fn player_walking_key(direction: Direction, animation_frame: nat) -> Seq<char> {
    "player-"@ + direction.name()@ + "-"@ + decimal_text(animation_frame)
}

/// The name of the picture of person `npc`.
pub open spec fn npc_key(npc: nat) -> Seq<char> {
    "npc_"@ + decimal_text(npc)
}

/// The name of frame `animation_frame` of a desk of kind `desk_type`: kind 0
/// is called `a` and every other kind `b`.
pub open spec fn desk_key(desk_type: int, animation_frame: nat) -> Seq<char> {
    (if desk_type == 0 {
        "desk-type-a-"@
    } else {
        "desk-type-b-"@
    }) + decimal_text(animation_frame)
}

pub fn player_idle_sprite_key(direction: Direction) -> (key: String)
    ensures
        key@ == player_idle_key(direction),
{
    numbered_key("player-idle-", direction.to_index())
}

pub fn player_walking_sprite_key(direction: Direction, animation_frame: usize) -> (key: String)
    ensures
        key@ == player_walking_key(direction, animation_frame as nat),
{
    let mut prefix = "player-".to_owned();
    prefix.append(direction.name());
    prefix.append("-");
    numbered_key(prefix.as_str(), animation_frame)
}

pub fn npc_sprite_key(npc: usize) -> (key: String)
    ensures
        key@ == npc_key(npc as nat),
{
    numbered_key("npc_", npc)
}

pub fn desk_sprite_key(desk_type: i32, animation_frame: usize) -> (key: String)
    ensures
        key@ == desk_key(desk_type as int, animation_frame as nat),
{
    if desk_type == 0 {
        numbered_key("desk-type-a-", animation_frame)
    } else {
        numbered_key("desk-type-b-", animation_frame)
    }
}

} // verus!
