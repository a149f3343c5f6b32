//! Keyboard input handling.
//!
//! Both handlers return the new paddle direction (-1 up, 0 stop, 1 down). The
//! WASD/arrow-key mapping is the input contract.
use vstd::prelude::*;
use crate::text::str_eq;

verus! {

/// The direction after `key` is pressed in direction `dir`.
pub open spec fn key_down_dir(key: Seq<char>, dir: i8) -> i8 {
    if is_up_key(key) { -1i8 } else if is_down_key(key) { 1i8 } else { dir }
}

/// The direction after `key` is released in direction `dir`.
pub open spec fn key_up_dir(key: Seq<char>, dir: i8) -> i8 {
    if is_up_key(key) || is_down_key(key) { 0i8 } else { dir }
}

/// Keys that move the paddle up.
pub open spec fn is_up_key(key: Seq<char>) -> bool {
    key == "ArrowUp"@ || key == "w"@ || key == "W"@
}

/// Keys that move the paddle down.
pub open spec fn is_down_key(key: Seq<char>) -> bool {
    key == "ArrowDown"@ || key == "s"@ || key == "S"@
}

fn up_key(key: &str) -> (r: bool)
    ensures
        r == is_up_key(key@),
{
    str_eq(key, "ArrowUp") || str_eq(key, "w") || str_eq(key, "W")
}

fn down_key(key: &str) -> (r: bool)
    ensures
        r == is_down_key(key@),
{
    str_eq(key, "ArrowDown") || str_eq(key, "s") || str_eq(key, "S")
}

/// The paddle direction after `key` is pressed: up keys give -1, down keys
/// give 1, any other key keeps `current_dir`.
pub fn handle_key_down(key: &str, current_dir: i8) -> (r: i8)
    ensures
        r == key_down_dir(key@, current_dir),
{
    if up_key(key) {
        -1
    } else if down_key(key) {
        1
    } else {
        current_dir
    }
}

/// The paddle direction after `key` is released: releasing a movement key
/// stops the paddle, any other key keeps `current_dir`.
pub fn handle_key_up(key: &str, current_dir: i8) -> (r: i8)
    ensures
        r == key_up_dir(key@, current_dir),
{
    if up_key(key) || down_key(key) {
        0
    } else {
        current_dir
    }
}

/// Up and down keys are different keys, so a key press has one meaning.
pub proof fn lemma_keys_are_unambiguous(key: Seq<char>)
    ensures
        !(is_up_key(key) && is_down_key(key)),
{
    reveal_strlit("ArrowUp");
    reveal_strlit("ArrowDown");
    reveal_strlit("w");
    reveal_strlit("W");
    reveal_strlit("s");
    reveal_strlit("S");
    assert("ArrowUp"@.len() == 7 && "ArrowDown"@.len() == 9);
    assert("w"@[0] == 'w' && "W"@[0] == 'W' && "s"@[0] == 's' && "S"@[0] == 'S');
    assert("ArrowUp"@[0] == 'A');
}

/// Pressing then releasing a movement key leaves the paddle stopped, and a
/// key that moves nothing never changes the direction.
pub proof fn lemma_press_release(key: Seq<char>, dir: i8)
    ensures
        (is_up_key(key) || is_down_key(key)) ==> key_up_dir(key, key_down_dir(key, dir)) == 0,
        !(is_up_key(key) || is_down_key(key)) ==> key_down_dir(key, dir) == dir && key_up_dir(key, dir) == dir,
{
}

} // verus!
