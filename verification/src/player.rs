//! The player's movement rules: which way the keys point, and when a step is taken.
use vstd::prelude::*;

use crate::geometry::Point2;

verus! {

/// Extent of the box with which the player hits walls.
pub open spec fn player_size() -> Point2 {
    Point2 { x: 20, y: 20 }
}

/// Extent of the box with which the player hits walls.
pub fn player_collision_size() -> (size: Point2)
    ensures
        size == player_size(),
{
    Point2 { x: 20, y: 20 }
}

/// Which of the movement keys are held.
#[derive(Clone, Copy, Debug, PartialEq, Eq, Structural)]
pub struct MoveKeys {
    /// `W`: up.
    pub up: bool,
    /// `S`: down.
    pub down: bool,
    /// `A`: left.
    pub left: bool,
    /// `D`: right.
    pub right: bool,
}

/// `1` for a held key, `0` otherwise.
pub open spec fn key_value(held: bool) -> int {
    if held { 1 } else { 0 }
}

/// The direction the movement keys point in, before it is scaled to unit length: W and S
/// add one up and one down, A and D one left and one right; while a security camera is
/// active the player does not move at all.
pub fn move_direction(keys: MoveKeys, camera_switch: bool) -> (direction: Option<(i8, i8)>)
    ensures
        direction == (if camera_switch {
            None::<(i8, i8)>
        } else {
            Some(((key_value(keys.right) - key_value(keys.left)) as i8, (key_value(keys.up) - key_value(keys.down)) as i8))
        }),
{
    if camera_switch {
        return None;
    }
    let mut dx: i8 = 0;
    let mut dy: i8 = 0;
    if keys.up {
        dy = dy + 1;
    }
    if keys.down {
        dy = dy - 1;
    }
    if keys.left {
        dx = dx - 1;
    }
    if keys.right {
        dx = dx + 1;
    }
    Some((dx, dy))
}

/// The player takes the step to a new position only when the player's box there touches no
/// wall; `wall_hits[i]` tells whether it touches wall `i`.
pub fn move_allowed(wall_hits: &Vec<bool>) -> (allowed: bool)
    ensures
        allowed == (forall|i: int| 0 <= i < wall_hits@.len() ==> !#[trigger] wall_hits@[i]),
{
    let mut i: usize = 0;
    while i < wall_hits.len()
        invariant
            0 <= i <= wall_hits@.len(),
            forall|j: int| 0 <= j < i ==> !#[trigger] wall_hits@[j],
        decreases wall_hits@.len() - i,
    {
        if wall_hits[i] {
            return false;
        }
        i = i + 1;
    }
    true
}

/// Keys pulling in opposite directions cancel out: with both of a pair held, or neither,
/// the player does not move along that axis.
pub proof fn lemma_opposite_keys_cancel(keys: MoveKeys)
    ensures
        keys.up == keys.down ==> key_value(keys.up) - key_value(keys.down) == 0,
        keys.left == keys.right ==> key_value(keys.right) - key_value(keys.left) == 0,
{
}

} // verus!
