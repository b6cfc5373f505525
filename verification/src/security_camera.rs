//! The security cameras: keys 1 to 4 look into one room each and switch the camera away from
//! the player; key 5 brings it back.
use vstd::prelude::*;

use crate::geometry::{point3, Point3};

verus! {

/// Which of the camera keys were pressed this frame.
#[derive(Clone, Copy, Debug, PartialEq, Eq, Structural)]
pub struct CameraKeys {
    pub digit1: bool,
    pub digit2: bool,
    pub digit3: bool,
    pub digit4: bool,
    pub digit5: bool,
}

/// Where the camera is put.
#[derive(Clone, Copy, Debug, PartialEq, Eq, Structural)]
pub enum CameraTarget {
    /// A fixed security camera position.
    Fixed(Point3),
    /// Back on the player.
    Player,
}

/// What a frame of camera keys does: where the camera ends up (when it is moved), and
/// whether the camera switch is turned on or off.
#[derive(Clone, Copy, Debug, PartialEq, Eq, Structural)]
pub struct CameraUpdate {
    pub target: Option<CameraTarget>,
    pub insert_switch: bool,
    pub remove_switch: bool,
}

/// The position that security camera `k` (1 to 4) looks at.
pub open spec fn camera_position(k: int) -> Point3 {
    if k == 1 {
        point3(1024, -1024, 0)
    } else if k == 2 {
        point3(-1024, -1024, 0)
    } else if k == 3 {
        point3(1024, 1024, 0)
    } else {
        point3(-1024, 0, 0)
    }
}

/// Whether any of the keys 1 to 4 was pressed.
pub open spec fn any_fixed_camera(keys: CameraKeys) -> bool {
    keys.digit1 || keys.digit2 || keys.digit3 || keys.digit4
}

/// What a frame of camera keys does: the last key that moves the camera decides where it
/// goes; the switch is turned on by any of the keys 1 to 4 when it was off, and off by key 5
/// with a player present when it was on.
pub open spec fn camera_update(keys: CameraKeys, switch_active: bool, player_found: bool) -> CameraUpdate {
    CameraUpdate {
        target: if keys.digit5 && player_found {
            Some(CameraTarget::Player)
        } else if keys.digit4 {
            Some(CameraTarget::Fixed(camera_position(4)))
        } else if keys.digit3 {
            Some(CameraTarget::Fixed(camera_position(3)))
        } else if keys.digit2 {
            Some(CameraTarget::Fixed(camera_position(2)))
        } else if keys.digit1 {
            Some(CameraTarget::Fixed(camera_position(1)))
        } else {
            None
        },
        insert_switch: !switch_active && any_fixed_camera(keys),
        remove_switch: switch_active && keys.digit5 && player_found,
    }
}

/// Handles the camera keys of a frame, in the order 1 to 5. Each of the keys 1 to 4 moves
/// the camera to its position and, when the switch was off at the start of the frame, turns
/// it on; key 5, when there is a player, moves the camera onto the player and, when the
/// switch was on at the start of the frame, turns it off. The last move wins.
pub fn swap_cameras(keys: CameraKeys, switch_active: bool, player_found: bool) -> (update: CameraUpdate)
    ensures
        update == camera_update(keys, switch_active, player_found),
{
    let mut update = CameraUpdate { target: None, insert_switch: false, remove_switch: false };
    if keys.digit1 {
        update.target = Some(CameraTarget::Fixed(Point3 { x: 1024, y: -1024, z: 0 }));
        if !switch_active {
            update.insert_switch = true;
        }
    }
    if keys.digit2 {
        update.target = Some(CameraTarget::Fixed(Point3 { x: -1024, y: -1024, z: 0 }));
        if !switch_active {
            update.insert_switch = true;
        }
    }
    if keys.digit3 {
        update.target = Some(CameraTarget::Fixed(Point3 { x: 1024, y: 1024, z: 0 }));
        if !switch_active {
            update.insert_switch = true;
        }
    }
    if keys.digit4 {
        update.target = Some(CameraTarget::Fixed(Point3 { x: -1024, y: 0, z: 0 }));
        if !switch_active {
            update.insert_switch = true;
        }
    }
    if keys.digit5 {
        if !player_found {
            return update;
        }
        update.target = Some(CameraTarget::Player);
        if switch_active {
            update.remove_switch = true;
        }
    }
    update
}

/// Whether the camera switch is on after an update.
pub open spec fn switch_after(switch_active: bool, update: CameraUpdate) -> bool {
    (switch_active || update.insert_switch) && !update.remove_switch
}

/// The camera follows the player, and the player can move, only while the camera switch is
/// off.
pub fn follows_player(switch_active: bool) -> (follows: bool)
    ensures
        follows == !switch_active,
{
    !switch_active
}

/// A frame of camera keys never both turns the switch on and off; afterwards the switch is on
/// exactly when it was on and key 5 did not bring the camera back to a player, or it was off
/// and one of the keys 1 to 4 was pressed.
pub proof fn lemma_switch_after_keys(keys: CameraKeys, switch_active: bool, player_found: bool)
    ensures
        !(camera_update(keys, switch_active, player_found).insert_switch && camera_update(keys, switch_active, player_found).remove_switch),
        switch_after(switch_active, camera_update(keys, switch_active, player_found)) == (if switch_active {
            !(keys.digit5 && player_found)
        } else {
            any_fixed_camera(keys)
        }),
{
}

/// The keys of a frame in which only key `k` (1 to 5) is pressed.
pub open spec fn only_key(k: int) -> CameraKeys {
    CameraKeys { digit1: k == 1, digit2: k == 2, digit3: k == 3, digit4: k == 4, digit5: k == 5 }
}

/// Each of the keys 1 to 4, pressed alone, moves the camera to its security camera, whether
/// or not the camera switch is on and whether or not there is a player: key 1 to
/// (1024, -1024), key 2 to (-1024, -1024), key 3 to (1024, 1024), key 4 to (-1024, 0).
/// Key 5 alone brings the camera to the player when there is one, and otherwise leaves it.
pub proof fn lemma_single_camera_key(switch_active: bool, player_found: bool)
    ensures
        camera_update(only_key(1), switch_active, player_found).target == Some(CameraTarget::Fixed(point3(1024, -1024, 0))),
        camera_update(only_key(2), switch_active, player_found).target == Some(CameraTarget::Fixed(point3(-1024, -1024, 0))),
        camera_update(only_key(3), switch_active, player_found).target == Some(CameraTarget::Fixed(point3(1024, 1024, 0))),
        camera_update(only_key(4), switch_active, player_found).target == Some(CameraTarget::Fixed(point3(-1024, 0, 0))),
        camera_update(only_key(5), switch_active, player_found).target == (if player_found {
            Some(CameraTarget::Player)
        } else {
            None::<CameraTarget>
        }),
{
}

/// Where the camera goes depends only on the keys and on whether there is a player, never on
/// whether the camera switch was on; the switch decides only whether it is turned on or off.
pub proof fn lemma_target_ignores_switch(keys: CameraKeys, player_found: bool)
    ensures
        camera_update(keys, true, player_found).target == camera_update(keys, false, player_found).target,
        !camera_update(keys, true, player_found).insert_switch,
        !camera_update(keys, false, player_found).remove_switch,
{
}

/// Any frame in which one of the keys 1 to 4 is pressed and key 5 does not bring the camera
/// to a player moves the camera to one of the four security cameras.
pub proof fn lemma_fixed_key_moves_camera(keys: CameraKeys, switch_active: bool, player_found: bool)
    requires
        keys.digit1 || keys.digit2 || keys.digit3 || keys.digit4,
        !(keys.digit5 && player_found),
    ensures
        ({
            let t = camera_update(keys, switch_active, player_found).target;
            t == Some(CameraTarget::Fixed(point3(1024, -1024, 0))) || t == Some(CameraTarget::Fixed(point3(-1024, -1024, 0)))
                || t == Some(CameraTarget::Fixed(point3(1024, 1024, 0))) || t == Some(CameraTarget::Fixed(point3(-1024, 0, 0)))
        }),
{
}

} // verus!
