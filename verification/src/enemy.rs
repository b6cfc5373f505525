//! The enemies: who they are, where they start, and when they start chasing the player.
use vstd::prelude::*;

use crate::entity::Name;
use crate::geometry::{point3, Point2, Point3};

verus! {

/// What an enemy is doing.
#[derive(Clone, Copy, Debug, PartialEq, Eq, Structural)]
pub enum EnemyState {
    /// Waiting in its room until the player comes in.
    Patrolling,
    /// Walking straight at the player.
    Chasing,
}

/// An enemy.
#[derive(Debug)]
pub struct Enemy {
    pub name: Name,
    pub pos: Point3,
    pub sprite_path: String,
    pub can_move_through_walls: bool,
    pub state: EnemyState,
}

/// What an enemy is, as plain values.
pub struct EnemyView {
    pub name: Seq<char>,
    pub pos: Point3,
    pub sprite_path: Seq<char>,
    pub can_move_through_walls: bool,
    pub state: EnemyState,
}

impl View for Enemy {
    type V = EnemyView;

    open spec fn view(&self) -> EnemyView {
        EnemyView {
            name: self.name.0@,
            pos: self.pos,
            sprite_path: self.sprite_path@,
            can_move_through_walls: self.can_move_through_walls,
            state: self.state,
        }
    }
}

impl Enemy {
    /// An enemy with the given name, start, sprite, wall behaviour and state.
    pub fn new(name: Name, pos: Point3, sprite_path: String, can_move_through_walls: bool, state: EnemyState) -> (e: Enemy)
        ensures
            e.name == name,
            e.pos == pos,
            e.sprite_path == sprite_path,
            e.can_move_through_walls == can_move_through_walls,
            e.state == state,
    {
        Enemy { name, pos, sprite_path, can_move_through_walls, state }
    }
}

/// Extent of an enemy's sprite.
pub open spec fn enemy_sprite_size() -> Point2 {
    Point2 { x: 128, y: 128 }
}

/// Extent of the box with which an enemy hits walls.
pub open spec fn enemy_size() -> Point2 {
    Point2 { x: 64, y: 128 }
}

/// The enemies of the house: name, start, sprite and whether walls stop them; all start
/// patrolling.
pub open spec fn enemy_roster() -> Seq<EnemyView> {
    seq![
        EnemyView { name: "Asmodeus"@, pos: point3(1024, -1024, 0), sprite_path: "img/asmodeus.png"@, can_move_through_walls: false, state: EnemyState::Patrolling },
        EnemyView { name: "Beelzebub"@, pos: point3(-1024, -1024, 0), sprite_path: "img/beelzebub.png"@, can_move_through_walls: false, state: EnemyState::Patrolling },
        EnemyView { name: "Poltergeist"@, pos: point3(1024, 1024, 0), sprite_path: "img/poltergeist.png"@, can_move_through_walls: true, state: EnemyState::Patrolling },
        EnemyView { name: "Lucifer"@, pos: point3(-1024, 0, 0), sprite_path: "img/lucifer.png"@, can_move_through_walls: false, state: EnemyState::Patrolling },
    ]
}

fn enemy(name: &str, x: i64, y: i64, sprite: &str, through_walls: bool) -> (e: Enemy)
    ensures
        e@ == (EnemyView { name: name@, pos: Point3 { x, y, z: 0 }, sprite_path: sprite@, can_move_through_walls: through_walls, state: EnemyState::Patrolling }),
{
    Enemy::new(Name(name.to_owned()), Point3 { x, y, z: 0 }, sprite.to_owned(), through_walls, EnemyState::Patrolling)
}

/// The enemies that are added to the world when play starts.
pub fn add_enemies() -> (enemies: Vec<Enemy>)
    ensures
        enemies@.len() == enemy_roster().len(),
        forall|i: int| 0 <= i < enemies@.len() ==> #[trigger] enemies@[i]@ == enemy_roster()[i],
{
    let mut enemies: Vec<Enemy> = Vec::new();
    enemies.push(enemy("Asmodeus", 1024, -1024, "img/asmodeus.png", false));
    enemies.push(enemy("Beelzebub", -1024, -1024, "img/beelzebub.png", false));
    enemies.push(enemy("Poltergeist", 1024, 1024, "img/poltergeist.png", true));
    enemies.push(enemy("Lucifer", -1024, 0, "img/lucifer.png", false));
    enemies
}

/// Whether some room holds both the enemy and the player; entry `i` tells whether the
/// enemy, and whether the player, touch room `i`.
pub open spec fn shares_room(rooms: Seq<(bool, bool)>) -> bool {
    exists|i: int| 0 <= i < rooms.len() && (#[trigger] rooms[i]).0 && rooms[i].1
}

/// The state of an enemy after a frame: a patrolling enemy starts chasing once it is in a
/// room together with the player; a chasing enemy keeps chasing.
pub open spec fn state_after(state: EnemyState, rooms: Seq<(bool, bool)>) -> EnemyState {
    if state == EnemyState::Chasing || shares_room(rooms) {
        EnemyState::Chasing
    } else {
        EnemyState::Patrolling
    }
}

/// The state of an enemy after a run of frames, each given by which rooms the enemy and the
/// player touch.
pub open spec fn state_after_frames(state: EnemyState, frames: Seq<Seq<(bool, bool)>>) -> EnemyState
    decreases frames.len(),
{
    if frames.len() == 0 {
        state
    } else {
        state_after(state_after_frames(state, frames.drop_last()), frames.last())
    }
}

/// The state of an enemy after a frame: a patrolling enemy starts chasing once it is in a
/// room together with the player; a chasing enemy keeps chasing. `rooms[i]` tells whether
/// the enemy, and whether the player, touch room `i`.
pub fn enemy_next_state(state: EnemyState, rooms: &Vec<(bool, bool)>) -> (next: EnemyState)
    ensures
        next == state_after(state, rooms@),
{
    if state == EnemyState::Chasing {
        return EnemyState::Chasing;
    }
    let mut next = EnemyState::Patrolling;
    let mut i: usize = 0;
    while i < rooms.len()
        invariant
            0 <= i <= rooms@.len(),
            next == (if shares_room(rooms@.take(i as int)) { EnemyState::Chasing } else { EnemyState::Patrolling }),
        decreases rooms@.len() - i,
    {
        proof {
            let r0 = rooms@.take(i as int);
            let r1 = rooms@.take(i + 1);
            if shares_room(r1) {
                let k = choose|k: int| 0 <= k < r1.len() && (#[trigger] r1[k]).0 && r1[k].1;
                if k < i {
                    assert(r0[k] == r1[k]);
                }
            }
            if shares_room(r0) {
                let k = choose|k: int| 0 <= k < r0.len() && (#[trigger] r0[k]).0 && r0[k].1;
                assert(r1[k] == r0[k]);
            }
            assert(r1[i as int] == rooms@[i as int]);
        }
        let (enemy_in, player_in) = rooms[i];
        if enemy_in && player_in {
            next = EnemyState::Chasing;
        }
        i = i + 1;
    }
    assert(rooms@.take(rooms@.len() as int) =~= rooms@);
    next
}

/// A chasing enemy takes the step towards the player unless its box at the new position
/// touches a wall and walls stop it; `wall_hits[i]` tells whether it touches wall `i`.
pub fn chase_move_allowed(can_move_through_walls: bool, wall_hits: &Vec<bool>) -> (allowed: bool)
    ensures
        allowed == (can_move_through_walls || forall|i: int| 0 <= i < wall_hits@.len() ==> !#[trigger] wall_hits@[i]),
{
    let mut i: usize = 0;
    while i < wall_hits.len()
        invariant
            0 <= i <= wall_hits@.len(),
            !can_move_through_walls ==> forall|j: int| 0 <= j < i ==> !#[trigger] wall_hits@[j],
        decreases wall_hits@.len() - i,
    {
        if wall_hits[i] && !can_move_through_walls {
            return false;
        }
        i = i + 1;
    }
    true
}

/// Once an enemy chases the player it never goes back to patrolling; over any run of frames
/// it ends up chasing exactly when it was chasing at the start or, in some frame, shared a
/// room with the player.
pub proof fn lemma_chasing_is_final(state: EnemyState, frames: Seq<Seq<(bool, bool)>>)
    ensures
        state == EnemyState::Chasing ==> state_after_frames(state, frames) == EnemyState::Chasing,
        (state_after_frames(state, frames) == EnemyState::Chasing) == (state == EnemyState::Chasing
            || exists|k: int| 0 <= k < frames.len() && shares_room(#[trigger] frames[k])),
    decreases frames.len(),
{
    if frames.len() > 0 {
        let init = frames.drop_last();
        lemma_chasing_is_final(state, init);
        if exists|k: int| 0 <= k < init.len() && shares_room(#[trigger] init[k]) {
            let k = choose|k: int| 0 <= k < init.len() && shares_room(#[trigger] init[k]);
            assert(frames[k] == init[k]);
        }
        if exists|k: int| 0 <= k < frames.len() && shares_room(#[trigger] frames[k]) {
            let k = choose|k: int| 0 <= k < frames.len() && shares_room(#[trigger] frames[k]);
            if k < init.len() {
                assert(frames[k] == init[k]);
            }
        }
    }
}

/// A patrolling enemy starts chasing exactly when some room, wherever it stands in the list,
/// holds both the enemy and the player: any room holding both is enough, and with none it
/// keeps patrolling.
pub proof fn lemma_chase_when_any_room_is_shared(rooms: Seq<(bool, bool)>, i: int)
    ensures
        0 <= i < rooms.len() && rooms[i] == (true, true) ==> state_after(EnemyState::Patrolling, rooms)
            == EnemyState::Chasing,
        (forall|j: int| 0 <= j < rooms.len() ==> (#[trigger] rooms[j]) != (true, true)) ==> state_after(
            EnemyState::Patrolling,
            rooms,
        ) == EnemyState::Patrolling,
{
    if 0 <= i < rooms.len() && rooms[i] == (true, true) {
        assert(rooms[i].0 && rooms[i].1);
    }
    if forall|j: int| 0 <= j < rooms.len() ==> (#[trigger] rooms[j]) != (true, true) {
        if exists|j: int| 0 <= j < rooms.len() && (#[trigger] rooms[j]).0 && rooms[j].1 {
            let j = choose|j: int| 0 <= j < rooms.len() && (#[trigger] rooms[j]).0 && rooms[j].1;
            assert(rooms[j] == (true, true));
        }
    }
}

/// The order of the rooms does not matter: listing them in another order gives the same state.
pub proof fn lemma_room_order_irrelevant(state: EnemyState, rooms: Seq<(bool, bool)>, others: Seq<(bool, bool)>)
    requires
        rooms.to_multiset() == others.to_multiset(),
    ensures
        state_after(state, rooms) == state_after(state, others),
{
    broadcast use vstd::seq_lib::group_to_multiset_ensures;
    assert forall|r: Seq<(bool, bool)>, o: Seq<(bool, bool)>| r.to_multiset() == o.to_multiset() && shares_room(r) implies shares_room(o) by {
        let k = choose|k: int| 0 <= k < r.len() && (#[trigger] r[k]).0 && r[k].1;
        assert(r.contains(r[k]));
        assert(r.to_multiset().count(r[k]) > 0);
        assert(o.to_multiset().count(r[k]) > 0);
        assert(o.contains(r[k]));
        let m = choose|m: int| 0 <= m < o.len() && o[m] == r[k];
        assert(o[m].0 && o[m].1);
    }
}

} // verus!
