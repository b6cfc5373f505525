use slots_from_hell::enemy::{add_enemies, chase_move_allowed, enemy_next_state, EnemyState};
use slots_from_hell::entity::add_entities;
use slots_from_hell::geometry::Point3;
use slots_from_hell::player::{move_allowed, move_direction, player_collision_size, MoveKeys};
use slots_from_hell::game_menu::{player_input, GameState, MenuState};
use slots_from_hell::security_camera::{follows_player, swap_cameras, CameraKeys, CameraTarget, CameraUpdate};

fn keys(k: [bool; 5]) -> CameraKeys {
    CameraKeys { digit1: k[0], digit2: k[1], digit3: k[2], digit4: k[3], digit5: k[4] }
}

#[test]
fn test_add_entities() {
    let roster = add_entities();
    assert_eq!(roster.player.0, "Player");
    let names: Vec<&str> = roster.entities.iter().map(|n| n.0.as_str()).collect();
    assert_eq!(names, vec!["Asmodeus", "Entity2", "Entity3", "Entity4"]);
    assert_eq!(1 + roster.entities.len(), 5);
}

#[test]
fn four_enemies_start_patrolling() {
    let enemies = add_enemies();
    assert_eq!(enemies.len(), 4);
    let names: Vec<&str> = enemies.iter().map(|e| e.name.0.as_str()).collect();
    assert_eq!(names, vec!["Asmodeus", "Beelzebub", "Poltergeist", "Lucifer"]);
    assert!(enemies.iter().all(|e| e.state == EnemyState::Patrolling));
    assert_eq!(enemies.iter().filter(|e| e.can_move_through_walls).count(), 1);
    assert!(enemies[2].can_move_through_walls);
    assert_eq!(enemies[0].pos, Point3 { x: 1024, y: -1024, z: 0 });
    assert_eq!(enemies[3].sprite_path, "img/lucifer.png");
}

#[test]
fn each_security_camera_looks_at_an_enemy_start() {
    let enemies = add_enemies();
    for (k, enemy) in enemies.iter().enumerate() {
        let mut pressed = [false; 5];
        pressed[k] = true;
        let update = swap_cameras(keys(pressed), false, true);
        assert_eq!(update.target, Some(CameraTarget::Fixed(enemy.pos)));
        assert!(update.insert_switch);
        assert!(!update.remove_switch);
    }
}

#[test]
fn key_five_brings_the_camera_back() {
    let update = swap_cameras(keys([false, false, false, false, true]), true, true);
    assert_eq!(update, CameraUpdate { target: Some(CameraTarget::Player), insert_switch: false, remove_switch: true });
    let no_player = swap_cameras(keys([false, true, false, false, true]), true, false);
    assert_eq!(
        no_player,
        CameraUpdate { target: Some(CameraTarget::Fixed(Point3 { x: -1024, y: -1024, z: 0 })), insert_switch: false, remove_switch: false }
    );
    let both = swap_cameras(keys([true, false, false, true, false]), false, true);
    assert_eq!(both.target, Some(CameraTarget::Fixed(Point3 { x: -1024, y: 0, z: 0 })));
    assert_eq!(swap_cameras(keys([false; 5]), true, true), CameraUpdate { target: None, insert_switch: false, remove_switch: false });
    assert!(follows_player(false));
    assert!(!follows_player(true));
}

#[test]
fn test_player_movement() {
    let k = |up, down, left, right| MoveKeys { up, down, left, right };
    assert_eq!(move_direction(k(true, false, false, false), false), Some((0, 1)));
    assert_eq!(move_direction(k(false, true, true, false), false), Some((-1, -1)));
    assert_eq!(move_direction(k(true, true, false, true), false), Some((1, 0)));
    assert_eq!(move_direction(k(true, true, true, true), false), Some((0, 0)));
    assert_eq!(move_direction(k(true, false, false, false), true), None);
    assert_eq!(player_collision_size().x, 20);
}

#[test]
fn walls_stop_steps() {
    assert!(move_allowed(&vec![]));
    assert!(move_allowed(&vec![false, false]));
    assert!(!move_allowed(&vec![false, true, false]));
    assert!(chase_move_allowed(false, &vec![false, false]));
    assert!(!chase_move_allowed(false, &vec![false, true]));
    assert!(chase_move_allowed(true, &vec![true, true]));
}

#[test]
fn enemies_chase_once_they_share_a_room() {
    let none = vec![(false, false), (false, false), (false, false)];
    assert_eq!(enemy_next_state(EnemyState::Patrolling, &vec![(true, false), (false, true), (false, false)]), EnemyState::Patrolling);
    assert_eq!(enemy_next_state(EnemyState::Patrolling, &vec![(false, false), (true, true), (false, true)]), EnemyState::Chasing);
    assert_eq!(enemy_next_state(EnemyState::Chasing, &none), EnemyState::Chasing);
    assert_eq!(enemy_next_state(EnemyState::Patrolling, &vec![]), EnemyState::Patrolling);
    let mut state = EnemyState::Patrolling;
    for frame in [none.clone(), vec![(true, true)], none.clone(), vec![]] {
        state = enemy_next_state(state, &frame);
    }
    assert_eq!(state, EnemyState::Chasing);
}

#[test]
fn test_player_input() {
    assert_eq!(player_input(true), Some((GameState::Pause, MenuState::Pause)));
    assert_eq!(player_input(false), None);
}

#[test]
fn test_update_camera() {
    assert!(follows_player(false));
    assert!(!follows_player(true));
    let away = swap_cameras(keys([false, false, true, false, false]), false, true);
    assert!(!follows_player(away.insert_switch));
}
