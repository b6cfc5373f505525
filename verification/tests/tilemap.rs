use bevy::math::UVec3;
use slots_from_hell::geometry::{check_collision, Point2, Point3};
use slots_from_hell::grid::new_cardinal_grid_2d;
use slots_from_hell::tilemap::{
    generate_walls, world_to_grid, Door, DoorSides, Room, Wall, GRID_TILES, TILE_SIZE,
};
use slots_from_hell::world_map::generate_map;

fn p3(x: i64, y: i64) -> Point3 {
    Point3 { x, y, z: 0 }
}

fn all_doors() -> DoorSides {
    DoorSides { top: true, bottom: true, left: true, right: true, ..DoorSides::default() }
}

#[test]
fn wall_new_keeps_its_extents_and_position() {
    let wall = Wall::new(100, 64, p3(0, 0));
    assert_eq!(wall.height, 100);
    assert_eq!(wall.width, 64);
    assert_eq!(wall.pos.x, 0);
    assert_eq!(wall.pos.y, 0);
    assert_eq!(wall.texture(), "textures/map_texture_wall_concrete.png");
}

#[test]
fn door_new_has_fixed_extents() {
    let door = Door::new(p3(0, 0));
    assert_eq!(door.height, 64);
    assert_eq!(door.width, 64);
    assert_eq!(door.pos.x, 0);
    assert_eq!(door.pos.y, 0);
}

#[test]
fn room_new_keeps_its_fields() {
    let room = Room::new("Test Room".to_string(), Point3 { x: 0, y: 0, z: -200 }, "textures/map_texture_floor.png".to_string());
    assert_eq!(room.name, "Test Room");
    assert_eq!(room.pos.z, -200);
    assert_eq!(room.texture, "textures/map_texture_floor.png");
}

#[test]
fn world_to_grid_finds_the_tile() {
    assert_eq!(world_to_grid(Point2 { x: 0, y: 0 }), (24, 24, 0));
    assert_eq!(world_to_grid(Point2 { x: -272, y: -480 }), (19, 16, 0));
    assert_eq!(world_to_grid(Point2 { x: -1536, y: 1535 }), (0, 47, 0));
    assert_eq!(world_to_grid(Point2 { x: -1537, y: 1536 }), (0, 48, 0));
    assert_eq!(world_to_grid(Point2 { x: -1_000_000, y: 63 }), (0, 24, 0));
    assert_eq!(world_to_grid(Point2 { x: i64::MIN, y: i64::MAX }), (0, u32::MAX, 0));
}

#[test]
fn main_room_walls_leave_door_gaps() {
    let mut grid = new_cardinal_grid_2d(GRID_TILES, GRID_TILES, 16);
    let walls = generate_walls(Point2 { x: 0, y: 0 }, Point2 { x: 1024, y: 1024 }, TILE_SIZE, all_doors(), &mut grid);
    let expected = vec![
        Wall::new(480, 64, p3(-272, -480)),
        Wall::new(480, 64, p3(272, -480)),
        Wall::new(480, 64, p3(-272, 480)),
        Wall::new(480, 64, p3(272, 480)),
        Wall::new(64, 480, p3(-480, -272)),
        Wall::new(64, 480, p3(-480, 272)),
        Wall::new(64, 480, p3(480, -272)),
        Wall::new(64, 480, p3(480, 272)),
    ];
    assert_eq!(walls, expected);
    assert!(!grid.grid.is_passable(UVec3::new(19, 16, 0)));
    assert!(!grid.grid.is_passable(UVec3::new(28, 16, 0)));
    assert!(grid.grid.is_passable(UVec3::new(24, 24, 0)));
}

#[test]
fn skipped_sides_and_full_walls() {
    let mut grid = new_cardinal_grid_2d(GRID_TILES, GRID_TILES, 16);
    let doors = DoorSides { skip_left: true, skip_bottom: true, ..DoorSides::default() };
    let walls = generate_walls(Point2 { x: 1024, y: 1024 }, Point2 { x: 1024, y: 1024 }, TILE_SIZE, doors, &mut grid);
    assert_eq!(walls, vec![Wall::new(1024, 64, p3(1024, 1504)), Wall::new(64, 1024, p3(1504, 1024))]);
    // (1024, 1504) lies in tile (40, 47), (1504, 1024) in tile (47, 40).
    assert!(!grid.grid.is_passable(UVec3::new(40, 47, 0)));
    assert!(!grid.grid.is_passable(UVec3::new(47, 40, 0)));
}

#[test]
fn walls_off_the_map_block_nothing() {
    let mut grid = new_cardinal_grid_2d(GRID_TILES, GRID_TILES, 16);
    let doors = DoorSides { skip_left: true, skip_right: true, skip_bottom: true, ..DoorSides::default() };
    let walls = generate_walls(Point2 { x: 4000, y: 0 }, Point2 { x: 1024, y: 1024 }, TILE_SIZE, doors, &mut grid);
    assert_eq!(walls, vec![Wall::new(1024, 64, p3(4000, 480))]);
    for x in 0..GRID_TILES {
        for y in 0..GRID_TILES {
            assert!(grid.grid.is_passable(UVec3::new(x, y, 0)));
        }
    }
}

#[test]
fn the_map_has_thirty_two_walls_eight_rooms_and_ten_doors() {
    let map = generate_map();
    assert_eq!(map.walls.len(), 32);
    let names: Vec<&str> = map.rooms.iter().map(|r| r.name.as_str()).collect();
    assert_eq!(
        names,
        vec!["Surveillance Room", "Kitchen", "Pianists Room", "Bedroom", "Living Room", "Home Office", "Dining Room", "Bathroom"]
    );
    assert_eq!(map.rooms[6].texture, "textures/map_texture_bricks.png");
    assert_eq!(map.rooms[6].pos, Point3 { x: 1024, y: -1024, z: -200 });
    assert_eq!(map.doors.len(), 10);
    assert_eq!(map.doors[0], Door::new(p3(480, 0)));
    assert_eq!(map.doors[9], Door::new(p3(1024, 480)));
    assert_eq!(map.grid.grid.dimensions(), UVec3::new(48, 48, 1));
}

#[test]
fn every_door_of_the_map_is_clear_of_every_wall() {
    let map = generate_map();
    for door in &map.doors {
        for wall in &map.walls {
            assert!(
                !check_collision(
                    door.pos.truncate(),
                    Point2 { x: door.height, y: door.width },
                    wall.pos.truncate(),
                    Point2 { x: wall.height, y: wall.width },
                ),
                "door at {:?} touches wall {:?}",
                door.pos,
                wall
            );
        }
    }
}

#[test]
fn the_map_blocks_the_cells_under_wall_centres() {
    let map = generate_map();
    let mut blocked = 0;
    for x in 0..GRID_TILES {
        for y in 0..GRID_TILES {
            let under_wall = map.walls.iter().any(|w| world_to_grid(w.pos.truncate()) == (x, y, 0));
            assert_eq!(!map.grid.grid.is_passable(UVec3::new(x, y, 0)), under_wall);
            if under_wall {
                blocked += 1;
            }
        }
    }
    assert!(blocked > 0);
}

#[test]
fn small_grids_take_walls_that_fall_outside_the_map() {
    let mut grid = new_cardinal_grid_2d(30, 30, 16);
    let walls = generate_walls(Point2 { x: 4000, y: 0 }, Point2 { x: 1024, y: 1024 }, TILE_SIZE, all_doors(), &mut grid);
    assert_eq!(walls.len(), 8);
    for x in 0..30 {
        for y in 0..30 {
            assert!(grid.grid.is_passable(UVec3::new(x, y, 0)));
        }
    }
    assert_eq!(grid.grid.dimensions(), UVec3::new(30, 30, 1));
    assert_eq!(grid.grid.chunk_size(), 16);
}

#[test]
fn the_map_grid_is_chunked_by_sixteen() {
    let map = generate_map();
    assert_eq!(map.grid.grid.chunk_size(), 16);
}
