//! The map of the house: eight rooms of 1024 by 1024 pixels on a three by three square
//! (the top left corner is left out), the walls between them with their doors, and the
//! pathfinding grid that the walls block.
use vstd::prelude::*;

use crate::geometry::{boxes_overlap, point2, point3, Point2, Point3};
use crate::grid::{
    all_passable, build_grid, cell_in_bounds, grid_blocked, grid_built, grid_cells, grid_chunk_size,
    grid_dimensions, new_cardinal_grid_2d, Cell, CellNav, NavGrid,
};
use crate::tilemap::{
    blocked_cell, cells_in_grid, wall_at, generate_walls, lemma_wall_cells_concat, with_blocked, layout_in_range, room_walls, wall_cells,
    whole_pixel_walls, Door, DoorSides, Room, RoomView, Wall, CHUNK_TILES, GRID_TILES, TILE_SIZE,
};

verus! {

/// Side length of every room.
pub const ROOM_SIZE: i64 = 1024;

/// Drawing depth of the room floors, below walls, doors and figures.
pub const FLOOR_DEPTH: i64 = -200;

/// Door sides with every flag cleared.
pub open spec fn no_doors() -> DoorSides {
    DoorSides {
        top: false,
        bottom: false,
        left: false,
        right: false,
        skip_left: false,
        skip_right: false,
        skip_top: false,
        skip_bottom: false,
    }
}

/// Where each room stands and which of its sides have doors or no wall, in the order in
/// which the rooms' walls are laid: main room, right, left, top, bottom, top right, bottom
/// left, bottom right.
pub open spec fn wall_plan() -> Seq<(Point2, DoorSides)> {
    seq![
        (point2(0, 0), DoorSides { top: true, bottom: true, left: true, right: true, ..no_doors() }),
        (point2(1024, 0), DoorSides { top: true, bottom: true, skip_left: true, ..no_doors() }),
        (point2(-1024, 0), DoorSides { bottom: true, skip_right: true, ..no_doors() }),
        (point2(0, 1024), DoorSides { right: true, skip_bottom: true, ..no_doors() }),
        (point2(0, -1024), DoorSides { left: true, right: true, skip_top: true, ..no_doors() }),
        (point2(1024, 1024), DoorSides { skip_left: true, skip_bottom: true, ..no_doors() }),
        (point2(-1024, -1024), DoorSides { skip_right: true, skip_top: true, ..no_doors() }),
        (point2(1024, -1024), DoorSides { skip_top: true, skip_left: true, ..no_doors() }),
    ]
}

/// The walls of the rooms of a plan, room after room.
pub open spec fn plan_walls(plan: Seq<(Point2, DoorSides)>) -> Seq<Wall>
    decreases plan.len(),
{
    if plan.len() == 0 {
        Seq::empty()
    } else {
        plan_walls(plan.drop_last()) + room_walls(
            plan.last().0,
            Point2 { x: ROOM_SIZE, y: ROOM_SIZE },
            TILE_SIZE,
            plan.last().1,
        )
    }
}

/// The walls of the whole map.
pub open spec fn map_walls() -> Seq<Wall> {
    plan_walls(wall_plan())
}

/// The rooms of the map: name, centre of the floor and floor texture.
pub open spec fn map_rooms() -> Seq<RoomView> {
    seq![
        RoomView { name: "Surveillance Room"@, pos: point3(0, 0, FLOOR_DEPTH as int), texture: "textures/map_texture_floor.png"@ },
        RoomView { name: "Kitchen"@, pos: point3(1024, 0, FLOOR_DEPTH as int), texture: "textures/map_texture_kitchen.png"@ },
        RoomView { name: "Pianists Room"@, pos: point3(-1024, 0, FLOOR_DEPTH as int), texture: "textures/map_texture_pianists_room.png"@ },
        RoomView { name: "Bedroom"@, pos: point3(0, 1024, FLOOR_DEPTH as int), texture: "textures/map_texture_wooden1.png"@ },
        RoomView { name: "Living Room"@, pos: point3(0, -1024, FLOOR_DEPTH as int), texture: "textures/map_texture_wooden2.png"@ },
        RoomView { name: "Home Office"@, pos: point3(1024, 1024, FLOOR_DEPTH as int), texture: "textures/map_texture_wooden3.png"@ },
        RoomView { name: "Dining Room"@, pos: point3(1024, -1024, FLOOR_DEPTH as int), texture: "textures/map_texture_bricks.png"@ },
        RoomView { name: "Bathroom"@, pos: point3(-1024, -1024, FLOOR_DEPTH as int), texture: "textures/map_texture_oldbricks.png"@ },
    ]
}

/// A door of the map centred at `(x, y)`.
pub open spec fn door_at(x: int, y: int) -> Door {
    Door { height: 64, width: 64, pos: Point3 { x: x as i64, y: y as i64, z: 0 } }
}

/// The doors of the map: four around the main room, four between the bottom rooms and their
/// neighbours, two by the top rooms.
pub open spec fn map_doors() -> Seq<Door> {
    seq![
        door_at(480, 0), door_at(0, -480), door_at(-480, 0), door_at(0, 480),
        door_at(-1024, -480), door_at(-480, -1024), door_at(480, -1024), door_at(1024, -480),
        door_at(480, 1024), door_at(1024, 480),
    ]
}

/// Everything that the map is made of.
pub struct MapLayout {
    /// The pathfinding grid, with the cells under the walls blocked and built.
    pub grid: NavGrid,
    /// The wall pieces of all rooms.
    pub walls: Vec<Wall>,
    /// The rooms, with their floors.
    pub rooms: Vec<Room>,
    /// The doors.
    pub doors: Vec<Door>,
}

fn door_sides(top: bool, bottom: bool, left: bool, right: bool, skip_left: bool, skip_right: bool, skip_top: bool, skip_bottom: bool) -> (d: DoorSides)
    ensures
        d == (DoorSides { top, bottom, left, right, skip_left, skip_right, skip_top, skip_bottom }),
{
    DoorSides { top, bottom, left, right, skip_left, skip_right, skip_top, skip_bottom }
}

/// The plan of the rooms' walls.
fn make_wall_plan() -> (plan: Vec<(Point2, DoorSides)>)
    ensures
        plan@ == wall_plan(),
{
    let mut plan: Vec<(Point2, DoorSides)> = Vec::new();
    plan.push((Point2 { x: 0, y: 0 }, door_sides(true, true, true, true, false, false, false, false)));
    plan.push((Point2 { x: 1024, y: 0 }, door_sides(true, true, false, false, true, false, false, false)));
    plan.push((Point2 { x: -1024, y: 0 }, door_sides(false, true, false, false, false, true, false, false)));
    plan.push((Point2 { x: 0, y: 1024 }, door_sides(false, false, false, true, false, false, false, true)));
    plan.push((Point2 { x: 0, y: -1024 }, door_sides(false, false, true, true, false, false, true, false)));
    plan.push((Point2 { x: 1024, y: 1024 }, door_sides(false, false, false, false, true, false, false, true)));
    plan.push((Point2 { x: -1024, y: -1024 }, door_sides(false, false, false, false, false, true, true, false)));
    plan.push((Point2 { x: 1024, y: -1024 }, door_sides(false, false, false, false, true, false, true, false)));
    assert(plan@ =~= wall_plan());
    plan
}

fn room(name: &str, x: i64, y: i64, texture: &str) -> (r: Room)
    ensures
        r@ == (RoomView { name: name@, pos: Point3 { x, y, z: FLOOR_DEPTH }, texture: texture@ }),
{
    Room::new(name.to_owned(), Point3 { x, y, z: FLOOR_DEPTH }, texture.to_owned())
}

/// The rooms of the map.
pub fn map_room_list() -> (rooms: Vec<Room>)
    ensures
        rooms@.len() == map_rooms().len(),
        forall|i: int| 0 <= i < rooms@.len() ==> #[trigger] rooms@[i]@ == map_rooms()[i],
{
    let mut rooms: Vec<Room> = Vec::new();
    rooms.push(room("Surveillance Room", 0, 0, "textures/map_texture_floor.png"));
    rooms.push(room("Kitchen", 1024, 0, "textures/map_texture_kitchen.png"));
    rooms.push(room("Pianists Room", -1024, 0, "textures/map_texture_pianists_room.png"));
    rooms.push(room("Bedroom", 0, 1024, "textures/map_texture_wooden1.png"));
    rooms.push(room("Living Room", 0, -1024, "textures/map_texture_wooden2.png"));
    rooms.push(room("Home Office", 1024, 1024, "textures/map_texture_wooden3.png"));
    rooms.push(room("Dining Room", 1024, -1024, "textures/map_texture_bricks.png"));
    rooms.push(room("Bathroom", -1024, -1024, "textures/map_texture_oldbricks.png"));
    rooms
}

/// The doors of the map.
pub fn map_door_list() -> (doors: Vec<Door>)
    ensures
        doors@ == map_doors(),
{
    let mut doors: Vec<Door> = Vec::new();
    doors.push(Door::new(Point3 { x: 480, y: 0, z: 0 }));
    doors.push(Door::new(Point3 { x: 0, y: -480, z: 0 }));
    doors.push(Door::new(Point3 { x: -480, y: 0, z: 0 }));
    doors.push(Door::new(Point3 { x: 0, y: 480, z: 0 }));
    doors.push(Door::new(Point3 { x: -1024, y: -480, z: 0 }));
    doors.push(Door::new(Point3 { x: -480, y: -1024, z: 0 }));
    doors.push(Door::new(Point3 { x: 480, y: -1024, z: 0 }));
    doors.push(Door::new(Point3 { x: 1024, y: -480, z: 0 }));
    doors.push(Door::new(Point3 { x: 480, y: 1024, z: 0 }));
    doors.push(Door::new(Point3 { x: 1024, y: 480, z: 0 }));
    assert(doors@ =~= map_doors());
    doors
}

/// Dimensions of the map's pathfinding grid.
pub open spec fn map_grid_dims() -> (u32, u32, u32) {
    (GRID_TILES, GRID_TILES, 1u32)
}

/// The navigation of the map's grid: every cell passable at cost 1, except the cells under
/// the centres of the wall pieces, which are impassable.
pub open spec fn map_navigation() -> Map<Cell, CellNav> {
    with_blocked(all_passable(map_grid_dims()), wall_cells(map_walls()))
}

/// Every cell that a wall piece blocks lies in the map's grid.
pub proof fn lemma_wall_cells_in_map_grid(walls: Seq<Wall>)
    ensures
        cells_in_grid(walls, map_grid_dims()),
{
    assert forall|c: Cell| #[trigger] wall_cells(walls).contains(c) implies cell_in_bounds(map_grid_dims(), c) by {
        let k = choose|k: int| 0 <= k < walls.len() && #[trigger] blocked_cell(walls[k]) == Some(c);
        assert(blocked_cell(walls[k]) == Some(c));
    }
}

/// Lays out the map: makes a `GRID_TILES` by `GRID_TILES` pathfinding grid in chunks of
/// `CHUNK_TILES`, builds the walls of every room of the plan (blocking the grid cell under
/// the centre of each wall piece), builds the grid, and lists the rooms and the doors.
pub fn generate_map() -> (map: MapLayout)
    ensures
        map.walls@ == map_walls(),
        grid_dimensions(map.grid) == map_grid_dims(),
        grid_chunk_size(map.grid) == CHUNK_TILES,
        grid_cells(map.grid) == map_navigation(),
        grid_blocked(map.grid) == wall_cells(map_walls()),
        grid_built(map.grid),
        map.rooms@.len() == map_rooms().len(),
        forall|i: int| 0 <= i < map.rooms@.len() ==> #[trigger] map.rooms@[i]@ == map_rooms()[i],
        map.doors@ == map_doors(),
{
    let mut grid = new_cardinal_grid_2d(GRID_TILES, GRID_TILES, CHUNK_TILES);
    let plan = make_wall_plan();
    let mut walls: Vec<Wall> = Vec::new();
    let size = Point2 { x: ROOM_SIZE, y: ROOM_SIZE };
    proof {
        assert(wall_cells(walls@) =~= Set::<Cell>::empty());
        assert(with_blocked(all_passable(map_grid_dims()), wall_cells(walls@)) =~= all_passable(map_grid_dims()));
    }
    let mut i: usize = 0;
    while i < plan.len()
        invariant
            0 <= i <= plan@.len(),
            plan@ == wall_plan(),
            walls@ == plan_walls(plan@.take(i as int)),
            grid_dimensions(grid) == map_grid_dims(),
            grid_chunk_size(grid) == CHUNK_TILES,
            grid_cells(grid) == with_blocked(all_passable(map_grid_dims()), wall_cells(walls@)),
            size == (Point2 { x: ROOM_SIZE, y: ROOM_SIZE }),
        decreases plan@.len() - i,
    {
        let (center, doors) = plan[i];
        assert(layout_in_range(center, size, TILE_SIZE));
        assert(whole_pixel_walls(size, TILE_SIZE, doors));
        proof {
            lemma_wall_cells_in_map_grid(room_walls(center, size, TILE_SIZE, doors));
        }
        let ghost before = walls@;
        let mut room_walls_vec = generate_walls(center, size, TILE_SIZE, doors, &mut grid);
        proof {
            assert(plan@.take(i + 1).drop_last() =~= plan@.take(i as int));
            lemma_wall_cells_concat(before, room_walls_vec@);
        }
        walls.append(&mut room_walls_vec);
        proof {
            assert(walls@ == before + room_walls(center, size, TILE_SIZE, doors));
            assert(grid_cells(grid) =~= with_blocked(all_passable(map_grid_dims()), wall_cells(walls@)));
        }
        i = i + 1;
    }
    assert(plan@.take(plan@.len() as int) =~= plan@);
    build_grid(&mut grid);
    proof {
        lemma_wall_cells_in_map_grid(map_walls());
        assert(grid_blocked(grid) =~= wall_cells(map_walls()));
    }
    MapLayout { grid, walls, rooms: map_room_list(), doors: map_door_list() }
}

/// The house's walls, piece by piece: extent along x, extent along y, centre. The outer walls
/// run along x = -1504 and x = 1504 (and y = -1504, y = 1504) around all eight rooms, the
/// inner walls along x = -480, x = 480, y = -480 and y = 480, each inner wall between two
/// rooms standing once, with a one-tile gap at each of the ten doors.
pub open spec fn house_walls() -> Seq<Wall> {
    seq![
        wall_at(480, 64, -272, -480),
        wall_at(480, 64, 272, -480),
        wall_at(480, 64, -272, 480),
        wall_at(480, 64, 272, 480),
        wall_at(64, 480, -480, -272),
        wall_at(64, 480, -480, 272),
        wall_at(64, 480, 480, -272),
        wall_at(64, 480, 480, 272),
        wall_at(480, 64, 752, -480),
        wall_at(480, 64, 1296, -480),
        wall_at(480, 64, 752, 480),
        wall_at(480, 64, 1296, 480),
        wall_at(64, 1024, 1504, 0),
        wall_at(480, 64, -1296, -480),
        wall_at(480, 64, -752, -480),
        wall_at(1024, 64, -1024, 480),
        wall_at(64, 1024, -1504, 0),
        wall_at(1024, 64, 0, 1504),
        wall_at(64, 1024, -480, 1024),
        wall_at(64, 480, 480, 752),
        wall_at(64, 480, 480, 1296),
        wall_at(1024, 64, 0, -1504),
        wall_at(64, 480, -480, -1296),
        wall_at(64, 480, -480, -752),
        wall_at(64, 480, 480, -1296),
        wall_at(64, 480, 480, -752),
        wall_at(1024, 64, 1024, 1504),
        wall_at(64, 1024, 1504, 1024),
        wall_at(1024, 64, -1024, -1504),
        wall_at(64, 1024, -1504, -1024),
        wall_at(1024, 64, 1024, -1504),
        wall_at(64, 1024, 1504, -1024)
    ]
}

/// The map's walls are exactly the house's walls, in the order the rooms are laid.
#[verifier::rlimit(60)]
pub proof fn lemma_map_walls_are_the_house()
    ensures
        map_walls() == house_walls(),
{
    reveal_with_fuel(plan_walls, 9);
    assert(room_walls(point2(0, 0), point2(1024, 1024), 64, DoorSides { top: true, bottom: true, left: true, right: true, ..no_doors() }) =~= seq![wall_at(480, 64, -272, -480), wall_at(480, 64, 272, -480), wall_at(480, 64, -272, 480), wall_at(480, 64, 272, 480), wall_at(64, 480, -480, -272), wall_at(64, 480, -480, 272), wall_at(64, 480, 480, -272), wall_at(64, 480, 480, 272)]);
    assert(room_walls(point2(1024, 0), point2(1024, 1024), 64, DoorSides { top: true, bottom: true, skip_left: true, ..no_doors() }) =~= seq![wall_at(480, 64, 752, -480), wall_at(480, 64, 1296, -480), wall_at(480, 64, 752, 480), wall_at(480, 64, 1296, 480), wall_at(64, 1024, 1504, 0)]);
    assert(room_walls(point2(-1024, 0), point2(1024, 1024), 64, DoorSides { bottom: true, skip_right: true, ..no_doors() }) =~= seq![wall_at(480, 64, -1296, -480), wall_at(480, 64, -752, -480), wall_at(1024, 64, -1024, 480), wall_at(64, 1024, -1504, 0)]);
    assert(room_walls(point2(0, 1024), point2(1024, 1024), 64, DoorSides { right: true, skip_bottom: true, ..no_doors() }) =~= seq![wall_at(1024, 64, 0, 1504), wall_at(64, 1024, -480, 1024), wall_at(64, 480, 480, 752), wall_at(64, 480, 480, 1296)]);
    assert(room_walls(point2(0, -1024), point2(1024, 1024), 64, DoorSides { left: true, right: true, skip_top: true, ..no_doors() }) =~= seq![wall_at(1024, 64, 0, -1504), wall_at(64, 480, -480, -1296), wall_at(64, 480, -480, -752), wall_at(64, 480, 480, -1296), wall_at(64, 480, 480, -752)]);
    assert(room_walls(point2(1024, 1024), point2(1024, 1024), 64, DoorSides { skip_left: true, skip_bottom: true, ..no_doors() }) =~= seq![wall_at(1024, 64, 1024, 1504), wall_at(64, 1024, 1504, 1024)]);
    assert(room_walls(point2(-1024, -1024), point2(1024, 1024), 64, DoorSides { skip_right: true, skip_top: true, ..no_doors() }) =~= seq![wall_at(1024, 64, -1024, -1504), wall_at(64, 1024, -1504, -1024)]);
    assert(room_walls(point2(1024, -1024), point2(1024, 1024), 64, DoorSides { skip_top: true, skip_left: true, ..no_doors() }) =~= seq![wall_at(1024, 64, 1024, -1504), wall_at(64, 1024, 1504, -1024)]);
    let p = wall_plan();
    assert(p.drop_last().drop_last().drop_last().drop_last().drop_last().drop_last().drop_last().drop_last() =~= Seq::<(Point2, DoorSides)>::empty());
    assert(map_walls() =~= house_walls());
}

/// Point `(x, y)` lies in wall piece `w` (its edges included).
pub open spec fn point_in_wall(x: int, y: int, w: Wall) -> bool {
    &&& 2 * w.pos.x - w.height <= 2 * x <= 2 * w.pos.x + w.height
    &&& 2 * w.pos.y - w.width <= 2 * y <= 2 * w.pos.y + w.width
}

/// Point `(x, y)` lies in some wall piece of `walls`.
pub open spec fn walled(x: int, y: int, walls: Seq<Wall>) -> bool {
    exists|i: int| 0 <= i < walls.len() && point_in_wall(x, y, #[trigger] walls[i])
}

/// The walls close the house: every point of its outline, the square from -1536 to 1536 on
/// both axes less the top left room's square, lies in a wall piece.
pub proof fn lemma_house_is_closed()
    ensures
        forall|x: int| -1536 <= x <= 1536 ==> #[trigger] walled(x, -1536, map_walls()),
        forall|x: int| -512 <= x <= 1536 ==> #[trigger] walled(x, 1536, map_walls()),
        forall|y: int| -1536 <= y <= 1536 ==> #[trigger] walled(1536, y, map_walls()),
        forall|y: int| -1536 <= y <= 512 ==> #[trigger] walled(-1536, y, map_walls()),
        forall|x: int| -1536 <= x <= -512 ==> #[trigger] walled(x, 512, map_walls()),
        forall|y: int| 512 <= y <= 1536 ==> #[trigger] walled(-512, y, map_walls()),
{
    lemma_map_walls_are_the_house();
    let w = house_walls();
    assert forall|x: int| -1536 <= x <= 1536 implies #[trigger] walled(x, -1536, map_walls()) by {
        if x <= -512 { assert(point_in_wall(x, -1536, w[28])); }
        else if x <= 512 { assert(point_in_wall(x, -1536, w[21])); }
        else { assert(point_in_wall(x, -1536, w[30])); }
    }
    assert forall|x: int| -512 <= x <= 1536 implies #[trigger] walled(x, 1536, map_walls()) by {
        if x <= 512 { assert(point_in_wall(x, 1536, w[17])); }
        else { assert(point_in_wall(x, 1536, w[26])); }
    }
    assert forall|y: int| -1536 <= y <= 1536 implies #[trigger] walled(1536, y, map_walls()) by {
        if y <= -512 { assert(point_in_wall(1536, y, w[31])); }
        else if y <= 512 { assert(point_in_wall(1536, y, w[12])); }
        else { assert(point_in_wall(1536, y, w[27])); }
    }
    assert forall|y: int| -1536 <= y <= 512 implies #[trigger] walled(-1536, y, map_walls()) by {
        if y <= -512 { assert(point_in_wall(-1536, y, w[29])); }
        else { assert(point_in_wall(-1536, y, w[16])); }
    }
    assert forall|x: int| -1536 <= x <= -512 implies #[trigger] walled(x, 512, map_walls()) by {
        assert(point_in_wall(x, 512, w[15]));
    }
    assert forall|y: int| 512 <= y <= 1536 implies #[trigger] walled(-512, y, map_walls()) by {
        assert(point_in_wall(-512, y, w[18]));
    }
}

/// The tile-sized boxes by which a door is crossed: the door itself and the tiles on either
/// side of it, across the wall it stands in (along x for the doors on the walls at x = -480
/// and x = 480, along y for the others).
pub open spec fn door_passage(d: Door) -> Seq<Point2> {
    if d.pos.x == 480 || d.pos.x == -480 {
        seq![point2(d.pos.x - 64, d.pos.y as int), point2(d.pos.x as int, d.pos.y as int), point2(d.pos.x + 64, d.pos.y as int)]
    } else {
        seq![point2(d.pos.x as int, d.pos.y - 64), point2(d.pos.x as int, d.pos.y as int), point2(d.pos.x as int, d.pos.y + 64)]
    }
}

/// Every door can be walked through: none of the tile-sized boxes by which it is crossed
/// overlaps any wall piece of the map.
#[verifier::rlimit(100)]
pub proof fn lemma_doors_are_passable()
    ensures
        forall|i: int, k: int, j: int|
            0 <= i < map_doors().len() && 0 <= k < 3 && 0 <= j < map_walls().len() ==> !boxes_overlap(
                #[trigger] door_passage(map_doors()[i])[k],
                point2(64, 64),
                point2((#[trigger] map_walls()[j]).pos.x as int, map_walls()[j].pos.y as int),
                point2(map_walls()[j].height as int, map_walls()[j].width as int),
            ),
{
    lemma_map_walls_are_the_house();
}

/// The floor of room `r` is centred on the centre `c` of a room of the plan.
pub open spec fn floor_on(r: RoomView, c: Point2) -> bool {
    r.pos.x == c.x && r.pos.y == c.y
}

/// The house is a three by three square of rooms less its top left corner: the plan's room
/// centres are pairwise distinct, each at -1024, 0 or 1024 on both axes, none at (-1024, 1024).
pub proof fn lemma_plan_is_the_house_square()
    ensures
        wall_plan().len() == 8,
        forall|j: int| 0 <= j < wall_plan().len() ==> {
            let c = #[trigger] wall_plan()[j].0;
            &&& (c.x == -1024 || c.x == 0 || c.x == 1024)
            &&& (c.y == -1024 || c.y == 0 || c.y == 1024)
            &&& !(c.x == -1024 && c.y == 1024)
        },
        forall|j: int, l: int|
            0 <= j < wall_plan().len() && 0 <= l < wall_plan().len() && j != l ==> #[trigger] wall_plan()[j].0
                != #[trigger] wall_plan()[l].0,
{
}

/// The room floors stand exactly on the room centres of the plan, one floor per centre, all
/// at the floor depth: every floor is on some centre of the plan, every centre of the plan
/// has a floor, and no two floors share a centre.
pub proof fn lemma_rooms_stand_on_the_plan()
    ensures
        map_rooms().len() == wall_plan().len(),
        forall|i: int| 0 <= i < map_rooms().len() ==> (#[trigger] map_rooms()[i]).pos.z == FLOOR_DEPTH,
        forall|i: int|
            0 <= i < map_rooms().len() ==> exists|j: int|
                0 <= j < wall_plan().len() && floor_on(#[trigger] map_rooms()[i], #[trigger] wall_plan()[j].0),
        forall|j: int|
            0 <= j < wall_plan().len() ==> exists|i: int|
                0 <= i < map_rooms().len() && floor_on(#[trigger] map_rooms()[i], #[trigger] wall_plan()[j].0),
        forall|i: int, l: int|
            0 <= i < map_rooms().len() && 0 <= l < map_rooms().len() && i != l ==> !(
                (#[trigger] map_rooms()[i]).pos.x == (#[trigger] map_rooms()[l]).pos.x
                && map_rooms()[i].pos.y == map_rooms()[l].pos.y),
{
    let r = map_rooms();
    let p = wall_plan();
    assert forall|i: int| 0 <= i < r.len() implies exists|j: int|
        0 <= j < p.len() && floor_on(#[trigger] r[i], #[trigger] p[j].0) by {
        let j: int = if i == 6 { 7 } else if i == 7 { 6 } else { i };
        assert(floor_on(r[i], p[j].0));
    }
    assert forall|j: int| 0 <= j < p.len() implies exists|i: int|
        0 <= i < r.len() && floor_on(#[trigger] r[i], #[trigger] p[j].0) by {
        let i: int = if j == 6 { 7 } else if j == 7 { 6 } else { j };
        assert(floor_on(r[i], p[j].0));
    }
}

} // verus!
