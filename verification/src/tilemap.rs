//! The world's rooms, their walls and doors, and the cells of the pathfinding grid that the
//! walls block. All lengths are whole pixels.
use vstd::prelude::*;

use crate::geometry::{boxes_overlap, Point2, Point3};
use crate::grid::{
    block_cell, cell_in_bounds, grid_built, grid_cells, grid_chunk_size, grid_dimensions, Cell, CellNav,
    NavGrid,
};

verus! {

/// Side length of one tile of the map.
pub const TILE_SIZE: i64 = 64;

/// Side length of the whole square map; it spans `-MAP_OFFSET..MAP_OFFSET` on both axes.
pub const MAP_WORLD_SIZE: i64 = 3072;

/// Half the side length of the map: the shift that brings map coordinates to `0..MAP_WORLD_SIZE`.
pub const MAP_OFFSET: i64 = 1536;

/// Number of tiles along each side of the map, and of the pathfinding grid.
pub const GRID_TILES: u32 = 48;

/// Side length, in tiles, of the chunks the pathfinding grid is split into.
pub const CHUNK_TILES: u32 = 16;

/// Extent of a door, on both axes.
pub const DOOR_SIZE: i64 = 64;

/// Bound on the centres, extents and tile sizes that wall generation takes.
pub const LAYOUT_LIMIT: i64 = 0x1000_0000;

/// A wall piece: `height` is its extent along x, `width` its extent along y.
#[derive(Clone, Copy, Debug, PartialEq, Eq, Structural)]
pub struct Wall {
    /// Extent along the x axis.
    pub height: i64,
    /// Extent along the y axis.
    pub width: i64,
    /// Centre of the wall piece.
    pub pos: Point3,
}

impl Wall {
    /// A wall piece of the given extents centred at `pos`.
    pub fn new(height: i64, width: i64, pos: Point3) -> (w: Wall)
        ensures
            w == (Wall { height, width, pos }),
    {
        Wall { height, width, pos }
    }

    /// The texture that every wall piece is drawn with.
    pub fn texture(&self) -> (t: String)
        ensures
            t@ == wall_texture(),
    {
        "textures/map_texture_wall_concrete.png".to_owned()
    }
}

/// The texture that every wall piece is drawn with.
pub open spec fn wall_texture() -> Seq<char> {
    "textures/map_texture_wall_concrete.png"@
}

/// A door: a square of extent `DOOR_SIZE`.
#[derive(Clone, Copy, Debug, PartialEq, Eq, Structural)]
pub struct Door {
    /// Extent along the x axis.
    pub height: i64,
    /// Extent along the y axis.
    pub width: i64,
    /// Centre of the door.
    pub pos: Point3,
}

impl Door {
    /// A door centred at `pos`, with the fixed door extents.
    pub fn new(pos: Point3) -> (d: Door)
        ensures
            d == (Door { height: DOOR_SIZE, width: DOOR_SIZE, pos }),
    {
        Door { height: DOOR_SIZE, width: DOOR_SIZE, pos }
    }
}

/// A room: its name, the centre of its floor and the texture the floor is drawn with.
#[derive(Debug)]
pub struct Room {
    pub name: String,
    pub pos: Point3,
    pub texture: String,
}

/// What a room is, as plain values.
pub struct RoomView {
    pub name: Seq<char>,
    pub pos: Point3,
    pub texture: Seq<char>,
}

impl View for Room {
    type V = RoomView;

    open spec fn view(&self) -> RoomView {
        RoomView { name: self.name@, pos: self.pos, texture: self.texture@ }
    }
}

impl Room {
    /// A room named `name` centred at `pos`, drawn with `texture`.
    pub fn new(name: String, pos: Point3, texture: String) -> (r: Room)
        ensures
            r.name == name,
            r.pos == pos,
            r.texture == texture,
    {
        Room { name, pos, texture }
    }
}

/// Which sides of a room have a door in their wall, and which sides have no wall of their own
/// (because the neighbouring room's wall stands there).
#[derive(Clone, Copy, Debug, Default, PartialEq, Eq, Structural)]
pub struct DoorSides {
    /// The top wall should have a door.
    pub top: bool,
    /// The bottom wall should have a door.
    pub bottom: bool,
    /// The left hand side wall should have a door.
    pub left: bool,
    /// The right hand side wall should have a door.
    pub right: bool,
    /// Skip the left hand side wall.
    pub skip_left: bool,
    /// Skip the right hand side wall.
    pub skip_right: bool,
    /// Skip the top wall.
    pub skip_top: bool,
    /// Skip the bottom wall.
    pub skip_bottom: bool,
}

// ---------------------------------------------------------------------------------------------
// Grid cells
// ---------------------------------------------------------------------------------------------

/// The grid coordinate of a map coordinate: the index of the tile that holds it, counting
/// from the map's lower edge; coordinates below the map give 0 and the index is capped at
/// `u32::MAX`.
pub open spec fn grid_coord(v: int) -> int {
    let shifted = v + MAP_OFFSET as int;
    if shifted < 0 {
        0
    } else if shifted / (TILE_SIZE as int) > u32::MAX {
        u32::MAX as int
    } else {
        shifted / (TILE_SIZE as int)
    }
}

/// The grid cell, in layer 0, of a map position.
pub open spec fn grid_cell(pos: Point2) -> Cell {
    (grid_coord(pos.x as int) as u32, grid_coord(pos.y as int) as u32, 0u32)
}

fn grid_coord_exec(v: i64) -> (c: u32)
    ensures
        c == grid_coord(v as int),
{
    if v < -MAP_OFFSET {
        return 0;
    }
    // v + MAP_OFFSET >= 0, and MAP_OFFSET is a whole number of tiles.
    let q: i64 = if v >= 0 {
        v / TILE_SIZE + MAP_OFFSET / TILE_SIZE
    } else {
        let n: i64 = -v;
        MAP_OFFSET / TILE_SIZE - (n + TILE_SIZE - 1) / TILE_SIZE
    };
    assert(q == (v + 1536) / 64int) by (nonlinear_arith)
        requires
            v >= -1536,
            q == if v >= 0 { v / 64 + 24 } else { 24 - (-v + 63) / 64 },
    ;
    if q > u32::MAX as i64 {
        u32::MAX
    } else {
        q as u32
    }
}

/// The grid cell that holds a map position: the tile index along each axis, after shifting
/// the map to start at 0; positions left of or below the map fall into column or row 0.
pub fn world_to_grid(pos: Point2) -> (cell: Cell)
    ensures
        cell == grid_cell(pos),
{
    (grid_coord_exec(pos.x), grid_coord_exec(pos.y), 0)
}

/// A position on the map lies inside the tile of its grid coordinate, whenever that
/// coordinate is not clamped.
pub proof fn lemma_grid_coord_tile(v: int)
    requires
        v + MAP_OFFSET >= 0,
        (v + MAP_OFFSET) / (TILE_SIZE as int) <= u32::MAX,
    ensures
        grid_coord(v) * TILE_SIZE - MAP_OFFSET <= v < (grid_coord(v) + 1) * TILE_SIZE - MAP_OFFSET,
{
}

/// Grid coordinates never decrease as the map coordinate grows.
pub proof fn lemma_grid_coord_monotonic(a: int, b: int)
    requires
        a <= b,
    ensures
        grid_coord(a) <= grid_coord(b),
{
    if a + MAP_OFFSET >= 0 {
        vstd::arithmetic::div_mod::lemma_div_is_ordered(a + MAP_OFFSET, b + MAP_OFFSET, TILE_SIZE as int);
    }
}

// ---------------------------------------------------------------------------------------------
// Walls of one room
// ---------------------------------------------------------------------------------------------

/// The walls of a room land on whole pixels: every half and quarter that the wall positions
/// take is exact for the sides that are built.
pub open spec fn whole_pixel_walls(size: Point2, tile_size: i64, doors: DoorSides) -> bool {
    &&& (!doors.skip_bottom || !doors.skip_top) ==> (size.y - tile_size) % 2 == 0
    &&& ((!doors.skip_bottom && doors.bottom) || (!doors.skip_top && doors.top)) ==> (size.x
        + tile_size) % 4 == 0
    &&& (!doors.skip_left || !doors.skip_right) ==> (size.x - tile_size) % 2 == 0
    &&& ((!doors.skip_left && doors.left) || (!doors.skip_right && doors.right)) ==> (size.y
        + tile_size) % 4 == 0
}

/// Centres, extents and tile size that wall generation takes.
pub open spec fn layout_in_range(center: Point2, size: Point2, tile_size: i64) -> bool {
    &&& -LAYOUT_LIMIT <= center.x <= LAYOUT_LIMIT
    &&& -LAYOUT_LIMIT <= center.y <= LAYOUT_LIMIT
    &&& -LAYOUT_LIMIT <= size.x <= LAYOUT_LIMIT
    &&& -LAYOUT_LIMIT <= size.y <= LAYOUT_LIMIT
    &&& -LAYOUT_LIMIT <= tile_size <= LAYOUT_LIMIT
}

/// A wall piece as a value.
pub open spec fn wall_at(height: int, width: int, x: int, y: int) -> Wall {
    Wall { height: height as i64, width: width as i64, pos: Point3 { x: x as i64, y: y as i64, z: 0 } }
}

/// Distance from a room's centre to the centre line of its walls.
pub open spec fn inset(extent: int, tile_size: int) -> int {
    (extent - tile_size) / 2
}

/// Length of each of the two wall segments beside a door.
pub open spec fn door_segment(extent: int, tile_size: int) -> int {
    (extent - tile_size) / 2
}

/// Distance from the middle of a wall to the centre of each segment beside its door.
pub open spec fn door_offset(extent: int, tile_size: int) -> int {
    (tile_size + door_segment(extent, tile_size)) / 2
}

/// The walls of a horizontal (bottom or top) side at height `dy` above the room's centre:
/// two segments leaving a gap of one tile around the middle when the side has a door, else
/// one wall across the whole room.
pub open spec fn horizontal_side(center: Point2, size: Point2, tile_size: i64, has_door: bool, dy: int) -> Seq<Wall> {
    if has_door {
        let seg = door_segment(size.x as int, tile_size as int);
        let off = door_offset(size.x as int, tile_size as int);
        seq![
            wall_at(seg, tile_size as int, center.x - off, center.y + dy),
            wall_at(seg, tile_size as int, center.x + off, center.y + dy),
        ]
    } else {
        seq![wall_at(size.x as int, tile_size as int, center.x as int, center.y + dy)]
    }
}

/// The walls of a vertical (left or right) side at distance `dx` right of the room's centre:
/// two segments leaving a gap of one tile around the middle when the side has a door, else
/// one wall along the whole room.
pub open spec fn vertical_side(center: Point2, size: Point2, tile_size: i64, has_door: bool, dx: int) -> Seq<Wall> {
    if has_door {
        let seg = door_segment(size.y as int, tile_size as int);
        let off = door_offset(size.y as int, tile_size as int);
        seq![
            wall_at(tile_size as int, seg, center.x + dx, center.y - off),
            wall_at(tile_size as int, seg, center.x + dx, center.y + off),
        ]
    } else {
        seq![wall_at(tile_size as int, size.y as int, center.x + dx, center.y as int)]
    }
}

/// The walls of a room of extent `size` centred at `center`, side by side: bottom, top,
/// left, right, each side left out when it is skipped.
pub open spec fn room_walls(center: Point2, size: Point2, tile_size: i64, doors: DoorSides) -> Seq<Wall> {
    let iy = inset(size.y as int, tile_size as int);
    let ix = inset(size.x as int, tile_size as int);
    let bottom = if doors.skip_bottom { Seq::empty() } else { horizontal_side(center, size, tile_size, doors.bottom, -iy) };
    let top = if doors.skip_top { Seq::empty() } else { horizontal_side(center, size, tile_size, doors.top, iy) };
    let left = if doors.skip_left { Seq::empty() } else { vertical_side(center, size, tile_size, doors.left, -ix) };
    let right = if doors.skip_right { Seq::empty() } else { vertical_side(center, size, tile_size, doors.right, ix) };
    bottom + top + left + right
}

/// The number of wall pieces of one side: none when skipped, two beside a door, else one.
pub open spec fn side_pieces(skip: bool, has_door: bool) -> nat {
    if skip { 0 } else if has_door { 2 } else { 1 }
}

/// The grid cell that a wall piece blocks: the cell of its centre, when that lies in the
/// `GRID_TILES` by `GRID_TILES` map.
pub open spec fn blocked_cell(w: Wall) -> Option<Cell> {
    let c = grid_cell(Point2 { x: w.pos.x, y: w.pos.y });
    if c.0 < GRID_TILES && c.1 < GRID_TILES { Some(c) } else { None }
}

/// The grid cells that a sequence of wall pieces blocks.
pub open spec fn wall_cells(walls: Seq<Wall>) -> Set<Cell> {
    Set::new(|c: Cell| exists|i: int| 0 <= i < walls.len() && #[trigger] blocked_cell(walls[i]) == Some(c))
}

/// The cells blocked by two runs of walls are those blocked by either.
pub proof fn lemma_wall_cells_concat(a: Seq<Wall>, b: Seq<Wall>)
    ensures
        wall_cells(a + b) == wall_cells(a).union(wall_cells(b)),
{
    assert forall|c: Cell| wall_cells(a + b).contains(c) implies wall_cells(a).union(wall_cells(b)).contains(c) by {
        let i = choose|i: int| 0 <= i < (a + b).len() && #[trigger] blocked_cell((a + b)[i]) == Some(c);
        if i < a.len() {
            assert(blocked_cell(a[i]) == Some(c));
        } else {
            assert(blocked_cell(b[i - a.len()]) == Some(c));
        }
    }
    assert forall|c: Cell| wall_cells(a).union(wall_cells(b)).contains(c) implies wall_cells(a + b).contains(c) by {
        if wall_cells(a).contains(c) {
            let i = choose|i: int| 0 <= i < a.len() && #[trigger] blocked_cell(a[i]) == Some(c);
            assert(blocked_cell((a + b)[i]) == Some(c));
        } else {
            let i = choose|i: int| 0 <= i < b.len() && #[trigger] blocked_cell(b[i]) == Some(c);
            assert(blocked_cell((a + b)[i + a.len()]) == Some(c));
        }
    }
    assert(wall_cells(a + b) =~= wall_cells(a).union(wall_cells(b)));
}

/// The walls of one horizontal side, in exec arithmetic.
fn push_horizontal_side(walls: &mut Vec<Wall>, center: Point2, size: Point2, tile_size: i64, has_door: bool, dy: i64)
    requires
        layout_in_range(center, size, tile_size),
        -LAYOUT_LIMIT <= dy <= LAYOUT_LIMIT,
        has_door ==> (size.x + tile_size) % 4 == 0,
    ensures
        final(walls)@ == old(walls)@ + horizontal_side(center, size, tile_size, has_door, dy as int),
{
    if has_door {
        let seg = (size.x - tile_size) / 2;
        let off = (tile_size + seg) / 2;
        assert(seg == door_segment(size.x as int, tile_size as int)) by (nonlinear_arith)
            requires
                (size.x + tile_size) % 4 == 0,
                seg == (size.x - tile_size) / 2,
        ;
        assert(off == door_offset(size.x as int, tile_size as int)) by (nonlinear_arith)
            requires
                (size.x + tile_size) % 4 == 0,
                seg == (size.x - tile_size) / 2,
                seg == door_segment(size.x as int, tile_size as int),
                off == (tile_size + seg) / 2,
        ;
        walls.push(Wall::new(seg, tile_size, Point3 { x: center.x - off, y: center.y + dy, z: 0 }));
        walls.push(Wall::new(seg, tile_size, Point3 { x: center.x + off, y: center.y + dy, z: 0 }));
    } else {
        walls.push(Wall::new(size.x, tile_size, Point3 { x: center.x, y: center.y + dy, z: 0 }));
    }
}

/// The walls of one vertical side, in exec arithmetic.
fn push_vertical_side(walls: &mut Vec<Wall>, center: Point2, size: Point2, tile_size: i64, has_door: bool, dx: i64)
    requires
        layout_in_range(center, size, tile_size),
        -LAYOUT_LIMIT <= dx <= LAYOUT_LIMIT,
        has_door ==> (size.y + tile_size) % 4 == 0,
    ensures
        final(walls)@ == old(walls)@ + vertical_side(center, size, tile_size, has_door, dx as int),
{
    if has_door {
        let seg = (size.y - tile_size) / 2;
        let off = (tile_size + seg) / 2;
        assert(seg == door_segment(size.y as int, tile_size as int)) by (nonlinear_arith)
            requires
                (size.y + tile_size) % 4 == 0,
                seg == (size.y - tile_size) / 2,
        ;
        assert(off == door_offset(size.y as int, tile_size as int)) by (nonlinear_arith)
            requires
                (size.y + tile_size) % 4 == 0,
                seg == (size.y - tile_size) / 2,
                seg == door_segment(size.y as int, tile_size as int),
                off == (tile_size + seg) / 2,
        ;
        walls.push(Wall::new(tile_size, seg, Point3 { x: center.x + dx, y: center.y - off, z: 0 }));
        walls.push(Wall::new(tile_size, seg, Point3 { x: center.x + dx, y: center.y + off, z: 0 }));
    } else {
        walls.push(Wall::new(tile_size, size.y, Point3 { x: center.x + dx, y: center.y, z: 0 }));
    }
}

/// The navigation of a grid after the cells in `cells` are made impassable.
pub open spec fn with_blocked(navs: Map<Cell, CellNav>, cells: Set<Cell>) -> Map<Cell, CellNav> {
    navs.union_prefer_right(Map::new(|c: Cell| cells.contains(c), |c: Cell| CellNav::Impassable))
}

/// Every cell that the walls block lies inside a grid of dimensions `dims`.
pub open spec fn cells_in_grid(walls: Seq<Wall>, dims: (u32, u32, u32)) -> bool {
    forall|c: Cell| #[trigger] wall_cells(walls).contains(c) ==> cell_in_bounds(dims, c)
}

/// Builds the walls of a room of extent `size` centred at `center`, side by side (bottom,
/// top, left, right), leaving a one-tile gap in the middle of each side that has a door and
/// no wall at all on a skipped side; then marks impassable, in `grid`, the cell under the
/// centre of each wall piece that lies in the `GRID_TILES` by `GRID_TILES` map. Nothing else
/// in the grid changes; once a cell is marked, the grid's graph is no longer up to date.
pub fn generate_walls(center: Point2, size: Point2, tile_size: i64, doors: DoorSides, grid: &mut NavGrid) -> (walls: Vec<Wall>)
    requires
        layout_in_range(center, size, tile_size),
        whole_pixel_walls(size, tile_size, doors),
        cells_in_grid(room_walls(center, size, tile_size, doors), grid_dimensions(*old(grid))),
    ensures
        walls@ == room_walls(center, size, tile_size, doors),
        walls@.len() == side_pieces(doors.skip_bottom, doors.bottom) + side_pieces(doors.skip_top, doors.top)
            + side_pieces(doors.skip_left, doors.left) + side_pieces(doors.skip_right, doors.right),
        grid_dimensions(*final(grid)) == grid_dimensions(*old(grid)),
        grid_chunk_size(*final(grid)) == grid_chunk_size(*old(grid)),
        grid_cells(*final(grid)) == with_blocked(grid_cells(*old(grid)), wall_cells(walls@)),
        grid_built(*final(grid)) == (grid_built(*old(grid)) && wall_cells(walls@) == Set::<Cell>::empty()),
{
    let iy = (size.y - tile_size) / 2;
    let ix = (size.x - tile_size) / 2;
    proof {
        if !doors.skip_bottom || !doors.skip_top {
            assert(iy == inset(size.y as int, tile_size as int)) by (nonlinear_arith)
                requires
                    (size.y - tile_size) % 2 == 0,
                    iy == (size.y - tile_size) / 2,
            ;
        }
        if !doors.skip_left || !doors.skip_right {
            assert(ix == inset(size.x as int, tile_size as int)) by (nonlinear_arith)
                requires
                    (size.x - tile_size) % 2 == 0,
                    ix == (size.x - tile_size) / 2,
            ;
        }
    }
    let mut walls: Vec<Wall> = Vec::new();
    if !doors.skip_bottom {
        push_horizontal_side(&mut walls, center, size, tile_size, doors.bottom, -iy);
    }
    let ghost after_bottom = walls@;
    if !doors.skip_top {
        push_horizontal_side(&mut walls, center, size, tile_size, doors.top, iy);
    }
    let ghost after_top = walls@;
    if !doors.skip_left {
        push_vertical_side(&mut walls, center, size, tile_size, doors.left, -ix);
    }
    let ghost after_left = walls@;
    if !doors.skip_right {
        push_vertical_side(&mut walls, center, size, tile_size, doors.right, ix);
    }
    assert(walls@ =~= room_walls(center, size, tile_size, doors));

    let ghost old_cells = grid_cells(*grid);
    let ghost old_built = grid_built(*grid);
    let ghost dims = grid_dimensions(*grid);
    let ghost chunk = grid_chunk_size(*grid);
    proof {
        assert(wall_cells(walls@.take(0)) =~= Set::<Cell>::empty());
        assert(with_blocked(old_cells, wall_cells(walls@.take(0))) =~= old_cells);
    }
    let mut i: usize = 0;
    while i < walls.len()
        invariant
            0 <= i <= walls@.len(),
            walls@ == room_walls(center, size, tile_size, doors),
            cells_in_grid(walls@, dims),
            grid_dimensions(*grid) == dims,
            grid_chunk_size(*grid) == chunk,
            grid_cells(*grid) == with_blocked(old_cells, wall_cells(walls@.take(i as int))),
            grid_built(*grid) == (old_built && wall_cells(walls@.take(i as int)) == Set::<Cell>::empty()),
        decreases walls@.len() - i,
    {
        let w = walls[i];
        let cell = world_to_grid(w.pos.truncate());
        proof {
            assert(walls@.take(i + 1) =~= walls@.take(i as int) + seq![w]);
            lemma_wall_cells_concat(walls@.take(i as int), seq![w]);
        }
        if cell.0 < GRID_TILES && cell.1 < GRID_TILES {
            proof {
                assert(blocked_cell(walls@[i as int]) == Some(cell));
                assert(wall_cells(walls@).contains(cell));
            }
            block_cell(grid, cell);
            proof {
                assert(blocked_cell(seq![w][0]) == Some(cell));
                assert(wall_cells(seq![w]) =~= set![cell]);
                assert(wall_cells(walls@.take(i + 1)).contains(cell));
                assert(grid_cells(*grid) =~= with_blocked(old_cells, wall_cells(walls@.take(i + 1))));
            }
        } else {
            proof {
                assert(wall_cells(seq![w]) =~= Set::<Cell>::empty());
                assert(wall_cells(walls@.take(i + 1)) =~= wall_cells(walls@.take(i as int)));
            }
        }
        i = i + 1;
    }
    assert(walls@.take(walls@.len() as int) =~= walls@);
    walls
}

/// The box, one tile on each side, that sits in the gap of a side at `(x, y)`.
pub open spec fn tile_box_clear_of(x: int, y: int, tile_size: i64, walls: Seq<Wall>) -> bool {
    forall|i: int| 0 <= i < walls.len() ==> !boxes_overlap(
        Point2 { x: x as i64, y: y as i64 },
        Point2 { x: tile_size, y: tile_size },
        Point2 { x: #[trigger] walls[i].pos.x, y: walls[i].pos.y },
        Point2 { x: walls[i].height, y: walls[i].width },
    )
}

/// A bottom or top side with a door leaves a gap of one tile in its middle: a tile-sized box
/// centred there overlaps neither of the side's two wall pieces, which end exactly at the
/// box's edges.
pub proof fn lemma_horizontal_door_gap(center: Point2, size: Point2, tile_size: i64, dy: int)
    requires
        layout_in_range(center, size, tile_size),
        -LAYOUT_LIMIT <= dy <= LAYOUT_LIMIT,
        (size.x + tile_size) % 4 == 0,
    ensures
        tile_box_clear_of(center.x as int, center.y + dy, tile_size, horizontal_side(center, size, tile_size, true, dy)),
        2 * horizontal_side(center, size, tile_size, true, dy)[0].pos.x + horizontal_side(center, size, tile_size, true, dy)[0].height
            == 2 * center.x - tile_size,
        2 * horizontal_side(center, size, tile_size, true, dy)[1].pos.x - horizontal_side(center, size, tile_size, true, dy)[1].height
            == 2 * center.x + tile_size,
{
    let seg = door_segment(size.x as int, tile_size as int);
    let off = door_offset(size.x as int, tile_size as int);
    assert(2 * off == tile_size + seg && 2 * seg == size.x - tile_size) by (nonlinear_arith)
        requires
            (size.x + tile_size) % 4 == 0,
            seg == (size.x - tile_size) / 2,
            off == (tile_size + seg) / 2,
    ;
}

/// A left or right side with a door leaves a gap of one tile in its middle: a tile-sized box
/// centred there overlaps neither of the side's two wall pieces, which end exactly at the
/// box's edges.
pub proof fn lemma_vertical_door_gap(center: Point2, size: Point2, tile_size: i64, dx: int)
    requires
        layout_in_range(center, size, tile_size),
        -LAYOUT_LIMIT <= dx <= LAYOUT_LIMIT,
        (size.y + tile_size) % 4 == 0,
    ensures
        tile_box_clear_of(center.x + dx, center.y as int, tile_size, vertical_side(center, size, tile_size, true, dx)),
        2 * vertical_side(center, size, tile_size, true, dx)[0].pos.y + vertical_side(center, size, tile_size, true, dx)[0].width
            == 2 * center.y - tile_size,
        2 * vertical_side(center, size, tile_size, true, dx)[1].pos.y - vertical_side(center, size, tile_size, true, dx)[1].width
            == 2 * center.y + tile_size,
{
    let seg = door_segment(size.y as int, tile_size as int);
    let off = door_offset(size.y as int, tile_size as int);
    assert(2 * off == tile_size + seg && 2 * seg == size.y - tile_size) by (nonlinear_arith)
        requires
            (size.y + tile_size) % 4 == 0,
            seg == (size.y - tile_size) / 2,
            off == (tile_size + seg) / 2,
    ;
}

/// Wall piece `w` covers, along x, the interval from `lo / 2` to `hi / 2` (given doubled, so
/// that half pixels stay exact).
pub open spec fn spans_x(w: Wall, lo: int, hi: int) -> bool {
    2 * w.pos.x - w.height == lo && 2 * w.pos.x + w.height == hi
}

/// Wall piece `w` covers, along y, the interval from `lo / 2` to `hi / 2` (doubled).
pub open spec fn spans_y(w: Wall, lo: int, hi: int) -> bool {
    2 * w.pos.y - w.width == lo && 2 * w.pos.y + w.width == hi
}

/// The pieces `ws` of a bottom or top side: all one tile thick, centred on the line at
/// doubled height `line`; one piece across the whole room, or with a door two pieces from the
/// room's edges to one tile around the middle.
#[verifier::opaque]
pub open spec fn horizontal_side_placed(ws: Seq<Wall>, center: Point2, size: Point2, tile_size: i64, has_door: bool, line: int) -> bool {
    &&& forall|i: int| 0 <= i < ws.len() ==> 2 * (#[trigger] ws[i]).pos.y == line && ws[i].width == tile_size
    &&& if has_door {
        &&& ws.len() == 2
        &&& spans_x(ws[0], 2 * center.x - size.x, 2 * center.x - tile_size)
        &&& spans_x(ws[1], 2 * center.x + tile_size, 2 * center.x + size.x)
    } else {
        &&& ws.len() == 1
        &&& spans_x(ws[0], 2 * center.x - size.x, 2 * center.x + size.x)
    }
}

/// The pieces `ws` of a left or right side: all one tile thick, centred on the line at
/// doubled distance `line`; one piece along the whole room, or with a door two pieces from
/// the room's edges to one tile around the middle.
#[verifier::opaque]
pub open spec fn vertical_side_placed(ws: Seq<Wall>, center: Point2, size: Point2, tile_size: i64, has_door: bool, line: int) -> bool {
    &&& forall|i: int| 0 <= i < ws.len() ==> 2 * (#[trigger] ws[i]).pos.x == line && ws[i].height == tile_size
    &&& if has_door {
        &&& ws.len() == 2
        &&& spans_y(ws[0], 2 * center.y - size.y, 2 * center.y - tile_size)
        &&& spans_y(ws[1], 2 * center.y + tile_size, 2 * center.y + size.y)
    } else {
        &&& ws.len() == 1
        &&& spans_y(ws[0], 2 * center.y - size.y, 2 * center.y + size.y)
    }
}

/// Every wall piece of a room stands on its own side: the bottom pieces come first, half a
/// tile inside the room's lower edge (`center.y - (size.y - tile_size) / 2`), then the top
/// pieces half a tile inside its upper edge, then the left and the right pieces likewise,
/// each side present unless skipped; a side runs the whole length of the room, or with a door
/// leaves exactly one tile open in its middle.
#[verifier::rlimit(80)]
pub proof fn lemma_room_walls_on_their_sides(center: Point2, size: Point2, tile_size: i64, doors: DoorSides)
    requires
        layout_in_range(center, size, tile_size),
        whole_pixel_walls(size, tile_size, doors),
    ensures
        ({
            let w = room_walls(center, size, tile_size, doors);
            let nb = side_pieces(doors.skip_bottom, doors.bottom) as int;
            let nt = side_pieces(doors.skip_top, doors.top) as int;
            let nl = side_pieces(doors.skip_left, doors.left) as int;
            let nr = side_pieces(doors.skip_right, doors.right) as int;
            &&& w.len() == nb + nt + nl + nr
            &&& !doors.skip_bottom ==> horizontal_side_placed(w.subrange(0, nb), center, size, tile_size, doors.bottom,
                2 * center.y - (size.y - tile_size))
            &&& !doors.skip_top ==> horizontal_side_placed(w.subrange(nb, nb + nt), center, size, tile_size, doors.top,
                2 * center.y + (size.y - tile_size))
            &&& !doors.skip_left ==> vertical_side_placed(w.subrange(nb + nt, nb + nt + nl), center, size, tile_size, doors.left,
                2 * center.x - (size.x - tile_size))
            &&& !doors.skip_right ==> vertical_side_placed(w.subrange(nb + nt + nl, w.len() as int), center, size, tile_size, doors.right,
                2 * center.x + (size.x - tile_size))
        }),
{
    let iy = inset(size.y as int, tile_size as int);
    let ix = inset(size.x as int, tile_size as int);
    if !doors.skip_bottom || !doors.skip_top {
        assert(2 * iy == size.y - tile_size) by (nonlinear_arith)
            requires
                (size.y - tile_size) % 2 == 0,
                iy == (size.y - tile_size) / 2,
        ;
    }
    if !doors.skip_left || !doors.skip_right {
        assert(2 * ix == size.x - tile_size) by (nonlinear_arith)
            requires
                (size.x - tile_size) % 2 == 0,
                ix == (size.x - tile_size) / 2,
        ;
    }
    let bottom = if doors.skip_bottom { Seq::empty() } else { horizontal_side(center, size, tile_size, doors.bottom, -iy) };
    let top = if doors.skip_top { Seq::empty() } else { horizontal_side(center, size, tile_size, doors.top, iy) };
    let left = if doors.skip_left { Seq::empty() } else { vertical_side(center, size, tile_size, doors.left, -ix) };
    let right = if doors.skip_right { Seq::empty() } else { vertical_side(center, size, tile_size, doors.right, ix) };
    if !doors.skip_bottom {
        lemma_horizontal_side_placed(center, size, tile_size, doors.bottom, -iy);
    }
    if !doors.skip_top {
        lemma_horizontal_side_placed(center, size, tile_size, doors.top, iy);
    }
    if !doors.skip_left {
        lemma_vertical_side_placed(center, size, tile_size, doors.left, -ix);
    }
    if !doors.skip_right {
        lemma_vertical_side_placed(center, size, tile_size, doors.right, ix);
    }
    let w = room_walls(center, size, tile_size, doors);
    let nb = bottom.len() as int;
    let nt = top.len() as int;
    let nl = left.len() as int;
    assert(w == bottom + top + left + right);
    assert(w.subrange(0, nb) =~= bottom);
    assert(w.subrange(nb, nb + nt) =~= top);
    assert(w.subrange(nb + nt, nb + nt + nl) =~= left);
    assert(w.subrange(nb + nt + nl, w.len() as int) =~= right);
}

/// The pieces of one bottom or top side stand on their line and span the room as stated by
/// `horizontal_side_placed`.
proof fn lemma_horizontal_side_placed(center: Point2, size: Point2, tile_size: i64, has_door: bool, dy: int)
    requires
        layout_in_range(center, size, tile_size),
        -LAYOUT_LIMIT <= dy <= LAYOUT_LIMIT,
        has_door ==> (size.x + tile_size) % 4 == 0,
    ensures
        horizontal_side_placed(horizontal_side(center, size, tile_size, has_door, dy), center, size, tile_size, has_door,
            2 * (center.y + dy)),
{
    reveal(horizontal_side_placed);
    if has_door {
        let seg = door_segment(size.x as int, tile_size as int);
        let off = door_offset(size.x as int, tile_size as int);
        assert(2 * off == tile_size + seg && 2 * seg == size.x - tile_size) by (nonlinear_arith)
            requires
                (size.x + tile_size) % 4 == 0,
                seg == (size.x - tile_size) / 2,
                off == (tile_size + seg) / 2,
        ;
    }
}

/// The pieces of one left or right side stand on their line and span the room as stated by
/// `vertical_side_placed`.
proof fn lemma_vertical_side_placed(center: Point2, size: Point2, tile_size: i64, has_door: bool, dx: int)
    requires
        layout_in_range(center, size, tile_size),
        -LAYOUT_LIMIT <= dx <= LAYOUT_LIMIT,
        has_door ==> (size.y + tile_size) % 4 == 0,
    ensures
        vertical_side_placed(vertical_side(center, size, tile_size, has_door, dx), center, size, tile_size, has_door,
            2 * (center.x + dx)),
{
    reveal(vertical_side_placed);
    if has_door {
        let seg = door_segment(size.y as int, tile_size as int);
        let off = door_offset(size.y as int, tile_size as int);
        assert(2 * off == tile_size + seg && 2 * seg == size.y - tile_size) by (nonlinear_arith)
            requires
                (size.y + tile_size) % 4 == 0,
                seg == (size.y - tile_size) / 2,
                off == (tile_size + seg) / 2,
        ;
    }
}
} // verus!
