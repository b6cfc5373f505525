//! The pathfinding grid of `bevy_northstar` as the map logic sees it: its dimensions, its
//! chunk size, the navigation of each of its cells, and whether its path graph is built.
use bevy_northstar::grid::{GridSettings, GridSettingsBuilder};
use bevy_northstar::nav::Nav;
use bevy_northstar::CardinalGrid;
use bevy::math::UVec3;
use vstd::prelude::*;

verus! {

/// A cardinal pathfinding grid of `bevy_northstar`. The map logic sees the grid only through
/// the names and functions of this module. The field is public so that the world can take
/// the finished grid over once the map is laid out; the names describe the grid as handed
/// over.
#[verifier::external_body]
pub struct NavGrid {
    /// The grid itself.
    pub grid: CardinalGrid,
}

/// A cell of the grid: column, row and layer.
pub type Cell = (u32, u32, u32);

/// The navigation of one cell, as `bevy_northstar`'s `Nav` gives it: passable at a movement
/// cost, impassable, or a portal (whose target is not recorded here).
#[derive(Clone, Copy, Debug, PartialEq, Eq, Structural)]
pub enum CellNav {
    Passable(u32),
    Impassable,
    Portal,
}

/// The dimensions (width, height, depth) of a grid, as fixed when it was made.
pub uninterp spec fn grid_dimensions(grid: NavGrid) -> (u32, u32, u32);

/// The side length of the square chunks that a grid is split into, as fixed when it was made.
pub uninterp spec fn grid_chunk_size(grid: NavGrid) -> u32;

/// The navigation of each cell of a grid.
pub uninterp spec fn grid_cells(grid: NavGrid) -> Map<Cell, CellNav>;

/// Whether a grid's path graph is built and up to date: it was built, and no cell has been
/// set since.
pub uninterp spec fn grid_built(grid: NavGrid) -> bool;

/// Whether `cell` lies inside a grid of dimensions `dims`.
pub open spec fn cell_in_bounds(dims: (u32, u32, u32), cell: Cell) -> bool {
    cell.0 < dims.0 && cell.1 < dims.1 && cell.2 < dims.2
}

/// The cells of a grid that are impassable.
pub open spec fn grid_blocked(grid: NavGrid) -> Set<Cell> {
    Set::new(|c: Cell| grid_cells(grid).contains_key(c) && grid_cells(grid)[c] == CellNav::Impassable)
}

/// Every cell of a grid of dimensions `dims` passable at cost 1, the cost a new grid starts
/// with.
pub open spec fn all_passable(dims: (u32, u32, u32)) -> Map<Cell, CellNav> {
    Map::new(|c: Cell| cell_in_bounds(dims, c), |c: Cell| CellNav::Passable(1))
}

/// Makes a two-dimensional cardinal grid of `width` by `height` cells, split into square
/// chunks of `chunk_size` cells, through `GridSettingsBuilder::new_2d`, `chunk_size`, `build`
/// and `Grid::new`. The builder gives the grid depth 1 and makes every cell passable at the
/// default cost 1; it panics on a width, height or chunk size under 3. A new grid is not built.
/// Claimed: the grid has dimensions `(width, height, 1)` and chunk size `chunk_size`, every
/// cell is passable at cost 1, and the grid is not built.
#[verifier::external_body]
pub fn new_cardinal_grid_2d(width: u32, height: u32, chunk_size: u32) -> (grid: NavGrid)
    requires
        width >= 3,
        height >= 3,
        chunk_size >= 3,
    ensures
        grid_dimensions(grid) == (width, height, 1u32),
        grid_chunk_size(grid) == chunk_size,
        grid_cells(grid) == all_passable((width, height, 1u32)),
        !grid_built(grid),
{
    let settings: GridSettings = GridSettingsBuilder::new_2d(width, height).chunk_size(
        chunk_size,
    ).build();
    NavGrid { grid: CardinalGrid::new(&settings) }
}

/// Marks one cell impassable through `Grid::set_nav(pos, Nav::Impassable)`, which panics on a
/// cell outside the grid and, on a built grid, marks the graph dirty.
/// Claimed: dimensions and chunk size stay, only `cell` changes (to impassable), and the
/// grid's graph is no longer up to date.
#[verifier::external_body]
pub fn block_cell(grid: &mut NavGrid, cell: Cell)
    requires
        cell_in_bounds(grid_dimensions(*old(grid)), cell),
    ensures
        grid_dimensions(*final(grid)) == grid_dimensions(*old(grid)),
        grid_chunk_size(*final(grid)) == grid_chunk_size(*old(grid)),
        grid_cells(*final(grid)) == grid_cells(*old(grid)).insert(cell, CellNav::Impassable),
        !grid_built(*final(grid)),
{
    grid.grid.set_nav(UVec3::new(cell.0, cell.1, cell.2), Nav::Impassable);
}

/// Precomputes neighbours, chunk nodes and paths through `Grid::build`, which touches only
/// the cached neighbour data of each cell, never its navigation, and ends by marking the grid
/// built and clean.
/// Claimed: dimensions, chunk size and navigation stay, and the grid is built. What the
/// cached graph holds is not stated.
#[verifier::external_body]
pub fn build_grid(grid: &mut NavGrid)
    ensures
        grid_dimensions(*final(grid)) == grid_dimensions(*old(grid)),
        grid_chunk_size(*final(grid)) == grid_chunk_size(*old(grid)),
        grid_cells(*final(grid)) == grid_cells(*old(grid)),
        grid_built(*final(grid)),
{
    grid.grid.build();
}

} // verus!
