//! The tile grid.
//!
//! A [`TileGrid`] is a fixed-size two-dimensional array of cells, each
//! referencing one region of a texture atlas by index. The grid's size is
//! given in chunks, tiles per chunk, and pixels per tile. This library
//! fills every cell with a single region index, the simplest fill policy.

use vstd::prelude::*;
use crate::atlas::Atlas;

verus! {

/// One cell of the tile grid: a reference into the atlas's region table.
#[derive(Clone, Copy, Debug, PartialEq, Eq, Structural)]
pub struct TileGridCell {
    pub texture_index: usize,
}

/// Dimensions of a grid layer: chunks across and down, tiles per chunk in
/// each direction, and the pixel size of one tile.
#[derive(Clone, Copy, Debug, PartialEq, Eq, Structural)]
pub struct LayerSettings {
    pub map_width: u32,
    pub map_height: u32,
    pub chunk_width: u32,
    pub chunk_height: u32,
    pub tile_width: u32,
    pub tile_height: u32,
}

impl LayerSettings {
    /// Width of the grid in tiles.
    pub open spec fn grid_width(self) -> int {
        self.map_width * self.chunk_width
    }

    /// Height of the grid in tiles.
    pub open spec fn grid_height(self) -> int {
        self.map_height * self.chunk_height
    }

    /// Number of cells of the grid.
    pub open spec fn cell_count(self) -> int {
        self.grid_width() * self.grid_height()
    }
}

/// The grid: its layer settings and its cells, row by row.
pub struct TileGrid {
    pub settings: LayerSettings,
    pub cells: Vec<TileGridCell>,
}

impl TileGrid {
    /// The grid invariant against an atlas: the grid holds exactly
    /// `grid_width × grid_height` cells, and every cell references a
    /// region the atlas actually has.
    pub open spec fn wf_for(self, atlas: Atlas) -> bool {
        &&& self.cells@.len() == self.settings.cell_count()
        &&& forall|i: int|
            0 <= i < self.cells@.len() ==> (#[trigger] self.cells@[i]).texture_index
                < atlas.regions@.len()
    }

    /// The cell at a valid index.
    pub fn cell(&self, index: usize) -> (c: TileGridCell)
        requires
            index < self.cells@.len(),
        ensures
            c == self.cells@[index as int],
    {
        self.cells[index]
    }
}

/// Builds the grid and sets every cell to the one region index given,
/// the way a single-tile-type layer is made: the result holds exactly
/// `grid_width × grid_height` cells, all referencing that region.
pub fn fill_uniform(settings: LayerSettings, texture_index: usize, atlas: &Atlas) -> (grid:
    TileGrid)
    requires
        texture_index < atlas.regions@.len(),
        settings.cell_count() <= usize::MAX,
    ensures
        grid.settings == settings,
        grid.cells@.len() == settings.cell_count(),
        forall|i: int|
            0 <= i < grid.cells@.len() ==> (#[trigger] grid.cells@[i]).texture_index
                == texture_index,
        grid.wf_for(*atlas),
{
    proof {
        assert((settings.map_width as int) * (settings.chunk_width as int)
            < 0x1_0000_0000_0000_0000 && (settings.map_height as int) * (settings.chunk_height
            as int) < 0x1_0000_0000_0000_0000) by (nonlinear_arith)
            requires
                settings.map_width < 0x1_0000_0000,
                settings.chunk_width < 0x1_0000_0000,
                settings.map_height < 0x1_0000_0000,
                settings.chunk_height < 0x1_0000_0000,
        ;
    }
    let grid_width: u64 = (settings.map_width as u64) * (settings.chunk_width as u64);
    let grid_height: u64 = (settings.map_height as u64) * (settings.chunk_height as u64);
    assert(grid_width * grid_height == settings.cell_count()) by (nonlinear_arith)
        requires
            grid_width == settings.map_width * settings.chunk_width,
            grid_height == settings.map_height * settings.chunk_height,
    ;
    let total: u64 = grid_width * grid_height;
    let total: usize = total as usize;
    let mut cells: Vec<TileGridCell> = Vec::new();
    let mut i: usize = 0;
    while i < total
        invariant
            i <= total,
            cells@.len() == i,
            forall|k: int|
                0 <= k < i ==> (#[trigger] cells@[k]).texture_index == texture_index,
        decreases total - i,
    {
        cells.push(TileGridCell { texture_index });
        i = i + 1;
    }
    TileGrid { settings, cells }
}

} // verus!
