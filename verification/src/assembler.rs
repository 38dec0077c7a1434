//! Scene assembly.
//!
//! The one-shot setup step of the program, reduced to its computation:
//! pack the loaded sprites into an atlas, look up the designated tile
//! sprite's region index, and fill the whole grid with that index. The
//! engine-facing work around it — spawning entities, materials and
//! cameras — stays with the caller.

use vstd::prelude::*;
use crate::atlas::{pack_sprites, distinct_sprite_ids, fits, Atlas, SpriteAsset};
use crate::grid::{fill_uniform, LayerSettings, TileGrid};

verus! {

/// Why the scene could not be assembled. Either way the caller treats
/// the failure as fatal.
#[derive(Clone, Copy, Debug, PartialEq, Eq, Structural)]
pub enum AssembleError {
    /// The sprites together exceed the atlas size limit.
    AtlasTooLarge,
    /// No sprite of the set carries the designated tile identity.
    TileNotFound,
}

/// Some sprite of the set carries this identity.
pub open spec fn has_sprite(sprites: Seq<SpriteAsset>, id: u64) -> bool {
    exists|i: int| 0 <= i < sprites.len() && (#[trigger] sprites[i]).id == id
}

/// The assembled scene: the packed atlas, the region index of the tile
/// sprite within it, and the grid filled with that index.
pub struct Scene {
    pub atlas: Atlas,
    pub tile_index: usize,
    pub grid: TileGrid,
}

impl Scene {
    /// The scene invariant: a well-formed atlas, a tile index naming one
    /// of its regions, and a grid of the full cell count whose every
    /// cell references that region.
    pub open spec fn wf(self) -> bool {
        &&& self.atlas.wf()
        &&& self.tile_index < self.atlas.regions@.len()
        &&& self.grid.wf_for(self.atlas)
        &&& forall|i: int|
            0 <= i < self.grid.cells@.len() ==> (#[trigger] self.grid.cells@[i]).texture_index
                == self.tile_index
    }
}

/// Assembles the scene from the loaded sprites: packs them into one
/// atlas, finds the region of the sprite named `tile_id`, and fills a
/// grid of the given dimensions uniformly with that region's index.
/// Succeeds exactly when the sprites fit under the atlas size limit and
/// one of them carries `tile_id`; each failure reports which of the two
/// did not hold.
pub fn assemble_scene(sprites: &Vec<SpriteAsset>, tile_id: u64, settings: LayerSettings) -> (result:
    Result<Scene, AssembleError>)
    requires
        distinct_sprite_ids(sprites@),
        settings.cell_count() <= usize::MAX,
    ensures
        result is Ok <==> fits(sprites@) && has_sprite(sprites@, tile_id),
        result matches Ok(scene) ==> {
            &&& scene.wf()
            &&& scene.atlas.packs(sprites@)
            &&& scene.atlas.ids@[scene.tile_index as int] == tile_id
            &&& scene.grid.settings == settings
            &&& scene.grid.cells@.len() == settings.cell_count()
        },
        result matches Err(e) ==> (e is AtlasTooLarge <==> !fits(sprites@)),
{
    let atlas = match pack_sprites(sprites) {
        Ok(atlas) => atlas,
        Err(_) => {
            return Err(AssembleError::AtlasTooLarge);
        },
    };
    let tile_index = match atlas.get_texture_index(tile_id) {
        Some(index) => index,
        None => {
            proof {
                assert forall|i: int|
                    0 <= i < sprites@.len() implies (#[trigger] sprites@[i]).id != tile_id by {
                    assert(atlas.ids@[i] != tile_id);
                }
            }
            return Err(AssembleError::TileNotFound);
        },
    };
    let grid = fill_uniform(settings, tile_index, &atlas);
    Ok(Scene { atlas, tile_index, grid })
}

} // verus!
