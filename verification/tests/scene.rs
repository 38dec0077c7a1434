use tile_atlas::assembler::{assemble_scene, AssembleError};
use tile_atlas::atlas::{pack_sprites, AtlasError, AtlasRegion, SpriteAsset};
use tile_atlas::grid::{fill_uniform, LayerSettings};

fn sprite(id: u64, width: u32, height: u32) -> SpriteAsset {
    SpriteAsset { id, width, height }
}

fn overlap(a: &AtlasRegion, b: &AtlasRegion) -> bool {
    !(a.x + a.width <= b.x || b.x + b.width <= a.x || a.y + a.height <= b.y
        || b.y + b.height <= a.y)
}

fn demo_settings() -> LayerSettings {
    LayerSettings {
        map_width: 2,
        map_height: 2,
        chunk_width: 8,
        chunk_height: 8,
        tile_width: 16,
        tile_height: 16,
    }
}

#[test]
fn pack_gives_one_region_per_sprite() {
    let sprites = vec![sprite(1, 16, 16), sprite(2, 8, 32), sprite(3, 20, 4)];
    let atlas = pack_sprites(&sprites).unwrap();
    assert_eq!(atlas.regions.len(), 3);
    assert_eq!(atlas.ids, vec![1, 2, 3]);
    for (s, r) in sprites.iter().zip(atlas.regions.iter()) {
        assert_eq!(r.width, s.width);
        assert_eq!(r.height, s.height);
        assert!(r.x + r.width <= atlas.width);
        assert!(r.y + r.height <= atlas.height);
    }
    for i in 0..atlas.regions.len() {
        for j in 0..atlas.regions.len() {
            if i != j {
                assert!(!overlap(&atlas.regions[i], &atlas.regions[j]));
            }
        }
    }
}

#[test]
fn pack_lays_sprites_on_one_shelf() {
    let sprites = vec![sprite(7, 16, 16), sprite(9, 8, 32)];
    let atlas = pack_sprites(&sprites).unwrap();
    assert_eq!(atlas.width, 24);
    assert_eq!(atlas.height, 32);
    assert_eq!(atlas.regions[0], AtlasRegion { x: 0, y: 0, width: 16, height: 16 });
    assert_eq!(atlas.regions[1], AtlasRegion { x: 16, y: 0, width: 8, height: 32 });
}

#[test]
fn pack_of_no_sprites_is_empty() {
    let atlas = pack_sprites(&Vec::new()).unwrap();
    assert_eq!(atlas.width, 0);
    assert_eq!(atlas.height, 0);
    assert!(atlas.regions.is_empty());
    assert!(atlas.ids.is_empty());
}

#[test]
fn pack_accepts_the_exact_size_limit() {
    let sprites = vec![sprite(1, 1024, 2048), sprite(2, 1024, 1)];
    let atlas = pack_sprites(&sprites).unwrap();
    assert_eq!(atlas.width, 2048);
    assert_eq!(atlas.height, 2048);
}

#[test]
fn pack_refuses_sprites_too_wide_together() {
    let sprites = vec![sprite(1, 1024, 16), sprite(2, 1025, 16)];
    assert_eq!(pack_sprites(&sprites).err().unwrap(), AtlasError::TooLarge);
}

#[test]
fn pack_refuses_a_sprite_too_tall() {
    let sprites = vec![sprite(1, 16, 2049)];
    assert_eq!(pack_sprites(&sprites).err().unwrap(), AtlasError::TooLarge);
}

#[test]
fn texture_index_finds_each_sprite() {
    let sprites = vec![sprite(10, 4, 4), sprite(20, 4, 4), sprite(30, 4, 4)];
    let atlas = pack_sprites(&sprites).unwrap();
    assert_eq!(atlas.get_texture_index(10), Some(0));
    assert_eq!(atlas.get_texture_index(30), Some(2));
    assert_eq!(atlas.get_texture_index(40), None);
    assert_eq!(atlas.region(2).width, 4);
}

#[test]
fn grid_has_width_times_height_cells() {
    let sprites = vec![sprite(5, 16, 16), sprite(6, 16, 16)];
    let atlas = pack_sprites(&sprites).unwrap();
    let settings = LayerSettings {
        map_width: 3,
        map_height: 1,
        chunk_width: 4,
        chunk_height: 5,
        tile_width: 16,
        tile_height: 16,
    };
    let grid = fill_uniform(settings, 1, &atlas);
    assert_eq!(grid.settings, settings);
    assert_eq!(grid.cells.len(), 12 * 5);
    for cell in grid.cells.iter() {
        assert!(cell.texture_index < atlas.regions.len());
    }
}

#[test]
fn uniform_fill_references_one_region_everywhere() {
    let sprites = vec![sprite(1, 16, 16), sprite(2, 16, 16), sprite(3, 16, 16)];
    let scene = assemble_scene(&sprites, 2, demo_settings()).unwrap();
    assert_eq!(scene.tile_index, 1);
    assert_eq!(scene.grid.cells.len(), 256);
    assert!(scene.grid.cells.iter().all(|c| c.texture_index == 1));
    assert_eq!(scene.grid.settings.tile_width, 16);
    assert_eq!(scene.grid.settings.tile_height, 16);
}

#[test]
fn assemble_reports_a_missing_tile() {
    let sprites = vec![sprite(1, 16, 16)];
    let result = assemble_scene(&sprites, 99, demo_settings());
    assert_eq!(result.err().unwrap(), AssembleError::TileNotFound);
}

#[test]
fn assemble_reports_an_oversized_atlas() {
    let sprites = vec![sprite(1, 4096, 16)];
    let result = assemble_scene(&sprites, 1, demo_settings());
    assert_eq!(result.err().unwrap(), AssembleError::AtlasTooLarge);
}

#[test]
fn assemble_builds_the_whole_scene() {
    let sprites = vec![sprite(8, 16, 16), sprite(4, 32, 8)];
    let scene = assemble_scene(&sprites, 4, demo_settings()).unwrap();
    assert_eq!(scene.atlas.width, 48);
    assert_eq!(scene.atlas.height, 16);
    assert_eq!(scene.tile_index, 1);
    assert_eq!(scene.atlas.ids[scene.tile_index], 4);
    assert_eq!(scene.grid.cells.len(), 256);
}
