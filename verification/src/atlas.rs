//! Packing sprites into a texture atlas.
//!
//! An [`Atlas`] assigns every sprite of a set exactly one rectangular
//! region of a single larger texture. Regions never overlap, stay inside
//! the atlas bounds, and keep each sprite's own pixel dimensions. Sprites
//! are laid out side by side on one shelf; packing fails exactly when the
//! sprites together exceed the atlas size limit.

use vstd::prelude::*;

verus! {

/// Largest width, in pixels, the packed atlas texture may have.
pub const MAX_ATLAS_WIDTH: u32 = 2048;

/// Largest height, in pixels, the packed atlas texture may have.
pub const MAX_ATLAS_HEIGHT: u32 = 2048;

/// A decoded sprite image: its identity and its pixel dimensions.
#[derive(Clone, Copy, Debug, PartialEq, Eq, Structural)]
pub struct SpriteAsset {
    pub id: u64,
    pub width: u32,
    pub height: u32,
}

/// A rectangle within the packed atlas texture: offset plus size, in pixels.
#[derive(Clone, Copy, Debug, PartialEq, Eq, Structural)]
pub struct AtlasRegion {
    pub x: u32,
    pub y: u32,
    pub width: u32,
    pub height: u32,
}

/// Why packing was refused.
#[derive(Clone, Copy, Debug, PartialEq, Eq, Structural)]
pub enum AtlasError {
    /// The sprites together exceed the atlas size limit.
    TooLarge,
}

/// The packed atlas: its texture size and, for each packed sprite, the
/// sprite's identity beside its region. `ids[i]` names the sprite placed
/// at `regions[i]`.
pub struct Atlas {
    pub width: u32,
    pub height: u32,
    pub ids: Vec<u64>,
    pub regions: Vec<AtlasRegion>,
}

/// Two regions share no pixel: they are separated along at least one axis.
pub open spec fn disjoint_regions(a: AtlasRegion, b: AtlasRegion) -> bool {
    ||| a.x + a.width <= b.x
    ||| b.x + b.width <= a.x
    ||| a.y + a.height <= b.y
    ||| b.y + b.height <= a.y
}

/// The region lies inside a texture of the given size.
pub open spec fn region_in_bounds(r: AtlasRegion, width: int, height: int) -> bool {
    r.x + r.width <= width && r.y + r.height <= height
}

/// No two sprites of the set share an identity.
pub open spec fn distinct_sprite_ids(sprites: Seq<SpriteAsset>) -> bool {
    forall|i: int, j: int|
        0 <= i < j < sprites.len() ==> sprites[i].id != sprites[j].id
}

/// Combined width of the sprites when laid side by side.
pub open spec fn total_width(sprites: Seq<SpriteAsset>) -> int
    decreases sprites.len(),
{
    if sprites.len() == 0 {
        0
    } else {
        total_width(sprites.drop_last()) + sprites.last().width
    }
}

/// Height of the tallest sprite of the set.
pub open spec fn max_height(sprites: Seq<SpriteAsset>) -> int
    decreases sprites.len(),
{
    if sprites.len() == 0 {
        0
    } else if sprites.last().height > max_height(sprites.drop_last()) {
        sprites.last().height as int
    } else {
        max_height(sprites.drop_last())
    }
}

/// The sprites fit into one atlas under the size limit.
pub open spec fn fits(sprites: Seq<SpriteAsset>) -> bool {
    total_width(sprites) <= MAX_ATLAS_WIDTH && max_height(sprites) <= MAX_ATLAS_HEIGHT
}

impl Atlas {
    /// The atlas invariant: one identity per region, all identities
    /// distinct, every region inside the texture, and no two regions
    /// overlapping.
    pub open spec fn wf(self) -> bool {
        &&& self.ids@.len() == self.regions@.len()
        &&& distinct_ids(self.ids@)
        &&& self.width <= MAX_ATLAS_WIDTH
        &&& self.height <= MAX_ATLAS_HEIGHT
        &&& forall|i: int|
            0 <= i < self.regions@.len() ==> region_in_bounds(
                #[trigger] self.regions@[i],
                self.width as int,
                self.height as int,
            )
        &&& forall|i: int, j: int|
            0 <= i < j < self.regions@.len() ==> disjoint_regions(
                self.regions@[i],
                self.regions@[j],
            )
    }

    /// The atlas packs exactly these sprites, in order: one region per
    /// sprite, under the sprite's identity and with its dimensions.
    pub open spec fn packs(self, sprites: Seq<SpriteAsset>) -> bool {
        &&& self.regions@.len() == sprites.len()
        &&& self.ids@.len() == sprites.len()
        &&& forall|i: int| 0 <= i < sprites.len() ==> self.ids@[i] == sprites[i].id
        &&& forall|i: int|
            0 <= i < sprites.len() ==> (#[trigger] self.regions@[i]).width == sprites[i].width
                && self.regions@[i].height == sprites[i].height
    }

    /// Index of the region holding the sprite of this identity, if any.
    pub fn get_texture_index(&self, id: u64) -> (index: Option<usize>)
        ensures
            match index {
                Some(i) => i < self.ids@.len() && self.ids@[i as int] == id,
                None => forall|j: int| 0 <= j < self.ids@.len() ==> self.ids@[j] != id,
            },
    {
        let mut i: usize = 0;
        while i < self.ids.len()
            invariant
                i <= self.ids.len(),
                forall|j: int| 0 <= j < i ==> self.ids@[j] != id,
            decreases self.ids.len() - i,
        {
            if self.ids[i] == id {
                return Some(i);
            }
            i = i + 1;
        }
        None
    }

    /// The region stored at a valid index.
    pub fn region(&self, index: usize) -> (r: AtlasRegion)
        requires
            index < self.regions@.len(),
        ensures
            r == self.regions@[index as int],
    {
        self.regions[index]
    }
}

/// No two identities of the table coincide.
pub open spec fn distinct_ids(ids: Seq<u64>) -> bool {
    forall|i: int, j: int| 0 <= i < j < ids.len() ==> ids[i] != ids[j]
}

proof fn lemma_total_width_step(sprites: Seq<SpriteAsset>, k: int)
    requires
        0 <= k < sprites.len(),
    ensures
        total_width(sprites.subrange(0, k + 1)) == total_width(sprites.subrange(0, k))
            + sprites[k].width,
{
    assert(sprites.subrange(0, k + 1).drop_last() =~= sprites.subrange(0, k));
    assert(sprites.subrange(0, k + 1).last() == sprites[k]);
}

proof fn lemma_max_height_step(sprites: Seq<SpriteAsset>, k: int)
    requires
        0 <= k < sprites.len(),
    ensures
        max_height(sprites.subrange(0, k + 1)) == if sprites[k].height > max_height(
            sprites.subrange(0, k),
        ) {
            sprites[k].height as int
        } else {
            max_height(sprites.subrange(0, k))
        },
{
    assert(sprites.subrange(0, k + 1).drop_last() =~= sprites.subrange(0, k));
    assert(sprites.subrange(0, k + 1).last() == sprites[k]);
}

proof fn lemma_total_width_mono(sprites: Seq<SpriteAsset>, k: int)
    requires
        0 <= k <= sprites.len(),
    ensures
        total_width(sprites.subrange(0, k)) <= total_width(sprites),
    decreases sprites.len() - k,
{
    if k == sprites.len() {
        assert(sprites.subrange(0, k) =~= sprites);
    } else {
        lemma_total_width_step(sprites, k);
        lemma_total_width_mono(sprites, k + 1);
    }
}

proof fn lemma_max_height_mono(sprites: Seq<SpriteAsset>, k: int)
    requires
        0 <= k <= sprites.len(),
    ensures
        max_height(sprites.subrange(0, k)) <= max_height(sprites),
    decreases sprites.len() - k,
{
    if k == sprites.len() {
        assert(sprites.subrange(0, k) =~= sprites);
    } else {
        lemma_max_height_step(sprites, k);
        lemma_max_height_mono(sprites, k + 1);
    }
}

/// Packs the sprites into one atlas, side by side on a single shelf.
/// Succeeds exactly when the sprites fit under the size limit; the atlas
/// then holds exactly one region per sprite, none of them overlapping.
pub fn pack_sprites(sprites: &Vec<SpriteAsset>) -> (result: Result<Atlas, AtlasError>)
    requires
        distinct_sprite_ids(sprites@),
    ensures
        result is Ok <==> fits(sprites@),
        result matches Ok(atlas) ==> {
            &&& atlas.wf()
            &&& atlas.packs(sprites@)
            &&& atlas.width == total_width(sprites@)
            &&& atlas.height == max_height(sprites@)
            &&& forall|i: int|
                0 <= i < sprites@.len() ==> (#[trigger] atlas.regions@[i]).x == total_width(
                    sprites@.subrange(0, i),
                ) && atlas.regions@[i].y == 0
        },
        result matches Err(e) ==> e is TooLarge,
{
    let mut ids: Vec<u64> = Vec::new();
    let mut regions: Vec<AtlasRegion> = Vec::new();
    let mut cursor: u32 = 0;
    let mut height: u32 = 0;
    let mut i: usize = 0;
    while i < sprites.len()
        invariant
            i <= sprites.len(),
            distinct_sprite_ids(sprites@),
            ids@.len() == i,
            regions@.len() == i,
            cursor == total_width(sprites@.subrange(0, i as int)),
            height == max_height(sprites@.subrange(0, i as int)),
            cursor <= MAX_ATLAS_WIDTH,
            height <= MAX_ATLAS_HEIGHT,
            forall|k: int| 0 <= k < i ==> ids@[k] == sprites@[k].id,
            forall|k: int|
                0 <= k < i ==> {
                    &&& (#[trigger] regions@[k]).x == total_width(sprites@.subrange(0, k))
                    &&& regions@[k].y == 0
                    &&& regions@[k].width == sprites@[k].width
                    &&& regions@[k].height == sprites@[k].height
                },
        decreases sprites.len() - i,
    {
        let sprite = sprites[i];
        proof {
            lemma_total_width_step(sprites@, i as int);
            lemma_max_height_step(sprites@, i as int);
        }
        if sprite.width > MAX_ATLAS_WIDTH - cursor {
            proof {
                lemma_total_width_mono(sprites@, i + 1);
            }
            return Err(AtlasError::TooLarge);
        }
        if sprite.height > MAX_ATLAS_HEIGHT {
            proof {
                lemma_max_height_mono(sprites@, i + 1);
            }
            return Err(AtlasError::TooLarge);
        }
        ids.push(sprite.id);
        regions.push(
            AtlasRegion { x: cursor, y: 0, width: sprite.width, height: sprite.height },
        );
        cursor = cursor + sprite.width;
        if sprite.height > height {
            height = sprite.height;
        }
        i = i + 1;
    }
    proof {
        assert(sprites@.subrange(0, sprites@.len() as int) =~= sprites@);
    }
    let atlas = Atlas { width: cursor, height, ids, regions };
    proof {
        assert forall|k: int, l: int|
            0 <= k < l < atlas.regions@.len() implies disjoint_regions(
            atlas.regions@[k],
            atlas.regions@[l],
        ) by {
            lemma_total_width_step(sprites@, k);
            lemma_shelf_cursor_mono(sprites@, k + 1, l);
        }
        assert forall|k: int|
            0 <= k < atlas.regions@.len() implies region_in_bounds(
            #[trigger] atlas.regions@[k],
            atlas.width as int,
            atlas.height as int,
        ) by {
            lemma_total_width_step(sprites@, k);
            lemma_shelf_cursor_mono(sprites@, k + 1, sprites@.len() as int);
            lemma_max_height_in(sprites@, k);
        }
    }
    Ok(atlas)
}

proof fn lemma_shelf_cursor_mono(sprites: Seq<SpriteAsset>, k: int, l: int)
    requires
        0 <= k <= l <= sprites.len(),
    ensures
        total_width(sprites.subrange(0, k)) <= total_width(sprites.subrange(0, l)),
    decreases l - k,
{
    if k < l {
        lemma_total_width_step(sprites, k);
        lemma_shelf_cursor_mono(sprites, k + 1, l);
    }
}

proof fn lemma_max_height_in(sprites: Seq<SpriteAsset>, k: int)
    requires
        0 <= k < sprites.len(),
    ensures
        sprites[k].height <= max_height(sprites),
    decreases sprites.len(),
{
    if k + 1 == sprites.len() {
        assert(sprites.last() == sprites[k]);
    } else {
        lemma_max_height_in(sprites.drop_last(), k);
        assert(sprites.drop_last()[k] == sprites[k]);
    }
}

/// Every sprite identity of a well-formed atlas names exactly one region:
/// two entries of the identity table that agree are the same entry, and
/// distinct entries' regions never overlap.
pub proof fn lemma_one_region_per_sprite(atlas: Atlas, i: int, j: int)
    requires
        atlas.wf(),
        0 <= i < atlas.ids@.len(),
        0 <= j < atlas.ids@.len(),
    ensures
        atlas.ids@[i] == atlas.ids@[j] ==> i == j,
        i != j ==> disjoint_regions(atlas.regions@[i], atlas.regions@[j]),
{
    if i < j {
        assert(disjoint_regions(atlas.regions@[i], atlas.regions@[j]));
    } else if j < i {
        assert(disjoint_regions(atlas.regions@[j], atlas.regions@[i]));
    }
}

} // verus!
