//! A verified model of a sprite-atlas tilemap scene.
//!
//! The library packs a set of sprites into a texture atlas, giving each
//! sprite exactly one non-overlapping region, builds a uniform tile grid
//! whose cells all reference a region of that atlas, and decides the
//! asset-loading state transitions that gate scene construction.

pub mod assembler;
pub mod atlas;
pub mod grid;
pub mod loading;
