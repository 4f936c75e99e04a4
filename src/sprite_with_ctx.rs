//! A sprite's pixels as the picture unit hands them on.
use vstd::prelude::*;

verus! {

/// The pixels of one sprite: rows of palette indices.
pub type Sprite = Vec<Vec<u8>>;

/// A sprite as the renderer receives it.
#[derive(Debug)]
pub struct SpriteWithCtx {
    pub sprite: Sprite,
}

/// The sprites of one frame.
pub type SpritesWithCtx = Vec<SpriteWithCtx>;

} // verus!
