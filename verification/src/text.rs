//! The record a rasterized glyph leaves behind: which character it is and
//! the pixel size of its image.

use vstd::prelude::*;

verus! {

/// A rasterized character and the size of its image in pixels.
#[derive(Copy, Clone, Debug, PartialEq, Eq, Structural)]
pub struct CharacterRecord {
    pub c: char,
    pub width: u32,
    pub height: u32,
}

impl CharacterRecord {
    /// Builds a record for character `c` with an image of the given size.
    pub fn new(c: char, width: u32, height: u32) -> (r: CharacterRecord)
        ensures
            r == (CharacterRecord { c, width, height }),
    {
        CharacterRecord { c, width, height }
    }
}

} // verus!
