//! A bitmap, as the image source has serialised it.

use vstd::prelude::*;
use crate::keyword::Density;

verus! {

/// What the printer commands read of a bitmap: its size in dots, its raster
/// bytes, and its rows of 8 and of 24 dots, top to bottom.
pub struct Image {
    pub width: u32,
    pub height: u32,
    pub raster: Vec<u8>,
    pub lines8: Vec<Vec<u8>>,
    pub lines24: Vec<Vec<u8>>,
}

/// A vector of rows as a sequence of byte sequences.
pub open spec fn rows_of(lines: Vec<Vec<u8>>) -> Seq<Seq<u8>> {
    Seq::new(lines@.len(), |i: int| lines@[i]@)
}

impl Image {
    /// Whether the image has all its rows: at either row height, as many
    /// rows as its height takes, the last one counted whole.
    pub open spec fn complete(&self) -> bool {
        &&& self.lines8@.len() == (self.height + 7) / 8
        &&& self.lines24@.len() == (self.height + 23) / 24
    }

    /// Whether the image has all its rows.
    pub fn is_complete(&self) -> (r: bool)
        ensures
            r == self.complete(),
    {
        let rows8: u32 = self.height / 8 + (if self.height % 8 != 0 { 1u32 } else { 0u32 });
        let rows24: u32 = self.height / 24 + (if self.height % 24 != 0 { 1u32 } else { 0u32 });
        self.lines8.len() == rows8 as usize && self.lines24.len() == rows24 as usize
    }

    /// The rows of the image at a density's row height.
    pub open spec fn rows(&self, density: Density) -> Seq<Seq<u8>> {
        if density.dots() == 8 {
            rows_of(self.lines8)
        } else {
            rows_of(self.lines24)
        }
    }

    /// The rows of the image at a density's row height.
    pub fn bitimage_lines(&self, density: Density) -> (lines: &Vec<Vec<u8>>)
        ensures
            rows_of(*lines) == self.rows(density),
    {
        if density.chunk_height() == 8 {
            &self.lines8
        } else {
            &self.lines24
        }
    }

    /// The raster bytes of the image.
    pub fn get_raster(&self) -> (bytes: &Vec<u8>)
        ensures
            bytes@ == self.raster@,
    {
        &self.raster
    }
}

} // verus!
