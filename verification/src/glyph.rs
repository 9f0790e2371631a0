//! What a buffer holds for each character or glyph.

use vstd::prelude::*;

verus! {

/// A Unicode code point; after shaping, a glyph index.
pub type Codepoint = u32;

/// A code point before shaping, a glyph index after it, with the cluster it
/// belongs to and the mask of the features that apply to it.
#[derive(Debug, Clone, Copy, PartialEq, Eq, Structural)]
pub struct GlyphInfo {
    pub codepoint: u32,
    pub mask: u32,
    pub cluster: u32,
}

impl GlyphInfo {
    /// An entry made of its three parts.
    pub fn new(codepoint: u32, mask: u32, cluster: u32) -> (info: GlyphInfo)
        ensures
            info == (GlyphInfo { codepoint, mask, cluster }),
    {
        GlyphInfo { codepoint, mask, cluster }
    }

    /// The code point, or the glyph index after shaping.
    pub fn codepoint(&self) -> (codepoint: u32)
        ensures
            codepoint == self.codepoint,
    {
        self.codepoint
    }

    /// The cluster that the entry belongs to.
    pub fn cluster(&self) -> (cluster: u32)
        ensures
            cluster == self.cluster,
    {
        self.cluster
    }

    /// The mask of the features that apply to the entry.
    pub fn mask(&self) -> (mask: u32)
        ensures
            mask == self.mask,
    {
        self.mask
    }
}

/// Where a glyph is drawn and how far the pen moves after it, in the font's
/// scale.
#[derive(Debug, Clone, Copy, PartialEq, Eq, Structural)]
pub struct GlyphPosition {
    pub x_advance: i32,
    pub y_advance: i32,
    pub x_offset: i32,
    pub y_offset: i32,
}

impl GlyphPosition {
    /// A position made of its four parts.
    pub fn new(x_advance: i32, y_advance: i32, x_offset: i32, y_offset: i32) -> (position:
        GlyphPosition)
        ensures
            position == (GlyphPosition { x_advance, y_advance, x_offset, y_offset }),
    {
        GlyphPosition { x_advance, y_advance, x_offset, y_offset }
    }

    /// The position of an entry that was not shaped: all zero.
    pub open spec fn zero() -> GlyphPosition {
        GlyphPosition { x_advance: 0, y_advance: 0, x_offset: 0, y_offset: 0 }
    }

    /// How far the pen moves to the right after the glyph.
    pub fn x_advance(&self) -> (x_advance: i32)
        ensures
            x_advance == self.x_advance,
    {
        self.x_advance
    }

    /// How far the pen moves up after the glyph.
    pub fn y_advance(&self) -> (y_advance: i32)
        ensures
            y_advance == self.y_advance,
    {
        self.y_advance
    }

    /// How far to the right of the pen the glyph is drawn.
    pub fn x_offset(&self) -> (x_offset: i32)
        ensures
            x_offset == self.x_offset,
    {
        self.x_offset
    }

    /// How far above the pen the glyph is drawn.
    pub fn y_offset(&self) -> (y_offset: i32)
        ensures
            y_offset == self.y_offset,
    {
        self.y_offset
    }
}

} // verus!
