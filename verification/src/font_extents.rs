//! The vertical measures of a font along a line of text.

use vstd::prelude::*;

verus! {

/// How far a font reaches above and below the baseline, and the gap it asks
/// for between lines, in the font's scale.
#[derive(Debug, Clone, Copy, PartialEq, Eq, Structural)]
pub struct FontExtents {
    pub ascender: i32,
    pub descender: i32,
    pub line_gap: i32,
}

impl FontExtents {
    /// Extents made of their three measures.
    pub fn new(ascender: i32, descender: i32, line_gap: i32) -> (extents: FontExtents)
        ensures
            extents == (FontExtents { ascender, descender, line_gap }),
    {
        FontExtents { ascender, descender, line_gap }
    }

    /// The distance from the baseline to the top of the line.
    pub fn ascender(&self) -> (ascender: i32)
        ensures
            ascender == self.ascender,
    {
        self.ascender
    }

    /// The distance from the baseline to the bottom of the line.
    pub fn descender(&self) -> (descender: i32)
        ensures
            descender == self.descender,
    {
        self.descender
    }

    /// The gap that the font asks for between two lines.
    pub fn line_gap(&self) -> (line_gap: i32)
        ensures
            line_gap == self.line_gap,
    {
        self.line_gap
    }
}

} // verus!
