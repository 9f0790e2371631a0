//! Fonts: a face at a scale. A font is set up while it can be changed and
//! is then frozen for use.

use crate::blob::Blob;
use crate::face::{Face, FaceView};
use crate::glyph::Codepoint;
use vstd::prelude::*;

verus! {

/// The units per em of the face of the empty font.
pub const EMPTY_UPEM: u32 = 1000;

/// A font as a value.
pub struct FontView {
    pub face: FaceView,
    pub scale: (i32, i32),
    pub ppem: (u32, u32),
    pub ptem_bits: u32,
}

impl FontView {
    /// The empty font: a face without bytes or glyphs, at the scale of its
    /// units per em, no pixel size set.
    pub open spec fn empty() -> FontView {
        FontView {
            face: FaceView {
                blob: Seq::empty(),
                index: 0,
                upem: EMPTY_UPEM,
                glyph_count: 0,
                immutable: true,
            },
            scale: (1000, 1000),
            ppem: (0, 0),
            ptem_bits: 0,
        }
    }
}

/// The scale that a font of a face with `upem` units per em starts with:
/// `upem` in both directions.
pub open spec fn scale_of_upem(upem: u32) -> (i32, i32) {
    (upem as i32, upem as i32)
}

/// A frozen font: it can be read and cloned, and no method changes it.
#[derive(Debug)]
pub struct Font {
    face: Face,
    x_scale: i32,
    y_scale: i32,
    x_ppem: u32,
    y_ppem: u32,
    ptem_bits: u32,
}

/// A font that is being set up. It has one owner; `into_immutable` turns it
/// into a frozen font and ends its life.
#[derive(Debug)]
pub struct FontMut {
    font: Font,
}

impl View for Font {
    type V = FontView;

    closed spec fn view(&self) -> FontView {
        FontView {
            face: self.face@,
            scale: (self.x_scale, self.y_scale),
            ppem: (self.x_ppem, self.y_ppem),
            ptem_bits: self.ptem_bits,
        }
    }
}

impl View for FontMut {
    type V = FontView;

    closed spec fn view(&self) -> FontView {
        self.font@
    }
}

/// What a lookup in a font gives: the glyph where one was found, and
/// nothing where none was. `found` is 0 where the lookup missed.
pub fn found_glyph(found: i32, glyph: Codepoint) -> (result: Option<Codepoint>)
    ensures
        result == if found != 0 {
            Some(glyph)
        } else {
            None
        },
{
    if found != 0 {
        Some(glyph)
    } else {
        None
    }
}

impl Font {
    /// A font of `face` that can be set up. It starts at the scale of the
    /// face's units per em, with no pixel size and no point size. The face
    /// is frozen, so nothing can change it under the font.
    pub fn new(face: &Face) -> (font: FontMut)
        ensures
            font@ == (FontView {
                face: face@,
                scale: scale_of_upem(face@.upem),
                ppem: (0, 0),
                ptem_bits: 0,
            }),
    {
        FontMut::new(face)
    }

    /// The empty font.
    pub fn empty() -> (font: Font)
        ensures
            font@ == FontView::empty(),
    {
        let blob = Blob::from_vec(Vec::new());
        let face = Face::new(&blob, 0, 0, EMPTY_UPEM).make_immutable();
        Font { face, x_scale: 1000, y_scale: 1000, x_ppem: 0, y_ppem: 0, ptem_bits: 0 }
    }

    /// A handle to the face of the font.
    pub fn face(&self) -> (face: Face)
        ensures
            face@ == self@.face,
    {
        self.face.clone()
    }

    /// The pixels per em, across and down; 0 where none is set.
    pub fn ppem(&self) -> (ppem: (u32, u32))
        ensures
            ppem == self@.ppem,
    {
        (self.x_ppem, self.y_ppem)
    }

    /// The point size, as the bits of a 32-bit floating-point number; 0
    /// where none is set.
    pub fn ptem_bits(&self) -> (bits: u32)
        ensures
            bits == self@.ptem_bits,
    {
        self.ptem_bits
    }

    /// The scale, across and down.
    pub fn scale(&self) -> (scale: (i32, i32))
        ensures
            scale == self@.scale,
    {
        (self.x_scale, self.y_scale)
    }

    /// Whether the font can no longer be changed: a frozen font never can.
    pub fn is_immutable(&self) -> (immutable: bool)
        ensures
            immutable,
    {
        true
    }

    /// A new font that starts with the face, the scale and the pixel size
    /// of this one and can be set up on its own.
    pub fn sub_font(&self) -> (font: FontMut)
        ensures
            font@ == self@,
    {
        FontMut { font: self.clone() }
    }
}

impl Clone for Font {
    fn clone(&self) -> (font: Font)
        ensures
            font@ == self@,
    {
        Font {
            face: self.face.clone(),
            x_scale: self.x_scale,
            y_scale: self.y_scale,
            x_ppem: self.x_ppem,
            y_ppem: self.y_ppem,
            ptem_bits: self.ptem_bits,
        }
    }
}

impl FontMut {
    /// A font of `face` that can be set up. It starts at the scale of the
    /// face's units per em, with no pixel size and no point size. The face
    /// is frozen, so nothing can change it under the font.
    pub fn new(face: &Face) -> (font: FontMut)
        ensures
            font@ == (FontView {
                face: face@,
                scale: scale_of_upem(face@.upem),
                ppem: (0, 0),
                ptem_bits: 0,
            }),
    {
        let upem = face.upem();
        let scale = #[verifier::truncate]
        (upem as i32);
        FontMut {
            font: Font {
                face: face.clone(),
                x_scale: scale,
                y_scale: scale,
                x_ppem: 0,
                y_ppem: 0,
                ptem_bits: 0,
            },
        }
    }

    /// Sets the pixels per em, across and down.
    pub fn set_ppem(&mut self, x_ppem: u32, y_ppem: u32)
        ensures
            final(self)@ == (FontView { ppem: (x_ppem, y_ppem), ..old(self)@ }),
    {
        self.font.x_ppem = x_ppem;
        self.font.y_ppem = y_ppem;
    }

    /// Sets the point size, given as the bits of a 32-bit floating-point
    /// number.
    pub fn set_ptem_bits(&mut self, bits: u32)
        ensures
            final(self)@ == (FontView { ptem_bits: bits, ..old(self)@ }),
    {
        self.font.ptem_bits = bits;
    }

    /// Sets the scale, across and down.
    pub fn set_scale(&mut self, x_scale: i32, y_scale: i32)
        ensures
            final(self)@ == (FontView { scale: (x_scale, y_scale), ..old(self)@ }),
    {
        self.font.x_scale = x_scale;
        self.font.y_scale = y_scale;
    }

    /// Freezes the font. The font that was being set up is used up, and
    /// the frozen font is what it was at that moment.
    pub fn into_immutable(self) -> (font: Font)
        ensures
            font@ == self@,
    {
        self.font
    }

    /// The font as it is now, to read.
    pub fn as_font(&self) -> (font: &Font)
        ensures
            font@ == self@,
    {
        &self.font
    }
}

impl Clone for FontMut {
    fn clone(&self) -> (font: FontMut)
        ensures
            font@ == self@,
    {
        self.font.sub_font()
    }
}

} // verus!
