//! A face: one font of a font file. A face is set up while it has one
//! owner, and is then frozen and shared.

use crate::blob::{share, Blob};
use std::sync::Arc;
use vstd::prelude::*;

verus! {

/// A face as a value.
pub struct FaceView {
    pub blob: Seq<u8>,
    pub index: u32,
    pub upem: u32,
    pub glyph_count: u32,
    pub immutable: bool,
}

/// A face that is being set up: the bytes of the font file, the place of
/// the font in it, and the two measures that are read from the font. It has
/// one owner and cannot be cloned, so a change is never made behind the
/// back of another handle; `make_immutable` turns it into a frozen face and
/// ends its life.
#[derive(Debug)]
pub struct FaceMut {
    blob: Blob,
    index: u32,
    upem: u32,
    glyph_count: u32,
}

/// A frozen face. Its clones are handles to one and the same face, which
/// lives as long as the last of them; no method changes it.
#[derive(Debug)]
pub struct Face {
    shared: Arc<FaceMut>,
}

impl View for FaceMut {
    type V = FaceView;

    closed spec fn view(&self) -> FaceView {
        FaceView {
            blob: self.blob@,
            index: self.index,
            upem: self.upem,
            glyph_count: self.glyph_count,
            immutable: false,
        }
    }
}

impl View for Face {
    type V = FaceView;

    closed spec fn view(&self) -> FaceView {
        FaceView { immutable: true, ..self.shared@ }
    }
}

impl FaceMut {
    /// The face at place `index` of the font file in `blob`, with the glyph
    /// count and the units per em that were read from the file. It shares
    /// the bytes of the blob and can still be changed.
    pub fn new(blob: &Blob, index: u32, glyph_count: u32, upem: u32) -> (face: FaceMut)
        ensures
            face@ == (FaceView { blob: blob@, index, upem, glyph_count, immutable: false }),
    {
        FaceMut { blob: blob.clone(), index, upem, glyph_count }
    }

    /// The place of the face in its font file.
    pub fn index(&self) -> (index: u32)
        ensures
            index == self@.index,
    {
        self.index
    }

    /// The number of glyphs in the face.
    pub fn glyph_count(&self) -> (count: usize)
        ensures
            count == self@.glyph_count,
    {
        self.glyph_count as usize
    }

    /// The units per em: the size of the grid on which the glyphs are
    /// drawn.
    pub fn upem(&self) -> (upem: u32)
        ensures
            upem == self@.upem,
    {
        self.upem
    }

    /// Whether the face can no longer be changed: one that is being set up
    /// still can.
    pub fn is_immutable(&self) -> (immutable: bool)
        ensures
            !immutable,
            immutable == self@.immutable,
    {
        false
    }

    /// A blob that shares the bytes of the face. It stays good when the
    /// face is gone.
    pub fn reference_blob(&self) -> (blob: Blob)
        ensures
            blob@ == self@.blob,
    {
        self.blob.clone()
    }

    /// Sets the number of glyphs.
    pub fn set_glyph_count(&mut self, count: usize)
        requires
            count <= u32::MAX,
        ensures
            final(self)@ == (FaceView { glyph_count: count as u32, ..old(self)@ }),
    {
        self.glyph_count = count as u32;
    }

    /// Sets the place of the face in its font file.
    pub fn set_index(&mut self, index: u32)
        ensures
            final(self)@ == (FaceView { index, ..old(self)@ }),
    {
        self.index = index;
    }

    /// Sets the units per em.
    pub fn set_upem(&mut self, upem: u32)
        ensures
            final(self)@ == (FaceView { upem, ..old(self)@ }),
    {
        self.upem = upem;
    }

    /// Freezes the face. The face that was being set up is used up, and
    /// the frozen face is what it was at that moment.
    pub fn make_immutable(self) -> (face: Face)
        ensures
            face@ == (FaceView { immutable: true, ..self@ }),
    {
        Face { shared: Arc::new(self) }
    }
}

impl Face {
    /// The face at place `index` of the font file in `blob`, with the glyph
    /// count and the units per em that were read from the file. It shares
    /// the bytes of the blob and can still be changed.
    pub fn new(blob: &Blob, index: u32, glyph_count: u32, upem: u32) -> (face: FaceMut)
        ensures
            face@ == (FaceView { blob: blob@, index, upem, glyph_count, immutable: false }),
    {
        FaceMut::new(blob, index, glyph_count, upem)
    }

    /// The place of the face in its font file.
    pub fn index(&self) -> (index: u32)
        ensures
            index == self@.index,
    {
        self.shared.index
    }

    /// The number of glyphs in the face.
    pub fn glyph_count(&self) -> (count: usize)
        ensures
            count == self@.glyph_count,
    {
        self.shared.glyph_count as usize
    }

    /// The units per em: the size of the grid on which the glyphs are
    /// drawn.
    pub fn upem(&self) -> (upem: u32)
        ensures
            upem == self@.upem,
    {
        self.shared.upem
    }

    /// Whether the face can no longer be changed: a frozen face never can,
    /// through whichever handle it is asked.
    pub fn is_immutable(&self) -> (immutable: bool)
        ensures
            immutable,
            immutable == self@.immutable,
    {
        true
    }

    /// Makes the face immutable. A frozen face is immutable already, so
    /// this changes nothing, however often it is called.
    pub fn make_immutable(&mut self)
        ensures
            final(self)@ == old(self)@,
            final(self)@.immutable,
    {
    }

    /// A blob that shares the bytes of the face. It stays good when the
    /// face is gone.
    pub fn reference_blob(&self) -> (blob: Blob)
        ensures
            blob@ == self@.blob,
    {
        self.shared.blob.clone()
    }
}

impl Clone for Face {
    /// One more handle to the same face.
    fn clone(&self) -> (face: Face)
        ensures
            face@ == self@,
    {
        Face { shared: share(&self.shared) }
    }
}

/// Through whichever handle a frozen face is read, it is immutable: once a
/// face is frozen, every clone of it shows that.
pub proof fn lemma_face_is_frozen(face: Face)
    ensures
        face@.immutable,
{
}

} // verus!
