use harfbuzz::font::found_glyph;
use harfbuzz::{Blob, Direction, Face, FaceMut, Font, FontExtents, FontMut};

fn sample_face_mut() -> FaceMut {
    let blob = Blob::new_read_only(&[0, 1, 0, 0, 9, 9]);
    Face::new(&blob, 2, 1234, 2048)
}

fn sample_face() -> Face {
    sample_face_mut().make_immutable()
}

#[test]
fn blob_holds_its_bytes() {
    let blob = Blob::new_read_only(&[1, 2, 3]);
    assert_eq!(blob.len(), 3);
    assert!(!blob.is_empty());
    assert_eq!(blob.as_bytes(), &[1, 2, 3]);
    let empty = Blob::from_vec(Vec::new());
    assert!(empty.is_empty());
    assert_eq!(empty.len(), 0);
}

#[test]
fn blob_clone_outlives_the_first_handle() {
    let blob = Blob::from_vec(vec![7, 8, 9]);
    let other = blob.clone();
    drop(blob);
    assert_eq!(other.as_bytes(), &[7, 8, 9]);
}

#[test]
fn new_face() {
    let blob = Blob::new_read_only(&[5, 6]);
    let face = Face::new(&blob, 3, 77, 1000);
    assert_eq!(face.index(), 3);
    assert_eq!(face.glyph_count(), 77);
    assert_eq!(face.upem(), 1000);
    assert!(!face.is_immutable());
    assert_eq!(face.reference_blob().as_bytes(), &[5, 6]);
    let same = FaceMut::new(&blob, 3, 77, 1000);
    assert_eq!((same.index(), same.glyph_count(), same.upem()), (3, 77, 1000));
}

#[test]
fn face_setters() {
    let mut face = sample_face_mut();
    assert_eq!((face.index(), face.glyph_count(), face.upem()), (2, 1234, 2048));
    face.set_index(0);
    assert_eq!((face.index(), face.glyph_count(), face.upem()), (0, 1234, 2048));
    face.set_glyph_count(7);
    assert_eq!((face.index(), face.glyph_count(), face.upem()), (0, 7, 2048));
    face.set_upem(1000);
    assert_eq!((face.index(), face.glyph_count(), face.upem()), (0, 7, 1000));
    assert!(!face.is_immutable());
}

#[test]
fn frozen_face_is_what_was_set_up() {
    let mut face = sample_face_mut();
    face.set_upem(5);
    let frozen = face.make_immutable();
    assert!(frozen.is_immutable());
    assert_eq!((frozen.index(), frozen.glyph_count(), frozen.upem()), (2, 1234, 5));
    assert_eq!(frozen.reference_blob().as_bytes(), &[0, 1, 0, 0, 9, 9]);
}

#[test]
fn make_immutable_twice_is_once() {
    let mut face = sample_face();
    face.make_immutable();
    assert!(face.is_immutable());
    face.make_immutable();
    assert!(face.is_immutable());
    assert_eq!((face.index(), face.glyph_count(), face.upem()), (2, 1234, 2048));
}

#[test]
fn frozen_through_one_handle_is_frozen_through_all() {
    let mut first = sample_face();
    let early = first.clone();
    first.make_immutable();
    let late = first.clone();
    assert!(first.is_immutable());
    assert!(early.is_immutable());
    assert!(late.is_immutable());
    for handle in [&first, &early, &late] {
        assert_eq!((handle.index(), handle.glyph_count(), handle.upem()), (2, 1234, 2048));
    }
    let font = FontMut::new(&early).into_immutable();
    assert!(font.face().is_immutable());
    assert!(late.is_immutable());
}

#[test]
fn blob_of_face_outlives_the_face() {
    let face = sample_face();
    let blob = face.reference_blob();
    drop(face);
    assert_eq!(blob.as_bytes(), &[0, 1, 0, 0, 9, 9]);
}

#[test]
fn face_clones_survive_each_other() {
    let face = sample_face();
    let mut clones: Vec<Face> = Vec::new();
    for _ in 0..50 {
        clones.push(face.clone());
    }
    drop(face);
    let mut kept = 0;
    while let Some(c) = clones.pop() {
        assert_eq!((c.index(), c.glyph_count(), c.upem()), (2, 1234, 2048));
        if kept % 3 == 0 {
            let again = c.clone();
            drop(c);
            assert_eq!((again.index(), again.glyph_count(), again.upem()), (2, 1234, 2048));
        }
        kept += 1;
    }
}

#[test]
fn new_font_of_a_frozen_face() {
    let face = sample_face();
    let font = FontMut::new(&face);
    assert!(face.is_immutable());
    assert_eq!(font.as_font().scale(), (2048, 2048));
    assert_eq!(font.as_font().ppem(), (0, 0));
    assert_eq!(font.as_font().face().upem(), 2048);
    assert!(font.as_font().face().is_immutable());
    let other = sample_face();
    let same = Font::new(&other);
    assert_eq!(same.as_font().scale(), (2048, 2048));
}

#[test]
fn font_scale_starts_at_upem_bits() {
    let blob = Blob::from_vec(Vec::new());
    let face = Face::new(&blob, 0, 0, u32::MAX).make_immutable();
    let font = FontMut::new(&face);
    assert_eq!(font.as_font().scale(), (-1, -1));
}

#[test]
fn set_up_then_freeze() {
    let face = sample_face();
    let mut font = FontMut::new(&face);
    font.set_scale(1000, -2000);
    font.set_ppem(12, 16);
    let frozen: Font = font.into_immutable();
    assert!(frozen.is_immutable());
    assert_eq!(frozen.scale(), (1000, -2000));
    assert_eq!(frozen.ppem(), (12, 16));
    assert_eq!(frozen.face().index(), 2);
    assert_eq!(frozen.face().glyph_count(), 1234);
}

#[test]
fn font_clones_survive_each_other() {
    let face = sample_face();
    let mut font = FontMut::new(&face);
    font.set_scale(640, 480);
    font.set_ppem(9, 10);
    let frozen = font.into_immutable();
    let mut clones: Vec<Font> = (0..40).map(|_| frozen.clone()).collect();
    drop(frozen);
    drop(face);
    while clones.len() > 1 {
        let c = clones.swap_remove(clones.len() / 2);
        assert_eq!(c.scale(), (640, 480));
        assert_eq!(c.ppem(), (9, 10));
        assert_eq!(c.face().upem(), 2048);
    }
    let last = clones.pop().unwrap();
    assert_eq!((last.scale(), last.ppem()), ((640, 480), (9, 10)));
    assert_eq!((last.face().index(), last.face().glyph_count()), (2, 1234));
}

#[test]
fn sub_font_starts_like_its_parent() {
    let face = sample_face();
    let mut font = FontMut::new(&face);
    font.set_scale(100, 200);
    font.set_ppem(3, 4);
    let parent = font.into_immutable();
    let mut child = parent.sub_font();
    assert_eq!(child.as_font().scale(), (100, 200));
    assert_eq!(child.as_font().ppem(), (3, 4));
    child.set_scale(7, 8);
    assert_eq!(child.as_font().scale(), (7, 8));
    assert_eq!(parent.scale(), (100, 200));
    let twin = child.clone();
    assert_eq!(twin.as_font().scale(), (7, 8));
}

#[test]
fn empty_font() {
    let font = Font::empty();
    assert!(font.is_immutable());
    assert_eq!(font.scale(), (1000, 1000));
    assert_eq!(font.ppem(), (0, 0));
    let face = font.face();
    assert_eq!((face.index(), face.glyph_count(), face.upem()), (0, 0, 1000));
    assert!(face.is_immutable());
    assert!(face.reference_blob().is_empty());
}

#[test]
fn point_size_is_kept_bit_for_bit() {
    let face = sample_face();
    let mut font = FontMut::new(&face);
    assert_eq!(font.as_font().ptem_bits(), 0);
    font.set_ptem_bits(12.5f32.to_bits());
    let frozen = font.into_immutable();
    assert_eq!(f32::from_bits(frozen.ptem_bits()), 12.5);
    assert_eq!(frozen.scale(), (2048, 2048));
    assert_eq!(frozen.sub_font().as_font().ptem_bits(), 12.5f32.to_bits());
}

#[test]
fn lookup_result() {
    assert_eq!(found_glyph(1, 42), Some(42));
    assert_eq!(found_glyph(-1, 0), Some(0));
    assert_eq!(found_glyph(0, 42), None);
}

#[test]
fn extents_getters() {
    let e = FontExtents::new(800, -200, 90);
    assert_eq!((e.ascender(), e.descender(), e.line_gap()), (800, -200, 90));
    assert!(Direction::LTR.is_horizontal());
}
