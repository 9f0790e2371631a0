use harfbuzz::{hb_tag, Error, Tag};

#[test]
fn hb_tag_puts_first_byte_highest() {
    assert_eq!(hb_tag(b'k', b'e', b'r', b'n'), 0x6B65_726E);
    assert_eq!(hb_tag(0, 0, 0, 0), 0);
    assert_eq!(hb_tag(0xFF, 0xFF, 0xFF, 0xFF), 0xFFFF_FFFF);
    assert_eq!(hb_tag(1, 2, 3, 4), 0x0102_0304);
}

#[test]
fn pack_then_unpack_gives_the_bytes_back() {
    let samples: [u8; 9] = [0, 1, 0x20, b'A', b'z', 0x7F, 0x80, 0xFE, 0xFF];
    for &a in samples.iter() {
        for &b in samples.iter() {
            for &c in samples.iter() {
                for &d in samples.iter() {
                    assert_eq!(Tag::pack(a, b, c, d).unpack(), (a, b, c, d));
                }
            }
        }
    }
}

#[test]
fn unpack_then_pack_gives_the_tag_back() {
    for value in [0u32, 1, 0x6B65_726E, 0x7FFF_FFFF, 0x8000_0000, 0xFFFF_FFFF] {
        let (a, b, c, d) = Tag(value).unpack();
        assert_eq!(Tag::pack(a, b, c, d), Tag(value));
    }
}

#[test]
fn named_tags() {
    assert_eq!(Tag::none(), Tag(0));
    assert_eq!(Tag::max(), Tag::pack(0xFF, 0xFF, 0xFF, 0xFF));
    assert_eq!(Tag::max_signed(), Tag::pack(0x7F, 0xFF, 0xFF, 0xFF));
}

#[test]
fn tag_from_four_letters() {
    assert_eq!(Tag::from_str("kern"), Ok(Tag::pack(b'k', b'e', b'r', b'n')));
    assert_eq!(Tag::from_str("Arab"), Ok(Tag(0x4172_6162)));
}

#[test]
fn short_name_is_filled_with_spaces() {
    assert_eq!(Tag::from_str("ab"), Ok(Tag::pack(b'a', b'b', b' ', b' ')));
    assert_eq!(Tag::from_str("x"), Ok(Tag::pack(b'x', b' ', b' ', b' ')));
}

#[test]
fn long_name_is_cut_after_four_bytes() {
    assert_eq!(Tag::from_str("abcdef"), Ok(Tag::pack(b'a', b'b', b'c', b'd')));
}

#[test]
fn name_ends_at_a_zero_byte() {
    assert_eq!(Tag::from_str("a\0bc"), Ok(Tag::pack(b'a', b' ', b' ', b' ')));
    assert_eq!(Tag::from_bytes(&[b'a', b'b', 0, b'd']), Some(Tag::pack(b'a', b'b', b' ', b' ')));
}

#[test]
fn empty_name_is_no_tag() {
    assert_eq!(Tag::from_str(""), Err(Error::InvalidTag(String::new())));
    assert_eq!(Tag::from_bytes(&[]), None);
}

#[test]
fn name_that_starts_with_zero_is_no_tag() {
    assert_eq!(Tag::from_str("\0abc"), Err(Error::InvalidTag("\0abc".to_string())));
    assert_eq!(Tag::from_bytes(&[0, 0, 0, 0]), None);
}

#[test]
fn parsed_tag_is_never_the_unset_tag() {
    for name in ["a", "ab", "abc", "abcd", "    ", "\u{1}", "kern"] {
        let tag = Tag::from_str(name).unwrap();
        assert_ne!(tag, Tag::none());
    }
}

#[test]
fn tag_text_is_its_four_bytes() {
    assert_eq!(Tag::pack(b'k', b'e', b'r', b'n').to_string(), "kern");
    assert_eq!(Tag::pack(b'a', b'b', b' ', b' ').to_string(), "ab  ");
    assert_eq!(Tag::none().to_string(), "\0\0\0\0");
    assert_eq!(Tag::pack(0xE9, b'a', b'b', b'c').to_string(), "\u{e9}abc");
}

#[test]
fn tag_text_parses_back() {
    for name in ["kern", "liga", "aalt", "ab", "z"] {
        let tag = Tag::from_str(name).unwrap();
        assert_eq!(Tag::from_str(&tag.to_string()), Ok(tag));
    }
}

#[test]
fn tag_converts_to_and_from_its_number() {
    let tag: Tag = Tag::from(0x6B65_726Eu32);
    assert_eq!(tag, Tag::pack(b'k', b'e', b'r', b'n'));
    let number: u32 = u32::from(tag);
    assert_eq!(number, 0x6B65_726E);
}

#[test]
fn error_messages() {
    assert_eq!(Error::NoMemory.message(), "No Memory");
    assert_eq!(Error::InvalidTag("".to_string()).message(), "Invalid Tag: ");
    assert_eq!(Error::InvalidFeature("kern[".to_string()).message(), "Invalid Feature: kern[");
}

#[test]
fn tag_from_parse() {
    let tag: Tag = "liga".parse().unwrap();
    assert_eq!(tag, Tag::pack(b'l', b'i', b'g', b'a'));
    assert_eq!("".parse::<Tag>(), Err(Error::InvalidTag(String::new())));
}
