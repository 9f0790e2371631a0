use harfbuzz::{Error, Feature, Tag};

const GLOBAL_END: u32 = Feature::GLOBAL_END;
const GLOBAL_START: u32 = Feature::GLOBAL_START;

fn kern() -> Tag {
    Tag::pack(b'k', b'e', b'r', b'n')
}

fn aalt() -> Tag {
    Tag::pack(b'a', b'a', b'l', b't')
}

fn parsed(text: &str) -> (Tag, u32, u32, u32) {
    let f = Feature::from_str(text).unwrap();
    (f.tag, f.value, f.start, f.end)
}

#[test]
fn feature_with_range_and_value() {
    let f = Feature::from_str("kern[3:5]=2").unwrap();
    assert_eq!(f.tag, Tag::pack(b'k', b'e', b'r', b'n'));
    assert_eq!(f.value, 2);
    assert_eq!(f.start, 3);
    assert_eq!(f.end, 5);
}

#[test]
fn global_range_constants() {
    assert_eq!(GLOBAL_START, 0);
    assert_eq!(GLOBAL_END, u32::MAX);
}

#[test]
fn feature_value_forms() {
    assert_eq!(parsed("kern"), (kern(), 1, 0, GLOBAL_END));
    assert_eq!(parsed("+kern"), (kern(), 1, 0, GLOBAL_END));
    assert_eq!(parsed("-kern"), (kern(), 0, 0, GLOBAL_END));
    assert_eq!(parsed("kern=0"), (kern(), 0, 0, GLOBAL_END));
    assert_eq!(parsed("kern=1"), (kern(), 1, 0, GLOBAL_END));
    assert_eq!(parsed("aalt=2"), (aalt(), 2, 0, GLOBAL_END));
}

#[test]
fn feature_range_forms() {
    assert_eq!(parsed("kern[]"), (kern(), 1, 0, GLOBAL_END));
    assert_eq!(parsed("kern[:]"), (kern(), 1, 0, GLOBAL_END));
    assert_eq!(parsed("kern[5:]"), (kern(), 1, 5, GLOBAL_END));
    assert_eq!(parsed("kern[:5]"), (kern(), 1, 0, 5));
    assert_eq!(parsed("kern[3:5]"), (kern(), 1, 3, 5));
    assert_eq!(parsed("kern[3]"), (kern(), 1, 3, 4));
    assert_eq!(parsed("aalt[3:5]=2"), (aalt(), 2, 3, 5));
}

#[test]
fn feature_sign_and_value_together() {
    assert_eq!(parsed("-kern=3"), (kern(), 3, 0, GLOBAL_END));
    assert_eq!(parsed("+kern[2]=0"), (kern(), 0, 2, 3));
}

#[test]
fn feature_short_and_odd_names() {
    assert_eq!(parsed("ab"), (Tag::pack(b'a', b'b', b' ', b' '), 1, 0, GLOBAL_END));
    assert_eq!(parsed("ss01"), (Tag::pack(b's', b's', b'0', b'1'), 1, 0, GLOBAL_END));
    assert_eq!(parsed("a_b"), (Tag::pack(b'a', b'_', b'b', b' '), 1, 0, GLOBAL_END));
}

#[test]
fn feature_numbers_with_leading_zeros_and_limits() {
    assert_eq!(parsed("kern=007"), (kern(), 7, 0, GLOBAL_END));
    assert_eq!(parsed("kern=4294967295"), (kern(), u32::MAX, 0, GLOBAL_END));
    assert_eq!(parsed("kern[4294967295]"), (kern(), 1, u32::MAX, 0));
    assert_eq!(parsed("kern[0]"), (kern(), 1, 0, 1));
}

#[test]
fn texts_that_are_no_feature() {
    let bad = [
        "",
        "+",
        "-",
        "toolong",
        "kern[",
        "kern[3",
        "kern[3:",
        "kern[3:5",
        "kern]",
        "kern=",
        "kern=x",
        "kern=4294967296",
        "kern[4294967296]",
        "kern[1:4294967296]",
        "kern[3:5]x",
        "kern=2x",
        " kern",
        "kern ",
        "ke rn",
        "kern[3;5]",
        "kern[-1]",
        "=2",
        "[3]",
        "k\u{e9}rn",
        "\"kern\"",
        "'kern'",
        "kern on",
        "kern off",
        "kern 2",
        "kern[3 : 5]",
    ];
    for text in bad {
        assert_eq!(Feature::from_str(text), Err(Error::InvalidFeature(text.to_string())), "{}", text);
    }
}

#[test]
fn feature_text_exact() {
    assert_eq!(Feature::new(kern(), 1, 0, GLOBAL_END).to_string(), "kern");
    assert_eq!(Feature::new(kern(), 0, 0, GLOBAL_END).to_string(), "-kern");
    assert_eq!(Feature::new(kern(), 2, 3, 5).to_string(), "kern[3:5]=2");
    assert_eq!(Feature::new(kern(), 1, 5, GLOBAL_END).to_string(), "kern[5:]");
    assert_eq!(Feature::new(kern(), 1, 0, 5).to_string(), "kern[:5]");
    assert_eq!(Feature::new(kern(), 1, 3, 4).to_string(), "kern[3]");
    assert_eq!(Feature::new(kern(), 1, 0, 1).to_string(), "kern[0]");
    assert_eq!(Feature::new(kern(), 0, 3, 5).to_string(), "-kern[3:5]");
    assert_eq!(Feature::new(kern(), 1, u32::MAX, 0).to_string(), "kern[4294967295]");
    assert_eq!(Feature::new(aalt(), 4294967295, 0, GLOBAL_END).to_string(), "aalt=4294967295");
    assert_eq!(Feature::new(Tag::pack(b'a', b'b', b' ', b' '), 1, 0, GLOBAL_END).to_string(), "ab");
    assert_eq!(Feature::new(kern(), 1, 7, 3).to_string(), "kern[7:3]");
}

#[test]
fn feature_bytes_are_the_text() {
    let f = Feature::new(kern(), 2, 3, 5);
    assert_eq!(f.to_bytes(), b"kern[3:5]=2".to_vec());
    assert_eq!(Feature::from_bytes(&f.to_bytes()), Some(f));
}

#[test]
fn written_feature_parses_to_the_same_parts() {
    let texts = [
        "kern", "+kern", "-kern", "kern=0", "kern=1", "aalt=2", "kern[]", "kern[:]", "kern[5:]",
        "kern[:5]", "kern[3:5]", "kern[3]", "aalt[3:5]=2", "kern[0]", "kern[0:1]", "ab",
        "kern[4294967295]", "kern[4294967294]", "-kern[7:3]", "x=12345",
    ];
    for text in texts {
        let first = Feature::from_str(text).unwrap();
        let again = Feature::from_str(&first.to_string()).unwrap();
        assert_eq!(again, first, "{}", text);
        assert_eq!(parsed(&first.to_string()), parsed(text));
    }
}

#[test]
fn every_small_feature_round_trips() {
    let values = [0u32, 1, 2, 9, 10, 99, 100, 4294967294, 4294967295];
    for &value in values.iter() {
        for &start in values.iter() {
            for &end in values.iter() {
                let f = Feature::new(kern(), value, start, end);
                assert_eq!(Feature::from_str(&f.to_string()), Ok(f));
            }
        }
    }
}

#[test]
fn setters_change_one_part() {
    let mut f = Feature::new(kern(), 1, 0, GLOBAL_END);
    f.set_tag(aalt());
    assert_eq!(f, Feature::new(aalt(), 1, 0, GLOBAL_END));
    f.set_value(3);
    assert_eq!(f, Feature::new(aalt(), 3, 0, GLOBAL_END));
    f.set_start(2);
    assert_eq!(f, Feature::new(aalt(), 3, 2, GLOBAL_END));
    f.set_end(9);
    assert_eq!(f, Feature::new(aalt(), 3, 2, 9));
}

#[test]
fn global_feature() {
    assert!(Feature::new(kern(), 1, 0, GLOBAL_END).is_global());
    assert!(!Feature::new(kern(), 1, 1, GLOBAL_END).is_global());
    assert!(!Feature::new(kern(), 1, 0, 5).is_global());
}

#[test]
fn range_end_is_not_in_the_range() {
    let f = Feature::new(kern(), 1, 3, 5);
    assert!(!f.covers(2));
    assert!(f.covers(3));
    assert!(f.covers(4));
    assert!(!f.covers(5));
    let g = Feature::new(kern(), 1, 0, GLOBAL_END);
    assert!(g.covers(0));
    assert!(g.covers(u32::MAX));
}

#[test]
fn later_feature_wins_where_ranges_overlap() {
    let features = [
        Feature::new(kern(), 1, 0, 10),
        Feature::new(aalt(), 7, 0, GLOBAL_END),
        Feature::new(kern(), 0, 5, 8),
    ];
    assert_eq!(Feature::effective_value(&features, kern(), 4), Some(1));
    assert_eq!(Feature::effective_value(&features, kern(), 5), Some(0));
    assert_eq!(Feature::effective_value(&features, kern(), 7), Some(0));
    assert_eq!(Feature::effective_value(&features, kern(), 8), Some(1));
    assert_eq!(Feature::effective_value(&features, kern(), 10), None);
    assert_eq!(Feature::effective_value(&features, aalt(), 10), Some(7));
    assert_eq!(Feature::effective_value(&[], kern(), 0), None);
}

#[test]
fn feature_from_parse() {
    let f: Feature = "aalt[3:5]=2".parse().unwrap();
    assert_eq!(f, Feature::new(aalt(), 2, 3, 5));
    assert_eq!("kern[".parse::<Feature>(), Err(Error::InvalidFeature("kern[".to_string())));
}
