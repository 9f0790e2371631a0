//! Feature settings: a tag, a value and the range of clusters it applies
//! to.

use crate::errors::Error;
use crate::grammar::{
    digits_len, digits_of, digits_value, format_feature, format_range, is_digit, is_name_byte,
    name_run, parse_feature, parse_range, parse_value, BRACKET_CLOSE, BRACKET_OPEN, COLON, EQUALS,
    MINUS, PLUS,
};
use crate::tag::{bytes_as_chars, name_len, push_char, tag_name, Tag};
use vstd::prelude::*;
use vstd::slice::slice_subrange;
use vstd::string::*;

verus! {

/// Whether the range from `start` up to, and not including, `end` holds
/// `cluster`. An `end` of `GLOBAL_END` means the end of the buffer: every
/// cluster from `start` on is in the range.
pub open spec fn range_covers(start: u32, end: u32, cluster: u32) -> bool {
    start <= cluster && (cluster < end || end == Feature::GLOBAL_END)
}

/// The value that a list of features gives to the feature `tag` at
/// `cluster`: that of the last feature in the list with this tag whose
/// range holds the cluster, or `None` where no feature of the list does.
pub open spec fn value_at(features: Seq<Feature>, tag: Tag, cluster: u32) -> Option<u32>
    decreases features.len(),
{
    if features.len() == 0 {
        None
    } else {
        let last = features.last();
        if last.tag == tag && range_covers(last.start, last.end, cluster) {
            Some(last.value)
        } else {
            value_at(features.drop_last(), tag, cluster)
        }
    }
}

/// A shaping directive: the feature named by `tag` gets `value` on the
/// clusters from `start` up to, and not including, `end`.
#[derive(Debug, Clone, Copy, PartialEq, Eq, Structural)]
pub struct Feature {
    pub tag: Tag,
    pub value: u32,
    pub start: u32,
    pub end: u32,
}

/// Whether a byte is a decimal digit.
fn digit_byte(b: u8) -> (r: bool)
    ensures
        r == is_digit(b),
{
    0x30 <= b && b <= 0x39
}

/// Whether a byte may stand in the name of a tag.
fn name_byte_ok(b: u8) -> (r: bool)
    ensures
        r == is_name_byte(b),
{
    digit_byte(b) || (0x41 <= b && b <= 0x5A) || (0x61 <= b && b <= 0x7A) || b == 0x5F
}

/// Reads the digits that stand at `from`: where they end, and the number
/// they write, or `None` where it does not fit in 32 bits.
fn scan_digits(s: &[u8], from: usize) -> (r: (usize, Option<u32>))
    requires
        from <= s.len(),
    ensures
        from <= r.0 <= s.len(),
        r.0 - from == digits_len(s@.skip(from as int)),
        match r.1 {
            Some(v) => v == digits_value(s@.subrange(from as int, r.0 as int)),
            None => digits_value(s@.subrange(from as int, r.0 as int)) > u32::MAX,
        },
{
    let mut i: usize = from;
    let mut acc: u64 = 0;
    let mut over: bool = false;
    assert(s@.subrange(from as int, from as int) =~= Seq::<u8>::empty());
    while i < s.len() && digit_byte(s[i])
        invariant
            from <= i <= s.len(),
            digits_len(s@.skip(from as int)) == (i - from) + digits_len(s@.skip(i as int)),
            !over ==> acc == digits_value(s@.subrange(from as int, i as int)) && acc <= u32::MAX,
            over ==> digits_value(s@.subrange(from as int, i as int)) > u32::MAX,
        decreases s.len() - i,
    {
        let d: u64 = (s[i] - 0x30) as u64;
        proof {
            let sub = s@.subrange(from as int, i + 1);
            assert(sub.drop_last() =~= s@.subrange(from as int, i as int));
            assert(sub.last() == s@[i as int]);
            assert(s@.skip(i as int).drop_first() =~= s@.skip(i + 1));
        }
        if !over {
            let next: u64 = acc * 10 + d;
            if next > 0xFFFF_FFFF {
                over = true;
            } else {
                acc = next;
            }
        }
        i = i + 1;
    }
    if over {
        (i, None)
    } else {
        (i, Some(acc as u32))
    }
}

/// Finds where the name bytes that stand at `from` end.
fn scan_name(s: &[u8], from: usize) -> (end: usize)
    requires
        from <= s.len(),
    ensures
        from <= end <= s.len(),
        end - from == name_run(s@.skip(from as int)),
        forall|j: int| from <= j < end ==> is_name_byte(#[trigger] s@[j]),
{
    let mut i: usize = from;
    while i < s.len() && name_byte_ok(s[i])
        invariant
            from <= i <= s.len(),
            name_run(s@.skip(from as int)) == (i - from) + name_run(s@.skip(i as int)),
            forall|j: int| from <= j < i ==> is_name_byte(#[trigger] s@[j]),
        decreases s.len() - i,
    {
        proof {
            assert(s@.skip(i as int).drop_first() =~= s@.skip(i + 1));
        }
        i = i + 1;
    }
    i
}

/// Reads the range that stands at `p`: its start, its end, and where the
/// text goes on after it.
fn read_range(s: &[u8], p: usize) -> (range: Option<(u32, u32, usize)>)
    requires
        p <= s.len(),
    ensures
        match parse_range(s@.skip(p as int)) {
            Some((start, end, k)) => range == Some((start, end, (p + k) as usize)) && p + k
                <= s.len(),
            None => range is None,
        },
{
    reveal(parse_range);
    let len = s.len();
    let ghost s2 = s@.skip(p as int);
    if p >= len || s[p] != BRACKET_OPEN {
        return Some((Feature::GLOBAL_START, Feature::GLOBAL_END, p));
    }
    let (a_end, a_val) = scan_digits(s, p + 1);
    let ghost r = s@.skip(a_end as int);
    proof {
        assert(s2.skip(1) =~= s@.skip(p + 1));
        assert(s2.subrange(1, 1 + (a_end - (p + 1))) =~= s@.subrange(p + 1, a_end as int));
        assert(s2.skip(1 + (a_end - (p + 1))) =~= r);
    }
    let start = match a_val {
        Some(v) => v,
        None => {
            return None;
        },
    };
    if a_end < len && s[a_end] == COLON {
        let (b_end, b_val) = scan_digits(s, a_end + 1);
        proof {
            assert(r.skip(1) =~= s@.skip(a_end + 1));
            assert(r.subrange(1, 1 + (b_end - (a_end + 1))) =~= s@.subrange(
                a_end + 1,
                b_end as int,
            ));
            assert(r.skip(1 + (b_end - (a_end + 1))) =~= s@.skip(b_end as int));
        }
        let b_val = match b_val {
            Some(v) => v,
            None => {
                return None;
            },
        };
        if b_end >= len || s[b_end] != BRACKET_CLOSE {
            return None;
        }
        let end = if b_end > a_end + 1 {
            b_val
        } else {
            Feature::GLOBAL_END
        };
        Some((start, end, b_end + 1))
    } else if a_end < len && s[a_end] == BRACKET_CLOSE {
        let end = if a_end > p + 1 {
            start.wrapping_add(1)
        } else {
            Feature::GLOBAL_END
        };
        Some((start, end, a_end + 1))
    } else {
        None
    }
}

/// Reads the value that stands at `p`, or leaves `preset`, and says where
/// the text goes on after it.
fn read_value(s: &[u8], p: usize, preset: u32) -> (value: Option<(u32, usize)>)
    requires
        p <= s.len(),
    ensures
        match parse_value(s@.skip(p as int), preset) {
            Some((v, m)) => value == Some((v, (p + m) as usize)) && p + m <= s.len(),
            None => value is None,
        },
{
    reveal(parse_value);
    let ghost s3 = s@.skip(p as int);
    if p >= s.len() || s[p] != EQUALS {
        return Some((preset, p));
    }
    let (c_end, c_val) = scan_digits(s, p + 1);
    proof {
        assert(s3.skip(1) =~= s@.skip(p + 1));
        assert(s3.subrange(1, 1 + (c_end - (p + 1))) =~= s@.subrange(p + 1, c_end as int));
    }
    if c_end == p + 1 {
        return None;
    }
    match c_val {
        Some(v) => Some((v, c_end)),
        None => None,
    }
}

/// Puts the digits of `n` at the end of `out`.
fn push_digits(out: &mut Vec<u8>, n: u32)
    ensures
        final(out)@ == old(out)@ + digits_of(n as nat),
    decreases n,
{
    if n >= 10 {
        push_digits(out, n / 10);
    }
    out.push((0x30 + n % 10) as u8);
    assert(final(out)@ =~= old(out)@ + digits_of(n as nat));
}

/// Puts the name of a tag at the end of `out`.
fn push_name(out: &mut Vec<u8>, tag: Tag)
    ensures
        final(out)@ == old(out)@ + tag_name(tag.0),
{
    let (a, b, c, d) = tag.unpack();
    let n: usize = if d != 0x20 {
        4
    } else if c != 0x20 {
        3
    } else if b != 0x20 {
        2
    } else if a != 0x20 {
        1
    } else {
        0
    };
    if n >= 1 {
        out.push(a);
    }
    if n >= 2 {
        out.push(b);
    }
    if n >= 3 {
        out.push(c);
    }
    if n >= 4 {
        out.push(d);
    }
    assert(final(out)@ =~= old(out)@ + tag_name(tag.0));
}

/// Puts the text of a range at the end of `out`.
fn push_range(out: &mut Vec<u8>, start: u32, end: u32)
    ensures
        final(out)@ == old(out)@ + format_range(start, end),
{
    if start == Feature::GLOBAL_START && end == Feature::GLOBAL_END {
        assert(out@ =~= old(out)@ + format_range(start, end));
        return ;
    }
    out.push(BRACKET_OPEN);
    if end == start.wrapping_add(1) {
        push_digits(out, start);
    } else {
        if start != 0 {
            push_digits(out, start);
        }
        out.push(COLON);
        if end != Feature::GLOBAL_END {
            push_digits(out, end);
        }
    }
    out.push(BRACKET_CLOSE);
    assert(final(out)@ =~= old(out)@ + format_range(start, end));
}

impl Feature {
    /// The range end that stands for the end of the buffer.
    pub const GLOBAL_END: u32 = 0xFFFF_FFFF;

    /// The range start that stands for the start of the buffer.
    pub const GLOBAL_START: u32 = 0;

    /// A feature made of its four parts.
    pub fn new(tag: Tag, value: u32, start: u32, end: u32) -> (feature: Feature)
        ensures
            feature == (Feature { tag, value, start, end }),
    {
        Feature { tag, value, start, end }
    }

    /// Sets the tag that names the feature.
    pub fn set_tag(&mut self, tag: Tag)
        ensures
            *final(self) == (Feature { tag, ..*old(self) }),
    {
        self.tag = tag;
    }

    /// Sets the value: 0 switches the feature off, another number switches
    /// it on or picks an alternate.
    pub fn set_value(&mut self, value: u32)
        ensures
            *final(self) == (Feature { value, ..*old(self) }),
    {
        self.value = value;
    }

    /// Sets the first cluster that the feature applies to.
    pub fn set_start(&mut self, start: u32)
        ensures
            *final(self) == (Feature { start, ..*old(self) }),
    {
        self.start = start;
    }

    /// Sets the cluster before which the feature stops applying.
    pub fn set_end(&mut self, end: u32)
        ensures
            *final(self) == (Feature { end, ..*old(self) }),
    {
        self.end = end;
    }

    /// Whether the feature applies to `cluster`.
    pub fn covers(&self, cluster: u32) -> (inside: bool)
        ensures
            inside == range_covers(self.start, self.end, cluster),
    {
        self.start <= cluster && (cluster < self.end || self.end == Feature::GLOBAL_END)
    }

    /// The value that `features` give to the feature `tag` at `cluster`.
    /// Where two features of the list name the tag and hold the cluster,
    /// the later one decides.
    pub fn effective_value(features: &[Feature], tag: Tag, cluster: u32) -> (value: Option<u32>)
        ensures
            value == value_at(features@, tag, cluster),
    {
        let mut i: usize = features.len();
        assert(features@.take(i as int) =~= features@);
        while i > 0
            invariant
                i <= features.len(),
                value_at(features@, tag, cluster) == value_at(
                    features@.take(i as int),
                    tag,
                    cluster,
                ),
            decreases i,
        {
            let f = features[i - 1];
            if f.tag.0 == tag.0 && f.covers(cluster) {
                return Some(f.value);
            }
            assert(features@.take(i as int).drop_last() =~= features@.take(i - 1));
            i = i - 1;
        }
        None
    }

    /// Whether the feature applies to the whole buffer.
    pub fn is_global(&self) -> (global: bool)
        ensures
            global == (self.start == Feature::GLOBAL_START && self.end == Feature::GLOBAL_END),
    {
        self.start == Feature::GLOBAL_START && self.end == Feature::GLOBAL_END
    }

    /// Reads a feature setting from the bytes of its text: an optional `+`
    /// or `-`, a name of one to four letters, digits or underscores, an
    /// optional range in brackets and an optional `=` with a number.
    /// Nothing else is a feature setting: a space anywhere, a name in
    /// quotes, the words `on` and `off`, a value without `=` and a `;` in a
    /// range are refused.
    pub fn from_bytes(s: &[u8]) -> (feature: Option<Feature>)
        ensures
            feature == parse_feature(s@),
    {
        let len = s.len();
        let mut pos: usize = 0;
        let mut preset: u32 = 1;
        if len > 0 && s[0] == MINUS {
            preset = 0;
            pos = 1;
        } else if len > 0 && s[0] == PLUS {
            pos = 1;
        }
        let ghost s1 = s@.skip(pos as int);
        let name_end = scan_name(s, pos);
        let n = name_end - pos;
        if n == 0 || n > 4 {
            return None;
        }
        let name = slice_subrange(s, pos, name_end);
        proof {
            assert(name@ =~= s1.take(n as int));
            assert(forall|j: int| 0 <= j < n ==> name@[j] == s@[pos + j]);
            assert(forall|j: int| 0 <= j < n ==> is_name_byte(#[trigger] name@[j]));
            assert(name_len(name@) == n);
            assert(s1.skip(n as int) =~= s@.skip(name_end as int));
        }
        let tag = match Tag::from_bytes(name) {
            Some(tag) => tag,
            None => {
                return None;
            },
        };
        let (start, end, range_end) = match read_range(s, name_end) {
            Some(range) => range,
            None => {
                return None;
            },
        };
        proof {
            assert(s@.skip(name_end as int).skip(range_end - name_end) =~= s@.skip(range_end as int));
        }
        let (value, value_end) = match read_value(s, range_end, preset) {
            Some(value) => value,
            None => {
                return None;
            },
        };
        if value_end != len {
            return None;
        }
        Some(Feature { tag, value, start, end })
    }

    /// The bytes of the text of the feature.
    pub fn to_bytes(&self) -> (text: Vec<u8>)
        ensures
            text@ == format_feature(*self),
    {
        let mut out: Vec<u8> = Vec::new();
        if self.value == 0 {
            out.push(MINUS);
        }
        push_name(&mut out, self.tag);
        push_range(&mut out, self.start, self.end);
        if self.value > 1 {
            out.push(EQUALS);
            push_digits(&mut out, self.value);
        }
        assert(out@ =~= format_feature(*self));
        out
    }

    /// The text of the feature, each byte as the character with that
    /// number.
    pub fn to_string(&self) -> (text: String)
        ensures
            text@ == bytes_as_chars(format_feature(*self)),
    {
        let bytes = self.to_bytes();
        let mut text = String::new();
        let mut i: usize = 0;
        while i < bytes.len()
            invariant
                i <= bytes.len(),
                text@ == bytes_as_chars(bytes@.take(i as int)),
            decreases bytes.len() - i,
        {
            push_char(&mut text, bytes[i] as char);
            assert(text@ =~= bytes_as_chars(bytes@.take(i + 1)));
            i = i + 1;
        }
        assert(bytes@.take(i as int) =~= bytes@);
        text
    }

    /// Reads a feature setting from its text, as `from_bytes` reads its
    /// bytes. A text that is no feature setting is handed back in the
    /// error. The spellings of style sheets are not read: a space anywhere,
    /// a name in quotes, the words `on` and `off`, a value without `=` and
    /// a `;` in a range each give the error.
    pub fn from_str(s: &str) -> (feature: Result<Feature, Error>)
        ensures
            match parse_feature(s.spec_bytes()) {
                Some(f) => feature == Ok::<Feature, Error>(f),
                None => (feature matches Err(Error::InvalidFeature(t)) && t@ == s@),
            },
    {
        match Feature::from_bytes(s.as_bytes()) {
            Some(feature) => Ok(feature),
            None => Err(Error::InvalidFeature(s.to_owned())),
        }
    }
}

impl std::str::FromStr for Feature {
    type Err = Error;

    fn from_str(s: &str) -> (feature: Result<Feature, Error>)
        ensures
            match parse_feature(s.spec_bytes()) {
                Some(f) => feature == Ok::<Feature, Error>(f),
                None => (feature matches Err(Error::InvalidFeature(t)) && t@ == s@),
            },
    {
        Feature::from_str(s)
    }
}

} // verus!
