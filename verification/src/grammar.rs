//! The text form of a feature setting, as functions on bytes: what a text
//! means when it is read, and what is written for a feature.

use crate::feature::Feature;
use crate::tag::{tag_from_name, tag_name, Tag};
use vstd::prelude::*;

verus! {

/// The byte `[`, which opens a range.
pub const BRACKET_OPEN: u8 = 0x5B;

/// The byte `]`, which closes a range.
pub const BRACKET_CLOSE: u8 = 0x5D;

/// The byte `:`, which parts the start of a range from its end.
pub const COLON: u8 = 0x3A;

/// The byte `=`, which stands before a value.
pub const EQUALS: u8 = 0x3D;

/// The byte `-`, which switches a feature off.
pub const MINUS: u8 = 0x2D;

/// The byte `+`, which switches a feature on.
pub const PLUS: u8 = 0x2B;

/// Whether a byte is a decimal digit.
pub open spec fn is_digit(b: u8) -> bool {
    0x30 <= b <= 0x39
}

/// Whether a byte may stand in the name of a tag: a letter, a digit or an
/// underscore.
pub open spec fn is_name_byte(b: u8) -> bool {
    is_digit(b) || 0x41 <= b <= 0x5A || 0x61 <= b <= 0x7A || b == 0x5F
}

/// How many digits stand at the start of `s`.
pub open spec fn digits_len(s: Seq<u8>) -> nat
    decreases s.len(),
{
    if s.len() > 0 && is_digit(s[0]) {
        1 + digits_len(s.drop_first())
    } else {
        0
    }
}

/// How many name bytes stand at the start of `s`.
pub open spec fn name_run(s: Seq<u8>) -> nat
    decreases s.len(),
{
    if s.len() > 0 && is_name_byte(s[0]) {
        1 + name_run(s.drop_first())
    } else {
        0
    }
}

/// The number that a sequence of digits writes in base ten; 0 for none.
pub open spec fn digits_value(s: Seq<u8>) -> nat
    decreases s.len(),
{
    if s.len() == 0 {
        0
    } else {
        digits_value(s.drop_last()) * 10 + (s.last() - 0x30) as nat
    }
}

/// The digits of `n` in base ten, without leading zeros.
pub open spec fn digits_of(n: nat) -> Seq<u8>
    decreases n,
{
    if n < 10 {
        seq![(0x30 + n) as u8]
    } else {
        digits_of(n / 10).push((0x30 + n % 10) as u8)
    }
}

/// The range that stands at the start of `s`, and how many bytes it takes.
/// No bracket means the whole buffer. Inside the brackets stand a start, a
/// colon and an end, each of which may be left out; a start alone selects one
/// cluster. `None` where a bracket is not closed or a number is too large.
#[verifier::opaque]
pub open spec fn parse_range(s: Seq<u8>) -> Option<(u32, u32, nat)> {
    if s.len() == 0 || s[0] != BRACKET_OPEN {
        Some((Feature::GLOBAL_START, Feature::GLOBAL_END, 0))
    } else {
        let a = digits_len(s.skip(1)) as int;
        let start = digits_value(s.subrange(1, 1 + a));
        let r = s.skip(1 + a);
        if start > u32::MAX {
            None
        } else if r.len() > 0 && r[0] == COLON {
            let b = digits_len(r.skip(1)) as int;
            let end = digits_value(r.subrange(1, 1 + b));
            let t = r.skip(1 + b);
            if end > u32::MAX || t.len() == 0 || t[0] != BRACKET_CLOSE {
                None
            } else {
                Some(
                    (
                        start as u32,
                        if b == 0 {
                            Feature::GLOBAL_END
                        } else {
                            end as u32
                        },
                        (a + b + 3) as nat,
                    ),
                )
            }
        } else if r.len() > 0 && r[0] == BRACKET_CLOSE {
            Some(
                (
                    start as u32,
                    if a == 0 {
                        Feature::GLOBAL_END
                    } else {
                        ((start + 1) % 0x1_0000_0000) as u32
                    },
                    (a + 2) as nat,
                ),
            )
        } else {
            None
        }
    }
}

/// The value that stands at the start of `s`, and how many bytes it takes:
/// an equals sign and a number, or nothing, which leaves `preset`. `None`
/// where no number follows the sign or the number is too large.
#[verifier::opaque]
pub open spec fn parse_value(s: Seq<u8>, preset: u32) -> Option<(u32, nat)> {
    if s.len() == 0 || s[0] != EQUALS {
        Some((preset, 0))
    } else {
        let c = digits_len(s.skip(1)) as int;
        let v = digits_value(s.subrange(1, 1 + c));
        if c == 0 || v > u32::MAX {
            None
        } else {
            Some((v as u32, (c + 1) as nat))
        }
    }
}

/// How many bytes the sign at the start of `s` takes: one for `+` or `-`.
pub open spec fn sign_len(s: Seq<u8>) -> nat {
    if s.len() > 0 && (s[0] == MINUS || s[0] == PLUS) {
        1
    } else {
        0
    }
}

/// The value that the sign at the start of `s` sets: 0 after `-`, else 1.
pub open spec fn sign_value(s: Seq<u8>) -> u32 {
    if s.len() > 0 && s[0] == MINUS {
        0
    } else {
        1
    }
}

/// The feature that a text writes, or `None` where the text is no feature
/// setting. The text is an optional sign, a name of one to four name bytes,
/// an optional range, and an optional value, with nothing before, between or
/// after them: no space, no quotes round the name, no word for the value.
pub open spec fn parse_feature(s: Seq<u8>) -> Option<Feature> {
    let s1 = s.skip(sign_len(s) as int);
    let n = name_run(s1);
    if n == 0 || n > 4 {
        None
    } else {
        let s2 = s1.skip(n as int);
        match parse_range(s2) {
            None => None,
            Some((start, end, k)) => {
                let s3 = s2.skip(k as int);
                match parse_value(s3, sign_value(s)) {
                    None => None,
                    Some((value, m)) => if m == s3.len() {
                        Some(
                            Feature {
                                tag: Tag(tag_from_name(s1.take(n as int))),
                                value,
                                start,
                                end,
                            },
                        )
                    } else {
                        None
                    },
                }
            },
        }
    }
}

/// The text of a range: nothing for the whole buffer, one number in
/// brackets for a single cluster, else a start, a colon and an end in
/// brackets, where a start of 0 and an end at the end of the buffer are left
/// out.
pub open spec fn format_range(start: u32, end: u32) -> Seq<u8> {
    if start == Feature::GLOBAL_START && end == Feature::GLOBAL_END {
        Seq::empty()
    } else if end as int == (start + 1) % 0x1_0000_0000 {
        seq![BRACKET_OPEN] + digits_of(start as nat) + seq![BRACKET_CLOSE]
    } else {
        seq![BRACKET_OPEN] + (if start != 0 {
            digits_of(start as nat)
        } else {
            Seq::empty()
        }) + seq![COLON] + (if end != Feature::GLOBAL_END {
            digits_of(end as nat)
        } else {
            Seq::empty()
        }) + seq![BRACKET_CLOSE]
    }
}

/// The text of a value: nothing for 0 and 1, which the sign tells apart,
/// else an equals sign and the number.
pub open spec fn format_value(value: u32) -> Seq<u8> {
    if value > 1 {
        seq![EQUALS] + digits_of(value as nat)
    } else {
        Seq::empty()
    }
}

/// The text of the sign: a minus where the value is 0, else nothing.
pub open spec fn format_sign(value: u32) -> Seq<u8> {
    if value == 0 {
        seq![MINUS]
    } else {
        Seq::empty()
    }
}

/// The text of a feature: sign, name of the tag, range and value.
pub open spec fn format_feature(f: Feature) -> Seq<u8> {
    format_sign(f.value) + tag_name(f.tag.0) + format_range(f.start, f.end) + format_value(f.value)
}

/// Whether a tag has a name that a feature text can hold: at least one
/// byte, and name bytes only.
pub open spec fn has_name(tag: u32) -> bool {
    &&& tag_name(tag).len() > 0
    &&& forall|i: int| 0 <= i < tag_name(tag).len() ==> is_name_byte(#[trigger] tag_name(tag)[i])
}

} // verus!
