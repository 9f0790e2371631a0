//! What holds of the text form of a feature setting: what is written is
//! read back as it was.

use crate::feature::Feature;
use crate::grammar::{
    digits_len, digits_of, digits_value, format_feature, format_range, format_sign, format_value,
    has_name, is_digit, is_name_byte, name_run, parse_feature, parse_range, parse_value, sign_len,
    BRACKET_CLOSE, BRACKET_OPEN, COLON, EQUALS, MINUS,
};
use crate::tag::{bytes_as_chars, lemma_name_of_tag, lemma_tag_of_name, tag_name};
use vstd::prelude::*;

verus! {

/// The digits of a number are at least one digit, are digits, and write the
/// number.
pub proof fn lemma_digits_of(n: nat)
    ensures
        digits_of(n).len() >= 1,
        forall|i: int| 0 <= i < digits_of(n).len() ==> is_digit(#[trigger] digits_of(n)[i]),
        digits_value(digits_of(n)) == n,
    decreases n,
{
    if n < 10 {
        let d = digits_of(n);
        assert(d.drop_last() =~= Seq::<u8>::empty());
        assert(digits_value(d.drop_last()) == 0);
    } else {
        lemma_digits_of(n / 10);
        let d = digits_of(n);
        assert(d.drop_last() =~= digits_of(n / 10));
        assert(d.last() == (0x30 + n % 10) as u8);
    }
}

/// Digits followed by something that is no digit are counted in full.
pub proof fn lemma_digits_len_prefix(d: Seq<u8>, rest: Seq<u8>)
    requires
        forall|i: int| 0 <= i < d.len() ==> is_digit(#[trigger] d[i]),
        rest.len() == 0 || !is_digit(rest[0]),
    ensures
        digits_len(d + rest) == d.len(),
    decreases d.len(),
{
    if d.len() == 0 {
        assert(d + rest =~= rest);
    } else {
        assert((d + rest)[0] == d[0]);
        assert((d + rest).drop_first() =~= d.drop_first() + rest);
        assert forall|i: int| 0 <= i < d.drop_first().len() implies is_digit(
            #[trigger] d.drop_first()[i],
        ) by {
            assert(d.drop_first()[i] == d[i + 1]);
        }
        lemma_digits_len_prefix(d.drop_first(), rest);
    }
}

/// Name bytes followed by something that is no name byte are counted in
/// full.
pub proof fn lemma_name_run_prefix(name: Seq<u8>, rest: Seq<u8>)
    requires
        forall|i: int| 0 <= i < name.len() ==> is_name_byte(#[trigger] name[i]),
        rest.len() == 0 || !is_name_byte(rest[0]),
    ensures
        name_run(name + rest) == name.len(),
    decreases name.len(),
{
    if name.len() == 0 {
        assert(name + rest =~= rest);
    } else {
        assert((name + rest)[0] == name[0]);
        assert((name + rest).drop_first() =~= name.drop_first() + rest);
        assert forall|i: int| 0 <= i < name.drop_first().len() implies is_name_byte(
            #[trigger] name.drop_first()[i],
        ) by {
            assert(name.drop_first()[i] == name[i + 1]);
        }
        lemma_name_run_prefix(name.drop_first(), rest);
    }
}

/// The bytes that `name_run` counts are in the text and are name bytes.
pub proof fn lemma_name_run_bytes(s: Seq<u8>)
    ensures
        name_run(s) <= s.len(),
        forall|i: int| 0 <= i < name_run(s) ==> is_name_byte(#[trigger] s[i]),
    decreases s.len(),
{
    if s.len() > 0 && is_name_byte(s[0]) {
        lemma_name_run_bytes(s.drop_first());
        assert forall|i: int| 0 <= i < name_run(s) implies is_name_byte(#[trigger] s[i]) by {
            if i > 0 {
                assert(s[i] == s.drop_first()[i - 1]);
            }
        }
    }
}

/// A number in brackets is read as the range of that one cluster.
proof fn lemma_parse_single(start: u32, rest: Seq<u8>)
    ensures
        parse_range(seq![BRACKET_OPEN] + digits_of(start as nat) + seq![BRACKET_CLOSE] + rest) == Some(
            (
                start,
                ((start + 1) % 0x1_0000_0000) as u32,
                (digits_of(start as nat).len() + 2) as nat,
            ),
        ),
{
    reveal(parse_range);
    let d = digits_of(start as nat);
    let s = seq![BRACKET_OPEN] + d + seq![BRACKET_CLOSE] + rest;
    lemma_digits_of(start as nat);
    let tail = seq![BRACKET_CLOSE] + rest;
    assert(s[0] == BRACKET_OPEN);
    assert(s.skip(1) =~= d + tail);
    lemma_digits_len_prefix(d, tail);
    assert(s.subrange(1, 1 + d.len() as int) =~= d);
    assert(s.skip(1 + d.len() as int) =~= tail);
    assert(tail[0] == BRACKET_CLOSE);
}

/// Digits, a colon, digits and a closing bracket after an opening bracket
/// are read as a range; digits left out give the start or the end of the
/// buffer.
proof fn lemma_parse_pair(d: Seq<u8>, e: Seq<u8>, rest: Seq<u8>)
    requires
        forall|i: int| 0 <= i < d.len() ==> is_digit(#[trigger] d[i]),
        forall|i: int| 0 <= i < e.len() ==> is_digit(#[trigger] e[i]),
        digits_value(d) <= u32::MAX,
        digits_value(e) <= u32::MAX,
    ensures
        parse_range(seq![BRACKET_OPEN] + d + seq![COLON] + e + seq![BRACKET_CLOSE] + rest) == Some(
            (
                digits_value(d) as u32,
                if e.len() == 0 {
                    Feature::GLOBAL_END
                } else {
                    digits_value(e) as u32
                },
                (d.len() + e.len() + 3) as nat,
            ),
        ),
{
    reveal(parse_range);
    let s = seq![BRACKET_OPEN] + d + seq![COLON] + e + seq![BRACKET_CLOSE] + rest;
    let tail = seq![BRACKET_CLOSE] + rest;
    let r = seq![COLON] + e + tail;
    assert(s[0] == BRACKET_OPEN);
    assert(s.skip(1) =~= d + r);
    assert(r[0] == COLON);
    lemma_digits_len_prefix(d, r);
    assert(s.subrange(1, 1 + d.len() as int) =~= d);
    assert(s.skip(1 + d.len() as int) =~= r);
    assert(r.skip(1) =~= e + tail);
    assert(tail[0] == BRACKET_CLOSE);
    lemma_digits_len_prefix(e, tail);
    assert(r.subrange(1, 1 + e.len() as int) =~= e);
    assert(r.skip(1 + e.len() as int) =~= tail);
}

/// The text of a range, whatever follows it that does not open a bracket,
/// is read back as that range.
pub proof fn lemma_parse_format_range(start: u32, end: u32, rest: Seq<u8>)
    requires
        rest.len() == 0 || rest[0] != BRACKET_OPEN,
    ensures
        parse_range(format_range(start, end) + rest) == Some(
            (start, end, format_range(start, end).len()),
        ),
{
    let text = format_range(start, end);
    if start == Feature::GLOBAL_START && end == Feature::GLOBAL_END {
        reveal(parse_range);
        assert(text + rest =~= rest);
    } else if end as int == (start + 1) % 0x1_0000_0000 {
        lemma_parse_single(start, rest);
    } else {
        let d = if start != 0 {
            digits_of(start as nat)
        } else {
            Seq::<u8>::empty()
        };
        let e = if end != Feature::GLOBAL_END {
            digits_of(end as nat)
        } else {
            Seq::<u8>::empty()
        };
        lemma_digits_of(start as nat);
        lemma_digits_of(end as nat);
        assert(digits_value(Seq::<u8>::empty()) == 0);
        lemma_parse_pair(d, e, rest);
    }
}

/// The text of a value is read back as that value, where the sign has set
/// what the text leaves out.
pub proof fn lemma_parse_format_value(value: u32)
    ensures
        parse_value(format_value(value), if value == 0 { 0u32 } else { 1u32 }) == Some(
            (value, format_value(value).len()),
        ),
{
    reveal(parse_value);
    let s = format_value(value);
    if value > 1 {
        let d = digits_of(value as nat);
        lemma_digits_of(value as nat);
        assert(s.skip(1) =~= d + Seq::<u8>::empty());
        lemma_digits_len_prefix(d, Seq::<u8>::empty());
        assert(s.subrange(1, 1 + d.len() as int) =~= d);
        assert(s[0] == EQUALS);
    }
}

/// Reading the text of a feature gives the feature back, where its tag has
/// a name.
pub proof fn lemma_parse_format(f: Feature)
    requires
        has_name(f.tag.0),
    ensures
        parse_feature(format_feature(f)) == Some(f),
{
    let sign = format_sign(f.value);
    let name = tag_name(f.tag.0);
    let range = format_range(f.start, f.end);
    let value = format_value(f.value);
    let s = format_feature(f);
    assert(is_name_byte(name[0]));
    assert(s[0] == if f.value == 0 { MINUS } else { name[0] });
    assert(sign_len(s) == sign.len());
    let s1 = s.skip(sign_len(s) as int);
    assert(s1 =~= name + (range + value));
    let rest = range + value;
    lemma_digits_of(f.start as nat);
    lemma_digits_of(f.value as nat);
    assert(rest.len() == 0 || rest[0] == BRACKET_OPEN || rest[0] == EQUALS) by {
        if range.len() > 0 {
            assert(rest[0] == range[0]);
            assert(range[0] == BRACKET_OPEN);
        } else if value.len() > 0 {
            assert(rest =~= value);
            assert(value[0] == EQUALS);
        }
    }
    lemma_name_run_prefix(name, rest);
    let n = name_run(s1);
    assert(s1.take(n as int) =~= name);
    assert forall|i: int| 0 <= i < name.len() implies name[i] != 0 by {
        assert(is_name_byte(name[i]));
    }
    lemma_name_of_tag(f.tag.0);
    let s2 = s1.skip(n as int);
    assert(s2 =~= range + value);
    assert(value.len() == 0 || value[0] == EQUALS);
    lemma_parse_format_range(f.start, f.end, value);
    let s3 = s2.skip(range.len() as int);
    assert(s3 =~= value);
    lemma_parse_format_value(f.value);
}

/// The tag of a feature that was read from a text has a name.
pub proof fn lemma_parsed_has_name(s: Seq<u8>)
    requires
        parse_feature(s) is Some,
    ensures
        has_name(parse_feature(s).unwrap().tag.0),
{
    let s1 = s.skip(sign_len(s) as int);
    let n = name_run(s1);
    let name = s1.take(n as int);
    lemma_name_run_bytes(s1);
    assert forall|i: int| 0 <= i < name.len() implies name[i] != 0 && name[i] != 0x20
        && is_name_byte(name[i]) by {
        assert(is_name_byte(s1[i]));
    }
    lemma_tag_of_name(name);
}

/// A feature that was read from a text is read again from its own text:
/// writing and reading keep tag, value, start and end.
pub proof fn lemma_format_reparses(s: Seq<u8>)
    requires
        parse_feature(s) is Some,
    ensures
        parse_feature(format_feature(parse_feature(s).unwrap())) == parse_feature(s),
{
    lemma_parsed_has_name(s);
    lemma_parse_format(parse_feature(s).unwrap());
}

/// Every byte of the text of a feature whose tag has a name is below 128.
pub proof fn lemma_format_is_ascii(f: Feature)
    requires
        has_name(f.tag.0),
    ensures
        forall|i: int| 0 <= i < format_feature(f).len() ==> #[trigger] format_feature(f)[i] < 0x80,
{
    let sign = format_sign(f.value);
    let name = tag_name(f.tag.0);
    let range = format_range(f.start, f.end);
    let value = format_value(f.value);
    lemma_digits_of(f.start as nat);
    lemma_digits_of(f.end as nat);
    lemma_digits_of(f.value as nat);
    assert forall|i: int| 0 <= i < name.len() implies name[i] < 0x80 by {
        assert(is_name_byte(name[i]));
    }
    assert forall|i: int| 0 <= i < range.len() implies range[i] < 0x80 by {
        let d = digits_of(f.start as nat);
        let e = digits_of(f.end as nat);
        if 0 <= i - 1 < d.len() {
            assert(is_digit(d[i - 1]));
        }
        if 0 <= i - 2 < e.len() {
            assert(is_digit(e[i - 2]));
        }
        if 0 <= i - 2 - d.len() < e.len() {
            assert(is_digit(e[i - 2 - d.len()]));
        }
    }
    assert forall|i: int| 0 <= i < value.len() implies value[i] < 0x80 by {
        let d = digits_of(f.value as nat);
        if 0 <= i - 1 < d.len() {
            assert(is_digit(d[i - 1]));
        }
    }
}

/// The text of a feature, as a string, is read back as the feature, where
/// its tag has a name.
pub proof fn lemma_text_parses(f: Feature)
    requires
        has_name(f.tag.0),
    ensures
        vstd::utf8::encode_utf8(bytes_as_chars(format_feature(f))) == format_feature(f),
        parse_feature(vstd::utf8::encode_utf8(bytes_as_chars(format_feature(f)))) == Some(f),
{
    let bytes = format_feature(f);
    let chars = bytes_as_chars(bytes);
    lemma_format_is_ascii(f);
    assert(vstd::utf8::is_ascii_chars(chars)) by {
        assert forall|i: int| 0 <= i < chars.len() implies '\0' <= #[trigger] chars[i]
            <= '\u{7f}' by {
            assert(bytes[i] < 0x80);
        }
    }
    vstd::utf8::is_ascii_chars_encode_utf8(chars);
    assert(vstd::utf8::encode_utf8(chars) =~= bytes) by {
        assert forall|i: int| 0 <= i < chars.len() implies vstd::utf8::encode_utf8(chars)[i]
            == bytes[i] by {
            assert(chars[i] as u8 == vstd::utf8::encode_utf8(chars)[i]);
            assert(bytes[i] < 0x80);
        }
    }
    lemma_parse_format(f);
}

} // verus!
