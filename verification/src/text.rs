//! What a text adds to a buffer: one entry for each character, with the
//! byte at which the character stands.

use crate::glyph::{GlyphInfo, GlyphPosition};
use vstd::prelude::*;
use vstd::std_specs::iter::IteratorSpec;
use vstd::string::*;

verus! {

/// How many bytes a character takes in UTF-8.
pub open spec fn char_width(c: char) -> nat {
    if (c as u32) < 0x80 {
        1
    } else if (c as u32) < 0x800 {
        2
    } else if (c as u32) < 0x1_0000 {
        3
    } else {
        4
    }
}

/// How many bytes a text takes in UTF-8.
pub open spec fn text_width(chars: Seq<char>) -> nat
    decreases chars.len(),
{
    if chars.len() == 0 {
        0
    } else {
        text_width(chars.drop_last()) + char_width(chars.last())
    }
}

/// The entry of a code point that stands at byte `cluster` of its text.
pub open spec fn unicode_item(codepoint: u32, cluster: int) -> (GlyphInfo, GlyphPosition) {
    (GlyphInfo { codepoint, mask: 0, cluster: cluster as u32 }, GlyphPosition::zero())
}

/// What the character `c`, which stands at byte `offset` of its text, adds
/// when the bytes from `start` up to `end` are added: its code point where
/// all its bytes are in the range, else `replacement` once for each of its
/// bytes that is.
pub open spec fn char_items(c: char, offset: int, start: int, end: int, replacement: u32) -> Seq<
    (GlyphInfo, GlyphPosition),
> {
    let w = char_width(c) as int;
    let lo = if offset < start {
        start
    } else {
        offset
    };
    let hi = if offset + w < end {
        offset + w
    } else {
        end
    };
    if start <= offset && offset + w <= end {
        seq![unicode_item(c as u32, offset)]
    } else if lo < hi {
        Seq::new((hi - lo) as nat, |i: int| unicode_item(replacement, lo + i))
    } else {
        Seq::empty()
    }
}

/// What a text adds when its bytes from `start` up to `end` are added: the
/// entries of its characters in their order, each with the byte at which it
/// stands as its cluster.
pub open spec fn text_items(chars: Seq<char>, start: int, end: int, replacement: u32) -> Seq<
    (GlyphInfo, GlyphPosition),
>
    decreases chars.len(),
{
    if chars.len() == 0 {
        Seq::empty()
    } else {
        text_items(chars.drop_last(), start, end, replacement) + char_items(
            chars.last(),
            text_width(chars.drop_last()) as int,
            start,
            end,
            replacement,
        )
    }
}

/// The byte at which the range to add starts: `start_at`, or the end of the
/// text where `start_at` lies behind it.
pub open spec fn range_start(total: int, start_at: int) -> int {
    if start_at < total {
        start_at
    } else {
        total
    }
}

/// The byte before which the range to add ends: `length` bytes after its
/// start, or the end of the text where `length` is `None` or reaches
/// further.
pub open spec fn range_end(total: int, start_at: int, length: Option<usize>) -> int {
    match length {
        None => total,
        Some(l) => if range_start(total, start_at) + l < total {
            range_start(total, start_at) + l
        } else {
            total
        },
    }
}

/// A text is as wide as a first character and the rest together.
pub proof fn lemma_text_width_first(c: char, rest: Seq<char>)
    ensures
        text_width(seq![c] + rest) == char_width(c) + text_width(rest),
    decreases rest.len(),
{
    let all = seq![c] + rest;
    if rest.len() == 0 {
        assert(all.drop_last() =~= Seq::<char>::empty());
        assert(all.last() == c);
        assert(text_width(all.drop_last()) == 0);
    } else {
        assert(all.drop_last() =~= seq![c] + rest.drop_last());
        assert(all.last() == rest.last());
        lemma_text_width_first(c, rest.drop_last());
    }
}

/// The width of a text is the number of bytes of its UTF-8 form.
pub proof fn lemma_text_width(chars: Seq<char>)
    ensures
        vstd::utf8::encode_utf8(chars).len() == text_width(chars),
    decreases chars.len(),
{
    if chars.len() > 0 {
        vstd::utf8::char_is_scalar(chars[0]);
        lemma_text_width(chars.drop_first());
        assert(chars =~= seq![chars[0]] + chars.drop_first());
        lemma_text_width_first(chars[0], chars.drop_first());
    }
}

/// The start of a text is no wider than the text.
pub proof fn lemma_text_width_take(chars: Seq<char>, k: int)
    requires
        0 <= k <= chars.len(),
    ensures
        text_width(chars.take(k)) <= text_width(chars),
    decreases chars.len(),
{
    if k < chars.len() {
        assert(chars.drop_last().take(k) =~= chars.take(k));
        lemma_text_width_take(chars.drop_last(), k);
    } else {
        assert(chars.take(k) =~= chars);
    }
}

/// Adding a whole text adds one entry for each character: its code point,
/// with the byte at which it stands.
pub proof fn lemma_whole_text(chars: Seq<char>, end: int, replacement: u32)
    requires
        text_width(chars) <= end,
    ensures
        text_items(chars, 0, end, replacement).len() == chars.len(),
        forall|i: int|
            0 <= i < chars.len() ==> #[trigger] text_items(chars, 0, end, replacement)[i]
                == unicode_item(chars[i] as u32, text_width(chars.take(i)) as int),
    decreases chars.len(),
{
    if chars.len() > 0 {
        let front = chars.drop_last();
        lemma_whole_text(front, end, replacement);
        assert forall|i: int| 0 <= i < chars.len() implies #[trigger] text_items(
            chars,
            0,
            end,
            replacement,
        )[i] == unicode_item(chars[i] as u32, text_width(chars.take(i)) as int) by {
            if i < front.len() {
                assert(front.take(i) =~= chars.take(i));
            } else {
                assert(chars.take(i) =~= front);
            }
        }
    }
}

/// How many entries of a range that runs from character `i` up to
/// character `j` come from the first `n` characters.
pub open spec fn range_count(n: int, i: int, j: int) -> int {
    if n <= i {
        0
    } else if n <= j {
        n - i
    } else {
        j - i
    }
}

/// An earlier character stands at an earlier byte or the same.
pub proof fn lemma_offsets_rise(chars: Seq<char>, i: int, j: int)
    requires
        0 <= i <= j <= chars.len(),
    ensures
        text_width(chars.take(i)) <= text_width(chars.take(j)),
{
    assert(chars.take(j).take(i) =~= chars.take(i));
    lemma_text_width_take(chars.take(j), i);
}

/// Of a range that starts where character `i` starts and ends where
/// character `j` starts, the first `n` characters of the text add the code
/// points of those among them that lie in the range, and nothing else.
pub proof fn lemma_range_prefix(chars: Seq<char>, n: int, i: int, j: int, replacement: u32)
    requires
        0 <= i <= j <= chars.len(),
        0 <= n <= chars.len(),
    ensures
        text_items(
            chars.take(n),
            text_width(chars.take(i)) as int,
            text_width(chars.take(j)) as int,
            replacement,
        ).len() == range_count(n, i, j),
        forall|k: int|
            0 <= k < range_count(n, i, j) ==> #[trigger] text_items(
                chars.take(n),
                text_width(chars.take(i)) as int,
                text_width(chars.take(j)) as int,
                replacement,
            )[k] == unicode_item(chars[i + k] as u32, text_width(chars.take(i + k)) as int),
    decreases n,
{
    let start = text_width(chars.take(i)) as int;
    let end = text_width(chars.take(j)) as int;
    if n > 0 {
        let front = chars.take(n - 1);
        let offset = text_width(front) as int;
        assert(chars.take(n).drop_last() =~= front);
        assert(chars.take(n).last() == chars[n - 1]);
        assert(text_width(chars.take(n)) == offset + char_width(chars[n - 1]));
        lemma_range_prefix(chars, n - 1, i, j, replacement);
        if n <= i {
            lemma_offsets_rise(chars, n, i);
        } else if n <= j {
            lemma_offsets_rise(chars, i, n - 1);
            lemma_offsets_rise(chars, n, j);
        } else {
            lemma_offsets_rise(chars, j, n - 1);
        }
    } else {
        assert(chars.take(0) =~= Seq::<char>::empty());
    }
}

/// Adding a range that starts where character `i` starts and ends where
/// character `j` starts adds one entry for each character from `i` up to
/// `j`: its code point, with the byte at which it stands.
pub proof fn lemma_range_text(chars: Seq<char>, i: int, j: int, replacement: u32)
    requires
        0 <= i <= j <= chars.len(),
    ensures
        text_items(
            chars,
            text_width(chars.take(i)) as int,
            text_width(chars.take(j)) as int,
            replacement,
        ).len() == j - i,
        forall|k: int|
            0 <= k < j - i ==> #[trigger] text_items(
                chars,
                text_width(chars.take(i)) as int,
                text_width(chars.take(j)) as int,
                replacement,
            )[k] == unicode_item(chars[i + k] as u32, text_width(chars.take(i + k)) as int),
{
    lemma_range_prefix(chars, chars.len() as int, i, j, replacement);
    assert(chars.take(chars.len() as int) =~= chars);
}

/// How many bytes a character takes in UTF-8.
fn width_of(c: char) -> (w: usize)
    ensures
        w == char_width(c),
{
    let v = c as u32;
    if v < 0x80 {
        1
    } else if v < 0x800 {
        2
    } else if v < 0x1_0000 {
        3
    } else {
        4
    }
}

/// Puts at the end of `items` what one character of a text adds.
fn push_char_items(
    items: &mut Vec<(GlyphInfo, GlyphPosition)>,
    c: char,
    offset: usize,
    start: usize,
    end: usize,
    replacement: u32,
)
    requires
        offset + 4 <= 0x8000_0003,
        end <= 0x7FFF_FFFF,
    ensures
        final(items)@ == old(items)@ + char_items(
            c,
            offset as int,
            start as int,
            end as int,
            replacement,
        ),
{
    let w = width_of(c);
    let zero = GlyphPosition::new(0, 0, 0, 0);
    if start <= offset && offset + w <= end {
        items.push((GlyphInfo::new(c as u32, 0, offset as u32), zero));
        assert(items@ =~= old(items)@ + char_items(
            c,
            offset as int,
            start as int,
            end as int,
            replacement,
        ));
        return ;
    }
    let lo = if offset < start {
        start
    } else {
        offset
    };
    let hi = if offset + w < end {
        offset + w
    } else {
        end
    };
    let mut p = lo;
    while p < hi
        invariant
            lo <= p,
            lo < hi ==> p <= hi,
            lo >= hi ==> p == lo,
            hi <= 0x7FFF_FFFF,
            zero == GlyphPosition::zero(),
            items@ == old(items)@ + Seq::new(
                (p - lo) as nat,
                |i: int| unicode_item(replacement, lo + i),
            ),
        decreases hi - p,
    {
        items.push((GlyphInfo::new(replacement, 0, p as u32), zero));
        assert(items@ =~= old(items)@ + Seq::new(
            (p + 1 - lo) as nat,
            |i: int| unicode_item(replacement, lo + i),
        ));
        p = p + 1;
    }
    assert(items@ =~= old(items)@ + char_items(
        c,
        offset as int,
        start as int,
        end as int,
        replacement,
    ));
}

/// Puts at the end of `items` what the bytes of `text` from `start` up to
/// `end` add.
pub(crate) fn push_text_items(
    items: &mut Vec<(GlyphInfo, GlyphPosition)>,
    text: &str,
    start: usize,
    end: usize,
    replacement: u32,
)
    requires
        text.spec_bytes().len() <= 0x7FFF_FFFF,
        end <= 0x7FFF_FFFF,
    ensures
        final(items)@ == old(items)@ + text_items(text@, start as int, end as int, replacement),
{
    let mut it = text.chars();
    let mut offset: usize = 0;
    let ghost mut done: int = 0;
    proof {
        axiom_spec_iter(text);
        lemma_text_width(text@);
        assert(text@.take(0) =~= Seq::<char>::empty());
    }
    loop
        invariant
            0 <= done <= text@.len(),
            offset == text_width(text@.take(done)),
            text_width(text@) <= 0x7FFF_FFFF,
            end <= 0x7FFF_FFFF,
            it.remaining() == text@.skip(done),
            it.obeys_prophetic_iter_laws(),
            items@ == old(items)@ + text_items(
                text@.take(done),
                start as int,
                end as int,
                replacement,
            ),
        ensures
            done == text@.len(),
        decreases text@.len() - done,
    {
        let ghost before = it;
        proof {
            lemma_text_width_take(text@, done);
        }
        match it.next() {
            None => {
                proof {
                    next_postcondition(&before, &it, None);
                }
                break ;
            },
            Some(c) => {
                proof {
                    next_postcondition(&before, &it, Some(c));
                    assert(text@.skip(done).drop_first() =~= text@.skip(done + 1));
                    assert(text@.take(done + 1).drop_last() =~= text@.take(done));
                    assert(text@.take(done + 1).last() == c);
                    lemma_text_width_take(text@, done + 1);
                }
                push_char_items(items, c, offset, start, end, replacement);
                offset = offset + width_of(c);
                proof {
                    done = done + 1;
                }
                assert(items@ =~= old(items)@ + text_items(
                    text@.take(done),
                    start as int,
                    end as int,
                    replacement,
                ));
            },
        }
    }
    assert(text@.take(done) =~= text@);
}

} // verus!
