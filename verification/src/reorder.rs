//! The orders into which the entries of a buffer can be put.

use crate::glyph::{GlyphInfo, GlyphPosition};
use vstd::prelude::*;

verus! {

/// The entries with those from `start` up to `end` in reverse order. An
/// `end` behind the last entry means that entry; an empty range changes
/// nothing.
pub open spec fn range_reversed(
    items: Seq<(GlyphInfo, GlyphPosition)>,
    start: int,
    end: int,
) -> Seq<(GlyphInfo, GlyphPosition)> {
    let e = if end < items.len() {
        end
    } else {
        items.len() as int
    };
    if 0 <= start < e {
        items.subrange(0, start) + items.subrange(start, e).reverse() + items.subrange(
            e,
            items.len() as int,
        )
    } else {
        items
    }
}

/// Where the last run of entries of one cluster starts.
pub open spec fn last_run_start(items: Seq<(GlyphInfo, GlyphPosition)>) -> int
    decreases items.len(),
{
    if items.len() <= 1 {
        0
    } else if items[items.len() - 2].0.cluster == items[items.len() - 1].0.cluster {
        last_run_start(items.drop_last())
    } else {
        items.len() - 1
    }
}

/// The last run of a buffer that holds something starts inside it.
pub proof fn lemma_last_run_start(items: Seq<(GlyphInfo, GlyphPosition)>)
    requires
        items.len() > 0,
    ensures
        0 <= last_run_start(items) < items.len(),
    decreases items.len(),
{
    if items.len() > 1 && items[items.len() - 2].0.cluster == items[items.len() - 1].0.cluster {
        lemma_last_run_start(items.drop_last());
    }
}

/// The entries with their clusters in reverse order: the runs of entries
/// of one cluster change places, and each run keeps its own order.
pub open spec fn clusters_reversed(items: Seq<(GlyphInfo, GlyphPosition)>) -> Seq<
    (GlyphInfo, GlyphPosition),
>
    decreases items.len(),
{
    if items.len() == 0 {
        items
    } else {
        let k = last_run_start(items);
        proof {
            lemma_last_run_start(items);
        }
        items.skip(k) + clusters_reversed(items.take(k))
    }
}

/// A copy of the entries with those from `start` up to `end` in reverse
/// order.
pub(crate) fn reversed_copy(items: &Vec<(GlyphInfo, GlyphPosition)>, start: usize, end: usize) -> (out: Vec<
    (GlyphInfo, GlyphPosition),
>)
    requires
        start < end <= items.len(),
    ensures
        out@ == range_reversed(items@, start as int, end as int),
{
    let len = items.len();
    let mut out: Vec<(GlyphInfo, GlyphPosition)> = Vec::new();
    let mut i: usize = 0;
    while i < len
        invariant
            i <= len == items.len(),
            start < end <= len,
            out@.len() == i,
            forall|j: int|
                0 <= j < i ==> out@[j] == if start <= j < end {
                    items@[start + end - 1 - j]
                } else {
                    items@[j]
                },
        decreases len - i,
    {
        let from = if start <= i && i < end {
            start + (end - 1 - i)
        } else {
            i
        };
        out.push(items[from]);
        i = i + 1;
    }
    assert(out@ =~= range_reversed(items@, start as int, end as int));
    out
}

} // verus!
