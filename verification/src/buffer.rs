//! The buffer: the text that goes into shaping and the glyphs that come out.

use crate::direction::Direction;
use crate::errors::Error;
use crate::flags::{BufferFlags, FLAG_DEFAULT};
use crate::glyph::{Codepoint, GlyphInfo, GlyphPosition};
use crate::language::Language;
use crate::reorder::{clusters_reversed, last_run_start, range_reversed, reversed_copy};
use crate::script::{first_script, SCRIPT_COMMON, SCRIPT_INHERITED, SCRIPT_UNKNOWN};
use crate::tag::Tag;
use crate::text::{
    lemma_range_text, lemma_text_width, lemma_text_width_take, lemma_whole_text, push_text_items,
    range_end, range_start, text_items, text_width,
};
use vstd::prelude::*;
use vstd::string::*;

verus! {

/// The code point that stands in for bytes that are no character, unless
/// another is set.
pub const REPLACEMENT_DEFAULT: u32 = 0xFFFD;

/// What the entries of a buffer are.
#[derive(Debug, Clone, Copy, PartialEq, Eq, Structural)]
pub enum ContentKind {
    /// Code points, before shaping.
    Unicode,
    /// Glyphs with their positions, after shaping.
    Glyphs,
}

/// A buffer as a value: its entries, each with its position, and its
/// settings.
pub struct BufferView {
    pub kind: ContentKind,
    pub items: Seq<(GlyphInfo, GlyphPosition)>,
    pub direction: Direction,
    pub script: Tag,
    pub language: Seq<char>,
    pub flags: u32,
    pub invisible: u32,
    pub replacement: u32,
}

impl BufferView {
    /// The buffer that holds nothing and has no setting.
    pub open spec fn empty() -> BufferView {
        BufferView {
            kind: ContentKind::Unicode,
            items: Seq::empty(),
            direction: Direction::Invalid,
            script: Tag(0),
            language: Seq::empty(),
            flags: FLAG_DEFAULT,
            invisible: 0,
            replacement: REPLACEMENT_DEFAULT,
        }
    }

    /// The entries without their positions.
    pub open spec fn infos(self) -> Seq<GlyphInfo> {
        Seq::new(self.items.len(), |i: int| self.items[i].0)
    }

    /// The positions of the entries.
    pub open spec fn positions(self) -> Seq<GlyphPosition> {
        Seq::new(self.items.len(), |i: int| self.items[i].1)
    }
}

/// What the buffer `this` is after the entries of `other` from `start` up
/// to `end` are put at its end. An `end` behind the last entry of `other`
/// means that entry, a `start` behind `end` means `end`. A buffer that held
/// nothing takes the kind of what it gets.
pub open spec fn appended(this: BufferView, other: BufferView, start: int, end: int) -> BufferView {
    let e = if end < other.items.len() {
        end
    } else {
        other.items.len() as int
    };
    let s = if start < e {
        start
    } else {
        e
    };
    BufferView {
        kind: if this.items.len() == 0 && s < e {
            other.kind
        } else {
            this.kind
        },
        items: this.items + other.items.subrange(s, e),
        ..this
    }
}

/// A sequence of code points that shaping turns into positioned glyphs,
/// with the direction, script and language of the text.
#[derive(Debug)]
pub struct Buffer {
    kind: ContentKind,
    items: Vec<(GlyphInfo, GlyphPosition)>,
    direction: Direction,
    script: Tag,
    language: Language,
    flags: BufferFlags,
    invisible: u32,
    replacement: u32,
}

impl View for Buffer {
    type V = BufferView;

    closed spec fn view(&self) -> BufferView {
        BufferView {
            kind: self.kind,
            items: self.items@,
            direction: self.direction,
            script: self.script,
            language: self.language@,
            flags: self.flags.bits(),
            invisible: self.invisible,
            replacement: self.replacement,
        }
    }
}

impl Buffer {
    /// A buffer that holds nothing and has no setting.
    pub fn new() -> (buffer: Buffer)
        ensures
            buffer@ == BufferView::empty(),
    {
        Buffer {
            kind: ContentKind::Unicode,
            items: Vec::new(),
            direction: Direction::Invalid,
            script: Tag(0),
            language: Language::invalid(),
            flags: BufferFlags::empty(),
            invisible: 0,
            replacement: REPLACEMENT_DEFAULT,
        }
    }

    /// A buffer that holds nothing, with room for `capacity` entries where
    /// the memory for them could be had.
    pub fn with_capacity(capacity: usize) -> (buffer: Buffer)
        ensures
            buffer@ == BufferView::empty(),
    {
        let mut buffer = Buffer::new();
        let _ = buffer.reserve(capacity);
        buffer
    }

    /// A buffer that holds the code points of a text and has no setting.
    pub fn with(text: &str) -> (buffer: Buffer)
        requires
            text.spec_bytes().len() <= 0x7FFF_FFFF,
        ensures
            buffer@ == (BufferView {
                items: text_items(
                    text@,
                    0,
                    text.spec_bytes().len() as int,
                    REPLACEMENT_DEFAULT,
                ),
                ..BufferView::empty()
            }),
            buffer@.items.len() == text@.len(),
            forall|i: int|
                0 <= i < text@.len() ==> (#[trigger] buffer@.items[i]).0.codepoint
                    == text@[i] as u32,
    {
        let mut buffer = Buffer::new();
        buffer.add_str(text, 0, None);
        proof {
            lemma_text_width(text@);
            lemma_whole_text(text@, text.spec_bytes().len() as int, REPLACEMENT_DEFAULT);
            assert(buffer@.items =~= text_items(
                text@,
                0,
                text.spec_bytes().len() as int,
                REPLACEMENT_DEFAULT,
            ));
        }
        buffer
    }

    /// Puts the code points of a text at the end of the buffer: those of
    /// the bytes from `start_at` on, `length` bytes or, with `None`, up to
    /// the end of the text. Each entry gets the byte at which its character
    /// stands as its cluster. A range that starts and ends where characters
    /// start adds one entry for each character in it. A character that the
    /// range cuts gives the replacement code point once for each of its
    /// bytes in the range. The buffer must hold code points, not glyphs.
    pub fn add_str(&mut self, text: &str, start_at: usize, length: Option<usize>)
        requires
            old(self)@.kind == ContentKind::Unicode,
            text.spec_bytes().len() <= 0x7FFF_FFFF,
        ensures
            final(self)@ == (BufferView {
                items: old(self)@.items + text_items(
                    text@,
                    range_start(text.spec_bytes().len() as int, start_at as int),
                    range_end(text.spec_bytes().len() as int, start_at as int, length),
                    old(self)@.replacement,
                ),
                ..old(self)@
            }),
            start_at == 0 && length is None ==> final(self)@.items.len() == old(self)@.items.len()
                + text@.len(),
            forall|i: int, j: int|
                #![trigger text@.take(i), text@.take(j)]
                0 <= i <= j <= text@.len() && start_at == text_width(text@.take(i)) && range_end(
                    text.spec_bytes().len() as int,
                    start_at as int,
                    length,
                ) == text_width(text@.take(j)) ==> final(self)@.items.len() == old(
                    self,
                )@.items.len() + (j - i),
    {
        proof {
            lemma_text_width(text@);
            lemma_whole_text(text@, text.spec_bytes().len() as int, self@.replacement);
            assert forall|i: int, j: int|
                #![trigger text@.take(i), text@.take(j)]
                0 <= i <= j <= text@.len() && start_at == text_width(text@.take(i)) && range_end(
                    text.spec_bytes().len() as int,
                    start_at as int,
                    length,
                ) == text_width(text@.take(j)) implies text_items(
                text@,
                range_start(text.spec_bytes().len() as int, start_at as int),
                range_end(text.spec_bytes().len() as int, start_at as int, length),
                self@.replacement,
            ).len() == j - i by {
                lemma_text_width_take(text@, i);
                lemma_range_text(text@, i, j, self@.replacement);
            }
        }
        let total = text.len();
        let start = if start_at < total {
            start_at
        } else {
            total
        };
        let end = match length {
            None => total,
            Some(l) => if l < total - start {
                start + l
            } else {
                total
            },
        };
        push_text_items(&mut self.items, text, start, end, self.replacement);
    }

    /// Puts the entries of `other` from `start` up to `end` at the end of
    /// the buffer. Both buffers must hold the same kind of entries, unless
    /// one of them holds none.
    pub fn append(&mut self, other: &Buffer, start: usize, end: usize)
        requires
            old(self)@.kind == other@.kind || old(self)@.items.len() == 0 || other@.items.len()
                == 0,
        ensures
            final(self)@ == appended(old(self)@, other@, start as int, end as int),
    {
        let e = if end < other.items.len() {
            end
        } else {
            other.items.len()
        };
        let s = if start < e {
            start
        } else {
            e
        };
        if s == e {
            assert(self@.items =~= self@.items + other@.items.subrange(s as int, e as int));
            return ;
        }
        if self.items.len() == 0 {
            self.kind = other.kind;
        }
        let mut i = s;
        while i < e
            invariant
                s <= i <= e <= other.items.len(),
                self.items@ == old(self).items@ + other.items@.subrange(s as int, i as int),
                self@ == (BufferView {
                    kind: if old(self)@.items.len() == 0 {
                        other@.kind
                    } else {
                        old(self)@.kind
                    },
                    items: self.items@,
                    ..old(self)@
                }),
            decreases e - i,
        {
            self.items.push(other.items[i]);
            assert(self.items@ =~= old(self).items@ + other.items@.subrange(s as int, i + 1));
            i = i + 1;
        }
    }

    /// Takes in the glyphs that shaping made of the code points: the buffer
    /// then holds these glyphs, with its settings as they were. The buffer
    /// must hold code points.
    pub fn set_glyphs(&mut self, glyphs: Vec<(GlyphInfo, GlyphPosition)>)
        requires
            old(self)@.kind == ContentKind::Unicode,
        ensures
            final(self)@ == (BufferView {
                kind: ContentKind::Glyphs,
                items: glyphs@,
                ..old(self)@
            }),
    {
        self.items = glyphs;
        self.kind = ContentKind::Glyphs;
    }

    /// Puts the entries in reverse order.
    pub fn reverse(&mut self)
        ensures
            final(self)@ == (BufferView { items: old(self)@.items.reverse(), ..old(self)@ }),
    {
        let len = self.items.len();
        if len > 0 {
            self.items = reversed_copy(&self.items, 0, len);
            assert(self.items@ =~= old(self)@.items.reverse());
        } else {
            assert(self.items@ =~= old(self)@.items.reverse());
        }
    }

    /// Puts the entries from `start` up to `end` in reverse order. An
    /// `end` behind the last entry means that entry.
    pub fn reverse_range(&mut self, start: u32, end: u32)
        ensures
            final(self)@ == (BufferView {
                items: range_reversed(old(self)@.items, start as int, end as int),
                ..old(self)@
            }),
    {
        let len = self.items.len();
        let e = if (end as usize) < len {
            end as usize
        } else {
            len
        };
        if (start as usize) < e {
            self.items = reversed_copy(&self.items, start as usize, e);
        }
    }

    /// Puts the clusters in reverse order: the runs of entries of one
    /// cluster change places, and each run keeps its own order.
    pub fn reverse_clusters(&mut self)
        ensures
            final(self)@ == (BufferView {
                items: clusters_reversed(old(self)@.items),
                ..old(self)@
            }),
    {
        let mut out: Vec<(GlyphInfo, GlyphPosition)> = Vec::new();
        let mut i: usize = self.items.len();
        proof {
            assert(self.items@.take(i as int) =~= self.items@);
        }
        while i > 0
            invariant
                i <= self.items.len(),
                out@ + clusters_reversed(self.items@.take(i as int)) == clusters_reversed(
                    self.items@,
                ),
            decreases i,
        {
            let ghost front = self.items@.take(i as int);
            let mut k: usize = i - 1;
            while k > 0 && self.items[k - 1].0.cluster == self.items[k].0.cluster
                invariant
                    k < i <= self.items.len(),
                    last_run_start(self.items@.take(i as int)) == last_run_start(
                        self.items@.take(k + 1),
                    ),
                decreases k,
            {
                proof {
                    assert(self.items@.take(k + 1).drop_last() =~= self.items@.take(k as int));
                }
                k = k - 1;
            }
            proof {
                assert(last_run_start(self.items@.take(k + 1)) == k);
                assert(front.take(k as int) =~= self.items@.take(k as int));
                assert(front.skip(k as int) =~= self.items@.subrange(k as int, i as int));
            }
            let ghost base = out@;
            let mut j: usize = k;
            while j < i
                invariant
                    k <= j <= i <= self.items.len(),
                    out@ == base + self.items@.subrange(k as int, j as int),
                decreases i - j,
            {
                out.push(self.items[j]);
                assert(out@ =~= base + self.items@.subrange(k as int, j + 1));
                j = j + 1;
            }
            assert(out@ + clusters_reversed(self.items@.take(k as int)) =~= base
                + clusters_reversed(front));
            i = k;
        }
        assert(out@ =~= out@ + clusters_reversed(self.items@.take(0)));
        self.items = out;
    }

    /// Sets the script, where none is set, to the first script in
    /// `scripts` that is not neutral. `scripts` holds the script of each
    /// entry, in the order of the entries. The buffer must hold code
    /// points.
    pub fn guess_script(&mut self, scripts: &[Tag])
        requires
            old(self)@.kind == ContentKind::Unicode,
            scripts@.len() == old(self)@.items.len(),
        ensures
            final(self)@ == (BufferView {
                script: if old(self)@.script == Tag(0) {
                    first_script(scripts@)
                } else {
                    old(self)@.script
                },
                ..old(self)@
            }),
    {
        self.script = self.guessed_script(scripts);
    }

    /// The script that `guess_script` would leave the buffer with.
    pub fn guessed_script(&self, scripts: &[Tag]) -> (script: Tag)
        ensures
            script == if self@.script == Tag(0) {
                first_script(scripts@)
            } else {
                self@.script
            },
    {
        if self.script.0 != 0 {
            return self.script;
        }
        let mut i: usize = 0;
        assert(scripts@.skip(0) =~= scripts@);
        while i < scripts.len()
            invariant
                i <= scripts.len(),
                first_script(scripts@) == first_script(scripts@.skip(i as int)),
                self@.script == Tag(0),
            decreases scripts.len() - i,
        {
            let script = scripts[i];
            if script.0 != SCRIPT_COMMON && script.0 != SCRIPT_INHERITED && script.0
                != SCRIPT_UNKNOWN {
                return script;
            }
            proof {
                assert(scripts@.skip(i as int).drop_first() =~= scripts@.skip(i + 1));
            }
            i = i + 1;
        }
        Tag(0)
    }

    /// Sets what is not set: the script to the first script in `scripts`
    /// that is not neutral, the direction to `natural`, the language to
    /// `preset`. `scripts` holds the script of each entry; `natural` is the
    /// direction in which the script that the buffer then has is written.
    /// The buffer must hold code points.
    pub fn guess_segment_properties(
        &mut self,
        scripts: &[Tag],
        natural: Direction,
        preset: &Language,
    )
        requires
            old(self)@.kind == ContentKind::Unicode,
            scripts@.len() == old(self)@.items.len(),
        ensures
            final(self)@ == (BufferView {
                script: if old(self)@.script == Tag(0) {
                    first_script(scripts@)
                } else {
                    old(self)@.script
                },
                direction: if old(self)@.direction == Direction::Invalid {
                    natural
                } else {
                    old(self)@.direction
                },
                language: if old(self)@.language.len() == 0 {
                    preset@
                } else {
                    old(self)@.language
                },
                ..old(self)@
            }),
    {
        self.guess_script(scripts);
        self.guess_direction(natural);
        self.guess_language(preset);
    }

    /// Sets the direction, where none is set, to `natural`: the direction
    /// in which the script of the buffer is written.
    pub fn guess_direction(&mut self, natural: Direction)
        ensures
            final(self)@ == (BufferView {
                direction: if old(self)@.direction == Direction::Invalid {
                    natural
                } else {
                    old(self)@.direction
                },
                ..old(self)@
            }),
    {
        if !self.direction.is_valid() {
            self.direction = natural;
        }
    }

    /// Sets the language, where none is set, to `preset`.
    pub fn guess_language(&mut self, preset: &Language)
        ensures
            final(self)@ == (BufferView {
                language: if old(self)@.language.len() == 0 {
                    preset@
                } else {
                    old(self)@.language
                },
                ..old(self)@
            }),
    {
        if !self.language.is_valid() {
            self.language = preset.clone();
        }
    }

    /// Makes room for `size` more entries, or reports that the memory for
    /// them could not be had. What the buffer holds stays either way.
    pub fn reserve(&mut self, size: usize) -> (result: Result<(), Error>)
        ensures
            final(self)@ == old(self)@,
            size == 0 ==> result is Ok,
            result is Err ==> result == Err::<(), Error>(Error::NoMemory),
    {
        if size == 0 {
            return Ok(());
        }
        Error::from_reserve(self.items.try_reserve(size))
    }

    /// The number of entries.
    pub fn len(&self) -> (len: usize)
        ensures
            len == self@.items.len(),
    {
        self.items.len()
    }

    /// Whether the buffer holds no entry.
    pub fn is_empty(&self) -> (empty: bool)
        ensures
            empty == (self@.items.len() == 0),
    {
        self.items.len() == 0
    }

    /// What the entries are: code points or glyphs.
    pub fn content_kind(&self) -> (kind: ContentKind)
        ensures
            kind == self@.kind,
    {
        self.kind
    }

    /// Throws the entries away. The buffer then holds code points again;
    /// direction, script, language, flags and the two stand-in code points
    /// stay as they were set.
    pub fn clear_contents(&mut self)
        ensures
            final(self)@ == (BufferView {
                kind: ContentKind::Unicode,
                items: Seq::empty(),
                ..old(self)@
            }),
    {
        self.items.clear();
        self.kind = ContentKind::Unicode;
    }

    /// Throws the entries and every setting away: the buffer is as new.
    pub fn reset(&mut self)
        ensures
            final(self)@ == BufferView::empty(),
    {
        self.items.clear();
        self.kind = ContentKind::Unicode;
        self.direction = Direction::Invalid;
        self.script = Tag(0);
        self.language = Language::invalid();
        self.flags = BufferFlags::empty();
        self.invisible = 0;
        self.replacement = REPLACEMENT_DEFAULT;
    }

    /// Sets the direction in which the text flows.
    pub fn set_direction(&mut self, direction: Direction)
        ensures
            final(self)@ == (BufferView { direction, ..old(self)@ }),
    {
        self.direction = direction;
    }

    /// The direction in which the text flows.
    pub fn get_direction(&self) -> (direction: Direction)
        ensures
            direction == self@.direction,
    {
        self.direction
    }

    /// Sets the script of the text.
    pub fn set_script(&mut self, script: Tag)
        ensures
            final(self)@ == (BufferView { script, ..old(self)@ }),
    {
        self.script = script;
    }

    /// The script of the text; the unset tag where none is set.
    pub fn get_script(&self) -> (script: Tag)
        ensures
            script == self@.script,
    {
        self.script
    }

    /// Sets the language of the text.
    pub fn set_language(&mut self, language: Language)
        ensures
            final(self)@ == (BufferView { language: language@, ..old(self)@ }),
    {
        self.language = language;
    }

    /// The language of the text.
    pub fn get_language(&self) -> (language: Language)
        ensures
            language@ == self@.language,
    {
        self.language.clone()
    }

    /// Sets the flags.
    pub fn set_flags(&mut self, flags: BufferFlags)
        ensures
            final(self)@ == (BufferView { flags: flags.bits(), ..old(self)@ }),
    {
        self.flags = flags;
    }

    /// The flags.
    pub fn flags(&self) -> (flags: BufferFlags)
        ensures
            flags.bits() == self@.flags,
    {
        self.flags
    }

    /// The glyph that stands in for invisible characters; 0 for the glyph
    /// of the space.
    pub fn invisible_glyph(&self) -> (invisible: Codepoint)
        ensures
            invisible == self@.invisible,
    {
        self.invisible
    }

    /// Sets the glyph that stands in for invisible characters.
    pub fn set_invisible_glyph(&mut self, invisible: Codepoint)
        ensures
            final(self)@ == (BufferView { invisible, ..old(self)@ }),
    {
        self.invisible = invisible;
    }

    /// The code point that stands in for bytes that are no character.
    pub fn replacement_codepoint(&self) -> (replacement: Codepoint)
        ensures
            replacement == self@.replacement,
    {
        self.replacement
    }

    /// Sets the code point that stands in for bytes that are no character.
    pub fn set_replacement_codepoint(&mut self, replacement: Codepoint)
        ensures
            final(self)@ == (BufferView { replacement, ..old(self)@ }),
    {
        self.replacement = replacement;
    }

    /// The entries, without their positions.
    pub fn glyph_infos(&self) -> (infos: Vec<GlyphInfo>)
        ensures
            infos@ == self@.infos(),
    {
        let mut infos: Vec<GlyphInfo> = Vec::new();
        let mut i: usize = 0;
        while i < self.items.len()
            invariant
                i <= self.items.len(),
                infos@ == self@.infos().take(i as int),
            decreases self.items.len() - i,
        {
            infos.push(self.items[i].0);
            assert(infos@ =~= self@.infos().take(i + 1));
            i = i + 1;
        }
        assert(self@.infos().take(i as int) =~= self@.infos());
        infos
    }

    /// The positions of the entries; all zero before shaping.
    pub fn glyph_positions(&self) -> (positions: Vec<GlyphPosition>)
        ensures
            positions@ == self@.positions(),
    {
        let mut positions: Vec<GlyphPosition> = Vec::new();
        let mut i: usize = 0;
        while i < self.items.len()
            invariant
                i <= self.items.len(),
                positions@ == self@.positions().take(i as int),
            decreases self.items.len() - i,
        {
            positions.push(self.items[i].1);
            assert(positions@ =~= self@.positions().take(i + 1));
            i = i + 1;
        }
        assert(self@.positions().take(i as int) =~= self@.positions());
        positions
    }
}

impl Default for Buffer {
    fn default() -> (buffer: Buffer)
        ensures
            buffer@ == BufferView::empty(),
    {
        Buffer::new()
    }
}

} // verus!
