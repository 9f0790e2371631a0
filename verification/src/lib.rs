//! Value types and state rules of a text-shaping interface: tags, features,
//! buffers, faces and fonts, each with a verified contract.

pub mod blob;
pub mod buffer;
pub mod direction;
pub mod errors;
pub mod face;
pub mod feature;
pub mod flags;
pub mod font;
pub mod font_extents;
pub mod glyph;
pub mod grammar;
pub mod grammar_laws;
pub mod language;
pub mod reorder;
pub mod script;
pub mod tag;
pub mod text;

pub use blob::Blob;
pub use buffer::{Buffer, BufferView, ContentKind};
pub use direction::Direction;
pub use errors::Error;
pub use face::{Face, FaceMut};
pub use feature::Feature;
pub use flags::BufferFlags;
pub use font::{Font, FontMut};
pub use font_extents::FontExtents;
pub use glyph::{Codepoint, GlyphInfo, GlyphPosition};
pub use language::Language;
pub use tag::{hb_tag, Tag};
