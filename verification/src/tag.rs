//! Four-byte tags that name tables, scripts, languages and features.

use crate::errors::Error;
use vstd::prelude::*;
use vstd::string::*;

verus! {

/// The 32-bit value whose bytes, most significant first, are `c1`, `c2`,
/// `c3` and `c4`.
pub open spec fn tag_value(c1: u8, c2: u8, c3: u8, c4: u8) -> u32 {
    (c1 as u32) << 24 | (c2 as u32) << 16 | (c3 as u32) << 8 | (c4 as u32)
}

/// The four bytes of a 32-bit tag value, most significant first.
pub open spec fn tag_bytes(tag: u32) -> (u8, u8, u8, u8) {
    ((tag >> 24) as u8, ((tag >> 16) & 0xFF) as u8, ((tag >> 8) & 0xFF) as u8, (tag & 0xFF) as u8)
}

/// How many leading bytes of `name` a tag takes: at most four, and none from
/// the first zero byte on.
pub open spec fn name_len(name: Seq<u8>) -> nat {
    if name.len() == 0 || name[0] == 0 {
        0
    } else if name.len() == 1 || name[1] == 0 {
        1
    } else if name.len() == 2 || name[2] == 0 {
        2
    } else if name.len() == 3 || name[3] == 0 {
        3
    } else {
        4
    }
}

/// The byte that stands at place `i` of the tag named `name`: the byte of the
/// name, or a space where the name has ended.
pub open spec fn name_byte(name: Seq<u8>, i: int) -> u8 {
    if 0 <= i < name_len(name) {
        name[i]
    } else {
        0x20
    }
}

/// The tag value that a name stands for. An empty name, or one that starts
/// with a zero byte, stands for no tag and gives 0.
pub open spec fn tag_from_name(name: Seq<u8>) -> u32 {
    if name_len(name) == 0 {
        0
    } else {
        tag_value(name_byte(name, 0), name_byte(name, 1), name_byte(name, 2), name_byte(name, 3))
    }
}

/// The four bytes of a tag value as characters, each byte as the character
/// with that number.
pub open spec fn tag_chars(tag: u32) -> Seq<char> {
    let b = tag_bytes(tag);
    seq![b.0 as char, b.1 as char, b.2 as char, b.3 as char]
}

/// Bytes as characters, each byte as the character with that number.
pub open spec fn bytes_as_chars(bytes: Seq<u8>) -> Seq<char> {
    Seq::new(bytes.len(), |i: int| bytes[i] as char)
}

/// The bytes of a tag value without the spaces at its end: the shortest
/// name that stands for the tag, where it has one.
pub open spec fn tag_name(tag: u32) -> Seq<u8> {
    let b = tag_bytes(tag);
    if b.3 != 0x20 {
        seq![b.0, b.1, b.2, b.3]
    } else if b.2 != 0x20 {
        seq![b.0, b.1, b.2]
    } else if b.1 != 0x20 {
        seq![b.0, b.1]
    } else if b.0 != 0x20 {
        seq![b.0]
    } else {
        Seq::empty()
    }
}

/// `String::push`: puts one character at the end of the string and leaves
/// the rest as it was.
#[verifier::external_body]
pub(crate) fn push_char(s: &mut String, c: char)
    ensures
        final(s)@ == old(s)@.push(c),
{
    s.push(c);
}

/// Packs four bytes into one 32-bit tag value, most significant byte first.
pub fn hb_tag(c1: u8, c2: u8, c3: u8, c4: u8) -> (tag: u32)
    ensures
        tag == tag_value(c1, c2, c3, c4),
        tag as int == c1 as int * 0x100_0000 + c2 as int * 0x1_0000 + c3 as int * 0x100
            + c4 as int,
{
    let tag: u32 = (c1 as u32) << 24 | (c2 as u32) << 16 | (c3 as u32) << 8 | (c4 as u32);
    assert(((c1 as u32) << 24 | (c2 as u32) << 16 | (c3 as u32) << 8 | (c4 as u32)) as int
        == c1 as int * 0x100_0000 + c2 as int * 0x1_0000 + c3 as int * 0x100 + c4 as int)
        by (bit_vector);
    tag
}

/// A four-byte identifier, held as one 32-bit value with the first byte in
/// the most significant place.
#[derive(Debug, Clone, Copy, PartialEq, Eq, Structural)]
pub struct Tag(pub u32);

impl Tag {
    /// The unset tag: all four bytes zero.
    pub fn none() -> (tag: Tag)
        ensures
            tag == Tag(0),
    {
        Tag(0)
    }

    /// The largest tag.
    pub fn max() -> (tag: Tag)
        ensures
            tag == Tag(0xFFFF_FFFF),
    {
        Tag(0xFFFF_FFFF)
    }

    /// The largest tag that is not negative when read as a signed number.
    pub fn max_signed() -> (tag: Tag)
        ensures
            tag == Tag(0x7FFF_FFFF),
    {
        Tag(0x7FFF_FFFF)
    }

    /// The tag made of the four bytes `a`, `b`, `c`, `d`.
    pub fn pack(a: u8, b: u8, c: u8, d: u8) -> (tag: Tag)
        ensures
            tag.0 == tag_value(a, b, c, d),
    {
        Tag(hb_tag(a, b, c, d))
    }

    /// The tag that the bytes of a name stand for: up to four bytes, cut at
    /// the first zero byte and filled up with spaces. An empty name, or one
    /// that starts with a zero byte, names no tag.
    pub fn from_bytes(name: &[u8]) -> (tag: Option<Tag>)
        ensures
            tag == if name_len(name@) == 0 {
                None
            } else {
                Some(Tag(tag_from_name(name@)))
            },
            tag matches Some(t) ==> t.0 != 0,
    {
        let n = name.len();
        if n == 0 || name[0] == 0 {
            return None;
        }
        let a = name[0];
        let mut b: u8 = 0x20;
        let mut c: u8 = 0x20;
        let mut d: u8 = 0x20;
        if n > 1 && name[1] != 0 {
            b = name[1];
            if n > 2 && name[2] != 0 {
                c = name[2];
                if n > 3 && name[3] != 0 {
                    d = name[3];
                }
            }
        }
        proof {
            lemma_first_byte_nonzero(a, b, c, d);
        }
        Some(Tag::pack(a, b, c, d))
    }

    /// The tag that a name stands for, as `from_bytes` reads the bytes of
    /// the text. The unset tag has no name: a text that names no tag is
    /// handed back in the error.
    pub fn from_str(s: &str) -> (tag: Result<Tag, Error>)
        ensures
            name_len(s.spec_bytes()) != 0 ==> tag == Ok::<Tag, Error>(
                Tag(tag_from_name(s.spec_bytes())),
            ),
            name_len(s.spec_bytes()) == 0 ==> (tag matches Err(Error::InvalidTag(t)) && t@ == s@),
            tag matches Ok(t) ==> t.0 != 0,
    {
        match Tag::from_bytes(s.as_bytes()) {
            Some(tag) => Ok(tag),
            None => Err(Error::InvalidTag(s.to_owned())),
        }
    }

    /// The four bytes of the tag as text, each byte as the character with
    /// that number.
    pub fn to_string(&self) -> (text: String)
        ensures
            text@ == tag_chars(self.0),
    {
        let (a, b, c, d) = self.unpack();
        let mut text = String::new();
        push_char(&mut text, a as char);
        push_char(&mut text, b as char);
        push_char(&mut text, c as char);
        push_char(&mut text, d as char);
        assert(text@ =~= tag_chars(self.0));
        text
    }

    /// The four bytes of the tag, first byte first.
    pub fn unpack(self) -> (bytes: (u8, u8, u8, u8))
        ensures
            bytes == tag_bytes(self.0),
            tag_value(bytes.0, bytes.1, bytes.2, bytes.3) == self.0,
    {
        let tag = self.0;
        proof {
            lemma_pack_unpack(tag);
        }
        ((tag >> 24) as u8, ((tag >> 16) & 0xFF) as u8, ((tag >> 8) & 0xFF) as u8, (tag & 0xFF) as u8)
    }
}

/// Unpacking a packed tag gives back the four bytes it was packed from.
pub proof fn lemma_unpack_pack(a: u8, b: u8, c: u8, d: u8)
    ensures
        tag_bytes(tag_value(a, b, c, d)) == (a, b, c, d),
{
    let t = tag_value(a, b, c, d);
    assert((((a as u32) << 24 | (b as u32) << 16 | (c as u32) << 8 | (d as u32)) >> 24) as u8 == a)
        by (bit_vector);
    assert(((((a as u32) << 24 | (b as u32) << 16 | (c as u32) << 8 | (d as u32)) >> 16) & 0xFF) as u8
        == b) by (bit_vector);
    assert(((((a as u32) << 24 | (b as u32) << 16 | (c as u32) << 8 | (d as u32)) >> 8) & 0xFF) as u8
        == c) by (bit_vector);
    assert((((a as u32) << 24 | (b as u32) << 16 | (c as u32) << 8 | (d as u32)) & 0xFF) as u8 == d)
        by (bit_vector);
}

/// A tag whose first byte is not zero is not the unset tag.
pub proof fn lemma_first_byte_nonzero(a: u8, b: u8, c: u8, d: u8)
    requires
        a != 0,
    ensures
        tag_value(a, b, c, d) != 0,
{
    assert(a != 0 ==> ((a as u32) << 24 | (b as u32) << 16 | (c as u32) << 8 | (d as u32)) != 0)
        by (bit_vector);
}

/// A tag whose bytes, up to the spaces at its end, are not zero is the tag
/// that its name stands for.
pub proof fn lemma_name_of_tag(tag: u32)
    requires
        tag_name(tag).len() > 0,
        forall|i: int| 0 <= i < tag_name(tag).len() ==> tag_name(tag)[i] != 0,
    ensures
        tag_from_name(tag_name(tag)) == tag,
{
    let name = tag_name(tag);
    lemma_pack_unpack(tag);
    assert(name[0] != 0);
    if name.len() > 1 {
        assert(name[1] != 0);
    }
    if name.len() > 2 {
        assert(name[2] != 0);
    }
    if name.len() > 3 {
        assert(name[3] != 0);
    }
    assert(name_len(name) == name.len());
}

/// The name of the tag that a name without zero bytes and spaces stands
/// for is that name.
pub proof fn lemma_tag_of_name(name: Seq<u8>)
    requires
        1 <= name.len() <= 4,
        forall|i: int| 0 <= i < name.len() ==> name[i] != 0 && name[i] != 0x20,
    ensures
        tag_name(tag_from_name(name)) == name,
{
    assert(name[0] != 0 && name[0] != 0x20);
    if name.len() > 1 {
        assert(name[1] != 0 && name[1] != 0x20);
    }
    if name.len() > 2 {
        assert(name[2] != 0 && name[2] != 0x20);
    }
    if name.len() > 3 {
        assert(name[3] != 0 && name[3] != 0x20);
    }
    assert(name_len(name) == name.len());
    lemma_unpack_pack(
        name_byte(name, 0),
        name_byte(name, 1),
        name_byte(name, 2),
        name_byte(name, 3),
    );
    assert(tag_name(tag_from_name(name)) =~= name);
}

/// Packing the four bytes of a tag value gives back the value.
pub proof fn lemma_pack_unpack(tag: u32)
    ensures
        ({
            let b = tag_bytes(tag);
            tag_value(b.0, b.1, b.2, b.3) == tag
        }),
{
    assert((((tag >> 24) as u8) as u32) << 24 | ((((tag >> 16) & 0xFF) as u8) as u32) << 16 | ((((tag
        >> 8) & 0xFF) as u8) as u32) << 8 | (((tag & 0xFF) as u8) as u32) == tag) by (bit_vector);
}

impl std::str::FromStr for Tag {
    type Err = Error;

    fn from_str(s: &str) -> (tag: Result<Tag, Error>)
        ensures
            name_len(s.spec_bytes()) != 0 ==> tag == Ok::<Tag, Error>(
                Tag(tag_from_name(s.spec_bytes())),
            ),
            name_len(s.spec_bytes()) == 0 ==> (tag matches Err(Error::InvalidTag(t)) && t@ == s@),
    {
        Tag::from_str(s)
    }
}

impl From<u32> for Tag {
    fn from(tag: u32) -> (r: Tag) {
        Tag(tag)
    }
}

impl vstd::std_specs::convert::FromSpecImpl<u32> for Tag {
    open spec fn obeys_from_spec() -> bool {
        true
    }

    open spec fn from_spec(tag: u32) -> Tag {
        Tag(tag)
    }
}

impl From<Tag> for u32 {
    fn from(tag: Tag) -> (r: u32) {
        tag.0
    }
}

impl vstd::std_specs::convert::FromSpecImpl<Tag> for u32 {
    open spec fn obeys_from_spec() -> bool {
        true
    }

    open spec fn from_spec(tag: Tag) -> u32 {
        tag.0
    }
}

} // verus!
