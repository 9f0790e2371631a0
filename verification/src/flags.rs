//! The flags that steer how a buffer is shaped.

use vstd::prelude::*;

verus! {

/// No flag.
pub const FLAG_DEFAULT: u32 = 0x00;

/// The buffer holds the beginning of a text.
pub const FLAG_BOT: u32 = 0x01;

/// The buffer holds the end of a text.
pub const FLAG_EOT: u32 = 0x02;

/// Characters that are ignored by default keep their glyphs.
pub const FLAG_PRESERVE_DEFAULT_IGNORABLES: u32 = 0x04;

/// Characters that are ignored by default are taken out.
pub const FLAG_REMOVE_DEFAULT_IGNORABLES: u32 = 0x08;

/// No dotted circle is put in where a mark has no base.
pub const FLAG_DO_NOT_INSERT_DOTTED_CIRCLE: u32 = 0x10;

/// All flags together.
pub const FLAG_ALL: u32 = 0x1F;

/// A set of buffer flags, held as the bits of one number.
#[derive(Debug, Clone, Copy, PartialEq, Eq, Structural)]
pub struct BufferFlags {
    bits: u32,
}

impl BufferFlags {
    #[verifier::type_invariant]
    spec fn known_bits(self) -> bool {
        self.bits <= FLAG_ALL
    }

    /// The bits of the set.
    pub closed spec fn spec_bits(self) -> u32 {
        self.bits
    }

    /// The bits of the set.
    #[verifier::when_used_as_spec(spec_bits)]
    pub fn bits(self) -> (bits: u32)
        ensures
            bits == self.spec_bits(),
            bits <= FLAG_ALL,
    {
        proof {
            use_type_invariant(self);
        }
        self.bits
    }

    /// The set with no flag.
    pub fn empty() -> (flags: BufferFlags)
        ensures
            flags.bits() == FLAG_DEFAULT,
    {
        BufferFlags { bits: FLAG_DEFAULT }
    }

    /// The set with every flag.
    pub fn all() -> (flags: BufferFlags)
        ensures
            flags.bits() == FLAG_ALL,
    {
        BufferFlags { bits: FLAG_ALL }
    }

    /// The set with these bits, where each of them is a flag.
    pub fn from_bits(bits: u32) -> (flags: Option<BufferFlags>)
        ensures
            bits <= FLAG_ALL ==> flags is Some && flags.unwrap().bits() == bits,
            bits > FLAG_ALL ==> flags is None,
    {
        if bits <= FLAG_ALL {
            Some(BufferFlags { bits })
        } else {
            None
        }
    }

    /// The set with those of these bits that are flags.
    pub fn from_bits_truncate(bits: u32) -> (flags: BufferFlags)
        ensures
            flags.bits() == bits & FLAG_ALL,
    {
        assert(bits & 0x1F <= 0x1F) by (bit_vector);
        BufferFlags { bits: bits & FLAG_ALL }
    }

    /// Whether the set holds no flag.
    pub fn is_empty(self) -> (empty: bool)
        ensures
            empty == (self.bits() == 0),
    {
        self.bits == 0
    }

    /// Whether every flag of `other` is in the set.
    pub fn contains(self, other: BufferFlags) -> (inside: bool)
        ensures
            inside == (self.bits() & other.bits() == other.bits()),
    {
        self.bits & other.bits == other.bits
    }

    /// The flags that are in either set.
    pub fn union(self, other: BufferFlags) -> (flags: BufferFlags)
        ensures
            flags.bits() == self.bits() | other.bits(),
    {
        proof {
            use_type_invariant(self);
            use_type_invariant(other);
        }
        let a = self.bits;
        let b = other.bits;
        assert(a <= 0x1F && b <= 0x1F ==> (a | b) <= 0x1F) by (bit_vector);
        BufferFlags { bits: a | b }
    }

    /// The flags that are in both sets.
    pub fn intersection(self, other: BufferFlags) -> (flags: BufferFlags)
        ensures
            flags.bits() == self.bits() & other.bits(),
    {
        proof {
            use_type_invariant(self);
        }
        let a = self.bits;
        let b = other.bits;
        assert(a <= 0x1F ==> (a & b) <= 0x1F) by (bit_vector);
        BufferFlags { bits: a & b }
    }

    /// Puts the flags of `other` into the set.
    pub fn insert(&mut self, other: BufferFlags)
        ensures
            final(self).bits() == old(self).bits() | other.bits(),
    {
        *self = self.union(other);
    }

    /// Takes the flags of `other` out of the set.
    pub fn remove(&mut self, other: BufferFlags)
        ensures
            final(self).bits() == old(self).bits() & !other.bits(),
    {
        proof {
            use_type_invariant(*self);
        }
        let a = self.bits;
        let b = other.bits;
        assert(a <= 0x1F ==> (a & !b) <= 0x1F) by (bit_vector);
        *self = BufferFlags { bits: a & !b };
    }
}

impl Default for BufferFlags {
    fn default() -> (flags: BufferFlags)
        ensures
            flags.bits() == FLAG_DEFAULT,
    {
        BufferFlags { bits: FLAG_DEFAULT }
    }
}

} // verus!
