//! The direction in which a run of text flows.

use vstd::prelude::*;

verus! {

/// The number that stands for no direction.
pub const DIRECTION_INVALID: u32 = 0;

/// The number that stands for left to right.
pub const DIRECTION_LTR: u32 = 4;

/// The number that stands for right to left.
pub const DIRECTION_RTL: u32 = 5;

/// The number that stands for top to bottom.
pub const DIRECTION_TTB: u32 = 6;

/// The number that stands for bottom to top.
pub const DIRECTION_BTT: u32 = 7;

/// The direction of a run of text; `Invalid` where none is set.
#[derive(Debug, Clone, Copy, PartialEq, Eq, Structural)]
pub enum Direction {
    /// No direction is set.
    Invalid,
    /// Left to right.
    LTR,
    /// Right to left.
    RTL,
    /// Top to bottom.
    TTB,
    /// Bottom to top.
    BTT,
}

impl Direction {
    /// The number that the shaping engine uses for the direction.
    pub open spec fn spec_code(self) -> u32 {
        match self {
            Direction::Invalid => DIRECTION_INVALID,
            Direction::LTR => DIRECTION_LTR,
            Direction::RTL => DIRECTION_RTL,
            Direction::TTB => DIRECTION_TTB,
            Direction::BTT => DIRECTION_BTT,
        }
    }

    /// The direction that a number of the shaping engine stands for;
    /// `Invalid` for a number that stands for none.
    pub open spec fn spec_from_code(code: u32) -> Direction {
        if code == DIRECTION_LTR {
            Direction::LTR
        } else if code == DIRECTION_RTL {
            Direction::RTL
        } else if code == DIRECTION_TTB {
            Direction::TTB
        } else if code == DIRECTION_BTT {
            Direction::BTT
        } else {
            Direction::Invalid
        }
    }

    /// The number that the shaping engine uses for the direction.
    #[verifier::when_used_as_spec(spec_code)]
    pub fn code(self) -> (code: u32)
        ensures
            code == self.spec_code(),
    {
        match self {
            Direction::Invalid => DIRECTION_INVALID,
            Direction::LTR => DIRECTION_LTR,
            Direction::RTL => DIRECTION_RTL,
            Direction::TTB => DIRECTION_TTB,
            Direction::BTT => DIRECTION_BTT,
        }
    }

    /// The direction that a number of the shaping engine stands for;
    /// `Invalid` for a number that stands for none.
    #[verifier::when_used_as_spec(spec_from_code)]
    pub fn from_code(code: u32) -> (direction: Direction)
        ensures
            direction == Direction::spec_from_code(code),
    {
        if code == DIRECTION_LTR {
            Direction::LTR
        } else if code == DIRECTION_RTL {
            Direction::RTL
        } else if code == DIRECTION_TTB {
            Direction::TTB
        } else if code == DIRECTION_BTT {
            Direction::BTT
        } else {
            Direction::Invalid
        }
    }

    /// Whether a direction is set.
    pub fn is_valid(self) -> (valid: bool)
        ensures
            valid == (self != Direction::Invalid),
    {
        !matches!(self, Direction::Invalid)
    }

    /// Whether text in this direction runs along a horizontal line.
    pub fn is_horizontal(self) -> (horizontal: bool)
        ensures
            horizontal == (self == Direction::LTR || self == Direction::RTL),
    {
        matches!(self, Direction::LTR | Direction::RTL)
    }
}

impl From<u32> for Direction {
    fn from(code: u32) -> (direction: Direction) {
        Direction::from_code(code)
    }
}

impl vstd::std_specs::convert::FromSpecImpl<u32> for Direction {
    open spec fn obeys_from_spec() -> bool {
        true
    }

    open spec fn from_spec(code: u32) -> Direction {
        Direction::spec_from_code(code)
    }
}

impl From<Direction> for u32 {
    fn from(direction: Direction) -> (code: u32) {
        direction.code()
    }
}

impl vstd::std_specs::convert::FromSpecImpl<Direction> for u32 {
    open spec fn obeys_from_spec() -> bool {
        true
    }

    open spec fn from_spec(direction: Direction) -> u32 {
        direction.spec_code()
    }
}

} // verus!
