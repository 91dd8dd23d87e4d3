//! The bit-flag set describing characteristics of annotations.
//!
//! Each named flag claims one fixed bit position in a single unsigned
//! integer; the namespace is append-only, so new flags must take unused
//! positions without disturbing existing ones. Combination is bitwise
//! union, and the encoded form is the integer bit pattern alone.

use vstd::prelude::*;

verus! {

/// One named semantic flag, with its fixed bit position.
#[derive(Debug, Clone, Copy, PartialEq, Eq, Structural, Hash)]
pub enum AnnotationFlag {
    /// Hide the annotation if the viewer does not recognize its kind.
    Invisible,
    /// Hide the annotation from view and disallow interaction.
    Hidden,
    /// Print the annotation. If not set, it is always hidden on print.
    Print,
    /// Do not zoom the annotation appearance when the document is zoomed.
    NoZoom,
    /// Do not rotate the annotation appearance when the document is rotated.
    NoRotate,
    /// Do not view the annotation on screen. It may still show on print.
    NoView,
    /// Do not allow interactions.
    ReadOnly,
    /// Do not allow the user to delete or reposition the annotation.
    Locked,
    /// Invert the interpretation of the no-view flag for certain events.
    ToggleNoView,
    /// Do not allow content changes.
    LockedContents,
}

impl AnnotationFlag {
    /// The bit position this flag has claimed, fixed for good.
    pub open spec fn position(self) -> u32 {
        match self {
            AnnotationFlag::Invisible => 0,
            AnnotationFlag::Hidden => 1,
            AnnotationFlag::Print => 2,
            AnnotationFlag::NoZoom => 3,
            AnnotationFlag::NoRotate => 4,
            AnnotationFlag::NoView => 5,
            AnnotationFlag::ReadOnly => 6,
            AnnotationFlag::Locked => 7,
            AnnotationFlag::ToggleNoView => 8,
            AnnotationFlag::LockedContents => 9,
        }
    }

    /// The bit position as a run-time value.
    pub fn bit_position(self) -> (position: u32)
        ensures
            position == self.position(),
            position <= 9,
    {
        match self {
            AnnotationFlag::Invisible => 0,
            AnnotationFlag::Hidden => 1,
            AnnotationFlag::Print => 2,
            AnnotationFlag::NoZoom => 3,
            AnnotationFlag::NoRotate => 4,
            AnnotationFlag::NoView => 5,
            AnnotationFlag::ReadOnly => 6,
            AnnotationFlag::Locked => 7,
            AnnotationFlag::ToggleNoView => 8,
            AnnotationFlag::LockedContents => 9,
        }
    }
}

/// A set of named flags, kept as one unsigned bit pattern. Its view is
/// that pattern.
#[derive(Debug, Clone, Copy, PartialEq, Eq, Structural, Hash)]
pub struct AnnotationFlags {
    bits: u32,
}

impl View for AnnotationFlags {
    type V = u32;

    closed spec fn view(&self) -> u32 {
        self.bits
    }
}

impl AnnotationFlags {
    /// The empty set: no flag set, every behavior at its default.
    /// Law: the empty set encodes as zero.
    pub fn empty() -> (flags: AnnotationFlags)
        ensures
            flags@ == 0u32,
    {
        AnnotationFlags { bits: 0 }
    }

    /// The set holding one flag.
    /// Law: a single flag encodes as the power of two of its declared bit
    /// position.
    pub fn single(flag: AnnotationFlag) -> (flags: AnnotationFlags)
        ensures
            flags@ == 1u32 << flag.position(),
    {
        let position = flag.bit_position();
        AnnotationFlags { bits: 1u32 << position }
    }

    /// The bitwise union of two sets.
    /// Law: the bits of a union are the bitwise or of the bits.
    pub fn union(self, other: AnnotationFlags) -> (flags: AnnotationFlags)
        ensures
            flags@ == self@ | other@,
    {
        AnnotationFlags { bits: self.bits | other.bits }
    }

    /// The set extended by one flag.
    pub fn with(self, flag: AnnotationFlag) -> (flags: AnnotationFlags)
        ensures
            flags@ == self@ | (1u32 << flag.position()),
    {
        self.union(AnnotationFlags::single(flag))
    }

    /// Whether the set holds a flag.
    pub fn contains(self, flag: AnnotationFlag) -> (held: bool)
        ensures
            held == (self@ & (1u32 << flag.position()) != 0),
    {
        let position = flag.bit_position();
        self.bits & (1u32 << position) != 0
    }

    /// The integer bit pattern, which is what an encoder writes.
    pub fn bits(self) -> (bits: u32)
        ensures
            bits == self@,
    {
        self.bits
    }
}

/// Law: the union is the set-theoretic one — it holds exactly the flags
/// of either operand.
pub proof fn lemma_union_holds_either(a: AnnotationFlags, b: AnnotationFlags, f: AnnotationFlag)
    ensures
        (((a@ | b@) & (1u32 << f.position())) != 0) == ((a@ & (1u32 << f.position()) != 0) || (
        b@ & (1u32 << f.position()) != 0)),
{
    let x = a@;
    let y = b@;
    let bit = 1u32 << f.position();
    assert((((x | y) & bit) != 0) == ((x & bit != 0) || (y & bit != 0))) by (bit_vector);
}

/// Law: distinct flags claim distinct bit positions, so one flag never
/// implies another.
pub proof fn lemma_flag_positions_injective(a: AnnotationFlag, b: AnnotationFlag)
    ensures
        a.position() == b.position() ==> a == b,
{
}

} // verus!
