//! Font style flags and their wire encoding: one packed byte, each flag
//! contributing its own bit. The bit assignments are disjoint, no flag
//! implies another, and the empty set packs to zero.
use vstd::prelude::*;

verus! {

/// A set of independently combinable font style flags.
#[derive(Clone, Copy, PartialEq, Eq, Structural, Debug)]
pub struct FontFlags {
    pub bold: bool,
    pub italic: bool,
    pub underline: bool,
    pub strikeout: bool,
}

impl FontFlags {
    /// The packed byte: bold is bit 0, italic bit 1, underline bit 2,
    /// strikeout bit 3.
    pub open spec fn bits(self) -> u8 {
        ((if self.bold {
            1int
        } else {
            0int
        }) + (if self.italic {
            2int
        } else {
            0int
        }) + (if self.underline {
            4int
        } else {
            0int
        }) + (if self.strikeout {
            8int
        } else {
            0int
        })) as u8
    }

    /// The set of flags present in both operands is empty.
    pub open spec fn disjoint(self, other: FontFlags) -> bool {
        &&& !(self.bold && other.bold)
        &&& !(self.italic && other.italic)
        &&& !(self.underline && other.underline)
        &&& !(self.strikeout && other.strikeout)
    }

    /// The flag-wise union of two sets.
    pub open spec fn union_spec(self, other: FontFlags) -> FontFlags {
        FontFlags {
            bold: self.bold || other.bold,
            italic: self.italic || other.italic,
            underline: self.underline || other.underline,
            strikeout: self.strikeout || other.strikeout,
        }
    }

    /// No flag set.
    pub fn empty() -> (r: FontFlags)
        ensures
            r == (FontFlags { bold: false, italic: false, underline: false, strikeout: false }),
    {
        FontFlags { bold: false, italic: false, underline: false, strikeout: false }
    }

    /// Only the bold flag.
    pub fn bold_only() -> (r: FontFlags)
        ensures
            r == (FontFlags { bold: true, italic: false, underline: false, strikeout: false }),
    {
        FontFlags { bold: true, italic: false, underline: false, strikeout: false }
    }

    /// Only the italic flag.
    pub fn italic_only() -> (r: FontFlags)
        ensures
            r == (FontFlags { bold: false, italic: true, underline: false, strikeout: false }),
    {
        FontFlags { bold: false, italic: true, underline: false, strikeout: false }
    }

    /// Both sets' flags combined.
    pub fn union(self, other: FontFlags) -> (r: FontFlags)
        ensures
            r == self.union_spec(other),
    {
        FontFlags {
            bold: self.bold || other.bold,
            italic: self.italic || other.italic,
            underline: self.underline || other.underline,
            strikeout: self.strikeout || other.strikeout,
        }
    }
}

/// Packs a flag set into its wire byte.
pub fn encode_flags(f: FontFlags) -> (r: u8)
    ensures
        r == f.bits(),
{
    (if f.bold {
        1u8
    } else {
        0u8
    }) + (if f.italic {
        2u8
    } else {
        0u8
    }) + (if f.underline {
        4u8
    } else {
        0u8
    }) + (if f.strikeout {
        8u8
    } else {
        0u8
    })
}

/// The empty flag set packs to zero.
pub proof fn lemma_flags_empty()
    ensures
        (FontFlags { bold: false, italic: false, underline: false, strikeout: false }).bits() == 0,
{
}

/// Packing a union of disjoint flag sets is the bitwise or of the two
/// packings: the encoding is a pure or of assigned bit values, so flags
/// combine without interfering.
pub proof fn lemma_flags_union_disjoint(a: FontFlags, b: FontFlags)
    requires
        a.disjoint(b),
    ensures
        a.union_spec(b).bits() == a.bits() | b.bits(),
{
    let p1: u8 = if a.bold {
        1
    } else {
        0
    };
    let p2: u8 = if a.italic {
        2
    } else {
        0
    };
    let p3: u8 = if a.underline {
        4
    } else {
        0
    };
    let p4: u8 = if a.strikeout {
        8
    } else {
        0
    };
    let q1: u8 = if b.bold {
        1
    } else {
        0
    };
    let q2: u8 = if b.italic {
        2
    } else {
        0
    };
    let q3: u8 = if b.underline {
        4
    } else {
        0
    };
    let q4: u8 = if b.strikeout {
        8
    } else {
        0
    };
    assert(a.bits() == (p1 + p2 + p3 + p4) as u8);
    assert(b.bits() == (q1 + q2 + q3 + q4) as u8);
    assert(a.union_spec(b).bits() == ((p1 + q1) + (p2 + q2) + (p3 + q3) + (p4 + q4)) as u8);
    assert(((p1 + q1) + (p2 + q2) + (p3 + q3) + (p4 + q4)) as u8 == ((p1 + p2 + p3 + p4) as u8) | (
    (q1 + q2 + q3 + q4) as u8)) by (bit_vector)
        requires
            p1 == 0 || p1 == 1,
            p2 == 0 || p2 == 2,
            p3 == 0 || p3 == 4,
            p4 == 0 || p4 == 8,
            q1 == 0 || q1 == 1,
            q2 == 0 || q2 == 2,
            q3 == 0 || q3 == 4,
            q4 == 0 || q4 == 8,
            p1 == 0 || q1 == 0,
            p2 == 0 || q2 == 0,
            p3 == 0 || q3 == 0,
            p4 == 0 || q4 == 0,
    ;
}

} // verus!
