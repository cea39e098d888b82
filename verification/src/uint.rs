//! Unsigned integers narrower than a byte, and the 24-bit word of the
//! magnetic data registers.
//!
//! A value of one of these types always fits its width: it can only be built
//! from a number that is in range, so a register field that takes one needs no
//! policy for oversized values.

use vstd::prelude::*;

verus! {

/// An unsigned integer of one bit.
#[derive(Clone, Copy, Debug, PartialEq, Eq, Structural)]
pub struct U1 {
    value: u8,
}

impl View for U1 {
    type V = u8;

    closed spec fn view(&self) -> u8 {
        self.value
    }
}

impl U1 {
    /// Whether the number held fits in one bit. It holds of every value that
    /// a program has in hand.
    #[verifier::type_invariant]
    pub closed spec fn in_range(&self) -> bool {
        self.value <= 1
    }

    /// The narrow integer that holds `value`.
    pub closed spec fn spec_new(value: u8) -> Self
        recommends
            value <= 1,
    {
        U1 { value }
    }

    /// Wraps `value`, which must fit in one bit.
    #[verifier::when_used_as_spec(spec_new)]
    pub fn new(value: u8) -> (r: Self)
        requires
            value <= 1,
        ensures
            r == Self::spec_new(value),
            r@ == value,
    {
        U1 { value }
    }

    /// A narrow integer holds the number that it was made from, and that
    /// number is all there is to it.
    pub proof fn lemma_new_view(value: u8, other: Self)
        requires
            value <= 1,
        ensures
            Self::new(value)@ == value,
            Self::new(other@) == other,
    {
    }

    /// Wraps `value` if it fits in one bit.
    pub fn try_new(value: u8) -> (r: Option<Self>)
        ensures
            value <= 1 ==> r == Some(Self::new(value)),
            value > 1 ==> r is None,
    {
        if value <= 1 {
            Some(U1 { value })
        } else {
            None
        }
    }

    /// The number held, which fits in one bit.
    pub fn value(self) -> (r: u8)
        ensures
            r == self@,
            r <= 1,
    {
        proof {
            use_type_invariant(&self);
        }
        self.value
    }
}

/// An unsigned integer of 2 bits.
#[derive(Clone, Copy, Debug, PartialEq, Eq, Structural)]
pub struct U2 {
    value: u8,
}

impl View for U2 {
    type V = u8;

    closed spec fn view(&self) -> u8 {
        self.value
    }
}

impl U2 {
    /// Whether the number held fits in 2 bits. It holds of every value that
    /// a program has in hand.
    #[verifier::type_invariant]
    pub closed spec fn in_range(&self) -> bool {
        self.value <= 0x03
    }

    /// The narrow integer that holds `value`.
    pub closed spec fn spec_new(value: u8) -> Self
        recommends
            value <= 0x03,
    {
        U2 { value }
    }

    /// Wraps `value`, which must fit in 2 bits.
    #[verifier::when_used_as_spec(spec_new)]
    pub fn new(value: u8) -> (r: Self)
        requires
            value <= 0x03,
        ensures
            r == Self::spec_new(value),
            r@ == value,
    {
        U2 { value }
    }

    /// A narrow integer holds the number that it was made from, and that
    /// number is all there is to it.
    pub proof fn lemma_new_view(value: u8, other: Self)
        requires
            value <= 0x03,
        ensures
            Self::new(value)@ == value,
            Self::new(other@) == other,
    {
    }

    /// Wraps `value` if it fits in 2 bits.
    pub fn try_new(value: u8) -> (r: Option<Self>)
        ensures
            value <= 0x03 ==> r == Some(Self::new(value)),
            value > 0x03 ==> r is None,
    {
        if value <= 0x03 {
            Some(U2 { value })
        } else {
            None
        }
    }

    /// The number held, which fits in 2 bits.
    pub fn value(self) -> (r: u8)
        ensures
            r == self@,
            r <= 0x03,
    {
        proof {
            use_type_invariant(&self);
        }
        self.value
    }
}

/// An unsigned integer of 3 bits.
#[derive(Clone, Copy, Debug, PartialEq, Eq, Structural)]
pub struct U3 {
    value: u8,
}

impl View for U3 {
    type V = u8;

    closed spec fn view(&self) -> u8 {
        self.value
    }
}

impl U3 {
    /// Whether the number held fits in 3 bits. It holds of every value that
    /// a program has in hand.
    #[verifier::type_invariant]
    pub closed spec fn in_range(&self) -> bool {
        self.value <= 0x07
    }

    /// The narrow integer that holds `value`.
    pub closed spec fn spec_new(value: u8) -> Self
        recommends
            value <= 0x07,
    {
        U3 { value }
    }

    /// Wraps `value`, which must fit in 3 bits.
    #[verifier::when_used_as_spec(spec_new)]
    pub fn new(value: u8) -> (r: Self)
        requires
            value <= 0x07,
        ensures
            r == Self::spec_new(value),
            r@ == value,
    {
        U3 { value }
    }

    /// A narrow integer holds the number that it was made from, and that
    /// number is all there is to it.
    pub proof fn lemma_new_view(value: u8, other: Self)
        requires
            value <= 0x07,
        ensures
            Self::new(value)@ == value,
            Self::new(other@) == other,
    {
    }

    /// Wraps `value` if it fits in 3 bits.
    pub fn try_new(value: u8) -> (r: Option<Self>)
        ensures
            value <= 0x07 ==> r == Some(Self::new(value)),
            value > 0x07 ==> r is None,
    {
        if value <= 0x07 {
            Some(U3 { value })
        } else {
            None
        }
    }

    /// The number held, which fits in 3 bits.
    pub fn value(self) -> (r: u8)
        ensures
            r == self@,
            r <= 0x07,
    {
        proof {
            use_type_invariant(&self);
        }
        self.value
    }
}

/// An unsigned integer of 4 bits.
#[derive(Clone, Copy, Debug, PartialEq, Eq, Structural)]
pub struct U4 {
    value: u8,
}

impl View for U4 {
    type V = u8;

    closed spec fn view(&self) -> u8 {
        self.value
    }
}

impl U4 {
    /// Whether the number held fits in 4 bits. It holds of every value that
    /// a program has in hand.
    #[verifier::type_invariant]
    pub closed spec fn in_range(&self) -> bool {
        self.value <= 0x0F
    }

    /// The narrow integer that holds `value`.
    pub closed spec fn spec_new(value: u8) -> Self
        recommends
            value <= 0x0F,
    {
        U4 { value }
    }

    /// Wraps `value`, which must fit in 4 bits.
    #[verifier::when_used_as_spec(spec_new)]
    pub fn new(value: u8) -> (r: Self)
        requires
            value <= 0x0F,
        ensures
            r == Self::spec_new(value),
            r@ == value,
    {
        U4 { value }
    }

    /// A narrow integer holds the number that it was made from, and that
    /// number is all there is to it.
    pub proof fn lemma_new_view(value: u8, other: Self)
        requires
            value <= 0x0F,
        ensures
            Self::new(value)@ == value,
            Self::new(other@) == other,
    {
    }

    /// Wraps `value` if it fits in 4 bits.
    pub fn try_new(value: u8) -> (r: Option<Self>)
        ensures
            value <= 0x0F ==> r == Some(Self::new(value)),
            value > 0x0F ==> r is None,
    {
        if value <= 0x0F {
            Some(U4 { value })
        } else {
            None
        }
    }

    /// The number held, which fits in 4 bits.
    pub fn value(self) -> (r: u8)
        ensures
            r == self@,
            r <= 0x0F,
    {
        proof {
            use_type_invariant(&self);
        }
        self.value
    }
}

/// An unsigned integer of 5 bits.
#[derive(Clone, Copy, Debug, PartialEq, Eq, Structural)]
pub struct U5 {
    value: u8,
}

impl View for U5 {
    type V = u8;

    closed spec fn view(&self) -> u8 {
        self.value
    }
}

impl U5 {
    /// Whether the number held fits in 5 bits. It holds of every value that
    /// a program has in hand.
    #[verifier::type_invariant]
    pub closed spec fn in_range(&self) -> bool {
        self.value <= 0x1F
    }

    /// The narrow integer that holds `value`.
    pub closed spec fn spec_new(value: u8) -> Self
        recommends
            value <= 0x1F,
    {
        U5 { value }
    }

    /// Wraps `value`, which must fit in 5 bits.
    #[verifier::when_used_as_spec(spec_new)]
    pub fn new(value: u8) -> (r: Self)
        requires
            value <= 0x1F,
        ensures
            r == Self::spec_new(value),
            r@ == value,
    {
        U5 { value }
    }

    /// A narrow integer holds the number that it was made from, and that
    /// number is all there is to it.
    pub proof fn lemma_new_view(value: u8, other: Self)
        requires
            value <= 0x1F,
        ensures
            Self::new(value)@ == value,
            Self::new(other@) == other,
    {
    }

    /// Wraps `value` if it fits in 5 bits.
    pub fn try_new(value: u8) -> (r: Option<Self>)
        ensures
            value <= 0x1F ==> r == Some(Self::new(value)),
            value > 0x1F ==> r is None,
    {
        if value <= 0x1F {
            Some(U5 { value })
        } else {
            None
        }
    }

    /// The number held, which fits in 5 bits.
    pub fn value(self) -> (r: u8)
        ensures
            r == self@,
            r <= 0x1F,
    {
        proof {
            use_type_invariant(&self);
        }
        self.value
    }
}

/// The number that three bytes spell, least significant byte first.
pub open spec fn le24(b0: u8, b1: u8, b2: u8) -> int {
    b0 + 0x100 * b1 + 0x1_0000 * b2
}

/// An unsigned integer of 24 bits.
#[derive(Clone, Copy, Debug, PartialEq, Eq, Structural)]
pub struct U24 {
    value: u32,
}

impl View for U24 {
    type V = u32;

    closed spec fn view(&self) -> u32 {
        self.value
    }
}

impl U24 {
    /// Whether the number held fits in 24 bits. It holds of every value that
    /// a program has in hand.
    #[verifier::type_invariant]
    pub closed spec fn in_range(&self) -> bool {
        self.value <= 0xFF_FFFF
    }

    /// The word that holds `value`.
    pub closed spec fn spec_new(value: u32) -> Self
        recommends
            value <= 0xFF_FFFF,
    {
        U24 { value }
    }

    /// Wraps `value`, which must fit in 24 bits.
    #[verifier::when_used_as_spec(spec_new)]
    pub fn new(value: u32) -> (r: Self)
        requires
            value <= 0xFF_FFFF,
        ensures
            r == Self::spec_new(value),
            r@ == value,
    {
        U24 { value }
    }

    /// A word holds the number that it was made from, and that number is all
    /// there is to it.
    pub proof fn lemma_new_view(value: u32, other: Self)
        requires
            value <= 0xFF_FFFF,
        ensures
            Self::new(value)@ == value,
            Self::new(other@) == other,
    {
    }

    /// Wraps `value` if it fits in 24 bits.
    pub fn try_new(value: u32) -> (r: Option<Self>)
        ensures
            value <= 0xFF_FFFF ==> r == Some(Self::new(value)),
            value > 0xFF_FFFF ==> r is None,
    {
        if value <= 0xFF_FFFF {
            Some(U24 { value })
        } else {
            None
        }
    }

    /// The number held, which fits in 24 bits.
    pub fn value(self) -> (r: u32)
        ensures
            r == self@,
            r <= 0xFF_FFFF,
    {
        proof {
            use_type_invariant(&self);
        }
        self.value
    }

    /// Assembles three bytes, least significant first, into one word.
    pub fn from_le_bytes(bytes: [u8; 3]) -> (r: Self)
        ensures
            r@ == le24(bytes[0], bytes[1], bytes[2]),
    {
        let b0: u8 = bytes[0];
        let b1: u8 = bytes[1];
        let b2: u8 = bytes[2];
        let value: u32 = (b0 as u32) | ((b1 as u32) << 8) | ((b2 as u32) << 16);
        assert(value == b0 + 0x100 * b1 + 0x1_0000 * b2 && value <= 0xFF_FFFF) by (bit_vector)
            requires
                value == (b0 as u32) | ((b1 as u32) << 8) | ((b2 as u32) << 16),
        ;
        U24 { value }
    }
}

} // verus!
