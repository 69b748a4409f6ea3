//! Unsigned integers narrower than a machine word.
//!
//! Each type holds a value below a fixed power of two. The bound is a type
//! invariant, so executable code never holds a value outside the range, and
//! the constructors ask their callers for the bound.

use vstd::prelude::*;

verus! {

/// A 1-bit unsigned integer: one bit of an immediate.
#[derive(Clone, Copy, Debug, PartialEq, Eq)]
pub struct U1 {
    bits: u8,
}

impl View for U1 {
    type V = nat;

    closed spec fn view(&self) -> nat {
        self.bits as nat
    }
}

impl U1 {
    /// The largest value of the type.
    pub const MAX: u8 = 1;

    /// The range of the type.
    #[verifier::type_invariant]
    pub open spec fn wf(self) -> bool {
        self@ <= Self::MAX
    }

    /// The value of the type that is built from `value`.
    pub closed spec fn spec_new(value: u8) -> U1 {
        U1 { bits: value }
    }

    /// Builds the value `value`, which must be in range.
    #[verifier::when_used_as_spec(spec_new)]
    pub fn new(value: u8) -> (r: U1)
        requires
            value <= Self::MAX,
        ensures
            r == Self::spec_new(value),
            r@ == value,
    {
        U1 { bits: value }
    }

    /// The value as a `u8`.
    pub fn value(self) -> (r: u8)
        ensures
            r == self@,
            r <= Self::MAX,
    {
        proof {
            use_type_invariant(&self);
        }
        self.bits
    }
}

/// A 3-bit unsigned integer: the `funct3` selector.
#[derive(Clone, Copy, Debug, PartialEq, Eq)]
pub struct U3 {
    bits: u8,
}

impl View for U3 {
    type V = nat;

    closed spec fn view(&self) -> nat {
        self.bits as nat
    }
}

impl U3 {
    /// The largest value of the type.
    pub const MAX: u8 = 7;

    /// The range of the type.
    #[verifier::type_invariant]
    pub open spec fn wf(self) -> bool {
        self@ <= Self::MAX
    }

    /// The value of the type that is built from `value`.
    pub closed spec fn spec_new(value: u8) -> U3 {
        U3 { bits: value }
    }

    /// Builds the value `value`, which must be in range.
    #[verifier::when_used_as_spec(spec_new)]
    pub fn new(value: u8) -> (r: U3)
        requires
            value <= Self::MAX,
        ensures
            r == Self::spec_new(value),
            r@ == value,
    {
        U3 { bits: value }
    }

    /// The value as a `u8`.
    pub fn value(self) -> (r: u8)
        ensures
            r == self@,
            r <= Self::MAX,
    {
        proof {
            use_type_invariant(&self);
        }
        self.bits
    }

    /// `spec_new` builds the value it is given.
    pub proof fn lemma_spec_new(value: u8)
        ensures
            Self::spec_new(value)@ == value,
    {
    }

    /// A value is rebuilt from its view.
    pub proof fn lemma_spec_new_of_view(x: U3)
        ensures
            Self::spec_new(x@ as u8) == x,
    {
    }
}

/// A 4-bit unsigned integer: four bits of an immediate.
#[derive(Clone, Copy, Debug, PartialEq, Eq)]
pub struct U4 {
    bits: u8,
}

impl View for U4 {
    type V = nat;

    closed spec fn view(&self) -> nat {
        self.bits as nat
    }
}

impl U4 {
    /// The largest value of the type.
    pub const MAX: u8 = 15;

    /// The range of the type.
    #[verifier::type_invariant]
    pub open spec fn wf(self) -> bool {
        self@ <= Self::MAX
    }

    /// The value of the type that is built from `value`.
    pub closed spec fn spec_new(value: u8) -> U4 {
        U4 { bits: value }
    }

    /// Builds the value `value`, which must be in range.
    #[verifier::when_used_as_spec(spec_new)]
    pub fn new(value: u8) -> (r: U4)
        requires
            value <= Self::MAX,
        ensures
            r == Self::spec_new(value),
            r@ == value,
    {
        U4 { bits: value }
    }

    /// The value as a `u8`.
    pub fn value(self) -> (r: u8)
        ensures
            r == self@,
            r <= Self::MAX,
    {
        proof {
            use_type_invariant(&self);
        }
        self.bits
    }
}

/// A 5-bit unsigned integer: a register index.
#[derive(Clone, Copy, Debug, PartialEq, Eq)]
pub struct U5 {
    bits: u8,
}

impl View for U5 {
    type V = nat;

    closed spec fn view(&self) -> nat {
        self.bits as nat
    }
}

impl U5 {
    /// The largest value of the type.
    pub const MAX: u8 = 31;

    /// The range of the type.
    #[verifier::type_invariant]
    pub open spec fn wf(self) -> bool {
        self@ <= Self::MAX
    }

    /// The value of the type that is built from `value`.
    pub closed spec fn spec_new(value: u8) -> U5 {
        U5 { bits: value }
    }

    /// Builds the value `value`, which must be in range.
    #[verifier::when_used_as_spec(spec_new)]
    pub fn new(value: u8) -> (r: U5)
        requires
            value <= Self::MAX,
        ensures
            r == Self::spec_new(value),
            r@ == value,
    {
        U5 { bits: value }
    }

    /// The value as a `u8`.
    pub fn value(self) -> (r: u8)
        ensures
            r == self@,
            r <= Self::MAX,
    {
        proof {
            use_type_invariant(&self);
        }
        self.bits
    }

    /// `spec_new` builds the value it is given.
    pub proof fn lemma_spec_new(value: u8)
        ensures
            Self::spec_new(value)@ == value,
    {
    }

    /// A value is rebuilt from its view.
    pub proof fn lemma_spec_new_of_view(x: U5)
        ensures
            Self::spec_new(x@ as u8) == x,
    {
    }
}

/// A 6-bit unsigned integer: six bits of an immediate.
#[derive(Clone, Copy, Debug, PartialEq, Eq)]
pub struct U6 {
    bits: u8,
}

impl View for U6 {
    type V = nat;

    closed spec fn view(&self) -> nat {
        self.bits as nat
    }
}

impl U6 {
    /// The largest value of the type.
    pub const MAX: u8 = 63;

    /// The range of the type.
    #[verifier::type_invariant]
    pub open spec fn wf(self) -> bool {
        self@ <= Self::MAX
    }

    /// The value of the type that is built from `value`.
    pub closed spec fn spec_new(value: u8) -> U6 {
        U6 { bits: value }
    }

    /// Builds the value `value`, which must be in range.
    #[verifier::when_used_as_spec(spec_new)]
    pub fn new(value: u8) -> (r: U6)
        requires
            value <= Self::MAX,
        ensures
            r == Self::spec_new(value),
            r@ == value,
    {
        U6 { bits: value }
    }

    /// The value as a `u8`.
    pub fn value(self) -> (r: u8)
        ensures
            r == self@,
            r <= Self::MAX,
    {
        proof {
            use_type_invariant(&self);
        }
        self.bits
    }
}

/// A 7-bit unsigned integer: an opcode or the `funct7` selector.
#[derive(Clone, Copy, Debug, PartialEq, Eq)]
pub struct U7 {
    bits: u8,
}

impl View for U7 {
    type V = nat;

    closed spec fn view(&self) -> nat {
        self.bits as nat
    }
}

impl U7 {
    /// The largest value of the type.
    pub const MAX: u8 = 127;

    /// The range of the type.
    #[verifier::type_invariant]
    pub open spec fn wf(self) -> bool {
        self@ <= Self::MAX
    }

    /// The value of the type that is built from `value`.
    pub closed spec fn spec_new(value: u8) -> U7 {
        U7 { bits: value }
    }

    /// Builds the value `value`, which must be in range.
    #[verifier::when_used_as_spec(spec_new)]
    pub fn new(value: u8) -> (r: U7)
        requires
            value <= Self::MAX,
        ensures
            r == Self::spec_new(value),
            r@ == value,
    {
        U7 { bits: value }
    }

    /// The value as a `u8`.
    pub fn value(self) -> (r: u8)
        ensures
            r == self@,
            r <= Self::MAX,
    {
        proof {
            use_type_invariant(&self);
        }
        self.bits
    }

    /// `spec_new` builds the value it is given.
    pub proof fn lemma_spec_new(value: u8)
        ensures
            Self::spec_new(value)@ == value,
    {
    }

    /// A value is rebuilt from its view.
    pub proof fn lemma_spec_new_of_view(x: U7)
        ensures
            Self::spec_new(x@ as u8) == x,
    {
    }
}

/// A 20-bit unsigned integer: a byte address.
#[derive(Clone, Copy, Debug, PartialEq, Eq)]
pub struct U20 {
    bits: u32,
}

impl View for U20 {
    type V = nat;

    closed spec fn view(&self) -> nat {
        self.bits as nat
    }
}

impl U20 {
    /// The largest value of the type.
    pub const MAX: u32 = 0xF_FFFF;

    /// The range of the type.
    #[verifier::type_invariant]
    pub open spec fn wf(self) -> bool {
        self@ <= Self::MAX
    }

    /// The value of the type that is built from `value`.
    pub closed spec fn spec_new(value: u32) -> U20 {
        U20 { bits: value }
    }

    /// Builds the value `value`, which must be in range.
    #[verifier::when_used_as_spec(spec_new)]
    pub fn new(value: u32) -> (r: U20)
        requires
            value <= Self::MAX,
        ensures
            r == Self::spec_new(value),
            r@ == value,
    {
        U20 { bits: value }
    }

    /// The value as a `u32`.
    pub fn value(self) -> (r: u32)
        ensures
            r == self@,
            r <= Self::MAX,
    {
        proof {
            use_type_invariant(&self);
        }
        self.bits
    }

    /// `spec_new` builds the value it is given.
    pub proof fn lemma_spec_new(value: u32)
        ensures
            Self::spec_new(value)@ == value,
    {
    }

    /// A value is rebuilt from its view.
    pub proof fn lemma_spec_new_of_view(x: U20)
        ensures
            Self::spec_new(x@ as u32) == x,
    {
    }

    /// The sum of `self` and `rhs` modulo 2^20.
    pub fn wrapping_add(self, rhs: U20) -> (r: U20)
        ensures
            r@ == (self@ + rhs@) % 0x10_0000,
    {
        let sum = wrapping_add_20(self.value(), rhs.value());
        U20::new(sum)
    }
}

impl Default for U20 {
    /// Address 0.
    fn default() -> (r: U20)
        ensures
            r@ == 0,
    {
        U20::new(0)
    }
}

/// Adds two 20-bit values with `ux::u20::wrapping_add`. That function adds the
/// two underlying `u32` values and keeps the low 20 bits of the sum, so the
/// result is the sum modulo 2^20. `ux::u20::new` panics on a value above
/// `ux::u20::MAX`, which the precondition rules out.
#[verifier::external_body]
fn wrapping_add_20(a: u32, b: u32) -> (r: u32)
    requires
        a <= 0xF_FFFF,
        b <= 0xF_FFFF,
    ensures
        r == (a + b) % 0x10_0000,
{
    u32::from(ux::u20::new(a).wrapping_add(ux::u20::new(b)))
}

} // verus!
