//! A single instruction bit with type-safe logical operators.

use vstd::prelude::*;

verus! {

/// One bit of an instruction word, kept distinct from raw integers so that
/// the 1-bit D and W fields cannot be confused with wider fields.
#[derive(Debug, Clone, Copy, PartialEq, Eq, Structural)]
pub struct Bit(pub bool);

/// The text a bit renders as: `"1"` for a set bit, `"0"` for a clear bit.
pub open spec fn bit_text(b: Bit) -> Seq<char> {
    if b.0 {
        seq!['1']
    } else {
        seq!['0']
    }
}

impl Bit {
    /// Numeric rendering of the bit.
    pub fn text(&self) -> (r: &'static str)
        ensures
            r@ == bit_text(*self),
    {
        proof {
            reveal_strlit("1");
            reveal_strlit("0");
        }
        if self.0 {
            "1"
        } else {
            "0"
        }
    }
}

impl From<bool> for Bit {
    fn from(value: bool) -> (r: Self)
        ensures
            r == Bit(value),
    {
        Bit(value)
    }
}

impl vstd::std_specs::convert::FromSpecImpl<bool> for Bit {
    open spec fn obeys_from_spec() -> bool {
        true
    }

    open spec fn from_spec(value: bool) -> Self {
        Bit(value)
    }
}

impl From<Bit> for bool {
    fn from(value: Bit) -> (r: Self)
        ensures
            r == value.0,
    {
        value.0
    }
}

impl vstd::std_specs::convert::FromSpecImpl<Bit> for bool {
    open spec fn obeys_from_spec() -> bool {
        true
    }

    open spec fn from_spec(value: Bit) -> Self {
        value.0
    }
}

impl core::ops::Not for Bit {
    type Output = Bit;

    fn not(self) -> (r: Bit)
        ensures
            r == Bit(!self.0),
    {
        Bit(!self.0)
    }
}

impl vstd::std_specs::ops::NotSpecImpl for Bit {
    open spec fn obeys_not_spec() -> bool {
        true
    }

    open spec fn not_req(self) -> bool {
        true
    }

    open spec fn not_spec(self) -> Bit {
        Bit(!self.0)
    }
}

impl core::ops::BitAnd for Bit {
    type Output = Bit;

    fn bitand(self, rhs: Bit) -> (r: Bit)
        ensures
            r == Bit(self.0 && rhs.0),
    {
        Bit(self.0 && rhs.0)
    }
}

impl vstd::std_specs::ops::BitAndSpecImpl for Bit {
    open spec fn obeys_bitand_spec() -> bool {
        true
    }

    open spec fn bitand_req(self, rhs: Bit) -> bool {
        true
    }

    open spec fn bitand_spec(self, rhs: Bit) -> Bit {
        Bit(self.0 && rhs.0)
    }
}

impl core::ops::BitOr for Bit {
    type Output = Bit;

    fn bitor(self, rhs: Bit) -> (r: Bit)
        ensures
            r == Bit(self.0 || rhs.0),
    {
        Bit(self.0 || rhs.0)
    }
}

impl vstd::std_specs::ops::BitOrSpecImpl for Bit {
    open spec fn obeys_bitor_spec() -> bool {
        true
    }

    open spec fn bitor_req(self, rhs: Bit) -> bool {
        true
    }

    open spec fn bitor_spec(self, rhs: Bit) -> Bit {
        Bit(self.0 || rhs.0)
    }
}

impl core::ops::BitXor for Bit {
    type Output = Bit;

    fn bitxor(self, rhs: Bit) -> (r: Bit)
        ensures
            r == Bit(self.0 != rhs.0),
    {
        Bit(self.0 ^ rhs.0)
    }
}

impl vstd::std_specs::ops::BitXorSpecImpl for Bit {
    open spec fn obeys_bitxor_spec() -> bool {
        true
    }

    open spec fn bitxor_req(self, rhs: Bit) -> bool {
        true
    }

    open spec fn bitxor_spec(self, rhs: Bit) -> Bit {
        Bit(self.0 != rhs.0)
    }
}

impl core::ops::BitAndAssign for Bit {
    fn bitand_assign(&mut self, rhs: Bit)
        ensures
            *final(self) == Bit(old(self).0 && rhs.0),
    {
        self.0 = self.0 && rhs.0;
    }
}

impl core::ops::BitOrAssign for Bit {
    fn bitor_assign(&mut self, rhs: Bit)
        ensures
            *final(self) == Bit(old(self).0 || rhs.0),
    {
        self.0 = self.0 || rhs.0;
    }
}

impl core::ops::BitXorAssign for Bit {
    fn bitxor_assign(&mut self, rhs: Bit)
        ensures
            *final(self) == Bit(old(self).0 != rhs.0),
    {
        self.0 = self.0 != rhs.0;
    }
}

} // verus!
