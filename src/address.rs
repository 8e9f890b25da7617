//! Account identifiers: twenty bytes, with the all-zero value as the
//! distinguished null account.

use vstd::prelude::*;

verus! {

/// The null account: twenty zero bytes.
pub open spec fn null_bytes() -> Seq<u8> {
    Seq::new(20, |i: int| 0u8)
}

#[derive(Clone, Copy, Debug, PartialEq, Eq)]
pub struct Address {
    pub bytes: [u8; 20],
}

impl View for Address {
    type V = Seq<u8>;

    open spec fn view(&self) -> Seq<u8> {
        self.bytes@
    }
}

impl Address {
    pub fn new(bytes: [u8; 20]) -> (r: Address)
        ensures
            r@ == bytes@,
    {
        Address { bytes }
    }

    /// The null account.
    pub fn zero() -> (r: Address)
        ensures
            r@ == null_bytes(),
    {
        let r = Address { bytes: [0u8; 20] };
        assert(r@ =~= null_bytes());
        r
    }

    pub fn to_bytes(&self) -> (r: [u8; 20])
        ensures
            r@ == self@,
    {
        self.bytes
    }

    /// Whether this is the null account.
    pub fn is_zero(&self) -> (r: bool)
        ensures
            r == (self@ == null_bytes()),
    {
        let mut i: usize = 0;
        while i < 20
            invariant
                self@.len() == 20,
                0 <= i <= 20,
                forall|j: int| 0 <= j < i ==> self@[j] == 0u8,
            decreases 20 - i,
        {
            if self.bytes[i] != 0 {
                assert(self@[i as int] != null_bytes()[i as int]);
                return false;
            }
            i = i + 1;
        }
        assert(self@ =~= null_bytes());
        true
    }

    /// Whether both identifiers name the same account.
    pub fn same_as(&self, other: &Address) -> (r: bool)
        ensures
            r == (self@ == other@),
    {
        let mut i: usize = 0;
        while i < 20
            invariant
                self@.len() == 20,
                other@.len() == 20,
                0 <= i <= 20,
                forall|j: int| 0 <= j < i ==> self@[j] == other@[j],
            decreases 20 - i,
        {
            if self.bytes[i] != other.bytes[i] {
                return false;
            }
            i = i + 1;
        }
        assert(self@ =~= other@);
        true
    }
}

} // verus!
