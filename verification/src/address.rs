//! Plain 32-byte on-chain addresses.
//!
//! Account handles supplied by the host runtime carry their addresses in an
//! opaque host type; the contracts of this crate speak about addresses as
//! plain byte sequences instead, through this type.

use vstd::prelude::*;

verus! {

/// Number of bytes in an on-chain address.
pub const ADDRESS_LEN: usize = 32;

/// A 32-byte on-chain address, held as plain bytes.
#[derive(Clone, Copy, Debug, PartialEq, Eq)]
pub struct Address {
    pub bytes: [u8; 32],
}

impl View for Address {
    type V = Seq<u8>;

    open spec fn view(&self) -> Seq<u8> {
        self.bytes@
    }
}

/// Compares two addresses byte for byte.
pub fn address_eq(a: &Address, b: &Address) -> (r: bool)
    ensures
        r == (a@ == b@),
{
    let mut i: usize = 0;
    while i < ADDRESS_LEN
        invariant
            i <= ADDRESS_LEN,
            forall|j: int| 0 <= j < i ==> a@[j] == b@[j],
        decreases ADDRESS_LEN - i,
    {
        if a.bytes[i] != b.bytes[i] {
            return false;
        }
        i = i + 1;
    }
    proof {
        assert(a@ =~= b@);
    }
    true
}

} // verus!
