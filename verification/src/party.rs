//! Identities of the parties to a trade.

use vstd::prelude::*;

verus! {

/// The 32-byte address of a party, of an escrow record or of a downstream
/// escrow. Two addresses are the same party exactly when their bytes agree.
#[derive(Clone, Copy, Debug, PartialEq, Eq, Hash)]
pub struct Address {
    pub bytes: [u8; 32],
}

impl Address {
    /// Wraps 32 raw bytes as an address.
    pub fn new(bytes: [u8; 32]) -> (a: Address)
        ensures
            a.bytes == bytes,
    {
        Address { bytes }
    }

    /// Whether `self` and `other` name the same party.
    pub fn same(&self, other: &Address) -> (r: bool)
        ensures
            r == (*self == *other),
    {
        let mut i: usize = 0;
        while i < 32
            invariant
                i <= 32,
                forall|j: int| 0 <= j < i ==> self.bytes@[j] == other.bytes@[j],
            decreases 32 - i,
        {
            if self.bytes[i] != other.bytes[i] {
                return false;
            }
            i = i + 1;
        }
        assert(self.bytes@ =~= other.bytes@);
        assert(self.bytes == other.bytes);
        true
    }
}

/// One of the two sides of a trade.
#[derive(Clone, Copy, Debug, PartialEq, Eq, Structural)]
pub enum Party {
    Buyer,
    Seller,
}

impl Party {
    /// The other side of the trade.
    pub open spec fn counterpart(self) -> Party {
        match self {
            Party::Buyer => Party::Seller,
            Party::Seller => Party::Buyer,
        }
    }

    /// The other side of the trade.
    pub fn other(&self) -> (p: Party)
        ensures
            p == self.counterpart(),
    {
        match self {
            Party::Buyer => Party::Seller,
            Party::Seller => Party::Buyer,
        }
    }
}

/// The bytes of the arbitrator that the platform ships with.
pub open spec fn platform_arbitrator_bytes() -> Seq<u8> {
    seq![
        0xe2u8, 0xef, 0x04, 0xd8, 0x35, 0x5b, 0x03, 0xd1,
        0xdb, 0x14, 0x87, 0x9e, 0x38, 0x84, 0x4d, 0x64,
        0x74, 0xc7, 0x8b, 0xe4, 0xbe, 0x4e, 0x31, 0xb4,
        0xae, 0xfe, 0x13, 0xc8, 0x2f, 0xdb, 0xdb, 0x2b,
    ]
}

/// The arbitrator that the platform ships with. Deployments and tests may
/// hand any other address to `create_escrow` instead.
pub fn platform_arbitrator() -> (a: Address)
    ensures
        a.bytes@ == platform_arbitrator_bytes(),
{
    let bytes: [u8; 32] = [
        0xe2, 0xef, 0x04, 0xd8, 0x35, 0x5b, 0x03, 0xd1,
        0xdb, 0x14, 0x87, 0x9e, 0x38, 0x84, 0x4d, 0x64,
        0x74, 0xc7, 0x8b, 0xe4, 0xbe, 0x4e, 0x31, 0xb4,
        0xae, 0xfe, 0x13, 0xc8, 0x2f, 0xdb, 0xdb, 0x2b,
    ];
    assert(bytes@ =~= platform_arbitrator_bytes());
    Address { bytes }
}

} // verus!
