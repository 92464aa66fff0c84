//! Fixed-width byte values: addresses, 32-byte hashes, recovered keys.

use vstd::prelude::*;

verus! {

/// A 20-byte account address.
#[derive(Debug, Clone, PartialEq, Eq)]
pub struct Address(pub Vec<u8>);

impl View for Address {
    type V = Seq<u8>;

    open spec fn view(&self) -> Seq<u8> {
        self.0@
    }
}

impl Address {
    /// An address is exactly 20 bytes long.
    pub open spec fn wf(self) -> bool {
        self@.len() == 20
    }
}

/// A 32-byte hash: the message that a transaction signature covers.
#[derive(Debug, Clone, PartialEq, Eq)]
pub struct Hash32(pub Vec<u8>);

impl View for Hash32 {
    type V = Seq<u8>;

    open spec fn view(&self) -> Seq<u8> {
        self.0@
    }
}

impl Hash32 {
    /// A hash is exactly 32 bytes long.
    pub open spec fn wf(self) -> bool {
        self@.len() == 32
    }
}

/// A recovered 64-byte public key (uncompressed, without the format byte).
#[derive(Debug, Clone, PartialEq, Eq)]
pub struct PublicKey(pub Vec<u8>);

impl View for PublicKey {
    type V = Seq<u8>;

    open spec fn view(&self) -> Seq<u8> {
        self.0@
    }
}

impl PublicKey {
    /// A public key is exactly 64 bytes long.
    pub open spec fn wf(self) -> bool {
        self@.len() == 64
    }
}

/// The sentinel address assigned to valid unsigned system transactions:
/// twenty `0xff` bytes.
pub open spec fn unsigned_sender_seq() -> Seq<u8> {
    Seq::new(20, |i: int| 0xffu8)
}

/// The sentinel address reserved for internally synthesized state updates:
/// nineteen `0xff` bytes followed by `0xfe`.
pub open spec fn system_address_seq() -> Seq<u8> {
    Seq::new(20, |i: int| if i == 19 { 0xfeu8 } else { 0xffu8 })
}

/// The fixed sentinel address assigned to unsigned transactions instead of a
/// recovered one.
pub fn unsigned_sender() -> (r: Address)
    ensures
        r@ == unsigned_sender_seq(),
        r.wf(),
{
    let mut v: Vec<u8> = Vec::new();
    let mut i: usize = 0;
    while i < 20
        invariant
            i <= 20,
            v@ =~= Seq::new(i as nat, |j: int| 0xffu8),
        decreases 20 - i,
    {
        v.push(0xff);
        i = i + 1;
    }
    proof {
        assert(v@ =~= unsigned_sender_seq());
    }
    Address(v)
}

/// The fixed sentinel address for internally synthesized state updates.
pub fn system_address() -> (r: Address)
    ensures
        r@ == system_address_seq(),
        r.wf(),
{
    let mut v: Vec<u8> = Vec::new();
    let mut i: usize = 0;
    while i < 19
        invariant
            i <= 19,
            v@ =~= Seq::new(i as nat, |j: int| 0xffu8),
        decreases 19 - i,
    {
        v.push(0xff);
        i = i + 1;
    }
    v.push(0xfe);
    proof {
        assert(v@ =~= system_address_seq());
    }
    Address(v)
}

} // verus!
