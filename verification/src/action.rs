//! The transaction action and its wire codec.
//!
//! The wire rule is historical: an action is either "create a contract",
//! written as an empty value, or "call this address", written as the
//! 20-byte address itself. Emptiness is the discriminator; there is no tag.

use vstd::prelude::*;
use crate::bytes::Address;

verus! {

/// What a transaction does: create a new contract, or call an address.
#[derive(Debug, Clone, PartialEq, Eq)]
pub enum Action {
    /// Create a new contract.
    Create,
    /// Call the contract at the given address; for a plain transfer this is
    /// the receiver.
    Call(Address),
}

impl Action {
    /// A call action must carry a full 20-byte address.
    pub open spec fn wf(self) -> bool {
        match self {
            Action::Create => true,
            Action::Call(addr) => addr.wf(),
        }
    }
}

impl Default for Action {
    /// The default action creates a contract.
    fn default() -> (r: Action)
        ensures
            r == Action::Create,
    {
        Action::Create
    }
}

/// Why a byte string failed to decode as an action.
#[derive(Debug, Clone, Copy, PartialEq, Eq, Structural)]
pub enum DecodeError {
    /// The value's payload falls short of a 20-byte address.
    RlpIsTooShort,
    /// The value's payload overruns a 20-byte address.
    RlpIsTooBig,
    /// The value is a non-empty list where a data item was expected.
    RlpExpectedToBeData,
}

/// The wire bytes of an action: the empty value (`0x80`) for `Create`, the
/// address as a 20-byte value (`0x94` followed by its bytes) for `Call`.
pub open spec fn encoded_action(a: Action) -> Seq<u8> {
    match a {
        Action::Create => seq![0x80u8],
        Action::Call(addr) => seq![0x94u8] + addr@,
    }
}

/// Whether the byte string is the encoding of some action: an empty value
/// (empty string `0x80` or empty list `0xc0`), or a 20-byte value.
pub open spec fn decodable(b: Seq<u8>) -> bool {
    (b.len() == 1 && (b[0] == 0x80 || b[0] == 0xc0)) || (b.len() == 21 && b[0] == 0x94)
}

/// Whether `a` is the action that the byte string `b` decodes to.
pub open spec fn is_decoding_of(b: Seq<u8>, a: Action) -> bool {
    match a {
        Action::Create => b.len() == 1 && (b[0] == 0x80 || b[0] == 0xc0),
        Action::Call(addr) => b.len() == 21 && b[0] == 0x94 && addr@ == b.skip(1),
    }
}

/// The reason an undecodable byte string is rejected.
pub open spec fn action_decode_error(b: Seq<u8>) -> DecodeError {
    if b.len() == 0 {
        DecodeError::RlpIsTooShort
    } else if b[0] == 0x80 || b[0] == 0xc0 {
        DecodeError::RlpIsTooBig  // an empty value followed by stray bytes
    } else if b[0] >= 0xc0 {
        DecodeError::RlpExpectedToBeData  // a non-empty list
    } else if b[0] < 0x94 {
        DecodeError::RlpIsTooShort  // a single byte, or a value shorter than an address
    } else if b[0] == 0x94 {
        if b.len() < 21 {
            DecodeError::RlpIsTooShort  // the address bytes are cut off
        } else {
            DecodeError::RlpIsTooBig  // stray bytes after the address
        }
    } else {
        DecodeError::RlpIsTooBig  // a value longer than an address
    }
}

/// Decode the exact wire bytes of one action value.
///
/// An empty value decodes to `Create`; a 20-byte value decodes to `Call` of
/// that address; anything else is rejected with the reason.
pub fn decode(b: &Vec<u8>) -> (res: Result<Action, DecodeError>)
    ensures
        match res {
            Ok(a) => decodable(b@) && a.wf() && is_decoding_of(b@, a),
            Err(e) => !decodable(b@) && e == action_decode_error(b@),
        },
{
    if b.len() == 0 {
        return Err(DecodeError::RlpIsTooShort);
    }
    let first = b[0];
    if first == 0x80 || first == 0xc0 {
        if b.len() == 1 {
            Ok(Action::Create)
        } else {
            Err(DecodeError::RlpIsTooBig)
        }
    } else if first >= 0xc0 {
        Err(DecodeError::RlpExpectedToBeData)
    } else if first < 0x94 {
        Err(DecodeError::RlpIsTooShort)
    } else if first == 0x94 {
        if b.len() < 21 {
            Err(DecodeError::RlpIsTooShort)
        } else if b.len() > 21 {
            Err(DecodeError::RlpIsTooBig)
        } else {
            let mut addr: Vec<u8> = Vec::new();
            let mut i: usize = 1;
            while i < 21
                invariant
                    1 <= i <= 21,
                    b@.len() == 21,
                    addr@ =~= b@.subrange(1, i as int),
                decreases 21 - i,
            {
                addr.push(b[i]);
                i = i + 1;
            }
            proof {
                assert(addr@ =~= b@.skip(1));
            }
            Ok(Action::Call(Address(addr)))
        }
    } else {
        Err(DecodeError::RlpIsTooBig)
    }
}

/// Encode an action into its exact wire bytes.
pub fn encode(a: &Action) -> (res: Vec<u8>)
    requires
        a.wf(),
    ensures
        res@ == encoded_action(*a),
{
    match a {
        Action::Create => {
            let mut v: Vec<u8> = Vec::new();
            v.push(0x80);
            proof {
                assert(v@ =~= encoded_action(*a));
            }
            v
        },
        Action::Call(addr) => {
            let mut v: Vec<u8> = Vec::new();
            v.push(0x94);
            let mut i: usize = 0;
            let n = addr.0.len();
            while i < n
                invariant
                    i <= n,
                    n == addr.0@.len(),
                    v@ =~= seq![0x94u8] + addr.0@.subrange(0, i as int),
                decreases n - i,
            {
                v.push(addr.0[i]);
                i = i + 1;
            }
            proof {
                assert(v@ =~= encoded_action(*a));
            }
            v
        },
    }
}

/// Round trip: the encoding of an action is decodable, and the one action it
/// decodes to is that action itself.
pub proof fn lemma_action_round_trip(a: Action)
    requires
        a.wf(),
    ensures
        decodable(encoded_action(a)),
        is_decoding_of(encoded_action(a), a),
        forall|b: Action| #[trigger] is_decoding_of(encoded_action(a), b) ==> actions_agree(b, a),
{
    match a {
        Action::Create => {
            assert(encoded_action(a)[0] == 0x80u8);
        },
        Action::Call(addr) => {
            assert(encoded_action(a).skip(1) =~= addr@);
            assert forall|b: Action| #[trigger] is_decoding_of(encoded_action(a), b) implies
                actions_agree(b, a) by {
                match b {
                    Action::Create => {},
                    Action::Call(other) => {
                        assert(other@ == encoded_action(a).skip(1));
                    },
                }
            }
        },
    }
}

/// Whether the bytes are the empty-list form of an empty action value.
///
/// Historical chain data may carry an action encoded as an empty list
/// (`0xc0`) instead of the canonical empty value (`0x80`); both decode to
/// `Create`, but only the canonical form is ever produced by `encode`, so
/// block-analysis tooling flags the list form as an anomaly.
pub fn is_empty_list_encoding(b: &Vec<u8>) -> (r: bool)
    ensures
        r <==> (b@.len() == 1 && b@[0] == 0xc0),
{
    b.len() == 1 && b[0] == 0xc0
}

/// Two actions describe the same target: both create, or both call the same
/// address bytes.
pub open spec fn actions_agree(x: Action, y: Action) -> bool {
    match (x, y) {
        (Action::Create, Action::Create) => true,
        (Action::Call(p), Action::Call(q)) => p@ == q@,
        _ => false,
    }
}

} // verus!
