//! A 256-bit unsigned quantity modelled as four 64-bit words.
//!
//! Transaction amounts (nonce, gas price, gas limit, value) and the two
//! signature components are 256-bit values on the wire; this type carries
//! them as plain machine words so that every check over them is verified.

use vstd::prelude::*;
use vstd::arithmetic::div_mod::{lemma_fundamental_div_mod, lemma_fundamental_div_mod_converse};

verus! {

/// A 256-bit unsigned quantity, least-significant word first.
#[derive(Debug, Clone, Copy, PartialEq, Eq, Structural)]
pub struct U256 {
    pub w0: u64,
    pub w1: u64,
    pub w2: u64,
    pub w3: u64,
}

impl U256 {
    /// The mathematical value of this quantity.
    pub open spec fn as_nat(self) -> nat {
        self.w0 as nat
            + self.w1 as nat * 0x1_0000_0000_0000_0000
            + self.w2 as nat * 0x1_0000_0000_0000_0000_0000_0000_0000_0000
            + self.w3 as nat * 0x1_0000_0000_0000_0000_0000_0000_0000_0000_0000_0000_0000_0000
    }

    /// The zero quantity.
    pub fn zero() -> (r: U256)
        ensures
            r.as_nat() == 0,
    {
        U256 { w0: 0, w1: 0, w2: 0, w3: 0 }
    }

    /// Widen a machine word.
    pub fn from_u64(v: u64) -> (r: U256)
        ensures
            r.as_nat() == v,
    {
        U256 { w0: v, w1: 0, w2: 0, w3: 0 }
    }

    /// True exactly when the value is zero.
    pub fn is_zero(&self) -> (r: bool)
        ensures
            r <==> self.as_nat() == 0,
    {
        self.w0 == 0 && self.w1 == 0 && self.w2 == 0 && self.w3 == 0
    }

    /// True exactly when this value is at most the other.
    pub fn le(&self, other: &U256) -> (r: bool)
        ensures
            r <==> self.as_nat() <= other.as_nat(),
    {
        proof {
            lemma_words_bound(*self);
            lemma_words_bound(*other);
        }
        if self.w3 != other.w3 {
            self.w3 < other.w3
        } else if self.w2 != other.w2 {
            self.w2 < other.w2
        } else if self.w1 != other.w1 {
            self.w1 < other.w1
        } else {
            self.w0 <= other.w0
        }
    }

    /// Quotient and remainder of division by ten.
    fn div10(&self) -> (r: (U256, u64))
        ensures
            r.0.as_nat() == self.as_nat() / 10,
            r.1 == self.as_nat() % 10,
    {
        let q3 = self.w3 / 10;
        let r3 = self.w3 % 10;
        let c2: u128 = (r3 as u128) * 0x1_0000_0000_0000_0000 + (self.w2 as u128);
        let q2 = (c2 / 10) as u64;
        let r2 = (c2 % 10) as u64;
        let c1: u128 = (r2 as u128) * 0x1_0000_0000_0000_0000 + (self.w1 as u128);
        let q1 = (c1 / 10) as u64;
        let r1 = (c1 % 10) as u64;
        let c0: u128 = (r1 as u128) * 0x1_0000_0000_0000_0000 + (self.w0 as u128);
        let q0 = (c0 / 10) as u64;
        let r0 = (c0 % 10) as u64;
        let q = U256 { w0: q0, w1: q1, w2: q2, w3: q3 };
        proof {
            lemma_fundamental_div_mod(self.w3 as int, 10);
            lemma_fundamental_div_mod(c2 as int, 10);
            lemma_fundamental_div_mod(c1 as int, 10);
            lemma_fundamental_div_mod(c0 as int, 10);
            assert(self.as_nat() == 10 * q.as_nat() + r0);
            lemma_fundamental_div_mod_converse(self.as_nat() as int, 10, q.as_nat() as int, r0 as int);
        }
        (q, r0)
    }

    /// The decimal rendering of this quantity.
    pub fn to_dec_string(&self) -> (r: String)
        ensures
            r@ == dec_string_of(self.as_nat()),
        decreases self.as_nat(),
    {
        let (q, d) = self.div10();
        let digit = digit_str(d);
        if q.is_zero() {
            String::from_str(digit)
        } else {
            proof {
                assert(self.as_nat() / 10 < self.as_nat()) by (nonlinear_arith)
                    requires
                        self.as_nat() >= 10,
                ;
                assert(dec_string_of(self.as_nat()) == dec_string_of(self.as_nat() / 10).push(
                    dec_digit(self.as_nat() % 10),
                ));
            }
            let prefix = q.to_dec_string();
            let r = prefix.concat(digit);
            proof {
                assert(r@ =~= dec_string_of(self.as_nat()));
            }
            r
        }
    }
}

/// The words below the most significant one contribute less than one unit of
/// the next word's weight.
proof fn lemma_words_bound(v: U256)
    ensures
        v.w0 as nat + v.w1 as nat * 0x1_0000_0000_0000_0000 + v.w2 as nat
            * 0x1_0000_0000_0000_0000_0000_0000_0000_0000
            < 0x1_0000_0000_0000_0000_0000_0000_0000_0000_0000_0000_0000_0000,
        v.w0 as nat + v.w1 as nat * 0x1_0000_0000_0000_0000
            < 0x1_0000_0000_0000_0000_0000_0000_0000_0000,
{
}

/// The character for one decimal digit.
pub open spec fn dec_digit(d: nat) -> char {
    if d == 0 {
        '0'
    } else if d == 1 {
        '1'
    } else if d == 2 {
        '2'
    } else if d == 3 {
        '3'
    } else if d == 4 {
        '4'
    } else if d == 5 {
        '5'
    } else if d == 6 {
        '6'
    } else if d == 7 {
        '7'
    } else if d == 8 {
        '8'
    } else {
        '9'
    }
}

/// The decimal rendering of a number: most significant digit first,
/// no leading zero except for the number zero itself.
pub open spec fn dec_string_of(n: nat) -> Seq<char>
    decreases n,
{
    if n < 10 {
        seq![dec_digit(n)]
    } else {
        dec_string_of(n / 10).push(dec_digit(n % 10))
    }
}

/// One decimal digit as a string.
fn digit_str(d: u64) -> (r: &'static str)
    requires
        d < 10,
    ensures
        r@ =~= seq![dec_digit(d as nat)],
{
    proof {
        reveal_strlit("0");
        reveal_strlit("1");
        reveal_strlit("2");
        reveal_strlit("3");
        reveal_strlit("4");
        reveal_strlit("5");
        reveal_strlit("6");
        reveal_strlit("7");
        reveal_strlit("8");
        reveal_strlit("9");
    }
    match d {
        0 => "0",
        1 => "1",
        2 => "2",
        3 => "3",
        4 => "4",
        5 => "5",
        6 => "6",
        7 => "7",
        8 => "8",
        _ => "9",
    }
}

} // verus!
