//! 256-bit machine words and 160-bit addresses.
//!
//! A [`Word`] is held as four 64-bit limbs, least significant first, and is
//! modelled by the natural number below 2^256 that the limbs spell out.  An
//! [`Address`] is the low 160 bits of a word.

use vstd::prelude::*;
use vstd::arithmetic::div_mod::{
    lemma_fundamental_div_mod_converse, lemma_small_mod, lemma_mod_bound, lemma_fundamental_div_mod,
};

verus! {

/// 2^64.
pub open spec fn limb_base() -> nat {
    0x1_0000_0000_0000_0000nat
}

/// 2^128.
pub open spec fn limb_base2() -> nat {
    0x1_0000_0000_0000_0000_0000_0000_0000_0000nat
}

/// 2^192.
pub open spec fn limb_base3() -> nat {
    0x1_0000_0000_0000_0000_0000_0000_0000_0000_0000_0000_0000_0000nat
}

/// 2^256, the modulus of all word arithmetic.
pub open spec fn modulus() -> nat {
    0x1_0000_0000_0000_0000_0000_0000_0000_0000_0000_0000_0000_0000_0000_0000_0000_0000nat
}

/// 2^255, the weight of the sign bit.
pub open spec fn sign_weight() -> nat {
    0x8000_0000_0000_0000_0000_0000_0000_0000_0000_0000_0000_0000_0000_0000_0000_0000nat
}

/// 2^160, the number of addresses.
pub open spec fn address_modulus() -> nat {
    0x1_0000_0000_0000_0000_0000_0000_0000_0000_0000_0000nat
}

/// A 256-bit unsigned integer, least significant limb first.
#[derive(Clone, Copy, PartialEq, Eq, Structural, Debug)]
pub struct Word {
    pub l0: u64,
    pub l1: u64,
    pub l2: u64,
    pub l3: u64,
}

/// A 160-bit account identifier, least significant limb first.
#[derive(Clone, Copy, PartialEq, Eq, Structural, Debug)]
pub struct Address {
    pub l0: u64,
    pub l1: u64,
    pub l2: u32,
}

impl View for Word {
    type V = nat;

    open spec fn view(&self) -> nat {
        (self.l0 + self.l1 * limb_base() + self.l2 * limb_base2() + self.l3 * limb_base3()) as nat
    }
}

impl View for Address {
    type V = nat;

    open spec fn view(&self) -> nat {
        (self.l0 + self.l1 * limb_base() + self.l2 * limb_base2()) as nat
    }
}

/// The word whose value is `n` modulo 2^256.
pub open spec fn word_of(n: nat) -> Word {
    Word {
        l0: (n % limb_base()) as u64,
        l1: ((n / limb_base()) % limb_base()) as u64,
        l2: ((n / limb_base2()) % limb_base()) as u64,
        l3: ((n / limb_base3()) % limb_base()) as u64,
    }
}

/// The address whose value is `n` modulo 2^160.
pub open spec fn address_of(n: nat) -> Address {
    Address {
        l0: (n % limb_base()) as u64,
        l1: ((n / limb_base()) % limb_base()) as u64,
        l2: ((n / limb_base2()) % 0x1_0000_0000) as u32,
    }
}

/// `1` for true, `0` for false.
pub open spec fn word_of_bool(b: bool) -> Word {
    if b {
        word_of(1)
    } else {
        word_of(0)
    }
}

/// A word is determined by its value.
pub proof fn lemma_word_of_view(w: Word)
    ensures
        word_of(w@) == w,
{
    let n = w@;
    let hi1 = (w.l1 + w.l2 * limb_base() + w.l3 * limb_base2()) as int;
    lemma_fundamental_div_mod_converse(n as int, limb_base() as int, hi1, w.l0 as int);
    let hi2 = (w.l2 + w.l3 * limb_base()) as int;
    let lo2 = (w.l0 + w.l1 * limb_base()) as int;
    lemma_fundamental_div_mod_converse(n as int, limb_base2() as int, hi2, lo2);
    lemma_fundamental_div_mod_converse(hi1, limb_base() as int, hi2, w.l1 as int);
    let lo3 = (w.l0 + w.l1 * limb_base() + w.l2 * limb_base2()) as int;
    lemma_fundamental_div_mod_converse(n as int, limb_base3() as int, w.l3 as int, lo3);
    lemma_fundamental_div_mod_converse(hi2, limb_base() as int, w.l3 as int, w.l2 as int);
    lemma_fundamental_div_mod_converse(lo3, limb_base2() as int, w.l2 as int, lo2);
    lemma_small_mod(w.l3 as nat, limb_base());
    assert(n / limb_base() == hi1);
    assert(n / limb_base2() == hi2);
    assert(n / limb_base3() == w.l3);
    assert(hi1 % (limb_base() as int) == w.l1);
    assert(hi2 % (limb_base() as int) == w.l2);
}

/// Two words with the same value are the same word.
pub proof fn lemma_word_view_injective(a: Word, b: Word)
    requires
        a@ == b@,
    ensures
        a == b,
{
    lemma_word_of_view(a);
    lemma_word_of_view(b);
}

/// `word_of` is the inverse of the view on values below 2^256.
pub proof fn lemma_view_word_of(n: nat)
    requires
        n < modulus(),
    ensures
        word_of(n)@ == n,
{
    let b = limb_base() as int;
    let n = n as int;
    let q1 = n / b;
    let q2 = n / (limb_base2() as int);
    let q3 = n / (limb_base3() as int);
    lemma_fundamental_div_mod(n, b);
    lemma_fundamental_div_mod(q1, b);
    lemma_fundamental_div_mod(n, limb_base2() as int);
    lemma_fundamental_div_mod(n, limb_base3() as int);
    lemma_mod_bound(n, b);
    lemma_mod_bound(q1, b);
    lemma_mod_bound(n, limb_base2() as int);
    lemma_mod_bound(n, limb_base3() as int);
    // q1 = n / 2^64, and q1 / 2^64 = n / 2^128
    let r0 = n % b;
    let r1 = q1 % b;
    let q1q = q1 / b;
    assert(n == b * q1 + r0);
    assert(q1 == b * q1q + r1);
    assert(n == (limb_base2() as int) * q1q + (r0 + b * r1)) by (nonlinear_arith)
        requires
            n == b * q1 + r0,
            q1 == b * q1q + r1,
            b == 0x1_0000_0000_0000_0000nat,
            limb_base2() == 0x1_0000_0000_0000_0000_0000_0000_0000_0000nat,
    ;
    lemma_fundamental_div_mod_converse(n, limb_base2() as int, q1q, r0 + b * r1);
    assert(q2 == q1q);
    lemma_fundamental_div_mod(q2, b);
    lemma_mod_bound(q2, b);
    let r2 = q2 % b;
    let q2q = q2 / b;
    assert(n == (limb_base3() as int) * q2q + (r0 + b * r1 + (limb_base2() as int) * r2))
        by (nonlinear_arith)
        requires
            n == (limb_base2() as int) * q2 + (r0 + b * r1),
            q2 == b * q2q + r2,
            b == 0x1_0000_0000_0000_0000nat,
            limb_base2() == 0x1_0000_0000_0000_0000_0000_0000_0000_0000nat,
            limb_base3() == 0x1_0000_0000_0000_0000_0000_0000_0000_0000_0000_0000_0000_0000nat,
    ;
    lemma_fundamental_div_mod_converse(
        n,
        limb_base3() as int,
        q2q,
        r0 + b * r1 + (limb_base2() as int) * r2,
    );
    assert(q3 == q2q);
    assert(q3 < b);
    lemma_small_mod(q3 as nat, b as nat);
}

impl Word {
    /// The word 0.
    pub fn zero() -> (r: Word)
        ensures
            r == word_of(0),
            r@ == 0,
    {
        Word { l0: 0, l1: 0, l2: 0, l3: 0 }
    }

    /// The word 1.
    pub fn one() -> (r: Word)
        ensures
            r == word_of(1),
            r@ == 1,
    {
        Word { l0: 1, l1: 0, l2: 0, l3: 0 }
    }

    /// The word 2^256 - 1.
    pub fn max_value() -> (r: Word)
        ensures
            r == word_of((modulus() - 1) as nat),
            r@ == modulus() - 1,
    {
        let r = Word {
            l0: 0xffff_ffff_ffff_ffff,
            l1: 0xffff_ffff_ffff_ffff,
            l2: 0xffff_ffff_ffff_ffff,
            l3: 0xffff_ffff_ffff_ffff,
        };
        proof {
            lemma_word_of_view(r);
        }
        r
    }

    /// The word with the value of `v`.
    pub fn from_u64(v: u64) -> (r: Word)
        ensures
            r == word_of(v as nat),
            r@ == v,
    {
        let r = Word { l0: v, l1: 0, l2: 0, l3: 0 };
        proof {
            lemma_word_of_view(r);
        }
        r
    }

    /// The word with the value of `v`.
    pub fn from_usize(v: usize) -> (r: Word)
        ensures
            r == word_of(v as nat),
            r@ == v,
    {
        Word::from_u64(v as u64)
    }

    /// The word 1 for `true`, 0 for `false`.
    pub fn from_bool(b: bool) -> (r: Word)
        ensures
            r == word_of_bool(b),
            r@ == (if b { 1nat } else { 0nat }),
    {
        if b {
            Word::one()
        } else {
            Word::zero()
        }
    }

    /// The word made of four limbs, least significant first.
    pub fn from_limbs(l0: u64, l1: u64, l2: u64, l3: u64) -> (r: Word)
        ensures
            r == (Word { l0, l1, l2, l3 }),
    {
        Word { l0, l1, l2, l3 }
    }

    /// Whether the word is 0.
    pub fn is_zero(&self) -> (r: bool)
        ensures
            r == (self@ == 0),
    {
        self.l0 == 0 && self.l1 == 0 && self.l2 == 0 && self.l3 == 0
    }

    /// Unsigned `self < other`.
    pub fn lt(&self, other: &Word) -> (r: bool)
        ensures
            r == (self@ < other@),
    {
        if self.l3 != other.l3 {
            self.l3 < other.l3
        } else if self.l2 != other.l2 {
            self.l2 < other.l2
        } else if self.l1 != other.l1 {
            self.l1 < other.l1
        } else {
            self.l0 < other.l0
        }
    }

    /// Whether the two words are the same number.
    pub fn equals(&self, other: &Word) -> (r: bool)
        ensures
            r == (self@ == other@),
            r == (*self == *other),
    {
        proof {
            if self@ == other@ {
                lemma_word_view_injective(*self, *other);
            }
        }
        self.l0 == other.l0 && self.l1 == other.l1 && self.l2 == other.l2 && self.l3 == other.l3
    }

    /// Whether bit 255 is set, that is, whether the word is negative when
    /// read as a two's-complement number.
    pub fn sign_bit(&self) -> (r: bool)
        ensures
            r == (self@ >= sign_weight()),
    {
        self.l3 >= 0x8000_0000_0000_0000
    }

    /// The low 64 bits.
    pub fn low_u64(&self) -> (r: u64)
        ensures
            r == self@ % limb_base(),
    {
        proof {
            lemma_word_of_view(*self);
        }
        self.l0
    }

    /// The low 8 bits.
    pub fn low_u8(&self) -> (r: u8)
        ensures
            r == self@ % 256,
    {
        let l0: u64 = self.l0;
        let r: u8 = (l0 & 0xff) as u8;
        proof {
            assert(l0 & 0xff == l0 % 256) by (bit_vector);
            let hi = (self@ - l0) / 256;
            assert(self@ == 256 * ((l0 / 256) + self.l1 * 0x100_0000_0000_0000 + self.l2
                * 0x100_0000_0000_0000_0000_0000_0000_0000nat + self.l3
                * 0x100_0000_0000_0000_0000_0000_0000_0000_0000_0000_0000_0000nat) + l0 % 256);
            lemma_fundamental_div_mod_converse(
                self@ as int,
                256,
                (l0 / 256) + self.l1 * 0x100_0000_0000_0000 + self.l2
                    * 0x100_0000_0000_0000_0000_0000_0000_0000nat + self.l3
                    * 0x100_0000_0000_0000_0000_0000_0000_0000_0000_0000_0000_0000nat,
                (l0 % 256) as int,
            );
        }
        r
    }
}

/// The value of a word clamped to the range of `usize`.
pub open spec fn spec_u256_to_usize(value: Word) -> usize {
    if value@ <= usize::MAX {
        value@ as usize
    } else {
        usize::MAX
    }
}

/// Converts a word to an offset or a length.  Values that do not fit
/// saturate at `usize::MAX`.
pub fn u256_to_usize(value: Word) -> (r: usize)
    ensures
        r == spec_u256_to_usize(value),
{
    if value.l1 == 0 && value.l2 == 0 && value.l3 == 0 && value.l0 <= usize::MAX as u64 {
        value.l0 as usize
    } else {
        usize::MAX
    }
}

/// The low 160 bits of a word, as an address.
pub open spec fn spec_u256_to_address(value: Word) -> Address {
    address_of(value@ % address_modulus())
}

/// The address as a word, with the upper 96 bits zero.
pub open spec fn spec_address_to_word(a: Address) -> Word {
    word_of(a@)
}

/// An address is determined by its value.
pub proof fn lemma_address_of_view(a: Address)
    ensures
        address_of(a@) == a,
{
    let n = a@ as int;
    let hi1 = (a.l1 + a.l2 * limb_base()) as int;
    lemma_fundamental_div_mod_converse(n, limb_base() as int, hi1, a.l0 as int);
    let lo2 = (a.l0 + a.l1 * limb_base()) as int;
    lemma_fundamental_div_mod_converse(n, limb_base2() as int, a.l2 as int, lo2);
    lemma_fundamental_div_mod_converse(hi1, limb_base() as int, a.l2 as int, a.l1 as int);
    lemma_small_mod(a.l2 as nat, 0x1_0000_0000);
}

/// Takes the low 160 bits of a word as an address.
pub fn u256_to_address(value: Word) -> (r: Address)
    ensures
        r == spec_u256_to_address(value),
        r@ == value@ % address_modulus(),
{
    let l2: u64 = value.l2;
    let low: u32 = (l2 & 0xffff_ffff) as u32;
    let r = Address { l0: value.l0, l1: value.l1, l2: low };
    proof {
        assert(l2 & 0xffff_ffff == l2 % 0x1_0000_0000) by (bit_vector);
        let q = (l2 / 0x1_0000_0000) as int + value.l3 * 0x1_0000_0000;
        assert(value@ == address_modulus() * q + r@);
        lemma_fundamental_div_mod_converse(
            value@ as int,
            address_modulus() as int,
            q,
            r@ as int,
        );
        lemma_address_of_view(r);
    }
    r
}

/// Widens an address to a word.
pub fn address_to_word(a: Address) -> (r: Word)
    ensures
        r == spec_address_to_word(a),
        r@ == a@,
{
    let r = Word { l0: a.l0, l1: a.l1, l2: a.l2 as u64, l3: 0 };
    proof {
        lemma_word_of_view(r);
    }
    r
}

impl Address {
    /// The address 0.
    pub fn zero() -> (r: Address)
        ensures
            r == address_of(0),
            r@ == 0,
    {
        Address { l0: 0, l1: 0, l2: 0 }
    }
}

} // verus!
