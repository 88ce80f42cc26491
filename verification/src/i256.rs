//! Two's-complement reading of words: signed comparison, signed division and
//! signed remainder.

use vstd::prelude::*;
use vstd::arithmetic::div_mod::{lemma_small_mod, lemma_fundamental_div_mod_converse};
use std::cmp::Ordering;
use crate::word::{Word, modulus, sign_weight, word_of, lemma_word_of_view};
use crate::arith::{to_int, word_of_int};
use crate::primitives::{u256_div, u256_rem, u256_wrapping_sub};

verus! {

/// The absolute value of an integer.
pub open spec fn abs(i: int) -> int {
    if i < 0 {
        -i
    } else {
        i
    }
}

/// Signed division that rounds towards zero, modulo 2^256; 0 when `b` is 0.
/// The most negative number divided by -1 is the most negative number.
pub open spec fn spec_sdiv(a: Word, b: Word) -> Word {
    if b@ == 0 {
        word_of(0)
    } else {
        let q = abs(to_int(a)) / abs(to_int(b));
        if (to_int(a) < 0) != (to_int(b) < 0) {
            word_of_int(-q)
        } else {
            word_of_int(q)
        }
    }
}

/// Signed remainder with the sign of the dividend; 0 when `b` is 0.
pub open spec fn spec_smod(a: Word, b: Word) -> Word {
    if b@ == 0 {
        word_of(0)
    } else {
        let r = abs(to_int(a)) % abs(to_int(b));
        if to_int(a) < 0 {
            word_of_int(-r)
        } else {
            word_of_int(r)
        }
    }
}

/// Signed `a < b`.
pub open spec fn spec_slt(a: Word, b: Word) -> bool {
    to_int(a) < to_int(b)
}

/// The two's-complement negation of a word.
fn negate(w: Word) -> (r: Word)
    ensures
        r == word_of_int(-(w@ as int)),
        r@ == (-(w@ as int)) % (modulus() as int),
{
    let r = u256_wrapping_sub(Word::zero(), w);
    proof {
        lemma_word_of_view(r);
    }
    r
}

/// The absolute value of a word read as a signed number.
fn magnitude(w: Word) -> (r: Word)
    ensures
        r@ == abs(to_int(w)),
{
    if w.sign_bit() {
        let r = negate(w);
        proof {
            lemma_fundamental_div_mod_converse(
                -(w@ as int),
                modulus() as int,
                -1,
                modulus() - w@,
            );
        }
        r
    } else {
        w
    }
}

/// Compares two words as two's-complement numbers.
pub fn i256_cmp(a: &Word, b: &Word) -> (r: Ordering)
    ensures
        (r is Less) == (to_int(*a) < to_int(*b)),
        (r is Equal) == (to_int(*a) == to_int(*b)),
        (r is Greater) == (to_int(*a) > to_int(*b)),
        (r is Equal) == (*a == *b),
{
    let a_neg = a.sign_bit();
    let b_neg = b.sign_bit();
    if a_neg && !b_neg {
        Ordering::Less
    } else if !a_neg && b_neg {
        Ordering::Greater
    } else if a.lt(b) {
        Ordering::Less
    } else if b.lt(a) {
        Ordering::Greater
    } else {
        proof {
            crate::word::lemma_word_view_injective(*a, *b);
        }
        Ordering::Equal
    }
}

/// Divides two words as two's-complement numbers, rounding towards zero.
/// Division by zero gives zero.
pub fn i256_div(a: Word, b: Word) -> (r: Word)
    ensures
        r == spec_sdiv(a, b),
{
    if b.is_zero() {
        return Word::zero();
    }
    let x = magnitude(a);
    let y = magnitude(b);
    let q = u256_div(x, y);
    if a.sign_bit() != b.sign_bit() {
        negate(q)
    } else {
        proof {
            lemma_small_mod(q@, modulus());
            lemma_word_of_view(q);
        }
        q
    }
}

/// The remainder of the signed division, with the sign of the dividend.
/// The remainder by zero is zero.
pub fn i256_mod(a: Word, b: Word) -> (r: Word)
    ensures
        r == spec_smod(a, b),
{
    if b.is_zero() {
        return Word::zero();
    }
    let x = magnitude(a);
    let y = magnitude(b);
    let m = u256_rem(x, y);
    if a.sign_bit() {
        negate(m)
    } else {
        proof {
            lemma_small_mod(m@, modulus());
            lemma_word_of_view(m);
        }
        m
    }
}

/// Signed division and signed remainder by zero give zero.
pub proof fn lemma_sdiv_smod_by_zero(a: Word, b: Word)
    requires
        b@ == 0,
    ensures
        spec_sdiv(a, b)@ == 0,
        spec_smod(a, b)@ == 0,
{
}

/// The most negative number divided by -1 is the most negative number.
pub proof fn lemma_sdiv_min_by_minus_one(a: Word, b: Word)
    requires
        a@ == sign_weight(),
        b@ == modulus() - 1,
    ensures
        spec_sdiv(a, b) == a,
{
    assert(abs(to_int(a)) == sign_weight());
    assert(abs(to_int(b)) == 1);
    lemma_fundamental_div_mod_converse(sign_weight() as int, 1, sign_weight() as int, 0);
    lemma_small_mod(sign_weight(), modulus());
    lemma_word_of_view(a);
}

} // verus!
