//! Word arithmetic: what each operation computes, as a function on numbers,
//! and the executable operation that is proved to compute it.

use vstd::prelude::*;
use vstd::arithmetic::power::pow;
use vstd::arithmetic::power2::{
    pow2, lemma2_to64, lemma2_to64_rest, lemma_pow2_adds, lemma_pow2_pos,
    lemma_pow2_strictly_increases,
};
use vstd::arithmetic::div_mod::{
    lemma_fundamental_div_mod_converse, lemma_small_mod, lemma_mod_bound, lemma_fundamental_div_mod,
    lemma_div_pos_is_pos,
};
use vstd::arithmetic::mul::lemma_mul_nonnegative;
use crate::word::{
    Word, modulus, sign_weight, limb_base, word_of, lemma_word_of_view, lemma_view_word_of,
    u256_to_usize,
};
use crate::primitives::{
    be_nat, u256_from_be_slice, u256_to_be_bytes, u256_wrapping_add, u256_wrapping_sub,
    u256_wrapping_mul, u256_div, u256_rem, u256_pow, u256_shl, u256_shr, u256_sar,
};

verus! {

/// `a + b` modulo 2^256.
pub open spec fn spec_add(a: Word, b: Word) -> Word {
    word_of((a@ + b@) % modulus())
}

/// `a - b` modulo 2^256.
pub open spec fn spec_sub(a: Word, b: Word) -> Word {
    word_of(((a@ - b@) % (modulus() as int)) as nat)
}

/// `a * b` modulo 2^256.
pub open spec fn spec_mul(a: Word, b: Word) -> Word {
    word_of((a@ * b@) % modulus())
}

/// `a / b` rounded down; 0 when `b` is 0.
pub open spec fn spec_div(a: Word, b: Word) -> Word {
    if b@ == 0 {
        word_of(0)
    } else {
        word_of(a@ / b@)
    }
}

/// `a mod b`; 0 when `b` is 0.
pub open spec fn spec_rem(a: Word, b: Word) -> Word {
    if b@ == 0 {
        word_of(0)
    } else {
        word_of(a@ % b@)
    }
}

/// The wrapped sum of `a` and `b`, reduced modulo `c`; 0 when `c` is 0.
pub open spec fn spec_add_mod(a: Word, b: Word, c: Word) -> Word {
    spec_rem(spec_add(a, b), c)
}

/// The wrapped product of `a` and `b`, reduced modulo `c`; 0 when `c` is 0.
pub open spec fn spec_mul_mod(a: Word, b: Word, c: Word) -> Word {
    spec_rem(spec_mul(a, b), c)
}

/// `a` to the power `e`, modulo 2^256.
pub open spec fn spec_exp(a: Word, e: Word) -> Word {
    word_of((pow(a@ as int, e@) % (modulus() as int)) as nat)
}

/// `value` shifted left by `shift` bits; 0 from 256 bits on.
pub open spec fn spec_shl(shift: Word, value: Word) -> Word {
    if shift@ >= 256 {
        word_of(0)
    } else {
        word_of((value@ * pow2(shift@)) % modulus())
    }
}

/// `value` shifted right by `shift` bits; 0 from 256 bits on.
pub open spec fn spec_shr(shift: Word, value: Word) -> Word {
    if shift@ >= 256 {
        word_of(0)
    } else {
        word_of(value@ / pow2(shift@))
    }
}

/// The number that a word stands for in two's complement.
pub open spec fn to_int(w: Word) -> int {
    if w@ >= sign_weight() {
        w@ - modulus()
    } else {
        w@ as int
    }
}

/// The word that stands for an integer in two's complement, modulo 2^256.
pub open spec fn word_of_int(i: int) -> Word {
    word_of((i % (modulus() as int)) as nat)
}

/// `value` shifted right by `shift` bits as a two's-complement number:
/// the signed value divided by 2^shift, rounded towards minus infinity.
/// From 255 bits on, that is all ones for a negative value and 0 otherwise.
pub open spec fn spec_sar(shift: Word, value: Word) -> Word {
    if shift@ >= 255 {
        if value@ >= sign_weight() {
            word_of((modulus() - 1) as nat)
        } else {
            word_of(0)
        }
    } else {
        word_of_int(to_int(value) / (pow2(shift@) as int))
    }
}

/// Byte `i` of `x`, counted from the most significant byte; 0 for `i` from
/// 32 on.
pub open spec fn spec_byte(i: Word, x: Word) -> Word {
    if i@ >= 32 {
        word_of(0)
    } else {
        word_of((x@ / pow2((8 * (31 - i@)) as nat)) % 256)
    }
}

/// The low `k + 1` bytes of `x`, read as a two's-complement number and
/// widened to 256 bits; `x` itself for `k` from 31 on.
pub open spec fn spec_sign_extend(k: Word, x: Word) -> Word {
    if k@ >= 31 {
        x
    } else {
        let m = pow2(8 * (k@ + 1));
        let low = x@ % m;
        if low >= pow2(8 * k@ + 7) {
            word_of((low + modulus() - m) as nat)
        } else {
            word_of(low)
        }
    }
}

/// Bitwise and.
pub open spec fn spec_and(a: Word, b: Word) -> Word {
    Word { l0: a.l0 & b.l0, l1: a.l1 & b.l1, l2: a.l2 & b.l2, l3: a.l3 & b.l3 }
}

/// Bitwise or.
pub open spec fn spec_or(a: Word, b: Word) -> Word {
    Word { l0: a.l0 | b.l0, l1: a.l1 | b.l1, l2: a.l2 | b.l2, l3: a.l3 | b.l3 }
}

/// Bitwise exclusive or.
pub open spec fn spec_xor(a: Word, b: Word) -> Word {
    Word { l0: a.l0 ^ b.l0, l1: a.l1 ^ b.l1, l2: a.l2 ^ b.l2, l3: a.l3 ^ b.l3 }
}

/// Bitwise complement.
pub open spec fn spec_not(a: Word) -> Word {
    Word { l0: !a.l0, l1: !a.l1, l2: !a.l2, l3: !a.l3 }
}

/// Bit `i` of a number.
pub open spec fn bit_of(n: nat, i: nat) -> bool {
    (n / pow2(i)) % 2 == 1
}

/// 2^256 as a power of two.
pub proof fn lemma_pow2_256()
    ensures
        pow2(64) == limb_base(),
        pow2(128) == crate::word::limb_base2(),
        pow2(192) == crate::word::limb_base3(),
        pow2(255) == sign_weight(),
        pow2(256) == modulus(),
{
    lemma2_to64();
    lemma2_to64_rest();
    lemma_pow2_adds(64, 64);
    lemma_pow2_adds(128, 64);
    lemma_pow2_adds(192, 63);
    lemma_pow2_adds(192, 64);
    assert(pow2(128) == 0x1_0000_0000_0000_0000nat * 0x1_0000_0000_0000_0000nat);
    assert(pow2(192) == pow2(128) * 0x1_0000_0000_0000_0000nat);
    assert(pow2(255) == pow2(192) * 0x8000_0000_0000_0000nat);
    assert(pow2(256) == pow2(192) * 0x1_0000_0000_0000_0000nat);
}

/// A power of two with exponent below 256 is below 2^256.
pub proof fn lemma_pow2_below_modulus(n: nat)
    requires
        n < 256,
    ensures
        0 < pow2(n) < modulus(),
{
    lemma_pow2_256();
    lemma_pow2_pos(n);
    lemma_pow2_strictly_increases(n, 256);
}

impl Word {
    /// Addition modulo 2^256.
    pub fn wrapping_add(self, rhs: Word) -> (r: Word)
        ensures
            r == spec_add(self, rhs),
            r@ == (self@ + rhs@) % modulus(),
    {
        let r = u256_wrapping_add(self, rhs);
        proof {
            lemma_word_of_view(r);
        }
        r
    }

    /// Subtraction modulo 2^256.
    pub fn wrapping_sub(self, rhs: Word) -> (r: Word)
        ensures
            r == spec_sub(self, rhs),
            r@ == (self@ - rhs@) % (modulus() as int),
    {
        let r = u256_wrapping_sub(self, rhs);
        proof {
            lemma_word_of_view(r);
        }
        r
    }

    /// Multiplication modulo 2^256.
    pub fn wrapping_mul(self, rhs: Word) -> (r: Word)
        ensures
            r == spec_mul(self, rhs),
            r@ == (self@ * rhs@) % modulus(),
    {
        let r = u256_wrapping_mul(self, rhs);
        proof {
            lemma_word_of_view(r);
        }
        r
    }

    /// Division rounded down, with 0 for a zero divisor.
    pub fn div(self, rhs: Word) -> (r: Word)
        ensures
            r == spec_div(self, rhs),
            rhs@ == 0 ==> r@ == 0,
            rhs@ != 0 ==> r@ == self@ / rhs@,
    {
        if rhs.is_zero() {
            Word::zero()
        } else {
            let r = u256_div(self, rhs);
            proof {
                lemma_word_of_view(r);
            }
            r
        }
    }

    /// Remainder, with 0 for a zero divisor.
    pub fn rem(self, rhs: Word) -> (r: Word)
        ensures
            r == spec_rem(self, rhs),
            rhs@ == 0 ==> r@ == 0,
            rhs@ != 0 ==> r@ == self@ % rhs@,
    {
        if rhs.is_zero() {
            Word::zero()
        } else {
            let r = u256_rem(self, rhs);
            proof {
                lemma_word_of_view(r);
            }
            r
        }
    }

    /// The wrapped sum of `self` and `b`, reduced modulo `c`.
    pub fn add_mod(self, b: Word, c: Word) -> (r: Word)
        ensures
            r == spec_add_mod(self, b, c),
    {
        self.wrapping_add(b).rem(c)
    }

    /// The wrapped product of `self` and `b`, reduced modulo `c`.
    pub fn mul_mod(self, b: Word, c: Word) -> (r: Word)
        ensures
            r == spec_mul_mod(self, b, c),
    {
        self.wrapping_mul(b).rem(c)
    }

    /// Exponentiation modulo 2^256.
    pub fn exp(self, e: Word) -> (r: Word)
        ensures
            r == spec_exp(self, e),
    {
        let r = u256_pow(self, e);
        proof {
            lemma_word_of_view(r);
        }
        r
    }

    /// `value` shifted left by `self` bits.
    pub fn shl(self, value: Word) -> (r: Word)
        ensures
            r == spec_shl(self, value),
    {
        let n: usize = u256_to_usize(self);
        if n >= 256 {
            Word::zero()
        } else {
            let r = u256_shl(value, n);
            proof {
                lemma_word_of_view(r);
            }
            r
        }
    }

    /// `value` shifted right by `self` bits.
    pub fn shr(self, value: Word) -> (r: Word)
        ensures
            r == spec_shr(self, value),
    {
        let n: usize = u256_to_usize(self);
        if n >= 256 {
            Word::zero()
        } else {
            let r = u256_shr(value, n);
            proof {
                lemma_word_of_view(r);
            }
            r
        }
    }

    /// `value` shifted right by `self` bits, keeping the sign.
    pub fn sar(self, value: Word) -> (r: Word)
        ensures
            r == spec_sar(self, value),
    {
        let n: usize = u256_to_usize(self);
        if n >= 255 {
            if value.sign_bit() {
                Word::max_value()
            } else {
                Word::zero()
            }
        } else {
            let r = u256_sar(value, n);
            proof {
                lemma_sar(value, n as nat, r);
            }
            r
        }
    }

    /// Byte `self` of `x`, counted from the most significant byte.
    pub fn byte(self, x: Word) -> (r: Word)
        ensures
            r == spec_byte(self, x),
    {
        let n: usize = u256_to_usize(self);
        if n >= 32 {
            Word::zero()
        } else {
            let shifted = u256_shr(x, 8 * (31 - n));
            Word::from_u64(shifted.low_u8() as u64)
        }
    }

    /// Widens the low `self + 1` bytes of `x` as a two's-complement number.
    pub fn sign_extend(self, x: Word) -> (r: Word)
        ensures
            r == spec_sign_extend(self, x),
    {
        let k: usize = u256_to_usize(self);
        if k >= 31 {
            x
        } else {
            proof {
                lemma_pow2_below_modulus((8 * (k + 1)) as nat);
                lemma_pow2_below_modulus((8 * k + 7) as nat);
                lemma_small_mod(pow2((8 * (k + 1)) as nat), modulus());
                lemma_small_mod(pow2((8 * k + 7) as nat), modulus());
            }
            let m = u256_shl(Word::one(), 8 * (k + 1));
            let half = u256_shl(Word::one(), 8 * k + 7);
            assert(m@ == pow2((8 * (k + 1)) as nat));
            assert(half@ == pow2((8 * k + 7) as nat));
            let low = u256_rem(x, m);
            if low.lt(&half) {
                proof {
                    lemma_word_of_view(low);
                }
                low
            } else {
                let r = u256_wrapping_sub(low, m);
                proof {
                    lemma_mod_bound(x@ as int, m@ as int);
                    lemma_fundamental_div_mod_converse(
                        low@ - m@,
                        modulus() as int,
                        -1,
                        low@ - m@ + modulus(),
                    );
                    lemma_word_of_view(r);
                }
                r
            }
        }
    }

    /// The word that at most 32 bytes spell out, most significant byte
    /// first.
    pub fn from_be_slice(bytes: &[u8]) -> (r: Word)
        requires
            bytes@.len() <= 32,
        ensures
            r == word_of(be_nat(bytes@)),
            r@ == be_nat(bytes@),
    {
        let r = u256_from_be_slice(bytes);
        proof {
            lemma_word_of_view(r);
        }
        r
    }

    /// The 32 bytes of the word, most significant byte first.
    pub fn to_be_bytes(self) -> (r: Vec<u8>)
        ensures
            r@ == crate::mem::word_bytes(self),
    {
        let r = u256_to_be_bytes(self);
        proof {
            crate::mem::lemma_word_bytes(self, r@);
        }
        r
    }

    /// Bitwise and.
    pub fn bitand(self, rhs: Word) -> (r: Word)
        ensures
            r == spec_and(self, rhs),
    {
        Word {
            l0: self.l0 & rhs.l0,
            l1: self.l1 & rhs.l1,
            l2: self.l2 & rhs.l2,
            l3: self.l3 & rhs.l3,
        }
    }

    /// Bitwise or.
    pub fn bitor(self, rhs: Word) -> (r: Word)
        ensures
            r == spec_or(self, rhs),
    {
        Word {
            l0: self.l0 | rhs.l0,
            l1: self.l1 | rhs.l1,
            l2: self.l2 | rhs.l2,
            l3: self.l3 | rhs.l3,
        }
    }

    /// Bitwise exclusive or.
    pub fn bitxor(self, rhs: Word) -> (r: Word)
        ensures
            r == spec_xor(self, rhs),
    {
        Word {
            l0: self.l0 ^ rhs.l0,
            l1: self.l1 ^ rhs.l1,
            l2: self.l2 ^ rhs.l2,
            l3: self.l3 ^ rhs.l3,
        }
    }

    /// Bitwise complement.
    pub fn not(self) -> (r: Word)
        ensures
            r == spec_not(self),
    {
        Word { l0: !self.l0, l1: !self.l1, l2: !self.l2, l3: !self.l3 }
    }
}

/// The outside arithmetic shift, stated as a division of the signed value.
proof fn lemma_sar(value: Word, n: nat, r: Word)
    requires
        n < 255,
        value@ < sign_weight() ==> r@ == value@ / pow2(n),
        value@ >= sign_weight() ==> r@ == value@ / pow2(n) + modulus() - pow2((256 - n) as nat),
    ensures
        r == word_of_int(to_int(value) / (pow2(n) as int)),
{
    lemma_pow2_256();
    lemma_pow2_pos(n);
    lemma_pow2_pos((256 - n) as nat);
    let d = pow2(n) as int;
    let m = modulus() as int;
    let x = value@ as int;
    let q = x / d;
    lemma_fundamental_div_mod(x, d);
    lemma_mod_bound(x, d);
    if value@ < sign_weight() {
        lemma_div_pos_is_pos(x, d);
        lemma_small_mod(r@, modulus());
        lemma_word_of_view(r);
    } else {
        let c = pow2((256 - n) as nat) as int;
        lemma_pow2_adds((256 - n) as nat, n);
        assert(m == c * d);
        assert(x - m == d * (q - c) + x % d) by (nonlinear_arith)
            requires
                x == d * q + x % d,
                m == c * d,
        ;
        lemma_fundamental_div_mod_converse(x - m, d, q - c, x % d);
        assert((x - m) / d == q - c);
        // q - c lies in [-2^255, 0), so adding the modulus reduces it.
        if n > 0 {
            lemma_pow2_strictly_increases((256 - n) as nat, 256);
        }
        assert(q < c) by (nonlinear_arith)
            requires
                x == d * q + x % d,
                x < m,
                m == c * d,
                0 <= x % d,
                d > 0,
        ;
        lemma_div_pos_is_pos(x, d);
        lemma_fundamental_div_mod_converse(q - c, m, -1, q - c + m);
        lemma_word_of_view(r);
    }
}

/// Splits a number at bit `n`: `x = high * 2^n + low` with `low < 2^n`.
proof fn lemma_split(x: nat, n: nat)
    ensures
        pow2(n) > 0,
        x == pow2(n) * (x / pow2(n)) + x % pow2(n),
        x % pow2(n) < pow2(n),
{
    lemma_pow2_pos(n);
    lemma_fundamental_div_mod(x as int, pow2(n) as int);
    lemma_mod_bound(x as int, pow2(n) as int);
}

/// Addition, subtraction and multiplication of words are the operations on
/// numbers, taken modulo 2^256.
pub proof fn lemma_add_sub_mul_wrap(a: Word, b: Word)
    ensures
        spec_add(a, b)@ == (a@ + b@) % modulus(),
        spec_sub(a, b)@ == (a@ - b@) % (modulus() as int),
        spec_mul(a, b)@ == (a@ * b@) % modulus(),
{
    lemma_mod_bound((a@ + b@) as int, modulus() as int);
    lemma_mod_bound(a@ - b@, modulus() as int);
    lemma_mul_nonnegative(a@ as int, b@ as int);
    lemma_mod_bound((a@ * b@) as int, modulus() as int);
    lemma_view_word_of((a@ + b@) % modulus());
    lemma_view_word_of(((a@ - b@) % (modulus() as int)) as nat);
    lemma_view_word_of((a@ * b@) % modulus());
}

/// Unsigned division and remainder by zero give zero.
pub proof fn lemma_div_rem_by_zero(a: Word, b: Word)
    requires
        b@ == 0,
    ensures
        spec_div(a, b)@ == 0,
        spec_rem(a, b)@ == 0,
{
}

/// Shifting left by `n` bits and back right by `n` bits keeps the low
/// `256 - n` bits of a word and clears the rest.
pub proof fn lemma_shl_shr_keeps_low_bits(n: Word, x: Word)
    requires
        n@ <= 255,
    ensures
        spec_shr(n, spec_shl(n, x))@ == x@ % pow2((256 - n@) as nat),
{
    let k = n@;
    let s = pow2(k);
    let t = pow2((256 - k) as nat);
    lemma_pow2_256();
    lemma_pow2_adds((256 - k) as nat, k);
    lemma_split(x@, (256 - k) as nat);
    lemma_pow2_pos(k);
    let hi = x@ / t;
    let lo = x@ % t;
    assert(t * s == modulus());
    assert(lo * s < modulus()) by (nonlinear_arith)
        requires
            lo < t,
            s > 0,
            t * s == modulus(),
    ;
    assert(x@ * s == modulus() * hi + lo * s) by (nonlinear_arith)
        requires
            x@ == t * hi + lo,
            t * s == modulus(),
    ;
    lemma_fundamental_div_mod_converse(
        (x@ * s) as int,
        modulus() as int,
        hi as int,
        (lo * s) as int,
    );
    lemma_view_word_of(lo * s);
    assert(spec_shl(n, x)@ == lo * s);
    assert(lo * s == s * lo + 0) by (nonlinear_arith);
    lemma_fundamental_div_mod_converse((lo * s) as int, s as int, lo as int, 0);
    assert((lo * s) / s == lo);
    lemma_pow2_strictly_increases((256 - k) as nat, 257);
    if k > 0 {
        lemma_pow2_strictly_increases((256 - k) as nat, 256);
    }
    lemma_view_word_of(lo);
}

/// Complementing a word twice gives the word back.
pub proof fn lemma_not_not(x: Word)
    ensures
        spec_not(spec_not(x)) == x,
{
    let a = x.l0;
    let b = x.l1;
    let c = x.l2;
    let d = x.l3;
    assert(!(!a) == a) by (bit_vector);
    assert(!(!b) == b) by (bit_vector);
    assert(!(!c) == c) by (bit_vector);
    assert(!(!d) == d) by (bit_vector);
}

/// The value of a sign-extended word.
proof fn lemma_sign_extend_value(k: Word, x: Word)
    requires
        k@ <= 30,
    ensures
        x@ % pow2(8 * (k@ + 1)) >= pow2(8 * k@ + 7) ==> spec_sign_extend(k, x)@ == x@ % pow2(
            8 * (k@ + 1),
        ) + modulus() - pow2(8 * (k@ + 1)),
        x@ % pow2(8 * (k@ + 1)) < pow2(8 * k@ + 7) ==> spec_sign_extend(k, x)@ == x@ % pow2(
            8 * (k@ + 1),
        ),
        pow2(8 * (k@ + 1)) == 2 * pow2(8 * k@ + 7),
        0 < pow2(8 * (k@ + 1)) < modulus(),
{
    let b = 8 * (k@ + 1);
    lemma_pow2_below_modulus(b);
    lemma_split(x@, b);
    vstd::arithmetic::power2::lemma_pow2_unfold(b);
    assert((b - 1) as nat == 8 * k@ + 7);
    let low = x@ % pow2(b);
    if low >= pow2(8 * k@ + 7) {
        lemma_view_word_of((low + modulus() - pow2(b)) as nat);
    } else {
        lemma_view_word_of(low);
    }
}

/// Sign extension from byte `k` keeps the low `8 (k + 1)` bits of a word
/// and copies bit `8 k + 7` into every bit above it.
pub proof fn lemma_sign_extend_bits(k: Word, x: Word)
    requires
        k@ <= 30,
    ensures
        spec_sign_extend(k, x)@ % pow2(8 * (k@ + 1)) == x@ % pow2(8 * (k@ + 1)),
        forall|i: nat|
            8 * k@ + 7 <= i < 256 ==> #[trigger] bit_of(spec_sign_extend(k, x)@, i) == bit_of(
                x@,
                8 * k@ + 7,
            ),
{
    let b = 8 * (k@ + 1);
    let sb = 8 * k@ + 7;
    let m = pow2(b);
    let h = pow2(sb);
    let r = spec_sign_extend(k, x)@;
    lemma_sign_extend_value(k, x);
    lemma_pow2_256();
    lemma_split(x@, b);
    lemma_pow2_pos(sb);
    let low = x@ % m;
    let big_q = x@ / m;
    let e: nat = if low >= h { 1 } else { 0 };
    // Bit `sb` of `x` is `e`.
    let eh: nat = if low >= h { h } else { 0 };
    assert(x@ == (2 * big_q + e) * h + (low - eh)) by (nonlinear_arith)
        requires
            x@ == m * big_q + low,
            m == 2 * h,
            eh == e * h,
    ;
    lemma_fundamental_div_mod_converse(x@ as int, h as int, (2 * big_q + e) as int, low - eh);
    lemma_fundamental_div_mod_converse((2 * big_q + e) as int, 2, big_q as int, e as int);
    assert(bit_of(x@, sb) == (e == 1));
    // The low bits are kept.
    if e == 1 {
        lemma_pow2_adds((256 - b) as nat, b);
        let c = pow2((256 - b) as nat);
        lemma_pow2_pos((256 - b) as nat);
        assert(r == m * (c - 1) + low) by (nonlinear_arith)
            requires
                r == low + modulus() - m,
                c * m == modulus(),
        ;
        lemma_fundamental_div_mod_converse(r as int, m as int, c - 1, low as int);
    } else {
        lemma_small_mod(low, m);
    }
    // Every bit from `sb` on is `e`.
    assert forall|i: nat| sb <= i < 256 implies #[trigger] bit_of(r, i) == bit_of(x@, sb) by {
        let p = pow2(i);
        lemma_pow2_pos(i);
        if i > sb {
            lemma_pow2_strictly_increases(sb, i);
        }
        assert(h <= p);
        if e == 1 {
            let j = (256 - i) as nat;
            let c = pow2(j);
            lemma_pow2_adds(j, i);
            vstd::arithmetic::power2::lemma_pow2_unfold(j);
            let half_c = pow2((j - 1) as nat);
            assert(c == 2 * half_c);
            lemma_pow2_pos((j - 1) as nat);
            let rest = (p - (m - low)) as int;
            assert(r == p * (c - 1) + rest) by (nonlinear_arith)
                requires
                    r == low + modulus() - m,
                    c * p == modulus(),
                    rest == p - (m - low),
            ;
            lemma_fundamental_div_mod_converse(r as int, p as int, c - 1, rest);
            lemma_fundamental_div_mod_converse(c - 1, 2, half_c - 1, 1);
        } else {
            assert(r == low);
            lemma_fundamental_div_mod_converse(r as int, p as int, 0, r as int);
        }
    }
}

} // verus!
