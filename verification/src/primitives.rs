//! The operations that this crate takes from `alloy_primitives` and from the
//! `ruint` integers behind it.  Each function here makes one outside call;
//! its contract is taken on trust from the outside crate's documentation and
//! source, and everything else in the crate is proved on top of these.

use vstd::prelude::*;
use vstd::arithmetic::power::pow;
use vstd::arithmetic::power2::pow2;
use alloy_primitives::U256;
use crate::word::{Word, Address, modulus, sign_weight};

verus! {

/// The number that a byte string spells out, most significant byte first.
pub open spec fn be_nat(bytes: Seq<u8>) -> nat
    decreases bytes.len(),
{
    if bytes.len() == 0 {
        0
    } else {
        be_nat(bytes.drop_last()) * 256 + bytes.last() as nat
    }
}

/// The value of a hexadecimal digit, upper or lower case.
pub open spec fn hex_digit(c: char) -> Option<nat> {
    if '0' <= c <= '9' {
        Some((c as nat - '0' as nat) as nat)
    } else if 'a' <= c <= 'f' {
        Some((c as nat - 'a' as nat + 10) as nat)
    } else if 'A' <= c <= 'F' {
        Some((c as nat - 'A' as nat + 10) as nat)
    } else {
        None
    }
}

/// The number that a string of hexadecimal digits spells out, most
/// significant digit first.  Underscores between digits are passed over; any
/// other character makes the string invalid.  The empty string is 0.
pub open spec fn hex_nat(s: Seq<char>) -> Option<nat>
    decreases s.len(),
{
    if s.len() == 0 {
        Some(0)
    } else {
        match hex_nat(s.drop_last()) {
            None => None,
            Some(high) => if s.last() == '_' {
                Some(high)
            } else {
                match hex_digit(s.last()) {
                    None => None,
                    Some(d) => Some(high * 16 + d),
                }
            },
        }
    }
}

/// The character of a hexadecimal digit.
pub open spec fn hex_char(digit: int) -> char {
    "0123456789abcdef"@[digit]
}

/// The bytes in hexadecimal, two lower-case digits for each byte.
pub open spec fn spec_hex_encode(bytes: Seq<u8>) -> Seq<char> {
    Seq::new(
        2 * bytes.len(),
        |i: int|
            if i % 2 == 0 {
                hex_char(bytes[i / 2] as int / 16)
            } else {
                hex_char(bytes[i / 2] as int % 16)
            },
    )
}

/// The Keccak-256 digest of a byte string, read as a big-endian number.
pub uninterp spec fn keccak256_of(data: Seq<u8>) -> nat;

/// The address of a contract that the account `caller` creates with the
/// plain creation scheme at account nonce `nonce`.
pub uninterp spec fn create_address_of(caller: nat, nonce: u64) -> nat;

/// The address of a contract that the account `caller` creates with the
/// salted creation scheme from a salt and the digest of the creation code.
pub uninterp spec fn create2_address_of(caller: nat, salt: nat, code_hash: nat) -> nat;

/// The error of `ruint`'s string parser.
#[verifier::external_type_specification]
#[verifier::external_body]
pub struct ExParseError(alloy_primitives::ruint::ParseError);

/// `Uint::wrapping_add`: the sum, wrapping around at 2^256.
#[verifier::external_body]
pub(crate) fn u256_wrapping_add(a: Word, b: Word) -> (r: Word)
    ensures
        r@ == (a@ + b@) % modulus(),
{
    let x = U256::from_limbs([a.l0, a.l1, a.l2, a.l3]);
    let y = U256::from_limbs([b.l0, b.l1, b.l2, b.l3]);
    let l = x.wrapping_add(y).into_limbs();
    Word { l0: l[0], l1: l[1], l2: l[2], l3: l[3] }
}

/// `Uint::wrapping_sub`: the difference, wrapping around at 2^256.
#[verifier::external_body]
pub(crate) fn u256_wrapping_sub(a: Word, b: Word) -> (r: Word)
    ensures
        r@ == (a@ - b@) % (modulus() as int),
{
    let x = U256::from_limbs([a.l0, a.l1, a.l2, a.l3]);
    let y = U256::from_limbs([b.l0, b.l1, b.l2, b.l3]);
    let l = x.wrapping_sub(y).into_limbs();
    Word { l0: l[0], l1: l[1], l2: l[2], l3: l[3] }
}

/// `Uint::wrapping_mul`: the product, wrapping around at 2^256.
#[verifier::external_body]
pub(crate) fn u256_wrapping_mul(a: Word, b: Word) -> (r: Word)
    ensures
        r@ == (a@ * b@) % modulus(),
{
    let x = U256::from_limbs([a.l0, a.l1, a.l2, a.l3]);
    let y = U256::from_limbs([b.l0, b.l1, b.l2, b.l3]);
    let l = x.wrapping_mul(y).into_limbs();
    Word { l0: l[0], l1: l[1], l2: l[2], l3: l[3] }
}

/// `Uint::wrapping_div`: the quotient rounded down.  The outside function
/// panics on a zero divisor, which the precondition leaves out.
#[verifier::external_body]
pub(crate) fn u256_div(a: Word, b: Word) -> (r: Word)
    requires
        b@ != 0,
    ensures
        r@ == a@ / b@,
{
    let x = U256::from_limbs([a.l0, a.l1, a.l2, a.l3]);
    let y = U256::from_limbs([b.l0, b.l1, b.l2, b.l3]);
    let l = x.wrapping_div(y).into_limbs();
    Word { l0: l[0], l1: l[1], l2: l[2], l3: l[3] }
}

/// `Uint::wrapping_rem`: the remainder of the division rounded down.  The
/// outside function panics on a zero divisor, which the precondition leaves
/// out.
#[verifier::external_body]
pub(crate) fn u256_rem(a: Word, b: Word) -> (r: Word)
    requires
        b@ != 0,
    ensures
        r@ == a@ % b@,
{
    let x = U256::from_limbs([a.l0, a.l1, a.l2, a.l3]);
    let y = U256::from_limbs([b.l0, b.l1, b.l2, b.l3]);
    let l = x.wrapping_rem(y).into_limbs();
    Word { l0: l[0], l1: l[1], l2: l[2], l3: l[3] }
}

/// `Uint::pow`: the power, wrapping around at 2^256.
#[verifier::external_body]
pub(crate) fn u256_pow(a: Word, e: Word) -> (r: Word)
    ensures
        r@ == pow(a@ as int, e@) % (modulus() as int),
{
    let x = U256::from_limbs([a.l0, a.l1, a.l2, a.l3]);
    let y = U256::from_limbs([e.l0, e.l1, e.l2, e.l3]);
    let l = x.pow(y).into_limbs();
    Word { l0: l[0], l1: l[1], l2: l[2], l3: l[3] }
}

/// `Uint::wrapping_shl`: the value times 2^n, modulo 2^256, for every `n`.
#[verifier::external_body]
pub(crate) fn u256_shl(a: Word, n: usize) -> (r: Word)
    ensures
        r@ == (a@ * pow2(n as nat)) % modulus(),
{
    let x = U256::from_limbs([a.l0, a.l1, a.l2, a.l3]);
    let l = x.wrapping_shl(n).into_limbs();
    Word { l0: l[0], l1: l[1], l2: l[2], l3: l[3] }
}

/// `Uint::wrapping_shr`: the value divided by 2^n, rounded down, for every
/// `n`.
#[verifier::external_body]
pub(crate) fn u256_shr(a: Word, n: usize) -> (r: Word)
    ensures
        r@ == a@ / pow2(n as nat),
{
    let x = U256::from_limbs([a.l0, a.l1, a.l2, a.l3]);
    let l = x.wrapping_shr(n).into_limbs();
    Word { l0: l[0], l1: l[1], l2: l[2], l3: l[3] }
}

/// `Uint::arithmetic_shr`: the logical shift right by `n`, with the top `n`
/// bits set when bit 255 of the value is set.
#[verifier::external_body]
pub(crate) fn u256_sar(a: Word, n: usize) -> (r: Word)
    requires
        n <= 255,
    ensures
        a@ < sign_weight() ==> r@ == a@ / pow2(n as nat),
        a@ >= sign_weight() ==> r@ == a@ / pow2(n as nat) + modulus() - pow2((256 - n) as nat),
{
    let x = U256::from_limbs([a.l0, a.l1, a.l2, a.l3]);
    let l = x.arithmetic_shr(n).into_limbs();
    Word { l0: l[0], l1: l[1], l2: l[2], l3: l[3] }
}

/// `Uint::from_be_slice`: the number that at most 32 bytes spell out, most
/// significant byte first.  The outside function panics on more than 32
/// bytes, which the precondition leaves out.
#[verifier::external_body]
pub(crate) fn u256_from_be_slice(bytes: &[u8]) -> (r: Word)
    requires
        bytes@.len() <= 32,
    ensures
        r@ == be_nat(bytes@),
{
    let l = U256::from_be_slice(bytes).into_limbs();
    Word { l0: l[0], l1: l[1], l2: l[2], l3: l[3] }
}

/// `Uint::to_be_bytes_vec`: the 32 bytes that spell the value out, most
/// significant byte first.
#[verifier::external_body]
pub(crate) fn u256_to_be_bytes(a: Word) -> (r: Vec<u8>)
    ensures
        r@.len() == 32,
        be_nat(r@) == a@,
{
    U256::from_limbs([a.l0, a.l1, a.l2, a.l3]).to_be_bytes_vec()
}

/// `Uint::from_str_radix` with radix 16, on the string made of `digits`: the
/// number that the digits spell out, with underscores passed over; an error
/// on any other character and on a number that does not fit in 256 bits.
#[verifier::external_body]
pub(crate) fn u256_from_hex(digits: &[char]) -> (r: Result<Word, alloy_primitives::ruint::ParseError>)
    ensures
        r is Ok <==> (hex_nat(digits@) is Some && hex_nat(digits@)->0 < modulus()),
        r is Ok ==> r->Ok_0@ == hex_nat(digits@)->0,
{
    let text: String = digits.iter().collect();
    match U256::from_str_radix(&text, 16) {
        Ok(v) => {
            let l = v.into_limbs();
            Ok(Word { l0: l[0], l1: l[1], l2: l[2], l3: l[3] })
        },
        Err(e) => Err(e),
    }
}

/// `hex::encode`: the bytes in hexadecimal, two lower-case digits for each
/// byte.
#[verifier::external_body]
pub(crate) fn hex_encode(data: &[u8]) -> (r: String)
    ensures
        r@ == spec_hex_encode(data@),
{
    hex::encode(data)
}

/// `alloy_primitives::keccak256`: the Keccak-256 digest of the bytes, as a
/// big-endian word.
#[verifier::external_body]
pub(crate) fn keccak256_word(data: &[u8]) -> (r: Word)
    ensures
        r@ == keccak256_of(data@),
{
    let l = U256::from_be_bytes::<32>(alloy_primitives::keccak256(data).0).into_limbs();
    Word { l0: l[0], l1: l[1], l2: l[2], l3: l[3] }
}

/// `Address::create`: the address of a contract created by `caller` at
/// account nonce `nonce`.
#[verifier::external_body]
pub(crate) fn address_create(caller: Address, nonce: u64) -> (r: Address)
    ensures
        r@ == create_address_of(caller@, nonce),
{
    let w = U256::from_limbs([caller.l0, caller.l1, caller.l2 as u64, 0]);
    let a = alloy_primitives::Address::from_word(alloy_primitives::B256::new(w.to_be_bytes::<32>()));
    let l = U256::from_be_bytes::<32>(a.create(nonce).into_word().0).into_limbs();
    Address { l0: l[0], l1: l[1], l2: l[2] as u32 }
}

/// `Address::create2`: the address of a contract created by `caller` from a
/// salt and the digest of the creation code.
#[verifier::external_body]
pub(crate) fn address_create2(caller: Address, salt: Word, code_hash: Word) -> (r: Address)
    ensures
        r@ == create2_address_of(caller@, salt@, code_hash@),
{
    let w = U256::from_limbs([caller.l0, caller.l1, caller.l2 as u64, 0]);
    let a = alloy_primitives::Address::from_word(alloy_primitives::B256::new(w.to_be_bytes::<32>()));
    let s = U256::from_limbs([salt.l0, salt.l1, salt.l2, salt.l3]).to_be_bytes::<32>();
    let h = U256::from_limbs([code_hash.l0, code_hash.l1, code_hash.l2, code_hash.l3]).to_be_bytes::<32>();
    let l = U256::from_be_bytes::<32>(a.create2(s, h).into_word().0).into_limbs();
    Address { l0: l[0], l1: l[1], l2: l[2] as u32 }
}

} // verus!
