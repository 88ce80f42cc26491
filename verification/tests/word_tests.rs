use evm_core::i256::{i256_cmp, i256_div, i256_mod};
use evm_core::word::{address_to_word, u256_to_address, u256_to_usize, Address, Word};
use std::cmp::Ordering;

fn w(v: u64) -> Word {
    Word::from_u64(v)
}

fn minus(v: u64) -> Word {
    Word::zero().wrapping_sub(w(v))
}

fn min_negative() -> Word {
    Word::from_limbs(0, 0, 0, 0x8000_0000_0000_0000)
}

#[test]
fn add_wraps_around() {
    assert_eq!(w(6).wrapping_add(w(7)), w(13));
    assert_eq!(Word::max_value().wrapping_add(w(1)), w(0));
    assert_eq!(Word::max_value().wrapping_add(Word::max_value()), minus(2));
    assert_eq!(
        Word::from_limbs(u64::MAX, 0, 0, 0).wrapping_add(w(1)),
        Word::from_limbs(0, 1, 0, 0)
    );
}

#[test]
fn sub_wraps_around() {
    assert_eq!(w(0).wrapping_sub(w(0)), w(0));
    assert_eq!(w(0).wrapping_sub(w(1)), Word::max_value());
    assert_eq!(w(10).wrapping_sub(w(3)), w(7));
    assert_eq!(Word::from_limbs(0, 1, 0, 0).wrapping_sub(w(1)), Word::from_limbs(u64::MAX, 0, 0, 0));
}

#[test]
fn mul_wraps_around() {
    assert_eq!(w(6).wrapping_mul(w(7)), w(42));
    assert_eq!(Word::from_limbs(0, 0, 0, 1).wrapping_mul(Word::from_limbs(0, 1, 0, 0)), w(0));
    assert_eq!(Word::max_value().wrapping_mul(w(2)), minus(2));
    assert_eq!(
        Word::from_limbs(1 << 63, 0, 0, 0).wrapping_mul(w(2)),
        Word::from_limbs(0, 1, 0, 0)
    );
}

#[test]
fn division_by_zero_is_zero() {
    assert_eq!(w(5).div(w(0)), w(0));
    assert_eq!(w(5).rem(w(0)), w(0));
    assert_eq!(i256_div(w(5), w(0)), w(0));
    assert_eq!(i256_mod(w(5), w(0)), w(0));
    assert_eq!(Word::max_value().div(w(0)), w(0));
    assert_eq!(i256_div(minus(5), w(0)), w(0));
}

#[test]
fn unsigned_division_and_remainder() {
    assert_eq!(w(17).div(w(5)), w(3));
    assert_eq!(w(17).rem(w(5)), w(2));
    assert_eq!(Word::max_value().div(Word::max_value()), w(1));
    assert_eq!(w(3).div(w(5)), w(0));
    assert_eq!(w(3).rem(w(5)), w(3));
}

#[test]
fn signed_division_rounds_towards_zero() {
    assert_eq!(i256_div(minus(7), w(2)), minus(3));
    assert_eq!(i256_div(w(7), minus(2)), minus(3));
    assert_eq!(i256_div(minus(7), minus(2)), w(3));
    assert_eq!(i256_div(w(7), w(2)), w(3));
    assert_eq!(i256_div(min_negative(), Word::max_value()), min_negative());
}

#[test]
fn signed_remainder_has_sign_of_dividend() {
    assert_eq!(i256_mod(minus(7), w(2)), minus(1));
    assert_eq!(i256_mod(w(7), minus(2)), w(1));
    assert_eq!(i256_mod(minus(7), minus(2)), minus(1));
    assert_eq!(i256_mod(w(7), w(2)), w(1));
    assert_eq!(i256_mod(minus(8), w(2)), w(0));
}

#[test]
fn signed_comparison() {
    assert_eq!(i256_cmp(&minus(1), &w(0)), Ordering::Less);
    assert_eq!(i256_cmp(&w(0), &minus(1)), Ordering::Greater);
    assert_eq!(i256_cmp(&minus(2), &minus(1)), Ordering::Less);
    assert_eq!(i256_cmp(&w(3), &w(3)), Ordering::Equal);
    assert_eq!(i256_cmp(&min_negative(), &Word::max_value()), Ordering::Less);
    assert_eq!(i256_cmp(&w(2), &w(1)), Ordering::Greater);
}

#[test]
fn unsigned_comparison() {
    assert!(w(1).lt(&w(2)));
    assert!(!w(2).lt(&w(2)));
    assert!(w(0).lt(&Word::max_value()));
    assert!(Word::from_limbs(u64::MAX, 0, 0, 0).lt(&Word::from_limbs(0, 1, 0, 0)));
    assert!(w(4).equals(&w(4)));
    assert!(!w(4).equals(&Word::from_limbs(4, 1, 0, 0)));
    assert!(w(0).is_zero());
    assert!(!Word::from_limbs(0, 0, 1, 0).is_zero());
}

#[test]
fn add_mod_and_mul_mod() {
    assert_eq!(w(10).add_mod(w(10), w(8)), w(4));
    assert_eq!(w(10).mul_mod(w(10), w(8)), w(4));
    assert_eq!(w(10).add_mod(w(10), w(0)), w(0));
    assert_eq!(w(10).mul_mod(w(10), w(0)), w(0));
    // the sum wraps before it is reduced
    assert_eq!(Word::max_value().add_mod(w(2), w(2)), w(1));
}

#[test]
fn exponentiation_wraps_around() {
    assert_eq!(w(2).exp(w(10)), w(1024));
    assert_eq!(w(2).exp(w(255)), min_negative());
    assert_eq!(w(2).exp(w(256)), w(0));
    assert_eq!(w(0).exp(w(0)), w(1));
    assert_eq!(w(7).exp(w(0)), w(1));
    assert_eq!(w(3).exp(w(5)), w(243));
    assert_eq!(Word::max_value().exp(w(2)), w(1));
}

#[test]
fn shifts() {
    assert_eq!(w(1).shl(w(1)), w(2));
    assert_eq!(w(4).shl(w(0xff)), w(0xff0));
    assert_eq!(w(255).shl(w(1)), min_negative());
    assert_eq!(w(256).shl(w(1)), w(0));
    assert_eq!(Word::max_value().shl(w(1)), w(0));
    assert_eq!(w(4).shr(w(0xff0)), w(0xff));
    assert_eq!(w(255).shr(min_negative()), w(1));
    assert_eq!(w(256).shr(Word::max_value()), w(0));
    assert_eq!(w(64).shl(w(1)), Word::from_limbs(0, 1, 0, 0));
    assert_eq!(w(64).shr(Word::from_limbs(0, 1, 0, 0)), w(1));
}

#[test]
fn shift_left_then_right_keeps_low_bits() {
    let x = Word::from_limbs(0x1122_3344_5566_7788, 0x99aa_bbcc_ddee_ff00, 0x0123_4567_89ab_cdef, 0xfedc_ba98_7654_3210);
    assert_eq!(w(64).shr(w(64).shl(x)), Word::from_limbs(x.l0, x.l1, x.l2, 0));
    assert_eq!(w(0).shr(w(0).shl(x)), x);
    assert_eq!(w(255).shr(w(255).shl(x)), w(0));
    assert_eq!(w(4).shr(w(4).shl(x)), Word::from_limbs(x.l0, x.l1, x.l2, x.l3 & 0x0fff_ffff_ffff_ffff));
}

#[test]
fn arithmetic_shift_right() {
    assert_eq!(w(1).sar(w(4)), w(2));
    assert_eq!(w(1).sar(minus(4)), minus(2));
    assert_eq!(w(1).sar(minus(3)), minus(2));
    assert_eq!(w(255).sar(minus(1)), Word::max_value());
    assert_eq!(w(255).sar(w(1)), w(0));
    assert_eq!(w(300).sar(min_negative()), Word::max_value());
    assert_eq!(w(254).sar(min_negative()), minus(2));
    assert_eq!(w(0).sar(minus(4)), minus(4));
}

#[test]
fn byte_counts_from_the_most_significant_end() {
    let x = Word::from_limbs(0x1122_3344_5566_7788, 0, 0, 0xab00_0000_0000_0000);
    assert_eq!(w(0).byte(x), w(0xab));
    assert_eq!(w(31).byte(x), w(0x88));
    assert_eq!(w(24).byte(x), w(0x11));
    assert_eq!(w(30).byte(x), w(0x77));
    assert_eq!(w(1).byte(x), w(0));
    assert_eq!(w(32).byte(x), w(0));
    assert_eq!(Word::max_value().byte(x), w(0));
}

#[test]
fn sign_extension() {
    assert_eq!(w(0).sign_extend(w(0x7f)), w(0x7f));
    assert_eq!(w(0).sign_extend(w(0x80)), minus(0x80));
    assert_eq!(w(0).sign_extend(w(0xff)), Word::max_value());
    assert_eq!(w(0).sign_extend(w(0x1234)), w(0x34));
    assert_eq!(w(1).sign_extend(w(0x8234)), minus(0x10000 - 0x8234));
    assert_eq!(w(1).sign_extend(w(0x12_7234)), w(0x7234));
    assert_eq!(w(30).sign_extend(Word::from_limbs(1, 0, 0, 0x0080_0000_0000_0000)), Word::from_limbs(1, 0, 0, 0xff80_0000_0000_0000));
    assert_eq!(w(31).sign_extend(w(0x80)), w(0x80));
    assert_eq!(Word::max_value().sign_extend(w(0x80)), w(0x80));
}

#[test]
fn bitwise_operations() {
    let a = Word::from_limbs(0b1100, 1, 0, u64::MAX);
    let b = Word::from_limbs(0b1010, 0, 1, 1);
    assert_eq!(a.bitand(b), Word::from_limbs(0b1000, 0, 0, 1));
    assert_eq!(a.bitor(b), Word::from_limbs(0b1110, 1, 1, u64::MAX));
    assert_eq!(a.bitxor(b), Word::from_limbs(0b0110, 1, 1, u64::MAX - 1));
    assert_eq!(w(0).not(), Word::max_value());
    assert_eq!(a.not().not(), a);
}

#[test]
fn conversions() {
    assert_eq!(u256_to_usize(w(77)), 77usize);
    assert_eq!(u256_to_usize(Word::from_limbs(0, 1, 0, 0)), usize::MAX);
    assert_eq!(u256_to_usize(Word::max_value()), usize::MAX);
    let word = Word::from_limbs(1, 2, 0xaaaa_bbbb_cccc_dddd, 4);
    let address = u256_to_address(word);
    assert_eq!(address, Address { l0: 1, l1: 2, l2: 0xcccc_dddd });
    assert_eq!(address_to_word(address), Word::from_limbs(1, 2, 0xcccc_dddd, 0));
    assert_eq!(Word::from_bool(true), w(1));
    assert_eq!(Word::from_bool(false), w(0));
    assert_eq!(Word::from_usize(9), w(9));
    assert_eq!(w(0x1234).low_u8(), 0x34);
    assert_eq!(Word::from_limbs(7, 9, 9, 9).low_u64(), 7);
    assert!(min_negative().sign_bit());
    assert!(!w(1).sign_bit());
}

#[test]
fn big_endian_bytes() {
    let word = Word::from_be_slice(&[0x12, 0x34]);
    assert_eq!(word, w(0x1234));
    let bytes = Word::from_limbs(0x0807_0605_0403_0201, 0, 0, 0xff00_0000_0000_0000).to_be_bytes();
    assert_eq!(bytes.len(), 32);
    assert_eq!(bytes[0], 0xff);
    assert_eq!(bytes[31], 0x01);
    assert_eq!(bytes[24], 0x08);
    assert_eq!(Word::from_be_slice(&bytes), Word::from_limbs(0x0807_0605_0403_0201, 0, 0, 0xff00_0000_0000_0000));
    assert_eq!(Word::from_be_slice(&[]), w(0));
}
