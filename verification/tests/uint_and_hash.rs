use ain_evm::hash::{Bloom, H160, H256};
use ain_evm::uint::U256;

#[test]
fn u256_from_u64_keeps_the_low_limb() {
    assert_eq!(U256::from_u64(7), U256([7, 0, 0, 0]));
    assert_eq!(U256::zero(), U256([0, 0, 0, 0]));
    assert_eq!(U256::one(), U256([1, 0, 0, 0]));
}

#[test]
fn u256_checked_add_carries_between_limbs() {
    let a = U256([u64::MAX, 0, 0, 0]);
    assert_eq!(a.checked_add(U256::one()), Some(U256([0, 1, 0, 0])));
    assert_eq!(U256([1, 2, 3, 4]).checked_add(U256([10, 20, 30, 40])), Some(U256([11, 22, 33, 44])));
}

#[test]
fn u256_checked_add_fails_above_the_largest_value() {
    let max = U256([u64::MAX, u64::MAX, u64::MAX, u64::MAX]);
    assert_eq!(max.checked_add(U256::one()), None);
    assert_eq!(max.checked_add(U256::zero()), Some(max));
}

#[test]
fn u256_checked_sub_borrows_and_fails_below_zero() {
    assert_eq!(U256([0, 1, 0, 0]).checked_sub(U256::one()), Some(U256([u64::MAX, 0, 0, 0])));
    assert_eq!(U256::from_u64(5).checked_sub(U256::from_u64(5)), Some(U256::zero()));
    assert_eq!(U256::from_u64(5).checked_sub(U256::from_u64(6)), None);
}

#[test]
fn u256_checked_mul_gives_the_product_or_fails() {
    assert_eq!(U256::from_u64(21000).checked_mul(U256::from_u64(10)), Some(U256::from_u64(210000)));
    let two_64 = U256([0, 1, 0, 0]);
    assert_eq!(two_64.checked_mul(two_64), Some(U256([0, 0, 1, 0])));
    let two_128 = U256([0, 0, 1, 0]);
    assert_eq!(two_128.checked_mul(two_128), None);
    assert_eq!(two_128.checked_mul(U256::zero()), Some(U256::zero()));
}

#[test]
fn u256_orders_by_the_highest_limb_first() {
    assert!(U256([9, 0, 0, 0]).lt(&U256([0, 1, 0, 0])));
    assert!(!U256([0, 1, 0, 0]).lt(&U256([9, 0, 0, 0])));
    assert!(!U256([3, 3, 3, 3]).lt(&U256([3, 3, 3, 3])));
    assert!(U256([3, 3, 3, 3]).eq(&U256([3, 3, 3, 3])));
    assert!(!U256([3, 3, 3, 3]).eq(&U256([3, 3, 4, 3])));
    assert_eq!(U256([9, 0, 0, 0]).min(U256([0, 1, 0, 0])), U256([9, 0, 0, 0]));
    assert_eq!(U256([0, 1, 0, 0]).min(U256([9, 0, 0, 0])), U256([9, 0, 0, 0]));
}

#[test]
fn h256_from_low_u64_puts_the_number_in_the_last_bytes() {
    let mut expected = [0u8; 32];
    expected[31] = 1;
    assert_eq!(H256::from_low_u64_be(1), H256(expected));
    expected[30] = 2;
    assert_eq!(H256::from_low_u64_be(0x0201), H256(expected));
}

#[test]
fn h256_and_u256_convert_big_endian() {
    let mut bytes = [0u8; 32];
    bytes[0] = 0x80;
    bytes[31] = 0x05;
    let word = H256(bytes);
    assert_eq!(word.to_u256(), U256([5, 0, 0, 0x8000_0000_0000_0000]));
    assert_eq!(H256::from_u256(U256([5, 0, 0, 0x8000_0000_0000_0000])), word);
    assert_eq!(H256::from_u256(U256::from_u64(258)).0[30..], [1u8, 2u8]);
}

#[test]
fn hashes_compare_by_their_bytes() {
    assert!(H256::zero().eq(&H256([0u8; 32])));
    assert!(!H256::zero().eq(&H256::from_low_u64_be(1)));
    assert!(H160::zero().eq(&H160([0u8; 20])));
    assert!(!H160::zero().eq(&H160([1u8; 20])));
}

#[test]
fn bloom_accrue_sets_the_bits_that_the_outside_filter_sets() {
    let address = [0xefu8, 0x2d, 0x6d, 0x19, 0x40, 0x84, 0xc2, 0xde, 0x36, 0xe0, 0xda, 0xbf, 0xce, 0x45, 0xd0, 0x46, 0xb3, 0x7d, 0x11, 0x06];
    let mut bloom = Bloom::zero();
    bloom.accrue(&address);
    let mut expected = ethereum_types::Bloom::default();
    expected.accrue(ethereum_types::BloomInput::Raw(&address));
    assert_eq!(bloom.0, expected.0);
    assert_ne!(bloom, Bloom::zero());
    let before = bloom;
    bloom.accrue(&address);
    assert_eq!(bloom, before);
}
