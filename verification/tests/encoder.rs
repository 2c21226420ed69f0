use sando_rs::types::address::Address;
use sando_rs::types::uint::U256;
use sando_rs::utils::constants::get_weth_address;
use sando_rs::utils::tx_builder::sandwich::v2::{
    decode_intermediary, encode_five_bytes, encode_four_bytes, encode_intermediary_token,
    encode_weth,
};
use sando_rs::utils::tx_builder::sandwich::v3::{
    decode_intermediary as decode_intermediary_v3, encode_intermediary_token as encode_intermediary_token_v3,
    encode_num_bytes, encode_weth as encode_weth_v3,
};
use sando_rs::utils::tx_builder::sandwich::{find_byte_shift, get_weth_encode_divisor, EncodedSwapValue};

const AMOUNT: u128 = 123_456_789_012_345_678;

fn usdt() -> Address {
    Address::new([
        0xda, 0xc1, 0x7f, 0x95, 0x8d, 0x2e, 0xe5, 0x23, 0xa2, 0x20, 0x62, 0x06, 0x99, 0x45, 0x97,
        0xc1, 0x3d, 0x83, 0x1e, 0xc7,
    ])
}

fn dai() -> Address {
    Address::new([
        0x6b, 0x17, 0x54, 0x74, 0xe8, 0x90, 0x94, 0xc4, 0x4d, 0xa9, 0x8b, 0x95, 0x4e, 0xed, 0xea,
        0xc4, 0x95, 0x27, 0x1d, 0x0f,
    ])
}

#[test]
fn four_bytes_takes_the_smallest_shift_that_fits() {
    let encoded = encode_four_bytes(U256::from_u128(AMOUNT), true, true);
    assert_eq!(encoded.byte_shift.as_u64(), 4);
    assert_eq!(encoded.encoded_value.as_u128(), 28_744_523);
    assert!(encoded.encoded_value.as_u128() < 1 << 32);
    // one byte less does not fit
    assert!(AMOUNT >> 24 >= 1 << 32);

    let decoded = encoded.decode().as_u128();
    assert_eq!(decoded, 123_456_786_224_119_808);
    assert!(decoded <= AMOUNT);
    assert_eq!(AMOUNT - decoded, 2_788_225_870);
    assert!(AMOUNT - decoded < 1 << 32);
}

#[test]
fn five_bytes_takes_the_smallest_shift_that_fits() {
    let encoded = encode_five_bytes(U256::from_u128(AMOUNT), true);
    assert_eq!(encoded.byte_shift.as_u64(), 3);
    assert_eq!(encoded.encoded_value.as_u128(), 7_358_598_054);
    assert!(encoded.encoded_value.as_u128() < 1 << 40);
    let decoded = encoded.decode().as_u128();
    assert_eq!(decoded, 123_456_789_009_137_664);
    assert_eq!(AMOUNT - decoded, 3_208_014);
    assert!(AMOUNT - decoded < 1 << 24);
}

#[test]
fn small_amounts_are_kept_whole() {
    for amount in [0u128, 1, 255, 1 << 31, (1 << 31) + 1, (1 << 32) - 1] {
        let (mantissa, shift) = find_byte_shift(U256::from_u128(amount), 4);
        assert_eq!(shift, 0);
        assert_eq!(mantissa.as_u128(), amount);
    }
}

#[test]
fn first_amount_that_needs_a_shift() {
    let (mantissa, shift) = find_byte_shift(U256::from_u128(1 << 32), 4);
    assert_eq!(shift, 1);
    assert_eq!(mantissa.as_u128(), 1 << 24);

    let (mantissa, shift) = find_byte_shift(U256::from_u128(1 << 40), 5);
    assert_eq!(shift, 1);
    assert_eq!(mantissa.as_u128(), 1 << 32);
}

#[test]
fn largest_amount_is_encoded() {
    let (mantissa, shift) = find_byte_shift(U256::max_value(), 4);
    assert_eq!(shift, 28);
    assert_eq!(mantissa.as_u128(), 0xffff_ffff);

    let (mantissa, shift) = find_byte_shift(U256::max_value(), 5);
    assert_eq!(shift, 27);
    assert_eq!(mantissa.as_u128(), 0xff_ffff_ffff);

    let (mantissa, shift) = find_byte_shift(U256::max_value(), 31);
    assert_eq!(shift, 1);
    assert!(mantissa.is_equal(&U256 { limbs: [u64::MAX, u64::MAX, u64::MAX, u64::MAX >> 8] }));

    let (mantissa, shift) = find_byte_shift(U256::max_value(), 1);
    assert_eq!(shift, 31);
    assert_eq!(mantissa.as_u128(), 0xff);
}

#[test]
fn largest_u128_amount() {
    let (mantissa, shift) = find_byte_shift(U256::from_u128(u128::MAX), 4);
    assert_eq!((mantissa.as_u128(), shift), (0xffff_ffff, 12));
    let (mantissa, shift) = find_byte_shift(U256::from_u128(u128::MAX), 5);
    assert_eq!((mantissa.as_u128(), shift), (0xff_ffff_ffff, 11));
}

#[test]
fn mantissa_fits_the_width_and_loss_is_bounded() {
    let amounts = [
        0u128,
        1,
        0xffff_ffff,
        0x1_0000_0000,
        0x1234_5678_9abc_def0,
        AMOUNT,
        1_000_000_000_000_000_000,
        u128::MAX,
    ];
    for amount in amounts {
        for width in [4u8, 5u8] {
            let (mantissa, shift) = find_byte_shift(U256::from_u128(amount), width);
            let mantissa = mantissa.as_u128();
            assert!(mantissa < 1u128 << (8 * width));
            assert_eq!(mantissa, amount >> (8 * shift));
            if shift > 0 {
                assert!(amount >> (8 * (shift - 1)) >= 1u128 << (8 * width));
            }
            let decoded = mantissa << (8 * shift);
            assert!(decoded <= amount);
            assert!(amount - decoded < 1u128 << (8 * shift));
        }
    }
}

#[test]
fn four_byte_memory_offset_depends_on_direction_and_order() {
    let amount = U256::from_u128(AMOUNT);
    assert_eq!(encode_four_bytes(amount, false, true).mem_offset.as_u64(), 60);
    assert_eq!(encode_four_bytes(amount, false, false).mem_offset.as_u64(), 60);
    assert_eq!(encode_four_bytes(amount, true, true).mem_offset.as_u64(), 60);
    assert_eq!(encode_four_bytes(amount, true, false).mem_offset.as_u64(), 28);
    assert_eq!(encode_four_bytes(U256::zero(), true, false).mem_offset.as_u64(), 32);
    assert_eq!(encode_four_bytes(U256::max_value(), true, false).mem_offset.as_u64(), 4);
    assert_eq!(encode_four_bytes(U256::max_value(), false, false).mem_offset.as_u64(), 36);
}

#[test]
fn five_byte_memory_offset_depends_on_order() {
    let amount = U256::from_u128(AMOUNT);
    assert_eq!(encode_five_bytes(amount, true).mem_offset.as_u64(), 65);
    assert_eq!(encode_five_bytes(amount, false).mem_offset.as_u64(), 97);
    assert_eq!(encode_five_bytes(U256::max_value(), true).mem_offset.as_u64(), 41);
}

#[test]
fn num_bytes_memory_offset() {
    let amount = U256::from_u128(AMOUNT);
    let five = encode_num_bytes(amount, 5);
    assert_eq!(five.byte_shift.as_u64(), 3);
    assert_eq!(five.encoded_value.as_u128(), 7_358_598_054);
    assert_eq!(five.mem_offset.as_u64(), 60);
    let four = encode_num_bytes(amount, 4);
    assert_eq!(four.byte_shift.as_u64(), 4);
    assert_eq!(four.encoded_value.as_u128(), 28_744_523);
    assert_eq!(four.mem_offset.as_u64(), 60);
    let top = encode_num_bytes(U256::max_value(), 5);
    assert_eq!(top.byte_shift.as_u64(), 27);
    assert_eq!(top.mem_offset.as_u64(), 36);
}

#[test]
fn decode_multiplies_the_shift_back_in() {
    let value = EncodedSwapValue::new(U256::from_u64(0x0102_0304), U256::from_u64(60), U256::from_u64(3));
    assert_eq!(value.decode().as_u128(), 0x0102_0304_00_00_00);
    let whole = EncodedSwapValue::new(U256::from_u64(7), U256::from_u64(64), U256::zero());
    assert_eq!(whole.decode().as_u128(), 7);
    let top = EncodedSwapValue::new(U256::from_u64(0xff), U256::from_u64(0), U256::from_u64(31));
    assert!(top.decode().is_equal(&U256 { limbs: [0, 0, 0, 0xff << 56] }));
}

#[test]
fn decode_intermediary_clears_the_dropped_bytes() {
    let decoded = decode_intermediary(U256::from_u128(AMOUNT), false, usdt());
    assert_eq!(decoded.as_u128(), 123_456_786_224_119_808);
    let same = decode_intermediary(U256::from_u128(AMOUNT), true, dai());
    assert_eq!(same.as_u128(), 123_456_786_224_119_808);
    assert_eq!(decode_intermediary(U256::from_u64(77), true, usdt()).as_u128(), 77);
}

#[test]
fn dust_is_kept_on_every_amount() {
    let amounts = [1u128, 2, 0xffff_ffff, 0x1_0000_0000, AMOUNT, 1_000_000_000_000_000_000, u128::MAX];
    for amount in amounts {
        let with_dust = encode_intermediary_token(U256::from_u128(amount), false, usdt());
        let without = decode_intermediary(U256::from_u128(amount), false, usdt());
        assert!(with_dust.lt(&without));
        assert!(with_dust.lt(&U256::from_u128(amount)));
    }
}

#[test]
fn dust_is_one_unit_of_the_mantissa() {
    let with_dust = encode_intermediary_token(U256::from_u128(1_000_000_000_000_000_000), false, usdt());
    assert_eq!(with_dust.as_u128(), 999_999_992_896_684_032);
    let without = decode_intermediary(U256::from_u128(1_000_000_000_000_000_000), false, usdt());
    assert_eq!(without.as_u128(), 999_999_997_191_651_328);
    assert_eq!(without.as_u128() - with_dust.as_u128(), 1 << 32);
    assert_eq!(encode_intermediary_token(U256::from_u64(1), true, dai()).as_u128(), 0);
}

#[test]
fn v3_intermediary_keeps_five_bytes() {
    let amount = U256::from_u128(AMOUNT);
    assert_eq!(encode_intermediary_token_v3(amount).as_u128(), 123_456_789_009_137_664);
    assert_eq!(decode_intermediary_v3(amount).as_u128(), 123_456_789_009_137_664);
    assert_eq!(decode_intermediary_v3(U256::zero()).as_u128(), 0);
}

#[test]
fn weth_divisor_is_one_hundred_thousand() {
    assert_eq!(get_weth_encode_divisor().as_u64(), 100_000);
}

#[test]
fn encode_weth_rounds_down_to_the_unit() {
    assert_eq!(encode_weth(U256::from_u64(123_456_789)).as_u64(), 123_400_000);
    assert_eq!(encode_weth(U256::from_u64(99_999)).as_u64(), 0);
    assert_eq!(encode_weth(U256::from_u64(100_000)).as_u64(), 100_000);
    assert_eq!(encode_weth(U256::zero()).as_u64(), 0);
    assert_eq!(encode_weth_v3(U256::from_u64(123_456_789)).as_u64(), 123_400_000);
    assert_eq!(encode_weth(U256::from_u128(AMOUNT)).as_u128(), 123_456_789_012_300_000);
}

#[test]
fn encode_weth_is_idempotent() {
    let amounts = [0u128, 1, 99_999, 100_000, 100_001, AMOUNT, u128::MAX];
    for amount in amounts {
        let once = encode_weth(U256::from_u128(amount));
        let twice = encode_weth(once);
        assert!(once.is_equal(&twice));
        let once = encode_weth_v3(U256::from_u128(amount));
        let twice = encode_weth_v3(once);
        assert!(once.is_equal(&twice));
    }
    let once = encode_weth(U256::max_value());
    assert!(encode_weth(once).is_equal(&once));
    assert!(once.le(&U256::max_value()));
}

#[test]
fn weth_sorts_between_dai_and_usdt() {
    let weth = get_weth_address();
    assert_eq!(weth.bytes[0], 0xc0);
    assert_eq!(weth.bytes[19], 0xc2);
    assert!(weth.lt(&usdt()));
    assert!(!weth.lt(&dai()));
    assert!(dai().lt(&weth));
    assert!(!weth.lt(&weth));
}
