use sando_rs::types::address::Address;
use sando_rs::types::uint::U256;
use sando_rs::utils::{encode_packed, PackedToken, TakeLastXBytes};

fn be_value(bytes: &[u8]) -> u128 {
    let mut value: u128 = 0;
    for byte in bytes {
        value = value * 256 + *byte as u128;
    }
    value
}

#[test]
fn no_fields_give_no_bytes() {
    assert_eq!(encode_packed(&[]), Vec::<u8>::new());
}

#[test]
fn number_keeps_its_lowest_bytes() {
    let number = U256::from_u64(0x0102_0304_0506_0708);
    assert_eq!(
        encode_packed(&[PackedToken::NumberWithShift(number, TakeLastXBytes(8))]),
        vec![0x08]
    );
    assert_eq!(
        encode_packed(&[PackedToken::NumberWithShift(number, TakeLastXBytes(32))]),
        vec![0x05, 0x06, 0x07, 0x08]
    );
    assert_eq!(
        encode_packed(&[PackedToken::NumberWithShift(number, TakeLastXBytes(40))]),
        vec![0x04, 0x05, 0x06, 0x07, 0x08]
    );
    assert_eq!(
        encode_packed(&[PackedToken::NumberWithShift(number, TakeLastXBytes(0))]),
        Vec::<u8>::new()
    );
}

#[test]
fn bits_that_do_not_fill_a_byte_are_not_counted() {
    let number = U256::from_u64(0xaabb);
    assert_eq!(
        encode_packed(&[PackedToken::NumberWithShift(number, TakeLastXBytes(15))]),
        vec![0xbb]
    );
    assert_eq!(
        encode_packed(&[PackedToken::NumberWithShift(number, TakeLastXBytes(7))]),
        Vec::<u8>::new()
    );
}

#[test]
fn number_in_full_width_is_big_endian() {
    let number = U256 { limbs: [0x1111_1111_1111_1111, 0x2222_2222_2222_2222, 0x3333_3333_3333_3333, 0x4455_6677_8899_aabb] };
    let bytes = encode_packed(&[PackedToken::NumberWithShift(number, TakeLastXBytes(256))]);
    let mut expected = vec![0x44, 0x55, 0x66, 0x77, 0x88, 0x99, 0xaa, 0xbb];
    expected.extend_from_slice(&[0x33; 8]);
    expected.extend_from_slice(&[0x22; 8]);
    expected.extend_from_slice(&[0x11; 8]);
    assert_eq!(bytes, expected);
}

#[test]
fn small_number_in_wide_field_is_padded_in_front() {
    let bytes = encode_packed(&[PackedToken::NumberWithShift(U256::from_u64(0x30), TakeLastXBytes(40))]);
    assert_eq!(bytes, vec![0, 0, 0, 0, 0x30]);
}

#[test]
fn address_and_bytes_are_taken_whole() {
    let mut raw = [0u8; 20];
    for i in 0..20 {
        raw[i] = i as u8 + 1;
    }
    let blob = [0xde, 0xad, 0xbe, 0xef];
    let bytes = encode_packed(&[PackedToken::Address(Address::new(raw)), PackedToken::Bytes(&blob)]);
    let mut expected = raw.to_vec();
    expected.extend_from_slice(&blob);
    assert_eq!(bytes, expected);
    assert_eq!(encode_packed(&[PackedToken::Bytes(&[])]), Vec::<u8>::new());
}

#[test]
fn fields_follow_in_the_order_given() {
    let first = PackedToken::NumberWithShift(U256::from_u64(1), TakeLastXBytes(8));
    let second = PackedToken::NumberWithShift(U256::from_u64(2), TakeLastXBytes(16));
    assert_eq!(encode_packed(&[first, second]), vec![1, 0, 2]);
    assert_eq!(encode_packed(&[second, first]), vec![0, 2, 1]);
}

#[test]
fn length_is_the_sum_of_the_widths() {
    let blob = [7u8; 13];
    let tokens = [
        PackedToken::NumberWithShift(U256::from_u64(17_000_000), TakeLastXBytes(8)),
        PackedToken::Address(Address::new([9; 20])),
        PackedToken::NumberWithShift(U256::max_value(), TakeLastXBytes(40)),
        PackedToken::Bytes(&blob),
        PackedToken::NumberWithShift(U256::from_u64(5), TakeLastXBytes(256)),
    ];
    assert_eq!(encode_packed(&tokens).len(), 1 + 20 + 5 + 13 + 32);
}

#[test]
fn number_reads_back_modulo_its_width() {
    let number: u128 = 0x0123_4567_89ab_cdef_1122_3344_5566_7788;
    for bytes_kept in [0usize, 1, 2, 4, 5, 8, 15] {
        let tokens = [
            PackedToken::Address(Address::new([0xaa; 20])),
            PackedToken::NumberWithShift(U256::from_u128(number), TakeLastXBytes(bytes_kept * 8)),
            PackedToken::Bytes(&[0xbb, 0xcc]),
        ];
        let payload = encode_packed(&tokens);
        assert_eq!(payload.len(), 20 + bytes_kept + 2);
        let field = &payload[20..20 + bytes_kept];
        assert_eq!(be_value(field), number % (1u128 << (8 * bytes_kept)));
    }
}
