use lowlevel::endian::{
    i32_be, u16_le, BigEndianI16, BigEndianI32, BigEndianU16, BigEndianU32, BigEndianU64,
    LittleEndianI32, LittleEndianI64, LittleEndianU16, LittleEndianU32, LittleEndianU64,
};

#[test]
fn little_endian_bytes_ascend_from_least_significant() {
    let stored = LittleEndianU32::new(0x0102_0304);
    assert_eq!(stored.raw.to_ne_bytes(), [0x04, 0x03, 0x02, 0x01]);
}

#[test]
fn big_endian_bytes_descend_from_most_significant() {
    let stored = BigEndianU32::new(0x0102_0304);
    assert_eq!(stored.raw.to_ne_bytes(), [0x01, 0x02, 0x03, 0x04]);
}

#[test]
fn one_order_is_stored_swapped() {
    let value: u32 = 0x0102_0304;
    let little = LittleEndianU32::new(value).raw;
    let big = BigEndianU32::new(value).raw;
    assert_eq!(little, big.swap_bytes());
    assert!(little == value || big == value);
    assert!(little != big);
}

#[test]
fn both_orders_equal_the_native_value() {
    let little = LittleEndianU32::new(5);
    let big = BigEndianU32::new(5);
    assert!(little == 5u32);
    assert!(big == 5u32);
    assert!(5u32 == little);
    assert!(5u32 == big);
    assert_eq!(little.get(), big.get());
}

#[test]
fn order_is_numeric_not_bytewise() {
    // 0x0100 is the larger number; its stored bytes, read in the other order,
    // would make it the smaller one.
    let small = BigEndianU16::new(0x0002);
    let large = BigEndianU16::new(0x0100);
    assert!(small < large);
    assert!(large > small);
    let small = LittleEndianU16::new(0x0002);
    let large = LittleEndianU16::new(0x0100);
    assert!(small < large);
    assert!(BigEndianI16::new(-1) < BigEndianI16::new(1));
    assert!(BigEndianI32::new(i32::MIN) < BigEndianI32::new(i32::MAX));
}

#[test]
fn addition_wraps_around() {
    assert_eq!((LittleEndianU32::new(u32::MAX) + LittleEndianU32::new(2)).get(), 1);
    assert_eq!((BigEndianU16::new(0xffff) + 1u16).get(), 0);
    assert_eq!((LittleEndianI32::new(i32::MAX) + 1).get(), i32::MIN);
    assert_eq!(u64::MAX + BigEndianU64::new(5), 4);
}

#[test]
fn subtraction_wraps_around() {
    assert_eq!((LittleEndianU32::new(5) - LittleEndianU32::new(7)).get(), 0xffff_fffe);
    assert_eq!((BigEndianI16::new(i16::MIN) - 1i16).get(), i16::MAX);
    assert_eq!(0u16 - BigEndianU16::new(1), 0xffff);
}

#[test]
fn multiplication_wraps_around() {
    assert_eq!((LittleEndianU16::new(0x0100) * LittleEndianU16::new(0x0100)).get(), 0);
    assert_eq!((BigEndianU32::new(0x8000_0001) * 2u32).get(), 2);
    assert_eq!((LittleEndianI32::new(6) * LittleEndianI32::new(-7)).get(), -42);
    assert_eq!((LittleEndianI32::new(i32::MIN) * -1).get(), i32::MIN);
}

#[test]
fn signed_division_rounds_towards_zero() {
    assert_eq!((LittleEndianI32::new(-7) / LittleEndianI32::new(2)).get(), -3);
    assert_eq!((LittleEndianI32::new(-7) % LittleEndianI32::new(2)).get(), -1);
    assert_eq!((LittleEndianI32::new(7) / LittleEndianI32::new(-2)).get(), -3);
    assert_eq!((LittleEndianI32::new(7) % LittleEndianI32::new(-2)).get(), 1);
    assert_eq!((BigEndianI32::new(-7) / -2).get(), 3);
    assert_eq!((BigEndianI32::new(-7) % -2).get(), -1);
    assert_eq!(i64::MIN / LittleEndianI64::new(2), i64::MIN / 2);
}

#[test]
fn unsigned_division() {
    assert_eq!((BigEndianU64::new(100) / BigEndianU64::new(7)).get(), 14);
    assert_eq!((BigEndianU64::new(100) % BigEndianU64::new(7)).get(), 2);
    assert_eq!(100u64 / LittleEndianU64::new(101), 0);
    assert_eq!(100u64 % LittleEndianU64::new(101), 100);
}

#[test]
fn shift_amount_wraps_at_the_width() {
    assert_eq!((LittleEndianU32::new(1) << LittleEndianU32::new(4)).get(), 16);
    assert_eq!((LittleEndianU32::new(1) << LittleEndianU32::new(33)).get(), 2);
    assert_eq!((BigEndianU16::new(0x8000) >> 15u16).get(), 1);
    assert_eq!((BigEndianU16::new(0x8000) >> 16u16).get(), 0x8000);
    assert_eq!((LittleEndianI32::new(-8) >> 1).get(), -4);
    assert_eq!((LittleEndianI32::new(1) << -1).get(), i32::MIN);
    assert_eq!(1u64 << BigEndianU64::new(64), 1);
}

#[test]
fn bitwise_operations_on_the_stored_form() {
    let a = BigEndianU32::new(0x00ff_00ff);
    let b = BigEndianU32::new(0x0f0f_0f0f);
    assert_eq!((a & b).get(), 0x000f_000f);
    assert_eq!((a | b).get(), 0x0fff_0fff);
    assert_eq!((a ^ b).get(), 0x0ff0_0ff0);
    assert_eq!((!a).get(), 0xff00_ff00);
    let c = LittleEndianU16::new(0x1234);
    assert_eq!((c & 0x00ffu16).get(), 0x0034);
    assert_eq!(0xff00u16 & c, 0x1200);
}

#[test]
fn negation_wraps_at_the_least_value() {
    assert_eq!((-BigEndianI16::new(5)).get(), -5);
    assert_eq!((-BigEndianI16::new(i16::MIN)).get(), i16::MIN);
    assert_eq!((-LittleEndianI64::new(0)).get(), 0);
}

#[test]
fn assignment_operators_change_in_place() {
    let mut x = BigEndianU32::new(10);
    x += BigEndianU32::new(5);
    x -= 3u32;
    x *= 2u32;
    x /= BigEndianU32::new(4);
    x %= 4u32;
    x <<= 3u32;
    x |= 1u32;
    x ^= BigEndianU32::new(0xff);
    x &= 0xf0u32;
    x >>= 4u32;
    assert_eq!(x.get(), 0xe);
    let mut n: u32 = 1;
    n += x;
    n <<= x;
    assert_eq!(n, 15 << 14);
}

#[test]
fn aliases_name_the_same_types() {
    let a: u16_le = LittleEndianU16::new(3);
    let b: i32_be = BigEndianI32::new(-3);
    assert_eq!(a.get(), 3);
    assert_eq!(b.get(), -3);
}

#[test]
fn set_overwrites_the_stored_value() {
    let mut x = BigEndianU64::new(1);
    x.set(0x0102_0304_0506_0708);
    assert_eq!(x.get(), 0x0102_0304_0506_0708);
    assert_eq!(x.raw.to_ne_bytes(), [1, 2, 3, 4, 5, 6, 7, 8]);
}

#[test]
fn equal_values_hash_alike() {
    let mut seen = std::collections::HashSet::new();
    assert!(seen.insert(BigEndianU32::new(0x0102_0304)));
    assert!(!seen.insert(BigEndianU32::new(0x0102_0304)));
    assert!(seen.insert(BigEndianU32::new(0x0403_0201)));
    assert!(seen.contains(&BigEndianU32::from(0x0403_0201)));
    assert_eq!(seen.len(), 2);
}
