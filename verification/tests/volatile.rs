use lowlevel::volatile::{join, split, Volatile, VolatileSplitPtr};

#[test]
fn cell_returns_what_was_written() {
    let mut cell = Volatile::new(7u32);
    assert_eq!(cell.read(), 7);
    cell.write(9);
    assert_eq!(cell.read(), 9);
    let shared = &cell;
    assert_eq!(shared.read(), 9);
    cell.write(11);
    assert_eq!(cell.read(), 11);
}

#[test]
fn cell_holds_any_plain_value() {
    let mut cell = Volatile::new((1u8, -2i64));
    assert_eq!(cell.read(), (1, -2));
    cell.write((3, -4));
    assert_eq!(cell.read(), (3, -4));
}

#[test]
fn split_pointer_round_trip_high_bits_clear() {
    let mut pair: VolatileSplitPtr<u8> = VolatileSplitPtr::new(0, 0);
    pair.set(0x0000_0000_DEAD_BEEF);
    assert_eq!(pair.get(), 0x0000_0000_DEAD_BEEF);
}

#[test]
fn split_pointer_round_trip_high_bits_set() {
    let mut pair: VolatileSplitPtr<u64> = VolatileSplitPtr::new(0, 0);
    pair.set(0xFFFF_FFFF_0000_0001);
    assert_eq!(pair.get(), 0xFFFF_FFFF_0000_0001);
}

#[test]
fn split_pointer_set_parts_then_get() {
    let mut pair: VolatileSplitPtr<u32> = VolatileSplitPtr::new(0, 0);
    let cases: [(u32, u32); 5] = [
        (0, 0),
        (0, 0xDEAD_BEEF),
        (0xFFFF_FFFF, 1),
        (0x1234_5678, 0x9ABC_DEF0),
        (u32::MAX, u32::MAX),
    ];
    for (high, low) in cases {
        pair.set_parts(high, low);
        assert_eq!(pair.get(), (u64::from(high) << 32) | u64::from(low));
    }
}

#[test]
fn split_pointer_starts_with_the_halves_given() {
    let pair: VolatileSplitPtr<u8> = VolatileSplitPtr::new(0x0000_0001, 0x0000_0002);
    assert_eq!(pair.get(), 0x0000_0001_0000_0002);
}

#[test]
fn join_and_split_are_inverse() {
    assert_eq!(join(1, 2), 0x0000_0001_0000_0002);
    assert_eq!(join(0xFFFF_FFFF, 0), 0xFFFF_FFFF_0000_0000);
    assert_eq!(split(0x0000_0001_0000_0002), (1, 2));
    assert_eq!(split(0x0000_0000_DEAD_BEEF), (0, 0xDEAD_BEEF));
    let addresses: [u64; 4] = [0, 0xDEAD_BEEF, 0xFFFF_FFFF_0000_0001, u64::MAX];
    for address in addresses {
        let (high, low) = split(address);
        assert_eq!(join(high, low), address);
    }
}

#[test]
fn split_pointer_takes_every_address() {
    let mut pair: VolatileSplitPtr<u8> = VolatileSplitPtr::new(7, 7);
    let addresses: [u64; 5] = [0, 1, 0xDEAD_BEEF, 0xFFFF_FFFF_0000_0001, u64::MAX];
    for address in addresses {
        pair.set(address);
        assert_eq!(pair.get(), address);
        assert_eq!(split(pair.get()), split(address));
    }
}

#[test]
fn cell_keeps_a_value_that_is_not_copied() {
    let mut cell = Volatile::new(vec![1u8, 2, 3]);
    cell.write(vec![4]);
    cell.write(vec![]);
}
