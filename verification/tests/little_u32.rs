use lowlevel::endian::LittleEndianU32;

#[test]
fn little_u32_round_trip() {
    let samples: [u32; 10] = [
        0,
        1,
        2,
        7,
        0x0102_0304,
        0x0000_ffff,
        0xdead_beef,
        0x8000_0000,
        u32::MAX - 1,
        u32::MAX,
    ];
    for v in samples {
        assert_eq!(LittleEndianU32::new(v).get(), v);
        let mut cell = LittleEndianU32::new(0);
        cell.set(v);
        assert_eq!(cell.get(), v);
        let wrapped: LittleEndianU32 = v.into();
        assert_eq!(wrapped.get(), v);
        let back: u32 = wrapped.into();
        assert_eq!(back, v);
        let copy = wrapped;
        assert_eq!(copy.get(), wrapped.get());
    }
}

#[test]
fn little_u32_stored_bytes() {
    let samples: [u32; 10] = [
        0,
        1,
        2,
        7,
        0x0102_0304,
        0x0000_ffff,
        0xdead_beef,
        0x8000_0000,
        u32::MAX - 1,
        u32::MAX,
    ];
    for v in samples {
        assert_eq!(LittleEndianU32::new(v).raw.to_ne_bytes(), v.to_le_bytes());
        let wire = LittleEndianU32 { raw: u32::from_ne_bytes(v.to_le_bytes()) };
        assert_eq!(wire.get(), v);
    }
    let stored = LittleEndianU32::new(0x0102_0304);
    assert_eq!(stored.raw.to_ne_bytes(), [4, 3, 2, 1]);
}

#[test]
fn little_u32_arithmetic() {
    let samples: [u32; 10] = [
        0,
        1,
        2,
        7,
        0x0102_0304,
        0x0000_ffff,
        0xdead_beef,
        0x8000_0000,
        u32::MAX - 1,
        u32::MAX,
    ];
    for a in samples {
        let x = LittleEndianU32::new(a);
        assert_eq!((!x).get(), !a);
        for b in samples {
            let y = LittleEndianU32::new(b);
            assert_eq!((x + y).get(), a.wrapping_add(b));
            assert_eq!((x + b).get(), a.wrapping_add(b));
            assert_eq!(a + y, a.wrapping_add(b));
            assert_eq!((x - y).get(), a.wrapping_sub(b));
            assert_eq!((x - b).get(), a.wrapping_sub(b));
            assert_eq!(a - y, a.wrapping_sub(b));
            assert_eq!((x * y).get(), a.wrapping_mul(b));
            assert_eq!((x * b).get(), a.wrapping_mul(b));
            assert_eq!(a * y, a.wrapping_mul(b));
            assert_eq!((x & y).get(), a & b);
            assert_eq!((x & b).get(), a & b);
            assert_eq!(a & y, a & b);
            assert_eq!((x | y).get(), a | b);
            assert_eq!((x | b).get(), a | b);
            assert_eq!(a | y, a | b);
            assert_eq!((x ^ y).get(), a ^ b);
            assert_eq!((x ^ b).get(), a ^ b);
            assert_eq!(a ^ y, a ^ b);
            assert_eq!((x << y).get(), a.wrapping_shl(b));
            assert_eq!((x << b).get(), a.wrapping_shl(b));
            assert_eq!(a << y, a.wrapping_shl(b));
            assert_eq!((x >> y).get(), a.wrapping_shr(b));
            assert_eq!((x >> b).get(), a.wrapping_shr(b));
            assert_eq!(a >> y, a.wrapping_shr(b));
            if b != 0 {
                assert_eq!((x / y).get(), a / b);
                assert_eq!((x / b).get(), a / b);
                assert_eq!(a / y, a / b);
                assert_eq!((x % y).get(), a % b);
                assert_eq!((x % b).get(), a % b);
                assert_eq!(a % y, a % b);
            }
        }
    }
}

#[test]
fn little_u32_assignment() {
    let samples: [u32; 10] = [
        0,
        1,
        2,
        7,
        0x0102_0304,
        0x0000_ffff,
        0xdead_beef,
        0x8000_0000,
        u32::MAX - 1,
        u32::MAX,
    ];
    for a in samples {
        for b in samples {
            let x = LittleEndianU32::new(a);
            let y = LittleEndianU32::new(b);
            let mut z = x;
            z += y;
            assert_eq!(z.get(), a.wrapping_add(b));
            let mut z = x;
            z += b;
            assert_eq!(z.get(), a.wrapping_add(b));
            let mut w = a;
            w += y;
            assert_eq!(w, a.wrapping_add(b));
            let mut z = x;
            z -= y;
            assert_eq!(z.get(), a.wrapping_sub(b));
            let mut z = x;
            z -= b;
            assert_eq!(z.get(), a.wrapping_sub(b));
            let mut w = a;
            w -= y;
            assert_eq!(w, a.wrapping_sub(b));
            let mut z = x;
            z *= y;
            assert_eq!(z.get(), a.wrapping_mul(b));
            let mut z = x;
            z *= b;
            assert_eq!(z.get(), a.wrapping_mul(b));
            let mut w = a;
            w *= y;
            assert_eq!(w, a.wrapping_mul(b));
            let mut z = x;
            z &= y;
            assert_eq!(z.get(), a & b);
            let mut z = x;
            z &= b;
            assert_eq!(z.get(), a & b);
            let mut w = a;
            w &= y;
            assert_eq!(w, a & b);
            let mut z = x;
            z |= y;
            assert_eq!(z.get(), a | b);
            let mut z = x;
            z |= b;
            assert_eq!(z.get(), a | b);
            let mut w = a;
            w |= y;
            assert_eq!(w, a | b);
            let mut z = x;
            z ^= y;
            assert_eq!(z.get(), a ^ b);
            let mut z = x;
            z ^= b;
            assert_eq!(z.get(), a ^ b);
            let mut w = a;
            w ^= y;
            assert_eq!(w, a ^ b);
            let mut z = x;
            z <<= y;
            assert_eq!(z.get(), a.wrapping_shl(b));
            let mut z = x;
            z <<= b;
            assert_eq!(z.get(), a.wrapping_shl(b));
            let mut w = a;
            w <<= y;
            assert_eq!(w, a.wrapping_shl(b));
            let mut z = x;
            z >>= y;
            assert_eq!(z.get(), a.wrapping_shr(b));
            let mut z = x;
            z >>= b;
            assert_eq!(z.get(), a.wrapping_shr(b));
            let mut w = a;
            w >>= y;
            assert_eq!(w, a.wrapping_shr(b));
            if b != 0 {
                let mut z = x;
                z /= y;
                assert_eq!(z.get(), a / b);
                let mut z = x;
                z /= b;
                assert_eq!(z.get(), a / b);
                let mut w = a;
                w /= y;
                assert_eq!(w, a / b);
                let mut z = x;
                z %= y;
                assert_eq!(z.get(), a % b);
                let mut z = x;
                z %= b;
                assert_eq!(z.get(), a % b);
                let mut w = a;
                w %= y;
                assert_eq!(w, a % b);
            }
        }
    }
}

#[test]
fn little_u32_comparison() {
    let samples: [u32; 10] = [
        0,
        1,
        2,
        7,
        0x0102_0304,
        0x0000_ffff,
        0xdead_beef,
        0x8000_0000,
        u32::MAX - 1,
        u32::MAX,
    ];
    for a in samples {
        for b in samples {
            let x = LittleEndianU32::new(a);
            let y = LittleEndianU32::new(b);
            assert_eq!(x == y, a == b);
            assert_eq!(x == b, a == b);
            assert_eq!(a == y, a == b);
            assert_eq!(x != y, a != b);
            assert_eq!(x != b, a != b);
            assert_eq!(a != y, a != b);
            assert_eq!(x < y, a < b);
            assert_eq!(x < b, a < b);
            assert_eq!(a < y, a < b);
            assert_eq!(x <= y, a <= b);
            assert_eq!(x <= b, a <= b);
            assert_eq!(a <= y, a <= b);
            assert_eq!(x > y, a > b);
            assert_eq!(x > b, a > b);
            assert_eq!(a > y, a > b);
            assert_eq!(x >= y, a >= b);
            assert_eq!(x >= b, a >= b);
            assert_eq!(a >= y, a >= b);
            assert_eq!(x.partial_cmp(&y), a.partial_cmp(&b));
            assert_eq!(x.partial_cmp(&b), a.partial_cmp(&b));
            assert_eq!(a.partial_cmp(&y), a.partial_cmp(&b));
        }
    }
}

#[test]
fn little_u32_limits() {
    assert_eq!(LittleEndianU32::min_value().get(), u32::MIN);
    assert_eq!(LittleEndianU32::max_value().get(), u32::MAX);
    assert_eq!(LittleEndianU32::BITS, u32::BITS);
    assert_eq!(LittleEndianU32::default().get(), 0);
    assert_eq!((LittleEndianU32::max_value() + 1).get(), u32::MIN);
    assert_eq!((LittleEndianU32::min_value() - 1).get(), u32::MAX);
}
