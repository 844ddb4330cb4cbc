use lowlevel::endian::BigEndianU16;

#[test]
fn big_u16_round_trip() {
    let samples: [u16; 10] = [
        0,
        1,
        2,
        7,
        0x0102,
        0x00ff,
        0xff00,
        0x8000,
        u16::MAX - 1,
        u16::MAX,
    ];
    for v in samples {
        assert_eq!(BigEndianU16::new(v).get(), v);
        let mut cell = BigEndianU16::new(0);
        cell.set(v);
        assert_eq!(cell.get(), v);
        let wrapped: BigEndianU16 = v.into();
        assert_eq!(wrapped.get(), v);
        let back: u16 = wrapped.into();
        assert_eq!(back, v);
        let copy = wrapped;
        assert_eq!(copy.get(), wrapped.get());
    }
}

#[test]
fn big_u16_stored_bytes() {
    let samples: [u16; 10] = [
        0,
        1,
        2,
        7,
        0x0102,
        0x00ff,
        0xff00,
        0x8000,
        u16::MAX - 1,
        u16::MAX,
    ];
    for v in samples {
        assert_eq!(BigEndianU16::new(v).raw.to_ne_bytes(), v.to_be_bytes());
        let wire = BigEndianU16 { raw: u16::from_ne_bytes(v.to_be_bytes()) };
        assert_eq!(wire.get(), v);
    }
    let stored = BigEndianU16::new(0x0102);
    assert_eq!(stored.raw.to_ne_bytes(), [1, 2]);
}

#[test]
fn big_u16_arithmetic() {
    let samples: [u16; 10] = [
        0,
        1,
        2,
        7,
        0x0102,
        0x00ff,
        0xff00,
        0x8000,
        u16::MAX - 1,
        u16::MAX,
    ];
    for a in samples {
        let x = BigEndianU16::new(a);
        assert_eq!((!x).get(), !a);
        for b in samples {
            let y = BigEndianU16::new(b);
            assert_eq!((x + y).get(), a.wrapping_add(b));
            assert_eq!((x + b).get(), a.wrapping_add(b));
            assert_eq!(a + y, a.wrapping_add(b));
            assert_eq!((x - y).get(), a.wrapping_sub(b));
            assert_eq!((x - b).get(), a.wrapping_sub(b));
            assert_eq!(a - y, a.wrapping_sub(b));
            assert_eq!((x * y).get(), a.wrapping_mul(b));
            assert_eq!((x * b).get(), a.wrapping_mul(b));
            assert_eq!(a * y, a.wrapping_mul(b));
            assert_eq!((x & y).get(), a & b);
            assert_eq!((x & b).get(), a & b);
            assert_eq!(a & y, a & b);
            assert_eq!((x | y).get(), a | b);
            assert_eq!((x | b).get(), a | b);
            assert_eq!(a | y, a | b);
            assert_eq!((x ^ y).get(), a ^ b);
            assert_eq!((x ^ b).get(), a ^ b);
            assert_eq!(a ^ y, a ^ b);
            assert_eq!((x << y).get(), a.wrapping_shl(b as u32));
            assert_eq!((x << b).get(), a.wrapping_shl(b as u32));
            assert_eq!(a << y, a.wrapping_shl(b as u32));
            assert_eq!((x >> y).get(), a.wrapping_shr(b as u32));
            assert_eq!((x >> b).get(), a.wrapping_shr(b as u32));
            assert_eq!(a >> y, a.wrapping_shr(b as u32));
            if b != 0 {
                assert_eq!((x / y).get(), a / b);
                assert_eq!((x / b).get(), a / b);
                assert_eq!(a / y, a / b);
                assert_eq!((x % y).get(), a % b);
                assert_eq!((x % b).get(), a % b);
                assert_eq!(a % y, a % b);
            }
        }
    }
}

#[test]
fn big_u16_assignment() {
    let samples: [u16; 10] = [
        0,
        1,
        2,
        7,
        0x0102,
        0x00ff,
        0xff00,
        0x8000,
        u16::MAX - 1,
        u16::MAX,
    ];
    for a in samples {
        for b in samples {
            let x = BigEndianU16::new(a);
            let y = BigEndianU16::new(b);
            let mut z = x;
            z += y;
            assert_eq!(z.get(), a.wrapping_add(b));
            let mut z = x;
            z += b;
            assert_eq!(z.get(), a.wrapping_add(b));
            let mut w = a;
            w += y;
            assert_eq!(w, a.wrapping_add(b));
            let mut z = x;
            z -= y;
            assert_eq!(z.get(), a.wrapping_sub(b));
            let mut z = x;
            z -= b;
            assert_eq!(z.get(), a.wrapping_sub(b));
            let mut w = a;
            w -= y;
            assert_eq!(w, a.wrapping_sub(b));
            let mut z = x;
            z *= y;
            assert_eq!(z.get(), a.wrapping_mul(b));
            let mut z = x;
            z *= b;
            assert_eq!(z.get(), a.wrapping_mul(b));
            let mut w = a;
            w *= y;
            assert_eq!(w, a.wrapping_mul(b));
            let mut z = x;
            z &= y;
            assert_eq!(z.get(), a & b);
            let mut z = x;
            z &= b;
            assert_eq!(z.get(), a & b);
            let mut w = a;
            w &= y;
            assert_eq!(w, a & b);
            let mut z = x;
            z |= y;
            assert_eq!(z.get(), a | b);
            let mut z = x;
            z |= b;
            assert_eq!(z.get(), a | b);
            let mut w = a;
            w |= y;
            assert_eq!(w, a | b);
            let mut z = x;
            z ^= y;
            assert_eq!(z.get(), a ^ b);
            let mut z = x;
            z ^= b;
            assert_eq!(z.get(), a ^ b);
            let mut w = a;
            w ^= y;
            assert_eq!(w, a ^ b);
            let mut z = x;
            z <<= y;
            assert_eq!(z.get(), a.wrapping_shl(b as u32));
            let mut z = x;
            z <<= b;
            assert_eq!(z.get(), a.wrapping_shl(b as u32));
            let mut w = a;
            w <<= y;
            assert_eq!(w, a.wrapping_shl(b as u32));
            let mut z = x;
            z >>= y;
            assert_eq!(z.get(), a.wrapping_shr(b as u32));
            let mut z = x;
            z >>= b;
            assert_eq!(z.get(), a.wrapping_shr(b as u32));
            let mut w = a;
            w >>= y;
            assert_eq!(w, a.wrapping_shr(b as u32));
            if b != 0 {
                let mut z = x;
                z /= y;
                assert_eq!(z.get(), a / b);
                let mut z = x;
                z /= b;
                assert_eq!(z.get(), a / b);
                let mut w = a;
                w /= y;
                assert_eq!(w, a / b);
                let mut z = x;
                z %= y;
                assert_eq!(z.get(), a % b);
                let mut z = x;
                z %= b;
                assert_eq!(z.get(), a % b);
                let mut w = a;
                w %= y;
                assert_eq!(w, a % b);
            }
        }
    }
}

#[test]
fn big_u16_comparison() {
    let samples: [u16; 10] = [
        0,
        1,
        2,
        7,
        0x0102,
        0x00ff,
        0xff00,
        0x8000,
        u16::MAX - 1,
        u16::MAX,
    ];
    for a in samples {
        for b in samples {
            let x = BigEndianU16::new(a);
            let y = BigEndianU16::new(b);
            assert_eq!(x == y, a == b);
            assert_eq!(x == b, a == b);
            assert_eq!(a == y, a == b);
            assert_eq!(x != y, a != b);
            assert_eq!(x != b, a != b);
            assert_eq!(a != y, a != b);
            assert_eq!(x < y, a < b);
            assert_eq!(x < b, a < b);
            assert_eq!(a < y, a < b);
            assert_eq!(x <= y, a <= b);
            assert_eq!(x <= b, a <= b);
            assert_eq!(a <= y, a <= b);
            assert_eq!(x > y, a > b);
            assert_eq!(x > b, a > b);
            assert_eq!(a > y, a > b);
            assert_eq!(x >= y, a >= b);
            assert_eq!(x >= b, a >= b);
            assert_eq!(a >= y, a >= b);
            assert_eq!(x.partial_cmp(&y), a.partial_cmp(&b));
            assert_eq!(x.partial_cmp(&b), a.partial_cmp(&b));
            assert_eq!(a.partial_cmp(&y), a.partial_cmp(&b));
        }
    }
}

#[test]
fn big_u16_limits() {
    assert_eq!(BigEndianU16::min_value().get(), u16::MIN);
    assert_eq!(BigEndianU16::max_value().get(), u16::MAX);
    assert_eq!(BigEndianU16::BITS, u16::BITS);
    assert_eq!(BigEndianU16::default().get(), 0);
    assert_eq!((BigEndianU16::max_value() + 1).get(), u16::MIN);
    assert_eq!((BigEndianU16::min_value() - 1).get(), u16::MAX);
}
