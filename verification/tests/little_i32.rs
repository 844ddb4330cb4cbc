use lowlevel::endian::LittleEndianI32;

#[test]
fn little_i32_round_trip() {
    let samples: [i32; 11] = [
        i32::MIN,
        i32::MIN + 1,
        -0x0102_0304,
        -7,
        -1,
        0,
        1,
        2,
        7,
        0x0102_0304,
        i32::MAX,
    ];
    for v in samples {
        assert_eq!(LittleEndianI32::new(v).get(), v);
        let mut cell = LittleEndianI32::new(0);
        cell.set(v);
        assert_eq!(cell.get(), v);
        let wrapped: LittleEndianI32 = v.into();
        assert_eq!(wrapped.get(), v);
        let back: i32 = wrapped.into();
        assert_eq!(back, v);
        let copy = wrapped;
        assert_eq!(copy.get(), wrapped.get());
    }
}

#[test]
fn little_i32_stored_bytes() {
    let samples: [i32; 11] = [
        i32::MIN,
        i32::MIN + 1,
        -0x0102_0304,
        -7,
        -1,
        0,
        1,
        2,
        7,
        0x0102_0304,
        i32::MAX,
    ];
    for v in samples {
        assert_eq!(LittleEndianI32::new(v).raw.to_ne_bytes(), v.to_le_bytes());
        let wire = LittleEndianI32 { raw: i32::from_ne_bytes(v.to_le_bytes()) };
        assert_eq!(wire.get(), v);
    }
    let stored = LittleEndianI32::new(0x0102_0304);
    assert_eq!(stored.raw.to_ne_bytes(), [4, 3, 2, 1]);
    let stored = LittleEndianI32::new(-2);
    assert_eq!(stored.raw.to_ne_bytes(), [0xfe, 0xff, 0xff, 0xff]);
}

#[test]
fn little_i32_arithmetic() {
    let samples: [i32; 11] = [
        i32::MIN,
        i32::MIN + 1,
        -0x0102_0304,
        -7,
        -1,
        0,
        1,
        2,
        7,
        0x0102_0304,
        i32::MAX,
    ];
    for a in samples {
        let x = LittleEndianI32::new(a);
        assert_eq!((!x).get(), !a);
        assert_eq!((-x).get(), a.wrapping_neg());
        for b in samples {
            let y = LittleEndianI32::new(b);
            assert_eq!((x + y).get(), a.wrapping_add(b));
            assert_eq!((x + b).get(), a.wrapping_add(b));
            assert_eq!(a + y, a.wrapping_add(b));
            assert_eq!((x - y).get(), a.wrapping_sub(b));
            assert_eq!((x - b).get(), a.wrapping_sub(b));
            assert_eq!(a - y, a.wrapping_sub(b));
            assert_eq!((x * y).get(), a.wrapping_mul(b));
            assert_eq!((x * b).get(), a.wrapping_mul(b));
            assert_eq!(a * y, a.wrapping_mul(b));
            assert_eq!((x & y).get(), a & b);
            assert_eq!((x & b).get(), a & b);
            assert_eq!(a & y, a & b);
            assert_eq!((x | y).get(), a | b);
            assert_eq!((x | b).get(), a | b);
            assert_eq!(a | y, a | b);
            assert_eq!((x ^ y).get(), a ^ b);
            assert_eq!((x ^ b).get(), a ^ b);
            assert_eq!(a ^ y, a ^ b);
            assert_eq!((x << y).get(), a.wrapping_shl(b as u32));
            assert_eq!((x << b).get(), a.wrapping_shl(b as u32));
            assert_eq!(a << y, a.wrapping_shl(b as u32));
            assert_eq!((x >> y).get(), a.wrapping_shr(b as u32));
            assert_eq!((x >> b).get(), a.wrapping_shr(b as u32));
            assert_eq!(a >> y, a.wrapping_shr(b as u32));
            if b != 0 && !(a == i32::MIN && b == -1) {
                assert_eq!((x / y).get(), a / b);
                assert_eq!((x / b).get(), a / b);
                assert_eq!(a / y, a / b);
                assert_eq!((x % y).get(), a % b);
                assert_eq!((x % b).get(), a % b);
                assert_eq!(a % y, a % b);
            }
        }
    }
}

#[test]
fn little_i32_assignment() {
    let samples: [i32; 11] = [
        i32::MIN,
        i32::MIN + 1,
        -0x0102_0304,
        -7,
        -1,
        0,
        1,
        2,
        7,
        0x0102_0304,
        i32::MAX,
    ];
    for a in samples {
        for b in samples {
            let x = LittleEndianI32::new(a);
            let y = LittleEndianI32::new(b);
            let mut z = x;
            z += y;
            assert_eq!(z.get(), a.wrapping_add(b));
            let mut z = x;
            z += b;
            assert_eq!(z.get(), a.wrapping_add(b));
            let mut w = a;
            w += y;
            assert_eq!(w, a.wrapping_add(b));
            let mut z = x;
            z -= y;
            assert_eq!(z.get(), a.wrapping_sub(b));
            let mut z = x;
            z -= b;
            assert_eq!(z.get(), a.wrapping_sub(b));
            let mut w = a;
            w -= y;
            assert_eq!(w, a.wrapping_sub(b));
            let mut z = x;
            z *= y;
            assert_eq!(z.get(), a.wrapping_mul(b));
            let mut z = x;
            z *= b;
            assert_eq!(z.get(), a.wrapping_mul(b));
            let mut w = a;
            w *= y;
            assert_eq!(w, a.wrapping_mul(b));
            let mut z = x;
            z &= y;
            assert_eq!(z.get(), a & b);
            let mut z = x;
            z &= b;
            assert_eq!(z.get(), a & b);
            let mut w = a;
            w &= y;
            assert_eq!(w, a & b);
            let mut z = x;
            z |= y;
            assert_eq!(z.get(), a | b);
            let mut z = x;
            z |= b;
            assert_eq!(z.get(), a | b);
            let mut w = a;
            w |= y;
            assert_eq!(w, a | b);
            let mut z = x;
            z ^= y;
            assert_eq!(z.get(), a ^ b);
            let mut z = x;
            z ^= b;
            assert_eq!(z.get(), a ^ b);
            let mut w = a;
            w ^= y;
            assert_eq!(w, a ^ b);
            let mut z = x;
            z <<= y;
            assert_eq!(z.get(), a.wrapping_shl(b as u32));
            let mut z = x;
            z <<= b;
            assert_eq!(z.get(), a.wrapping_shl(b as u32));
            let mut w = a;
            w <<= y;
            assert_eq!(w, a.wrapping_shl(b as u32));
            let mut z = x;
            z >>= y;
            assert_eq!(z.get(), a.wrapping_shr(b as u32));
            let mut z = x;
            z >>= b;
            assert_eq!(z.get(), a.wrapping_shr(b as u32));
            let mut w = a;
            w >>= y;
            assert_eq!(w, a.wrapping_shr(b as u32));
            if b != 0 && !(a == i32::MIN && b == -1) {
                let mut z = x;
                z /= y;
                assert_eq!(z.get(), a / b);
                let mut z = x;
                z /= b;
                assert_eq!(z.get(), a / b);
                let mut w = a;
                w /= y;
                assert_eq!(w, a / b);
                let mut z = x;
                z %= y;
                assert_eq!(z.get(), a % b);
                let mut z = x;
                z %= b;
                assert_eq!(z.get(), a % b);
                let mut w = a;
                w %= y;
                assert_eq!(w, a % b);
            }
        }
    }
}

#[test]
fn little_i32_comparison() {
    let samples: [i32; 11] = [
        i32::MIN,
        i32::MIN + 1,
        -0x0102_0304,
        -7,
        -1,
        0,
        1,
        2,
        7,
        0x0102_0304,
        i32::MAX,
    ];
    for a in samples {
        for b in samples {
            let x = LittleEndianI32::new(a);
            let y = LittleEndianI32::new(b);
            assert_eq!(x == y, a == b);
            assert_eq!(x == b, a == b);
            assert_eq!(a == y, a == b);
            assert_eq!(x != y, a != b);
            assert_eq!(x != b, a != b);
            assert_eq!(a != y, a != b);
            assert_eq!(x < y, a < b);
            assert_eq!(x < b, a < b);
            assert_eq!(a < y, a < b);
            assert_eq!(x <= y, a <= b);
            assert_eq!(x <= b, a <= b);
            assert_eq!(a <= y, a <= b);
            assert_eq!(x > y, a > b);
            assert_eq!(x > b, a > b);
            assert_eq!(a > y, a > b);
            assert_eq!(x >= y, a >= b);
            assert_eq!(x >= b, a >= b);
            assert_eq!(a >= y, a >= b);
            assert_eq!(x.partial_cmp(&y), a.partial_cmp(&b));
            assert_eq!(x.partial_cmp(&b), a.partial_cmp(&b));
            assert_eq!(a.partial_cmp(&y), a.partial_cmp(&b));
        }
    }
}

#[test]
fn little_i32_limits() {
    assert_eq!(LittleEndianI32::min_value().get(), i32::MIN);
    assert_eq!(LittleEndianI32::max_value().get(), i32::MAX);
    assert_eq!(LittleEndianI32::BITS, i32::BITS);
    assert_eq!(LittleEndianI32::default().get(), 0);
    assert_eq!((LittleEndianI32::max_value() + 1).get(), i32::MIN);
    assert_eq!((LittleEndianI32::min_value() - 1).get(), i32::MAX);
}
