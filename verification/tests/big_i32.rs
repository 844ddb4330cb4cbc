use lowlevel::endian::BigEndianI32;

#[test]
fn big_i32_round_trip() {
    let samples: [i32; 11] = [
        i32::MIN,
        i32::MIN + 1,
        -0x0102_0304,
        -7,
        -1,
        0,
        1,
        2,
        7,
        0x0102_0304,
        i32::MAX,
    ];
    for v in samples {
        assert_eq!(BigEndianI32::new(v).get(), v);
        let mut cell = BigEndianI32::new(0);
        cell.set(v);
        assert_eq!(cell.get(), v);
        let wrapped: BigEndianI32 = v.into();
        assert_eq!(wrapped.get(), v);
        let back: i32 = wrapped.into();
        assert_eq!(back, v);
        let copy = wrapped;
        assert_eq!(copy.get(), wrapped.get());
    }
}

#[test]
fn big_i32_stored_bytes() {
    let samples: [i32; 11] = [
        i32::MIN,
        i32::MIN + 1,
        -0x0102_0304,
        -7,
        -1,
        0,
        1,
        2,
        7,
        0x0102_0304,
        i32::MAX,
    ];
    for v in samples {
        assert_eq!(BigEndianI32::new(v).raw.to_ne_bytes(), v.to_be_bytes());
        let wire = BigEndianI32 { raw: i32::from_ne_bytes(v.to_be_bytes()) };
        assert_eq!(wire.get(), v);
    }
    let stored = BigEndianI32::new(0x0102_0304);
    assert_eq!(stored.raw.to_ne_bytes(), [1, 2, 3, 4]);
    let stored = BigEndianI32::new(-2);
    assert_eq!(stored.raw.to_ne_bytes(), [0xff, 0xff, 0xff, 0xfe]);
}

#[test]
fn big_i32_arithmetic() {
    let samples: [i32; 11] = [
        i32::MIN,
        i32::MIN + 1,
        -0x0102_0304,
        -7,
        -1,
        0,
        1,
        2,
        7,
        0x0102_0304,
        i32::MAX,
    ];
    for a in samples {
        let x = BigEndianI32::new(a);
        assert_eq!((!x).get(), !a);
        assert_eq!((-x).get(), a.wrapping_neg());
        for b in samples {
            let y = BigEndianI32::new(b);
            assert_eq!((x + y).get(), a.wrapping_add(b));
            assert_eq!((x + b).get(), a.wrapping_add(b));
            assert_eq!(a + y, a.wrapping_add(b));
            assert_eq!((x - y).get(), a.wrapping_sub(b));
            assert_eq!((x - b).get(), a.wrapping_sub(b));
            assert_eq!(a - y, a.wrapping_sub(b));
            assert_eq!((x * y).get(), a.wrapping_mul(b));
            assert_eq!((x * b).get(), a.wrapping_mul(b));
            assert_eq!(a * y, a.wrapping_mul(b));
            assert_eq!((x & y).get(), a & b);
            assert_eq!((x & b).get(), a & b);
            assert_eq!(a & y, a & b);
            assert_eq!((x | y).get(), a | b);
            assert_eq!((x | b).get(), a | b);
            assert_eq!(a | y, a | b);
            assert_eq!((x ^ y).get(), a ^ b);
            assert_eq!((x ^ b).get(), a ^ b);
            assert_eq!(a ^ y, a ^ b);
            assert_eq!((x << y).get(), a.wrapping_shl(b as u32));
            assert_eq!((x << b).get(), a.wrapping_shl(b as u32));
            assert_eq!(a << y, a.wrapping_shl(b as u32));
            assert_eq!((x >> y).get(), a.wrapping_shr(b as u32));
            assert_eq!((x >> b).get(), a.wrapping_shr(b as u32));
            assert_eq!(a >> y, a.wrapping_shr(b as u32));
            if b != 0 && !(a == i32::MIN && b == -1) {
                assert_eq!((x / y).get(), a / b);
                assert_eq!((x / b).get(), a / b);
                assert_eq!(a / y, a / b);
                assert_eq!((x % y).get(), a % b);
                assert_eq!((x % b).get(), a % b);
                assert_eq!(a % y, a % b);
            }
        }
    }
}

#[test]
fn big_i32_assignment() {
    let samples: [i32; 11] = [
        i32::MIN,
        i32::MIN + 1,
        -0x0102_0304,
        -7,
        -1,
        0,
        1,
        2,
        7,
        0x0102_0304,
        i32::MAX,
    ];
    for a in samples {
        for b in samples {
            let x = BigEndianI32::new(a);
            let y = BigEndianI32::new(b);
            let mut z = x;
            z += y;
            assert_eq!(z.get(), a.wrapping_add(b));
            let mut z = x;
            z += b;
            assert_eq!(z.get(), a.wrapping_add(b));
            let mut w = a;
            w += y;
            assert_eq!(w, a.wrapping_add(b));
            let mut z = x;
            z -= y;
            assert_eq!(z.get(), a.wrapping_sub(b));
            let mut z = x;
            z -= b;
            assert_eq!(z.get(), a.wrapping_sub(b));
            let mut w = a;
            w -= y;
            assert_eq!(w, a.wrapping_sub(b));
            let mut z = x;
            z *= y;
            assert_eq!(z.get(), a.wrapping_mul(b));
            let mut z = x;
            z *= b;
            assert_eq!(z.get(), a.wrapping_mul(b));
            let mut w = a;
            w *= y;
            assert_eq!(w, a.wrapping_mul(b));
            let mut z = x;
            z &= y;
            assert_eq!(z.get(), a & b);
            let mut z = x;
            z &= b;
            assert_eq!(z.get(), a & b);
            let mut w = a;
            w &= y;
            assert_eq!(w, a & b);
            let mut z = x;
            z |= y;
            assert_eq!(z.get(), a | b);
            let mut z = x;
            z |= b;
            assert_eq!(z.get(), a | b);
            let mut w = a;
            w |= y;
            assert_eq!(w, a | b);
            let mut z = x;
            z ^= y;
            assert_eq!(z.get(), a ^ b);
            let mut z = x;
            z ^= b;
            assert_eq!(z.get(), a ^ b);
            let mut w = a;
            w ^= y;
            assert_eq!(w, a ^ b);
            let mut z = x;
            z <<= y;
            assert_eq!(z.get(), a.wrapping_shl(b as u32));
            let mut z = x;
            z <<= b;
            assert_eq!(z.get(), a.wrapping_shl(b as u32));
            let mut w = a;
            w <<= y;
            assert_eq!(w, a.wrapping_shl(b as u32));
            let mut z = x;
            z >>= y;
            assert_eq!(z.get(), a.wrapping_shr(b as u32));
            let mut z = x;
            z >>= b;
            assert_eq!(z.get(), a.wrapping_shr(b as u32));
            let mut w = a;
            w >>= y;
            assert_eq!(w, a.wrapping_shr(b as u32));
            if b != 0 && !(a == i32::MIN && b == -1) {
                let mut z = x;
                z /= y;
                assert_eq!(z.get(), a / b);
                let mut z = x;
                z /= b;
                assert_eq!(z.get(), a / b);
                let mut w = a;
                w /= y;
                assert_eq!(w, a / b);
                let mut z = x;
                z %= y;
                assert_eq!(z.get(), a % b);
                let mut z = x;
                z %= b;
                assert_eq!(z.get(), a % b);
                let mut w = a;
                w %= y;
                assert_eq!(w, a % b);
            }
        }
    }
}

#[test]
fn big_i32_comparison() {
    let samples: [i32; 11] = [
        i32::MIN,
        i32::MIN + 1,
        -0x0102_0304,
        -7,
        -1,
        0,
        1,
        2,
        7,
        0x0102_0304,
        i32::MAX,
    ];
    for a in samples {
        for b in samples {
            let x = BigEndianI32::new(a);
            let y = BigEndianI32::new(b);
            assert_eq!(x == y, a == b);
            assert_eq!(x == b, a == b);
            assert_eq!(a == y, a == b);
            assert_eq!(x != y, a != b);
            assert_eq!(x != b, a != b);
            assert_eq!(a != y, a != b);
            assert_eq!(x < y, a < b);
            assert_eq!(x < b, a < b);
            assert_eq!(a < y, a < b);
            assert_eq!(x <= y, a <= b);
            assert_eq!(x <= b, a <= b);
            assert_eq!(a <= y, a <= b);
            assert_eq!(x > y, a > b);
            assert_eq!(x > b, a > b);
            assert_eq!(a > y, a > b);
            assert_eq!(x >= y, a >= b);
            assert_eq!(x >= b, a >= b);
            assert_eq!(a >= y, a >= b);
            assert_eq!(x.partial_cmp(&y), a.partial_cmp(&b));
            assert_eq!(x.partial_cmp(&b), a.partial_cmp(&b));
            assert_eq!(a.partial_cmp(&y), a.partial_cmp(&b));
        }
    }
}

#[test]
fn big_i32_limits() {
    assert_eq!(BigEndianI32::min_value().get(), i32::MIN);
    assert_eq!(BigEndianI32::max_value().get(), i32::MAX);
    assert_eq!(BigEndianI32::BITS, i32::BITS);
    assert_eq!(BigEndianI32::default().get(), 0);
    assert_eq!((BigEndianI32::max_value() + 1).get(), i32::MIN);
    assert_eq!((BigEndianI32::min_value() - 1).get(), i32::MAX);
}
