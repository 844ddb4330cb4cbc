use lowlevel::endian::BigEndianUsize;

#[test]
fn big_usize_round_trip() {
    let samples: [usize; 9] = [
        0,
        1,
        2,
        7,
        0x0102_0304,
        0x0000_ffff,
        usize::MAX / 3,
        usize::MAX - 1,
        usize::MAX,
    ];
    for v in samples {
        assert_eq!(BigEndianUsize::new(v).get(), v);
        let mut cell = BigEndianUsize::new(0);
        cell.set(v);
        assert_eq!(cell.get(), v);
        let wrapped: BigEndianUsize = v.into();
        assert_eq!(wrapped.get(), v);
        let back: usize = wrapped.into();
        assert_eq!(back, v);
        let copy = wrapped;
        assert_eq!(copy.get(), wrapped.get());
    }
}

#[test]
fn big_usize_stored_bytes() {
    let samples: [usize; 9] = [
        0,
        1,
        2,
        7,
        0x0102_0304,
        0x0000_ffff,
        usize::MAX / 3,
        usize::MAX - 1,
        usize::MAX,
    ];
    for v in samples {
        assert_eq!(BigEndianUsize::new(v).raw.to_ne_bytes(), v.to_be_bytes());
        let wire = BigEndianUsize { raw: usize::from_ne_bytes(v.to_be_bytes()) };
        assert_eq!(wire.get(), v);
    }
    let one = BigEndianUsize::new(1).raw.to_ne_bytes();
    assert_eq!(one[one.len() - 1], 1);
    assert!(one[..one.len() - 1].iter().all(|b| *b == 0));
}

#[test]
fn big_usize_arithmetic() {
    let samples: [usize; 9] = [
        0,
        1,
        2,
        7,
        0x0102_0304,
        0x0000_ffff,
        usize::MAX / 3,
        usize::MAX - 1,
        usize::MAX,
    ];
    for a in samples {
        let x = BigEndianUsize::new(a);
        assert_eq!((!x).get(), !a);
        for b in samples {
            let y = BigEndianUsize::new(b);
            assert_eq!((x + y).get(), a.wrapping_add(b));
            assert_eq!((x + b).get(), a.wrapping_add(b));
            assert_eq!(a + y, a.wrapping_add(b));
            assert_eq!((x - y).get(), a.wrapping_sub(b));
            assert_eq!((x - b).get(), a.wrapping_sub(b));
            assert_eq!(a - y, a.wrapping_sub(b));
            assert_eq!((x * y).get(), a.wrapping_mul(b));
            assert_eq!((x * b).get(), a.wrapping_mul(b));
            assert_eq!(a * y, a.wrapping_mul(b));
            assert_eq!((x & y).get(), a & b);
            assert_eq!((x & b).get(), a & b);
            assert_eq!(a & y, a & b);
            assert_eq!((x | y).get(), a | b);
            assert_eq!((x | b).get(), a | b);
            assert_eq!(a | y, a | b);
            assert_eq!((x ^ y).get(), a ^ b);
            assert_eq!((x ^ b).get(), a ^ b);
            assert_eq!(a ^ y, a ^ b);
            assert_eq!((x << y).get(), a.wrapping_shl(b as u32));
            assert_eq!((x << b).get(), a.wrapping_shl(b as u32));
            assert_eq!(a << y, a.wrapping_shl(b as u32));
            assert_eq!((x >> y).get(), a.wrapping_shr(b as u32));
            assert_eq!((x >> b).get(), a.wrapping_shr(b as u32));
            assert_eq!(a >> y, a.wrapping_shr(b as u32));
            if b != 0 {
                assert_eq!((x / y).get(), a / b);
                assert_eq!((x / b).get(), a / b);
                assert_eq!(a / y, a / b);
                assert_eq!((x % y).get(), a % b);
                assert_eq!((x % b).get(), a % b);
                assert_eq!(a % y, a % b);
            }
        }
    }
}

#[test]
fn big_usize_assignment() {
    let samples: [usize; 9] = [
        0,
        1,
        2,
        7,
        0x0102_0304,
        0x0000_ffff,
        usize::MAX / 3,
        usize::MAX - 1,
        usize::MAX,
    ];
    for a in samples {
        for b in samples {
            let x = BigEndianUsize::new(a);
            let y = BigEndianUsize::new(b);
            let mut z = x;
            z += y;
            assert_eq!(z.get(), a.wrapping_add(b));
            let mut z = x;
            z += b;
            assert_eq!(z.get(), a.wrapping_add(b));
            let mut w = a;
            w += y;
            assert_eq!(w, a.wrapping_add(b));
            let mut z = x;
            z -= y;
            assert_eq!(z.get(), a.wrapping_sub(b));
            let mut z = x;
            z -= b;
            assert_eq!(z.get(), a.wrapping_sub(b));
            let mut w = a;
            w -= y;
            assert_eq!(w, a.wrapping_sub(b));
            let mut z = x;
            z *= y;
            assert_eq!(z.get(), a.wrapping_mul(b));
            let mut z = x;
            z *= b;
            assert_eq!(z.get(), a.wrapping_mul(b));
            let mut w = a;
            w *= y;
            assert_eq!(w, a.wrapping_mul(b));
            let mut z = x;
            z &= y;
            assert_eq!(z.get(), a & b);
            let mut z = x;
            z &= b;
            assert_eq!(z.get(), a & b);
            let mut w = a;
            w &= y;
            assert_eq!(w, a & b);
            let mut z = x;
            z |= y;
            assert_eq!(z.get(), a | b);
            let mut z = x;
            z |= b;
            assert_eq!(z.get(), a | b);
            let mut w = a;
            w |= y;
            assert_eq!(w, a | b);
            let mut z = x;
            z ^= y;
            assert_eq!(z.get(), a ^ b);
            let mut z = x;
            z ^= b;
            assert_eq!(z.get(), a ^ b);
            let mut w = a;
            w ^= y;
            assert_eq!(w, a ^ b);
            let mut z = x;
            z <<= y;
            assert_eq!(z.get(), a.wrapping_shl(b as u32));
            let mut z = x;
            z <<= b;
            assert_eq!(z.get(), a.wrapping_shl(b as u32));
            let mut w = a;
            w <<= y;
            assert_eq!(w, a.wrapping_shl(b as u32));
            let mut z = x;
            z >>= y;
            assert_eq!(z.get(), a.wrapping_shr(b as u32));
            let mut z = x;
            z >>= b;
            assert_eq!(z.get(), a.wrapping_shr(b as u32));
            let mut w = a;
            w >>= y;
            assert_eq!(w, a.wrapping_shr(b as u32));
            if b != 0 {
                let mut z = x;
                z /= y;
                assert_eq!(z.get(), a / b);
                let mut z = x;
                z /= b;
                assert_eq!(z.get(), a / b);
                let mut w = a;
                w /= y;
                assert_eq!(w, a / b);
                let mut z = x;
                z %= y;
                assert_eq!(z.get(), a % b);
                let mut z = x;
                z %= b;
                assert_eq!(z.get(), a % b);
                let mut w = a;
                w %= y;
                assert_eq!(w, a % b);
            }
        }
    }
}

#[test]
fn big_usize_comparison() {
    let samples: [usize; 9] = [
        0,
        1,
        2,
        7,
        0x0102_0304,
        0x0000_ffff,
        usize::MAX / 3,
        usize::MAX - 1,
        usize::MAX,
    ];
    for a in samples {
        for b in samples {
            let x = BigEndianUsize::new(a);
            let y = BigEndianUsize::new(b);
            assert_eq!(x == y, a == b);
            assert_eq!(x == b, a == b);
            assert_eq!(a == y, a == b);
            assert_eq!(x != y, a != b);
            assert_eq!(x != b, a != b);
            assert_eq!(a != y, a != b);
            assert_eq!(x < y, a < b);
            assert_eq!(x < b, a < b);
            assert_eq!(a < y, a < b);
            assert_eq!(x <= y, a <= b);
            assert_eq!(x <= b, a <= b);
            assert_eq!(a <= y, a <= b);
            assert_eq!(x > y, a > b);
            assert_eq!(x > b, a > b);
            assert_eq!(a > y, a > b);
            assert_eq!(x >= y, a >= b);
            assert_eq!(x >= b, a >= b);
            assert_eq!(a >= y, a >= b);
            assert_eq!(x.partial_cmp(&y), a.partial_cmp(&b));
            assert_eq!(x.partial_cmp(&b), a.partial_cmp(&b));
            assert_eq!(a.partial_cmp(&y), a.partial_cmp(&b));
        }
    }
}

#[test]
fn big_usize_limits() {
    assert_eq!(BigEndianUsize::min_value().get(), usize::MIN);
    assert_eq!(BigEndianUsize::max_value().get(), usize::MAX);
    assert_eq!(BigEndianUsize::BITS, usize::BITS);
    assert_eq!(BigEndianUsize::default().get(), 0);
    assert_eq!((BigEndianUsize::max_value() + 1).get(), usize::MIN);
    assert_eq!((BigEndianUsize::min_value() - 1).get(), usize::MAX);
}
