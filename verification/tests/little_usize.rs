use lowlevel::endian::LittleEndianUsize;

#[test]
fn little_usize_round_trip() {
    let samples: [usize; 9] = [
        0,
        1,
        2,
        7,
        0x0102_0304,
        0x0000_ffff,
        usize::MAX / 3,
        usize::MAX - 1,
        usize::MAX,
    ];
    for v in samples {
        assert_eq!(LittleEndianUsize::new(v).get(), v);
        let mut cell = LittleEndianUsize::new(0);
        cell.set(v);
        assert_eq!(cell.get(), v);
        let wrapped: LittleEndianUsize = v.into();
        assert_eq!(wrapped.get(), v);
        let back: usize = wrapped.into();
        assert_eq!(back, v);
        let copy = wrapped;
        assert_eq!(copy.get(), wrapped.get());
    }
}

#[test]
fn little_usize_stored_bytes() {
    let samples: [usize; 9] = [
        0,
        1,
        2,
        7,
        0x0102_0304,
        0x0000_ffff,
        usize::MAX / 3,
        usize::MAX - 1,
        usize::MAX,
    ];
    for v in samples {
        assert_eq!(LittleEndianUsize::new(v).raw.to_ne_bytes(), v.to_le_bytes());
        let wire = LittleEndianUsize { raw: usize::from_ne_bytes(v.to_le_bytes()) };
        assert_eq!(wire.get(), v);
    }
    let one = LittleEndianUsize::new(1).raw.to_ne_bytes();
    assert_eq!(one[0], 1);
    assert!(one[1..].iter().all(|b| *b == 0));
}

#[test]
fn little_usize_arithmetic() {
    let samples: [usize; 9] = [
        0,
        1,
        2,
        7,
        0x0102_0304,
        0x0000_ffff,
        usize::MAX / 3,
        usize::MAX - 1,
        usize::MAX,
    ];
    for a in samples {
        let x = LittleEndianUsize::new(a);
        assert_eq!((!x).get(), !a);
        for b in samples {
            let y = LittleEndianUsize::new(b);
            assert_eq!((x + y).get(), a.wrapping_add(b));
            assert_eq!((x + b).get(), a.wrapping_add(b));
            assert_eq!(a + y, a.wrapping_add(b));
            assert_eq!((x - y).get(), a.wrapping_sub(b));
            assert_eq!((x - b).get(), a.wrapping_sub(b));
            assert_eq!(a - y, a.wrapping_sub(b));
            assert_eq!((x * y).get(), a.wrapping_mul(b));
            assert_eq!((x * b).get(), a.wrapping_mul(b));
            assert_eq!(a * y, a.wrapping_mul(b));
            assert_eq!((x & y).get(), a & b);
            assert_eq!((x & b).get(), a & b);
            assert_eq!(a & y, a & b);
            assert_eq!((x | y).get(), a | b);
            assert_eq!((x | b).get(), a | b);
            assert_eq!(a | y, a | b);
            assert_eq!((x ^ y).get(), a ^ b);
            assert_eq!((x ^ b).get(), a ^ b);
            assert_eq!(a ^ y, a ^ b);
            assert_eq!((x << y).get(), a.wrapping_shl(b as u32));
            assert_eq!((x << b).get(), a.wrapping_shl(b as u32));
            assert_eq!(a << y, a.wrapping_shl(b as u32));
            assert_eq!((x >> y).get(), a.wrapping_shr(b as u32));
            assert_eq!((x >> b).get(), a.wrapping_shr(b as u32));
            assert_eq!(a >> y, a.wrapping_shr(b as u32));
            if b != 0 {
                assert_eq!((x / y).get(), a / b);
                assert_eq!((x / b).get(), a / b);
                assert_eq!(a / y, a / b);
                assert_eq!((x % y).get(), a % b);
                assert_eq!((x % b).get(), a % b);
                assert_eq!(a % y, a % b);
            }
        }
    }
}

#[test]
fn little_usize_assignment() {
    let samples: [usize; 9] = [
        0,
        1,
        2,
        7,
        0x0102_0304,
        0x0000_ffff,
        usize::MAX / 3,
        usize::MAX - 1,
        usize::MAX,
    ];
    for a in samples {
        for b in samples {
            let x = LittleEndianUsize::new(a);
            let y = LittleEndianUsize::new(b);
            let mut z = x;
            z += y;
            assert_eq!(z.get(), a.wrapping_add(b));
            let mut z = x;
            z += b;
            assert_eq!(z.get(), a.wrapping_add(b));
            let mut w = a;
            w += y;
            assert_eq!(w, a.wrapping_add(b));
            let mut z = x;
            z -= y;
            assert_eq!(z.get(), a.wrapping_sub(b));
            let mut z = x;
            z -= b;
            assert_eq!(z.get(), a.wrapping_sub(b));
            let mut w = a;
            w -= y;
            assert_eq!(w, a.wrapping_sub(b));
            let mut z = x;
            z *= y;
            assert_eq!(z.get(), a.wrapping_mul(b));
            let mut z = x;
            z *= b;
            assert_eq!(z.get(), a.wrapping_mul(b));
            let mut w = a;
            w *= y;
            assert_eq!(w, a.wrapping_mul(b));
            let mut z = x;
            z &= y;
            assert_eq!(z.get(), a & b);
            let mut z = x;
            z &= b;
            assert_eq!(z.get(), a & b);
            let mut w = a;
            w &= y;
            assert_eq!(w, a & b);
            let mut z = x;
            z |= y;
            assert_eq!(z.get(), a | b);
            let mut z = x;
            z |= b;
            assert_eq!(z.get(), a | b);
            let mut w = a;
            w |= y;
            assert_eq!(w, a | b);
            let mut z = x;
            z ^= y;
            assert_eq!(z.get(), a ^ b);
            let mut z = x;
            z ^= b;
            assert_eq!(z.get(), a ^ b);
            let mut w = a;
            w ^= y;
            assert_eq!(w, a ^ b);
            let mut z = x;
            z <<= y;
            assert_eq!(z.get(), a.wrapping_shl(b as u32));
            let mut z = x;
            z <<= b;
            assert_eq!(z.get(), a.wrapping_shl(b as u32));
            let mut w = a;
            w <<= y;
            assert_eq!(w, a.wrapping_shl(b as u32));
            let mut z = x;
            z >>= y;
            assert_eq!(z.get(), a.wrapping_shr(b as u32));
            let mut z = x;
            z >>= b;
            assert_eq!(z.get(), a.wrapping_shr(b as u32));
            let mut w = a;
            w >>= y;
            assert_eq!(w, a.wrapping_shr(b as u32));
            if b != 0 {
                let mut z = x;
                z /= y;
                assert_eq!(z.get(), a / b);
                let mut z = x;
                z /= b;
                assert_eq!(z.get(), a / b);
                let mut w = a;
                w /= y;
                assert_eq!(w, a / b);
                let mut z = x;
                z %= y;
                assert_eq!(z.get(), a % b);
                let mut z = x;
                z %= b;
                assert_eq!(z.get(), a % b);
                let mut w = a;
                w %= y;
                assert_eq!(w, a % b);
            }
        }
    }
}

#[test]
fn little_usize_comparison() {
    let samples: [usize; 9] = [
        0,
        1,
        2,
        7,
        0x0102_0304,
        0x0000_ffff,
        usize::MAX / 3,
        usize::MAX - 1,
        usize::MAX,
    ];
    for a in samples {
        for b in samples {
            let x = LittleEndianUsize::new(a);
            let y = LittleEndianUsize::new(b);
            assert_eq!(x == y, a == b);
            assert_eq!(x == b, a == b);
            assert_eq!(a == y, a == b);
            assert_eq!(x != y, a != b);
            assert_eq!(x != b, a != b);
            assert_eq!(a != y, a != b);
            assert_eq!(x < y, a < b);
            assert_eq!(x < b, a < b);
            assert_eq!(a < y, a < b);
            assert_eq!(x <= y, a <= b);
            assert_eq!(x <= b, a <= b);
            assert_eq!(a <= y, a <= b);
            assert_eq!(x > y, a > b);
            assert_eq!(x > b, a > b);
            assert_eq!(a > y, a > b);
            assert_eq!(x >= y, a >= b);
            assert_eq!(x >= b, a >= b);
            assert_eq!(a >= y, a >= b);
            assert_eq!(x.partial_cmp(&y), a.partial_cmp(&b));
            assert_eq!(x.partial_cmp(&b), a.partial_cmp(&b));
            assert_eq!(a.partial_cmp(&y), a.partial_cmp(&b));
        }
    }
}

#[test]
fn little_usize_limits() {
    assert_eq!(LittleEndianUsize::min_value().get(), usize::MIN);
    assert_eq!(LittleEndianUsize::max_value().get(), usize::MAX);
    assert_eq!(LittleEndianUsize::BITS, usize::BITS);
    assert_eq!(LittleEndianUsize::default().get(), 0);
    assert_eq!((LittleEndianUsize::max_value() + 1).get(), usize::MIN);
    assert_eq!((LittleEndianUsize::min_value() - 1).get(), usize::MAX);
}
