use lowlevel::endian::LittleEndianIsize;

#[test]
fn little_isize_round_trip() {
    let samples: [isize; 11] = [
        isize::MIN,
        isize::MIN + 1,
        -0x0102_0304,
        -7,
        -1,
        0,
        1,
        2,
        7,
        0x0102_0304,
        isize::MAX,
    ];
    for v in samples {
        assert_eq!(LittleEndianIsize::new(v).get(), v);
        let mut cell = LittleEndianIsize::new(0);
        cell.set(v);
        assert_eq!(cell.get(), v);
        let wrapped: LittleEndianIsize = v.into();
        assert_eq!(wrapped.get(), v);
        let back: isize = wrapped.into();
        assert_eq!(back, v);
        let copy = wrapped;
        assert_eq!(copy.get(), wrapped.get());
    }
}

#[test]
fn little_isize_stored_bytes() {
    let samples: [isize; 11] = [
        isize::MIN,
        isize::MIN + 1,
        -0x0102_0304,
        -7,
        -1,
        0,
        1,
        2,
        7,
        0x0102_0304,
        isize::MAX,
    ];
    for v in samples {
        assert_eq!(LittleEndianIsize::new(v).raw.to_ne_bytes(), v.to_le_bytes());
        let wire = LittleEndianIsize { raw: isize::from_ne_bytes(v.to_le_bytes()) };
        assert_eq!(wire.get(), v);
    }
    let one = LittleEndianIsize::new(1).raw.to_ne_bytes();
    assert_eq!(one[0], 1);
    assert!(one[1..].iter().all(|b| *b == 0));
}

#[test]
fn little_isize_arithmetic() {
    let samples: [isize; 11] = [
        isize::MIN,
        isize::MIN + 1,
        -0x0102_0304,
        -7,
        -1,
        0,
        1,
        2,
        7,
        0x0102_0304,
        isize::MAX,
    ];
    for a in samples {
        let x = LittleEndianIsize::new(a);
        assert_eq!((!x).get(), !a);
        assert_eq!((-x).get(), a.wrapping_neg());
        for b in samples {
            let y = LittleEndianIsize::new(b);
            assert_eq!((x + y).get(), a.wrapping_add(b));
            assert_eq!((x + b).get(), a.wrapping_add(b));
            assert_eq!(a + y, a.wrapping_add(b));
            assert_eq!((x - y).get(), a.wrapping_sub(b));
            assert_eq!((x - b).get(), a.wrapping_sub(b));
            assert_eq!(a - y, a.wrapping_sub(b));
            assert_eq!((x * y).get(), a.wrapping_mul(b));
            assert_eq!((x * b).get(), a.wrapping_mul(b));
            assert_eq!(a * y, a.wrapping_mul(b));
            assert_eq!((x & y).get(), a & b);
            assert_eq!((x & b).get(), a & b);
            assert_eq!(a & y, a & b);
            assert_eq!((x | y).get(), a | b);
            assert_eq!((x | b).get(), a | b);
            assert_eq!(a | y, a | b);
            assert_eq!((x ^ y).get(), a ^ b);
            assert_eq!((x ^ b).get(), a ^ b);
            assert_eq!(a ^ y, a ^ b);
            assert_eq!((x << y).get(), a.wrapping_shl(b as u32));
            assert_eq!((x << b).get(), a.wrapping_shl(b as u32));
            assert_eq!(a << y, a.wrapping_shl(b as u32));
            assert_eq!((x >> y).get(), a.wrapping_shr(b as u32));
            assert_eq!((x >> b).get(), a.wrapping_shr(b as u32));
            assert_eq!(a >> y, a.wrapping_shr(b as u32));
            if b != 0 && !(a == isize::MIN && b == -1) {
                assert_eq!((x / y).get(), a / b);
                assert_eq!((x / b).get(), a / b);
                assert_eq!(a / y, a / b);
                assert_eq!((x % y).get(), a % b);
                assert_eq!((x % b).get(), a % b);
                assert_eq!(a % y, a % b);
            }
        }
    }
}

#[test]
fn little_isize_assignment() {
    let samples: [isize; 11] = [
        isize::MIN,
        isize::MIN + 1,
        -0x0102_0304,
        -7,
        -1,
        0,
        1,
        2,
        7,
        0x0102_0304,
        isize::MAX,
    ];
    for a in samples {
        for b in samples {
            let x = LittleEndianIsize::new(a);
            let y = LittleEndianIsize::new(b);
            let mut z = x;
            z += y;
            assert_eq!(z.get(), a.wrapping_add(b));
            let mut z = x;
            z += b;
            assert_eq!(z.get(), a.wrapping_add(b));
            let mut w = a;
            w += y;
            assert_eq!(w, a.wrapping_add(b));
            let mut z = x;
            z -= y;
            assert_eq!(z.get(), a.wrapping_sub(b));
            let mut z = x;
            z -= b;
            assert_eq!(z.get(), a.wrapping_sub(b));
            let mut w = a;
            w -= y;
            assert_eq!(w, a.wrapping_sub(b));
            let mut z = x;
            z *= y;
            assert_eq!(z.get(), a.wrapping_mul(b));
            let mut z = x;
            z *= b;
            assert_eq!(z.get(), a.wrapping_mul(b));
            let mut w = a;
            w *= y;
            assert_eq!(w, a.wrapping_mul(b));
            let mut z = x;
            z &= y;
            assert_eq!(z.get(), a & b);
            let mut z = x;
            z &= b;
            assert_eq!(z.get(), a & b);
            let mut w = a;
            w &= y;
            assert_eq!(w, a & b);
            let mut z = x;
            z |= y;
            assert_eq!(z.get(), a | b);
            let mut z = x;
            z |= b;
            assert_eq!(z.get(), a | b);
            let mut w = a;
            w |= y;
            assert_eq!(w, a | b);
            let mut z = x;
            z ^= y;
            assert_eq!(z.get(), a ^ b);
            let mut z = x;
            z ^= b;
            assert_eq!(z.get(), a ^ b);
            let mut w = a;
            w ^= y;
            assert_eq!(w, a ^ b);
            let mut z = x;
            z <<= y;
            assert_eq!(z.get(), a.wrapping_shl(b as u32));
            let mut z = x;
            z <<= b;
            assert_eq!(z.get(), a.wrapping_shl(b as u32));
            let mut w = a;
            w <<= y;
            assert_eq!(w, a.wrapping_shl(b as u32));
            let mut z = x;
            z >>= y;
            assert_eq!(z.get(), a.wrapping_shr(b as u32));
            let mut z = x;
            z >>= b;
            assert_eq!(z.get(), a.wrapping_shr(b as u32));
            let mut w = a;
            w >>= y;
            assert_eq!(w, a.wrapping_shr(b as u32));
            if b != 0 && !(a == isize::MIN && b == -1) {
                let mut z = x;
                z /= y;
                assert_eq!(z.get(), a / b);
                let mut z = x;
                z /= b;
                assert_eq!(z.get(), a / b);
                let mut w = a;
                w /= y;
                assert_eq!(w, a / b);
                let mut z = x;
                z %= y;
                assert_eq!(z.get(), a % b);
                let mut z = x;
                z %= b;
                assert_eq!(z.get(), a % b);
                let mut w = a;
                w %= y;
                assert_eq!(w, a % b);
            }
        }
    }
}

#[test]
fn little_isize_comparison() {
    let samples: [isize; 11] = [
        isize::MIN,
        isize::MIN + 1,
        -0x0102_0304,
        -7,
        -1,
        0,
        1,
        2,
        7,
        0x0102_0304,
        isize::MAX,
    ];
    for a in samples {
        for b in samples {
            let x = LittleEndianIsize::new(a);
            let y = LittleEndianIsize::new(b);
            assert_eq!(x == y, a == b);
            assert_eq!(x == b, a == b);
            assert_eq!(a == y, a == b);
            assert_eq!(x != y, a != b);
            assert_eq!(x != b, a != b);
            assert_eq!(a != y, a != b);
            assert_eq!(x < y, a < b);
            assert_eq!(x < b, a < b);
            assert_eq!(a < y, a < b);
            assert_eq!(x <= y, a <= b);
            assert_eq!(x <= b, a <= b);
            assert_eq!(a <= y, a <= b);
            assert_eq!(x > y, a > b);
            assert_eq!(x > b, a > b);
            assert_eq!(a > y, a > b);
            assert_eq!(x >= y, a >= b);
            assert_eq!(x >= b, a >= b);
            assert_eq!(a >= y, a >= b);
            assert_eq!(x.partial_cmp(&y), a.partial_cmp(&b));
            assert_eq!(x.partial_cmp(&b), a.partial_cmp(&b));
            assert_eq!(a.partial_cmp(&y), a.partial_cmp(&b));
        }
    }
}

#[test]
fn little_isize_limits() {
    assert_eq!(LittleEndianIsize::min_value().get(), isize::MIN);
    assert_eq!(LittleEndianIsize::max_value().get(), isize::MAX);
    assert_eq!(LittleEndianIsize::BITS, isize::BITS);
    assert_eq!(LittleEndianIsize::default().get(), 0);
    assert_eq!((LittleEndianIsize::max_value() + 1).get(), isize::MIN);
    assert_eq!((LittleEndianIsize::min_value() - 1).get(), isize::MAX);
}
