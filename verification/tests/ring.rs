use nalgebra::Matrix2;
use num_traits::{One, Zero};
use zn_ring::Zn;

#[test]
fn test_add() {
    assert_eq!(Zn::<2>::new(1) + Zn::<2>::new(1), Zn::<2>::new(0));
    assert_eq!(Zn::<2>::new(1) + Zn::<2>::new(2), Zn::<2>::new(1));
}

#[test]
fn test_sub() {
    assert_eq!(Zn::<2>::new(0) - Zn::<2>::new(1), Zn::<2>::new(1));
    assert_eq!(Zn::<2>::new(1) - Zn::<2>::new(2), Zn::<2>::new(1));
}

#[test]
fn test_mul() {
    assert_eq!(Zn::<2>::new(1) * Zn::<2>::new(1), Zn::<2>::new(1));
    assert_eq!(Zn::<2>::new(1) * Zn::<2>::new(2), Zn::<2>::new(0));
}

#[test]
fn mat_mul() {
    let a = Matrix2::new(
        Zn::<5>::new(1),
        Zn::<5>::new(2),
        Zn::<5>::new(3),
        Zn::<5>::new(4),
    );
    let b = Matrix2::new(
        Zn::<5>::new(1),
        Zn::<5>::new(2),
        Zn::<5>::new(3),
        Zn::<5>::new(4),
    );
    assert_eq!(
        a * b,
        Matrix2::new(
            Zn::<5>::new(2),
            Zn::<5>::new(0),
            Zn::<5>::new(0),
            Zn::<5>::new(2),
        )
    );
}

#[test]
fn new_reduces_into_range() {
    assert_eq!(u128::from(Zn::<7>::new(0)), 0);
    assert_eq!(u128::from(Zn::<7>::new(6)), 6);
    assert_eq!(u128::from(Zn::<7>::new(7)), 0);
    assert_eq!(u128::from(Zn::<7>::new(12)), 5);
    assert_eq!(u128::from(Zn::<7>::new(u128::MAX)), u128::MAX % 7);
}

#[test]
fn new_is_idempotent() {
    for v in [0u128, 1, 6, 7, 8, 100, 12345678901234567890, u128::MAX] {
        let once = u128::from(Zn::<7>::new(v));
        let twice = u128::from(Zn::<7>::new(once));
        assert_eq!(once, twice);
    }
}

#[test]
fn results_stay_in_range() {
    for x in 0u128..9 {
        for y in 0u128..9 {
            let a = Zn::<6>::new(x);
            let b = Zn::<6>::new(y);
            assert!(u128::from(a + b) < 6);
            assert!(u128::from(a - b) < 6);
            assert!(u128::from(a * b) < 6);
        }
    }
}

#[test]
fn exact_values_mod_seven() {
    let a = Zn::<7>::new(5);
    let b = Zn::<7>::new(4);
    assert_eq!(u128::from(a + b), 2);
    assert_eq!(u128::from(a - b), 1);
    assert_eq!(u128::from(b - a), 6);
    assert_eq!(u128::from(a * b), 6);
    assert_eq!(u128::from(a - a), 0);
}

#[test]
fn zero_is_additive_identity() {
    assert_eq!(u128::from(Zn::<5>::zero()), 0);
    for x in 0u128..5 {
        let a = Zn::<5>::new(x);
        assert_eq!(a + Zn::<5>::zero(), a);
        assert_eq!(Zn::<5>::zero() + a, a);
    }
}

#[test]
fn one_is_multiplicative_identity() {
    assert_eq!(u128::from(Zn::<5>::one()), 1);
    for x in 0u128..5 {
        let a = Zn::<5>::new(x);
        assert_eq!(a * Zn::<5>::one(), a);
        assert_eq!(Zn::<5>::one() * a, a);
    }
}

#[test]
fn is_zero_is_exact() {
    assert!(Zn::<5>::zero().is_zero());
    assert!(Zn::<5>::new(5).is_zero());
    assert!(Zn::<5>::new(10).is_zero());
    assert!(!Zn::<5>::one().is_zero());
    assert!(!Zn::<5>::new(4).is_zero());
}

#[test]
fn ring_of_one_element() {
    let z = Zn::<1>::zero();
    let o = Zn::<1>::one();
    assert_eq!(z, o);
    assert_eq!(u128::from(o), 0);
    assert!(o.is_zero());
    assert_eq!(Zn::<1>::new(17), z);
    assert_eq!(z + o, z);
    assert_eq!(z - o, z);
    assert_eq!(z * o, z);
}

#[test]
fn sub_then_add_gives_back() {
    for x in 0u128..11 {
        for y in 0u128..11 {
            let a = Zn::<11>::new(x);
            let b = Zn::<11>::new(y);
            assert_eq!((a - b) + b, a);
        }
    }
}

#[test]
fn add_and_mul_commute() {
    for x in 0u128..9 {
        for y in 0u128..9 {
            let a = Zn::<9>::new(x);
            let b = Zn::<9>::new(y);
            assert_eq!(a + b, b + a);
            assert_eq!(a * b, b * a);
        }
    }
}

#[test]
fn add_and_mul_associate_and_distribute() {
    for x in 0u128..6 {
        for y in 0u128..6 {
            for z in 0u128..6 {
                let a = Zn::<6>::new(x);
                let b = Zn::<6>::new(y);
                let c = Zn::<6>::new(z);
                assert_eq!((a + b) + c, a + (b + c));
                assert_eq!((a * b) * c, a * (b * c));
                assert_eq!(a * (b + c), a * b + a * c);
            }
        }
    }
}

#[test]
fn difference_is_the_only_solution() {
    for x in 0u128..7 {
        for y in 0u128..7 {
            let a = Zn::<7>::new(x);
            let b = Zn::<7>::new(y);
            let mut found = 0;
            for z in 0u128..7 {
                let c = Zn::<7>::new(z);
                if b + c == a {
                    assert_eq!(c, a - b);
                    found += 1;
                }
            }
            assert_eq!(found, 1);
        }
    }
}

#[test]
fn compound_assignment_replaces_left_operand() {
    let mut a = Zn::<5>::new(3);
    a += Zn::<5>::new(4);
    assert_eq!(a, Zn::<5>::new(2));
    a *= Zn::<5>::new(4);
    assert_eq!(a, Zn::<5>::new(3));
    assert_eq!(u128::from(a), 3);
}

#[test]
fn add_does_not_overflow_near_the_top() {
    let m = 340282366920938463463374607431768211455u128;
    let a = Zn::<340282366920938463463374607431768211455>::new(m - 1);
    let b = Zn::<340282366920938463463374607431768211455>::new(m - 1);
    assert_eq!(u128::from(a + b), m - 2);
    let c = Zn::<340282366920938463463374607431768211455>::new(1);
    assert_eq!(u128::from(a + c), 0);
    assert_eq!(u128::from(c - a), 2);
}

#[test]
fn mul_is_exact_for_wide_moduli() {
    let m = 340282366920938463463374607431768211455u128;
    let a = Zn::<340282366920938463463374607431768211455>::new(m - 1);
    assert_eq!(u128::from(a * a), 1);
    let two = Zn::<340282366920938463463374607431768211455>::new(2);
    assert_eq!(u128::from(a * two), m - 2);
    assert_eq!(u128::from(two * a), m - 2);

    // 2^126 * 4 = 2^128 = 2 * (2^127 - 1) + 2
    let p = Zn::<170141183460469231731687303715884105727>::new(1u128 << 126);
    let q = Zn::<170141183460469231731687303715884105727>::new(4);
    assert_eq!(u128::from(p * q), 2);
    // 2^126 * 2^126 = 2^252 = 2^(127 + 125), and 2^127 is 1 in this ring
    assert_eq!(u128::from(p * p), 1u128 << 125);
}

#[test]
fn mul_agrees_with_direct_product_where_it_fits() {
    let xs = [0u128, 1, 2, 999_999_937, 1_000_000_006, 123_456_789];
    for x in xs {
        for y in xs {
            let a = Zn::<1000000007>::new(x);
            let b = Zn::<1000000007>::new(y);
            let direct = ((x % 1_000_000_007) * (y % 1_000_000_007)) % 1_000_000_007;
            assert_eq!(u128::from(a * b), direct);
        }
    }
}

#[test]
fn elements_copy_and_compare() {
    let a = Zn::<5>::new(8);
    let b = a;
    assert_eq!(a, b);
    assert_eq!(a.clone(), Zn::<5>::new(3));
    assert_ne!(a, Zn::<5>::new(4));
    assert_eq!(format!("{:?}", a), "Zn { value: 3 }");
}
