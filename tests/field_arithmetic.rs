use griffin_rescue::field::{Felt128, Felt62, Felt64, PrimeField, MODULUS_128, MODULUS_62, MODULUS_64};

#[test]
fn felt62_reduces_on_construction() {
    assert_eq!(Felt62::new(MODULUS_62).as_int(), 0);
    assert_eq!(Felt62::new(MODULUS_62 + 5).as_int(), 5);
    assert_eq!(Felt62::from_u128(MODULUS_62 as u128 * 3 + 7).as_int(), 7);
}

#[test]
fn felt62_add_wraps() {
    let a = Felt62::new(MODULUS_62 - 1);
    let b = Felt62::new(2);
    assert_eq!(a.add(b).as_int(), 1);
    assert_eq!(Felt62::new(40).add(Felt62::new(2)).as_int(), 42);
}

#[test]
fn felt62_sub_wraps() {
    assert_eq!(Felt62::new(3).sub(Felt62::new(5)).as_int(), (MODULUS_62 - 2) as u128);
    assert_eq!(Felt62::new(10).sub(Felt62::new(4)).as_int(), 6);
}

#[test]
fn felt62_mul_reduces() {
    let m = Felt62::new(MODULUS_62 - 1);
    assert_eq!(m.mul(m).as_int(), 1);
    assert_eq!(Felt62::new(6).mul(Felt62::new(7)).as_int(), 42);
    let big = Felt62::new(1 << 40);
    let expected = ((1u128 << 80) % MODULUS_62 as u128) as u128;
    assert_eq!(big.mul(big).as_int(), expected);
}

#[test]
fn felt62_exp_matches_repeated_multiplication() {
    let x = Felt62::new(123456789);
    let mut acc = Felt62::one();
    for _ in 0..7 {
        acc = acc.mul(x);
    }
    assert_eq!(x.exp(7), acc);
    assert_eq!(x.exp(0).as_int(), 1);
    assert_eq!(Felt62::zero().exp(5).as_int(), 0);
}

#[test]
fn felt64_arithmetic() {
    let m = Felt64::new(MODULUS_64 - 1);
    assert_eq!(m.add(Felt64::new(2)).as_int(), 1);
    assert_eq!(m.mul(m).as_int(), 1);
    assert_eq!(Felt64::new(3).sub(Felt64::new(5)).as_int(), (MODULUS_64 - 2) as u128);
    assert_eq!(Felt64::new(u64::MAX).as_int(), (u64::MAX % MODULUS_64) as u128);
    assert_eq!(Felt64::new(2).exp(64).as_int(), ((1u128 << 64) % MODULUS_64 as u128) as u128);
}

#[test]
fn felt128_arithmetic() {
    let m = Felt128::new(MODULUS_128 - 1);
    assert_eq!(m.add(Felt128::new(2)).as_int(), 1);
    assert_eq!(m.add(m).as_int(), MODULUS_128 - 2);
    assert_eq!(m.mul(m).as_int(), 1);
    assert_eq!(Felt128::new(3).sub(Felt128::new(5)).as_int(), MODULUS_128 - 2);
    assert_eq!(Felt128::new(u128::MAX).as_int(), u128::MAX - MODULUS_128);
    assert_eq!(Felt128::new(1 << 100).mul(Felt128::new(1 << 27)).as_int(), 1u128 << 127);
    let x = Felt128::new(987654321987654321);
    assert_eq!(x.exp(3), x.mul(x).mul(x));
}
