use fp12_mul::digits::words_to_bytes_le;
use fp12_mul::natural::Natural;

/// The prime of the BLS12-381 base field, least significant byte first.
const BLS12_381: [u8; 48] = [
    0xab, 0xaa, 0xff, 0xff, 0xff, 0xff, 0xfe, 0xb9, 0xff, 0xff, 0x53, 0xb1, 0xfe, 0xff, 0xab, 0x1e,
    0x24, 0xf6, 0xb0, 0xf6, 0xa0, 0xd2, 0x30, 0x67, 0xbf, 0x12, 0x85, 0xf3, 0x84, 0x4b, 0x77, 0x64,
    0xd7, 0xac, 0x4b, 0x43, 0xb6, 0xa7, 0x1b, 0x4b, 0x9a, 0xe6, 0x7f, 0x39, 0xea, 0x11, 0x01, 0x1a,
];

fn number(digits: &[u32]) -> Natural {
    Natural::from_bytes_le(&words_to_bytes_le(digits))
}

#[test]
fn small_numbers() {
    assert_eq!(Natural::zero().digits().as_slice(), &[] as &[u32]);
    assert_eq!(Natural::one().digits().as_slice(), &[1]);
    assert_eq!(Natural::from_u32(0), Natural::zero());
    assert_eq!(Natural::from_u32(1), Natural::one());
    assert_eq!(Natural::from_u32(u32::MAX).digits().as_slice(), &[u32::MAX]);
}

#[test]
fn words_as_bytes() {
    assert_eq!(words_to_bytes_le(&[]), Vec::<u8>::new());
    assert_eq!(
        words_to_bytes_le(&[0x0403_0201, 0xff00_0080]),
        vec![1, 2, 3, 4, 0x80, 0, 0, 0xff]
    );
}

#[test]
fn bytes_as_digits() {
    assert_eq!(Natural::from_bytes_le(&[]), Natural::zero());
    assert_eq!(Natural::from_bytes_le(&[0, 0, 0, 0, 0]), Natural::zero());
    assert_eq!(
        Natural::from_bytes_le(&[1, 2, 3, 4, 5]).digits().as_slice(),
        &[0x0403_0201, 5]
    );
    assert_eq!(
        Natural::from_bytes_le(&[7, 0, 0, 0, 0, 0, 0, 0, 0]).digits().as_slice(),
        &[7]
    );
}

#[test]
fn words_survive_the_way_through_bytes() {
    let words = [0xdead_beef, 0, 0x8000_0001, 1];
    assert_eq!(number(&words).digits().as_slice(), &words);
}

#[test]
fn sums_carry() {
    let a = number(&[u32::MAX, u32::MAX]);
    assert_eq!(a.add(&Natural::one()).digits().as_slice(), &[0, 0, 1]);
    assert_eq!(a.add(&Natural::zero()), a);
    assert_eq!(
        Natural::from_u32(40).add(&Natural::from_u32(2)),
        Natural::from_u32(42)
    );
}

#[test]
fn differences_borrow() {
    let a = number(&[0, 0, 1]);
    assert_eq!(a.sub(&Natural::one()).digits().as_slice(), &[u32::MAX, u32::MAX]);
    assert_eq!(a.sub(&a), Natural::zero());
    assert_eq!(
        Natural::from_u32(44).sub(&Natural::from_u32(2)),
        Natural::from_u32(42)
    );
}

#[test]
fn products() {
    assert_eq!(
        Natural::from_u32(u32::MAX).mul(&Natural::from_u32(u32::MAX)).digits().as_slice(),
        &[1, 0xffff_fffe]
    );
    assert_eq!(number(&[0, 1]).mul(&number(&[0, 3])).digits().as_slice(), &[0, 0, 3]);
    assert_eq!(number(&[5, 6]).mul(&Natural::zero()), Natural::zero());
    assert_eq!(number(&[5, 6]).mul(&Natural::one()), number(&[5, 6]));
}

#[test]
fn remainders() {
    assert_eq!(
        Natural::from_u32(100).rem(&Natural::from_u32(7)),
        Natural::from_u32(2)
    );
    assert_eq!(
        Natural::from_u32(3).rem(&Natural::from_u32(7)),
        Natural::from_u32(3)
    );
    assert_eq!(number(&[3, 9]).rem(&number(&[0, 1])), Natural::from_u32(3));
    assert_eq!(number(&[3, 9]).rem(&Natural::one()), Natural::zero());
}

#[test]
fn the_square_of_minus_one_is_one() {
    let p = Natural::from_bytes_le(&BLS12_381);
    assert_eq!(p.digits().len(), 12);
    let minus_one = p.sub(&Natural::one());
    assert_eq!(minus_one.mul(&minus_one).rem(&p), Natural::one());
    assert_eq!(
        minus_one.add(&minus_one).rem(&p),
        p.sub(&Natural::from_u32(2))
    );
}

#[test]
fn numbers_agree_with_big_integers() {
    let p = num::BigUint::from_bytes_le(&BLS12_381);
    let q = num::BigUint::from_bytes_le(&BLS12_381[5..31]);
    let (a, b) = (
        Natural::from_bytes_le(&BLS12_381),
        Natural::from_bytes_le(&BLS12_381[5..31]),
    );
    assert_eq!(a.digits(), &p.to_u32_digits());
    assert_eq!(a.mul(&b).digits(), &(&p * &q).to_u32_digits());
    assert_eq!(a.add(&b).digits(), &(&p + &q).to_u32_digits());
    assert_eq!(a.sub(&b).digits(), &(&p - &q).to_u32_digits());
    assert_eq!(a.rem(&b).digits(), &(&p % &q).to_u32_digits());
}

#[test]
fn clones_are_equal() {
    let a = number(&[1, 2, 3]);
    assert_eq!(a.clone(), a);
    assert_ne!(a.clone(), Natural::one());
}
