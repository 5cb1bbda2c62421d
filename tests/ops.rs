use hex_color::HexColor;

const ZERO: HexColor = HexColor { r: 0, g: 0, b: 0, a: None };
const ONE: HexColor = HexColor { r: 1, g: 1, b: 1, a: None };
const TWO: HexColor = HexColor { r: 2, g: 2, b: 2, a: None };
const MAX: HexColor = HexColor { r: 255, g: 255, b: 255, a: None };

#[test]
fn add_hex() {
    assert_eq!(ONE + ONE, TWO);
    assert_eq!(ONE + &ONE, TWO);
    assert_eq!(&ONE + ONE, TWO);
    assert_eq!(&ONE + &ONE, TWO);
}

#[test]
fn add_hex_scalar() {
    assert_eq!(ONE + 1, TWO);
    assert_eq!(1 + ONE, TWO);
    assert_eq!(ONE + &1, TWO);
    assert_eq!(&1 + ONE, TWO);
    assert_eq!(&ONE + 1, TWO);
    assert_eq!(&1 + ONE, TWO);
    assert_eq!(&ONE + &1, TWO);
    assert_eq!(&1 + &ONE, TWO);
}

#[test]
fn add_hex_overflow() {
    assert_eq!(MAX + MAX, MAX);
}

#[test]
fn add_hex_assign() {
    let mut value = ONE.clone();
    value += ONE;
    assert_eq!(value, TWO);

    let mut value = ONE.clone();
    value += &ONE;
    assert_eq!(value, TWO);
}

#[test]
fn add_hex_scalar_assign() {
    let mut value = ONE.clone();
    value += 1;
    assert_eq!(value, TWO);

    let mut value = ONE.clone();
    value += &1;
    assert_eq!(value, TWO);
}

#[test]
fn sub_hex() {
    assert_eq!(ONE - ONE, ZERO);
    assert_eq!(ONE - &ONE, ZERO);
    assert_eq!(&ONE - ONE, ZERO);
    assert_eq!(&ONE - ONE, ZERO);
}

#[test]
fn sub_hex_scalar() {
    assert_eq!(ONE - 1, ZERO);
    assert_eq!(1 - ONE, ZERO);
    assert_eq!(ONE - &1, ZERO);
    assert_eq!(&1 - ONE, ZERO);
    assert_eq!(&ONE - 1, ZERO);
    assert_eq!(&1 - ONE, ZERO);
    assert_eq!(&ONE - &1, ZERO);
    assert_eq!(&1 - &ONE, ZERO);
}

#[test]
fn sub_hex_underflow() {
    assert_eq!(ZERO - ONE, ZERO);
}

#[test]
fn sub_hex_scalar_underflow() {
    assert_eq!(ZERO - 1, ZERO);
}

#[test]
fn sub_hex_assign() {
    let mut value = ONE.clone();
    value -= ONE;
    assert_eq!(value, ZERO);

    let mut value = ONE.clone();
    value -= &ONE;
    assert_eq!(value, ZERO);
}

#[test]
fn sub_hex_scalar_assign() {
    let mut value = ONE.clone();
    value -= 1;
    assert_eq!(value, ZERO);

    let mut value = ONE.clone();
    value -= &1;
    assert_eq!(value, ZERO);
}

#[test]
fn mul_hex_scalar() {
    assert_eq!(ONE * 2, TWO);
    assert_eq!(2 * ONE, TWO);
    assert_eq!(ONE * &2, TWO);
    assert_eq!(&2 * ONE, TWO);
    assert_eq!(&ONE * 2, TWO);
    assert_eq!(&2 * ONE, TWO);
    assert_eq!(&ONE * &2, TWO);
    assert_eq!(&2 * &ONE, TWO);
}

#[test]
fn mul_hex_scalar_assign() {
    let mut value = ONE.clone();
    value *= 2;
    assert_eq!(value, TWO);

    let mut value = ONE.clone();
    value *= &2;
    assert_eq!(value, TWO);
}

#[test]
fn mul_hex_scalar_overflow() {
    assert_eq!(MAX * 2, MAX);
}

#[test]
fn mul_hex_scalar_underflow() {
    assert_eq!(MAX * -1, ZERO);
}

#[test]
fn div_hex_scalar() {
    assert_eq!(TWO / 2, ONE);
    assert_eq!(TWO / &2, ONE);
    assert_eq!(&TWO / 2, ONE);
    assert_eq!(&TWO / &2, ONE);
}

#[test]
fn div_hex_scalar_assign() {
    let mut value = TWO.clone();
    value /= 2;
    assert_eq!(value, ONE);

    let mut value = TWO.clone();
    value /= &2;
    assert_eq!(value, ONE);
}

#[test]
fn div_hex_scalar_underflow() {
    assert_eq!(MAX / -1, ZERO);
}
