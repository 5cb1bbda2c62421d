use hex_color::{alpha_op, HexColor};

fn parse(s: &str) -> HexColor {
    HexColor::from_str(s).unwrap()
}

#[test]
fn red_plus_blue_is_magenta() {
    assert_eq!(parse("#F00") + parse("#00f"), parse("f0f"));
}

#[test]
fn magenta_halved() {
    assert_eq!((parse("#f00") + parse("#00f")) / 2, parse("#7F007F"));
}

#[test]
fn magenta_minus_255_is_black() {
    assert_eq!(parse("f0f") - 255, parse("000"));
}

#[test]
fn scalar_added_to_every_present_channel() {
    assert_eq!(HexColor::rgb(0, 2, 7) + 3, HexColor::rgb(3, 5, 10));
    assert_eq!(HexColor::rgba(0, 2, 7, 6) + 3, HexColor::rgba(3, 5, 10, 9));
}

#[test]
fn white_times_minus_one_is_black() {
    assert_eq!(HexColor::rgb(255, 255, 255) * -1, HexColor::rgb(0, 0, 0));
}

#[test]
fn color_sums_saturate() {
    let white = HexColor::rgb(255, 255, 255);
    let black = HexColor::rgb(0, 0, 0);
    assert_eq!(white + white, white);
    assert_eq!(black - white, black);
    assert_eq!(HexColor::rgb(200, 100, 10) + HexColor::rgb(100, 100, 10), HexColor::rgb(255, 200, 20));
    assert_eq!(HexColor::rgb(200, 100, 10) - HexColor::rgb(100, 101, 10), HexColor::rgb(100, 0, 0));
}

#[test]
fn alpha_of_two_colors() {
    let blue = HexColor::rgba(0, 5, 0xff, 0x11);
    let red = HexColor::rgba(0xff, 5, 0, 0xee);
    assert_eq!(blue + red, HexColor::rgba(0xff, 10, 0xff, 0xff));
    assert_eq!(blue - red, HexColor::rgba(0, 0, 0xff, 0));
    assert_eq!(red - blue, HexColor::rgba(0xff, 0, 0, 0xdd));

    let no_alpha = HexColor::rgb(1, 1, 1);
    assert_eq!((blue + no_alpha).a, Some(0x11));
    assert_eq!((blue - no_alpha).a, Some(0x11));
    assert_eq!((no_alpha + blue).a, None);
    assert_eq!((no_alpha - blue).a, None);
    assert_eq!((no_alpha + no_alpha).a, None);
}

#[test]
fn alpha_op_table() {
    assert_eq!(alpha_op(Some(2), Some(3), |a, b| a + b), Some(5));
    assert_eq!(alpha_op(Some(100), None, |a, b| a + b), Some(100));
    assert_eq!(alpha_op(None, None, |a, b| a + b), None);
    assert_eq!(alpha_op(None, Some(100), |a, b| a + b), None);
}

#[test]
fn scalar_on_either_side() {
    let c = HexColor::rgba(10, 200, 0, 128);
    for n in [-300i32, -5, 0, 1, 60, 255, 1000] {
        assert_eq!(c + n, n + c);
        assert_eq!(c * n, n * c);
    }
    for n in [0u8, 3, 255] {
        assert_eq!(c + n, n + c);
        assert_eq!(c * n, n * c);
    }
    for n in [i64::MIN, -2, 2, i64::MAX] {
        assert_eq!(c + n, n + c);
        assert_eq!(c * n, n * c);
    }
}

#[test]
fn scalar_minus_color_subtracts_each_channel() {
    let c = HexColor::rgba(10, 200, 0, 128);
    assert_eq!(100 - c, HexColor::rgba(90, 0, 100, 0));
    assert_eq!(300u16 - c, HexColor::rgba(255, 100, 255, 172));
    assert_eq!(c - 100, HexColor::rgba(0, 100, 0, 28));
}

#[test]
fn scalar_ops_keep_absent_alpha() {
    let c = HexColor::rgb(10, 20, 30);
    assert_eq!((c + 1).a, None);
    assert_eq!((c - 1).a, None);
    assert_eq!((c * 2).a, None);
    assert_eq!((c / 2).a, None);
    assert_eq!((5i32 - c).a, None);
}

#[test]
fn wide_scalars_do_not_overflow() {
    let c = HexColor::rgba(0, 1, 255, 100);
    assert_eq!(c + u128::MAX, HexColor::rgba(255, 255, 255, 255));
    assert_eq!(c - u128::MAX, HexColor::rgba(0, 0, 0, 0));
    assert_eq!(c * u64::MAX, HexColor::rgba(0, 255, 255, 255));
    assert_eq!(c * i128::MIN, HexColor::rgba(0, 0, 0, 0));
    assert_eq!(c + 200u8, HexColor::rgba(200, 201, 255, 255));
    assert_eq!(c - i8::MIN, HexColor::rgba(128, 129, 255, 228));
    assert_eq!(c / usize::MAX, HexColor::rgba(0, 0, 0, 0));
    assert_eq!(c / isize::MIN, HexColor::rgba(0, 0, 0, 0));
}

#[test]
fn division_rounds_toward_zero() {
    let c = HexColor::rgba(7, 9, 255, 1);
    assert_eq!(c / 2, HexColor::rgba(3, 4, 127, 0));
    assert_eq!(c / 3u32, HexColor::rgba(2, 3, 85, 0));
    assert_eq!(c / -2, HexColor::rgba(0, 0, 0, 0));
}

#[test]
fn division_by_zero_saturates() {
    assert_eq!(HexColor::rgba(0, 1, 200, 3) / 0, HexColor::rgba(255, 255, 255, 255));
    assert_eq!(HexColor::rgb(0, 0, 0) / 0u8, HexColor::rgb(255, 255, 255));
}

#[test]
fn compound_assignment_matches_binary_form() {
    let c = HexColor::rgba(10, 20, 30, 40);
    let mut v = c;
    v += 5u16;
    assert_eq!(v, c + 5u16);
    let mut v = c;
    v -= 15i64;
    assert_eq!(v, c - 15i64);
    let mut v = c;
    v *= 9;
    assert_eq!(v, c * 9);
    let mut v = c;
    v /= 4;
    assert_eq!(v, c / 4);
    let mut v = c;
    v += HexColor::rgb(250, 0, 1);
    assert_eq!(v, HexColor::rgba(255, 20, 31, 40));
}

#[test]
fn constructors() {
    assert_eq!(HexColor::rgb(1, 2, 3), HexColor { r: 1, g: 2, b: 3, a: None });
    assert_eq!(HexColor::new(1, 2, 3), HexColor::rgb(1, 2, 3));
    assert_eq!(HexColor::rgba(1, 2, 3, 4), HexColor { r: 1, g: 2, b: 3, a: Some(4) });
    assert_eq!(HexColor::default(), HexColor::rgb(0, 0, 0));
}

#[test]
fn absent_alpha_orders_before_present() {
    assert!(HexColor::rgb(0, 0, 0) < HexColor::rgba(0, 0, 0, 0));
    assert!(HexColor::rgba(0, 0, 1, 0) > HexColor::rgba(0, 0, 0, 255));
}
