use hex_color::{HexColor, ParseHexColorError};

/// Yields the bits of a counter one at a time, to walk every combination of
/// the properties of a hex code.
struct BitSet {
    bits: i128,
    ptr: usize,
}

impl BitSet {
    fn new() -> Self {
        Self { bits: 0, ptr: 0 }
    }

    fn next(&mut self) -> bool {
        let bit = (self.bits >> self.ptr) & 1;
        self.ptr += 1;
        bit != 0
    }

    fn end(&mut self) -> bool {
        let end = self.next();
        self.ptr = 0;
        self.bits += 1;
        end
    }
}

#[test]
fn any_format() -> Result<(), ParseHexColorError> {
    let mut bitset = BitSet::new();
    loop {
        let mut color = HexColor::rgb(255, 255, 255);
        let mut repr: String = "fff".into();

        if bitset.next() {
            repr += "f";
            color.a = Some(255);
        }

        if bitset.next() {
            repr = repr.to_uppercase();
        }

        if bitset.next() {
            repr = repr.repeat(2);
        }

        if bitset.next() {
            repr = "#".to_owned() + &repr;
        }

        if bitset.end() {
            break;
        }

        assert_eq!(repr.parse::<HexColor>()?, color, "from value: {}", repr);
    }
    Ok(())
}

#[test]
fn to_and_from_string_no_alpha() {
    for (r, g, b, s) in [
        (0x00, 0x00, 0x00, "#000000"),
        (0x13, 0x69, 0x46, "#136946"),
        (0xff, 0xff, 0xff, "#ffffff"),
    ] {
        let hex_color = HexColor::rgb(r, g, b);
        assert_eq!(s.parse::<HexColor>().unwrap(), hex_color);
        assert_eq!(hex_color.to_string().to_lowercase(), s.to_lowercase());
    }
}

#[test]
fn supported_formats() {
    let color = HexColor { r: 0xff, g: 0x11, b: 0x55, a: None };
    assert_eq!(color, "#f15".parse::<HexColor>().unwrap());
}

#[test]
fn parse_three_digits_has_no_alpha() {
    assert_eq!(HexColor::from_str("000"), Ok(HexColor::rgb(0, 0, 0)));
    assert_eq!(HexColor::from_str("000").unwrap().a, None);
}

#[test]
fn parse_four_digits_doubles_alpha() {
    assert_eq!(HexColor::from_str("000f").unwrap().a, Some(255));
    assert_eq!(HexColor::from_str("#000f"), Ok(HexColor::rgba(0, 0, 0, 255)));
}

#[test]
fn parse_each_length() {
    assert_eq!(HexColor::from_str("#1a2"), Ok(HexColor::rgb(0x11, 0xaa, 0x22)));
    assert_eq!(HexColor::from_str("1a2b"), Ok(HexColor::rgba(0x11, 0xaa, 0x22, 0xbb)));
    assert_eq!(HexColor::from_str("#12aB3c"), Ok(HexColor::rgb(0x12, 0xab, 0x3c)));
    assert_eq!(HexColor::from_str("12aB3c4D"), Ok(HexColor::rgba(0x12, 0xab, 0x3c, 0x4d)));
}

#[test]
fn parse_trims_whitespace() {
    assert_eq!(HexColor::from_str("  #0a0b0c\n"), Ok(HexColor::rgb(10, 11, 12)));
    assert_eq!(HexColor::from_str("\t fff "), Ok(HexColor::rgb(255, 255, 255)));
}

#[test]
fn parse_trimmed_takes_no_whitespace() {
    assert_eq!(HexColor::parse_trimmed("#abc"), Some(HexColor::rgb(0xaa, 0xbb, 0xcc)));
    assert_eq!(HexColor::parse_trimmed(" #abc"), None);
}

#[test]
fn parse_rejects_non_hex_digits() {
    assert_eq!(
        HexColor::from_str("#GHIJKL"),
        Err(ParseHexColorError("#GHIJKL".to_string()))
    );
    assert!(HexColor::from_str("#12345g").is_err());
}

#[test]
fn parse_rejects_other_lengths() {
    for s in ["", "#", "f", "ff", "#fffff", "fffffff", "#fffffffff", "##fff", "fff#", "# fff"] {
        assert_eq!(HexColor::from_str(s), Err(ParseHexColorError(s.to_string())), "{}", s);
    }
}

#[test]
fn parse_error_keeps_untrimmed_input() {
    assert_eq!(HexColor::from_str(" xyz "), Err(ParseHexColorError(" xyz ".to_string())));
}

#[test]
fn parse_rejects_non_ascii() {
    assert!(HexColor::from_str("#ｆｆｆ").is_err());
    assert!(HexColor::from_str("ff\u{e9}").is_err());
}

#[test]
fn format_without_alpha() {
    let gray = HexColor { r: 127, g: 127, b: 127, a: None };
    assert_eq!(gray.to_string(), "#7F7F7F");
}

#[test]
fn format_with_alpha() {
    let gray = HexColor { r: 127, g: 127, b: 127, a: Some(255) };
    assert_eq!(gray.to_string(), "#7F7F7FFF");
    let color = HexColor::rgba(1, 2, 3, 4);
    assert_eq!(color.to_string(), "#01020304");
    assert_eq!("#01020304".parse::<HexColor>().unwrap(), color);
}

#[test]
fn long_form_round_trip_uppercases() {
    for (s, canonical) in [
        ("#abcdef", "#ABCDEF"),
        ("0a1B2c", "#0A1B2C"),
        ("#DEADBEEF", "#DEADBEEF"),
        ("00ff7f80", "#00FF7F80"),
    ] {
        assert_eq!(HexColor::from_str(s).unwrap().to_string(), canonical);
    }
}

#[test]
fn format_then_parse_gives_color_back() {
    for c in [
        HexColor::rgb(0, 0, 0),
        HexColor::rgb(255, 128, 9),
        HexColor::rgba(16, 32, 254, 0),
        HexColor::rgba(255, 255, 255, 255),
    ] {
        assert_eq!(HexColor::from_str(&c.to_string()), Ok(c));
    }
}

#[test]
fn shorthand_matches_doubled_digits() {
    for (short, long) in [("abc", "aabbcc"), ("F0f", "FF00ff"), ("000", "000000")] {
        assert_eq!(HexColor::from_str(short).ok(), HexColor::from_str(long).ok());
    }
    for d in "0123456789abcdefABCDEF".chars() {
        let short: String = [d, d, d].iter().collect();
        let long: String = [d, d, d, d, d, d].iter().collect();
        let c = HexColor::from_str(&short).unwrap();
        assert_eq!(Ok(c), HexColor::from_str(&long));
        assert_eq!(c.a, None);
    }
}

#[test]
fn parse_error_message() {
    let e = HexColor::from_str("#GHIJKL").unwrap_err();
    assert_eq!(e.to_string(), "#GHIJKL could not be parsed as a hex color");
}
