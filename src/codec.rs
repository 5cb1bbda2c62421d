use vstd::prelude::*;

use crate::color::HexColor;

verus! {

/// Whether `c` is a hexadecimal digit, in either case.
pub open spec fn is_hex_digit(c: char) -> bool {
    ('0' <= c && c <= '9') || ('a' <= c && c <= 'f') || ('A' <= c && c <= 'F')
}

/// The value of the hexadecimal digit `c`.
pub open spec fn hex_value(c: char) -> int {
    if '0' <= c && c <= '9' {
        c as int - '0' as int
    } else if 'a' <= c && c <= 'f' {
        c as int - 'a' as int + 10
    } else {
        c as int - 'A' as int + 10
    }
}

/// Whether every character of `s` is a hexadecimal digit.
pub open spec fn all_hex_digits(s: Seq<char>) -> bool {
    forall|i: int| 0 <= i < s.len() ==> #[trigger] is_hex_digit(s[i])
}

/// The byte written by the two digits `hi` and `lo`.
pub open spec fn pair_byte(hi: char, lo: char) -> u8 {
    (hex_value(hi) * 16 + hex_value(lo)) as u8
}

/// The byte written by the shorthand digit `d`: the digit doubled.
pub open spec fn short_byte(d: char) -> u8 {
    pair_byte(d, d)
}

/// `t` without one leading `#`, where it has one.
pub open spec fn without_marker(t: Seq<char>) -> Seq<char> {
    if t.len() > 0 && t[0] == '#' {
        t.drop_first()
    } else {
        t
    }
}

/// The color that the digits `d` write: one digit per channel for 3 and 4
/// digits, two for 6 and 8; 4 and 8 digits end with the alpha. `None` for any
/// other length or any character that is not a hexadecimal digit.
pub open spec fn decode_digits(d: Seq<char>) -> Option<HexColor> {
    if !all_hex_digits(d) {
        None
    } else if d.len() == 3 {
        Some(HexColor { r: short_byte(d[0]), g: short_byte(d[1]), b: short_byte(d[2]), a: None })
    } else if d.len() == 4 {
        Some(
            HexColor {
                r: short_byte(d[0]),
                g: short_byte(d[1]),
                b: short_byte(d[2]),
                a: Some(short_byte(d[3])),
            },
        )
    } else if d.len() == 6 {
        Some(
            HexColor {
                r: pair_byte(d[0], d[1]),
                g: pair_byte(d[2], d[3]),
                b: pair_byte(d[4], d[5]),
                a: None,
            },
        )
    } else if d.len() == 8 {
        Some(
            HexColor {
                r: pair_byte(d[0], d[1]),
                g: pair_byte(d[2], d[3]),
                b: pair_byte(d[4], d[5]),
                a: Some(pair_byte(d[6], d[7])),
            },
        )
    } else {
        None
    }
}

/// The color that the text `t`, already trimmed, writes: an optional `#`
/// followed by 3, 4, 6 or 8 hexadecimal digits.
pub open spec fn parse_text(t: Seq<char>) -> Option<HexColor> {
    decode_digits(without_marker(t))
}

/// The uppercase hexadecimal digit of `v`, for `v < 16`.
pub open spec fn upper_digit(v: int) -> char {
    if v < 10 {
        (v + '0' as int) as char
    } else {
        (v - 10 + 'A' as int) as char
    }
}

/// The two uppercase digits of the byte `x`.
pub open spec fn byte_text(x: u8) -> Seq<char> {
    seq![upper_digit(x as int / 16), upper_digit(x as int % 16)]
}

/// The canonical text of `c`: `#`, then two uppercase digits for each of red,
/// green and blue, and two more for the alpha where there is one.
pub open spec fn color_text(c: HexColor) -> Seq<char> {
    seq!['#'] + byte_text(c.r) + byte_text(c.g) + byte_text(c.b) + match c.a {
        Some(x) => byte_text(x),
        None => Seq::<char>::empty(),
    }
}

/// What `str::trim` leaves of a text.
pub uninterp spec fn trimmed(s: Seq<char>) -> Seq<char>;

/// Relies on `str::trim`: the text without its leading and trailing whitespace.
#[verifier::external_body]
fn trim_whitespace(s: &str) -> (r: &str)
    ensures
        r@ == trimmed(s@),
{
    s.trim()
}

/// Relies on `String::push`: `c` is appended to the end of `s`.
#[verifier::external_body]
fn push_char(s: &mut String, c: char)
    ensures
        final(s)@ == old(s)@.push(c),
{
    s.push(c)
}

/// The error of parsing a text that is not a hexadecimal color; it holds the
/// text as it was given.
#[derive(Debug, PartialEq, Eq)]
pub struct ParseHexColorError(pub String);

fn digit_value(c: char) -> (r: Option<u8>)
    ensures
        r matches Some(v) ==> is_hex_digit(c) && v as int == hex_value(c),
        r is None ==> !is_hex_digit(c),
{
    if '0' <= c && c <= '9' {
        Some((c as u32 - '0' as u32) as u8)
    } else if 'a' <= c && c <= 'f' {
        Some((c as u32 - 'a' as u32 + 10) as u8)
    } else if 'A' <= c && c <= 'F' {
        Some((c as u32 - 'A' as u32 + 10) as u8)
    } else {
        None
    }
}

fn digit_char(v: u8) -> (c: char)
    requires
        v < 16,
    ensures
        c == upper_digit(v as int),
{
    if v < 10 {
        (v + 48) as char
    } else {
        (v + 55) as char
    }
}

fn push_byte(s: &mut String, x: u8)
    ensures
        final(s)@ == old(s)@ + byte_text(x),
{
    push_char(s, digit_char(x / 16));
    push_char(s, digit_char(x % 16));
    assert(final(s)@ =~= old(s)@ + byte_text(x));
}

impl HexColor {
    /// Parses a color from text that has no surrounding whitespace: an optional
    /// `#`, then 3, 4, 6 or 8 hexadecimal digits in either case. `None` for any
    /// other text.
    pub fn parse_trimmed(t: &str) -> (r: Option<HexColor>)
        ensures
            r == parse_text(t@),
    {
        let n = t.unicode_len();
        let start: usize = if n > 0 && t.get_char(0) == '#' {
            1
        } else {
            0
        };
        let ghost body = without_marker(t@);
        assert(body =~= t@.subrange(start as int, n as int));
        let len = n - start;
        if len != 3 && len != 4 && len != 6 && len != 8 {
            return None;
        }
        let mut digits: Vec<u8> = Vec::new();
        let mut i: usize = start;
        while i < n
            invariant
                start <= i <= n,
                n == t@.len(),
                body == without_marker(t@),
                body =~= t@.subrange(start as int, n as int),
                digits@.len() == i - start,
                forall|j: int|
                    0 <= j < digits@.len() ==> is_hex_digit(#[trigger] body[j]) && digits@[j] as int
                        == hex_value(body[j]),
            decreases n - i,
        {
            match digit_value(t.get_char(i)) {
                Some(v) => {
                    digits.push(v);
                },
                None => {
                    assert(!is_hex_digit(body[i - start]));
                    assert(!all_hex_digits(body));
                    return None;
                },
            }
            i += 1;
        }
        assert(all_hex_digits(body));
        assert(forall|j: int| 0 <= j < digits@.len() ==> #[trigger] digits@[j] < 16);
        if len == 3 {
            Some(
                HexColor {
                    r: digits[0] * 17,
                    g: digits[1] * 17,
                    b: digits[2] * 17,
                    a: None,
                },
            )
        } else if len == 4 {
            Some(
                HexColor {
                    r: digits[0] * 17,
                    g: digits[1] * 17,
                    b: digits[2] * 17,
                    a: Some(digits[3] * 17),
                },
            )
        } else if len == 6 {
            Some(
                HexColor {
                    r: digits[0] * 16 + digits[1],
                    g: digits[2] * 16 + digits[3],
                    b: digits[4] * 16 + digits[5],
                    a: None,
                },
            )
        } else {
            Some(
                HexColor {
                    r: digits[0] * 16 + digits[1],
                    g: digits[2] * 16 + digits[3],
                    b: digits[4] * 16 + digits[5],
                    a: Some(digits[6] * 16 + digits[7]),
                },
            )
        }
    }

    /// Parses a color from text: surrounding whitespace is trimmed, then the
    /// rest must be an optional `#` and 3, 4, 6 or 8 hexadecimal digits in
    /// either case. 3 and 6 digits give a color without alpha, 4 and 8 one with
    /// alpha; a shorthand digit stands for itself doubled. Any other text gives
    /// an error that holds the text as given.
    pub fn from_str(s: &str) -> (r: Result<HexColor, ParseHexColorError>)
        ensures
            r is Ok <==> parse_text(trimmed(s@)) is Some,
            r matches Ok(c) ==> parse_text(trimmed(s@)) == Some(c),
            r matches Err(e) ==> e.0@ == s@,
    {
        match HexColor::parse_trimmed(trim_whitespace(s)) {
            Some(c) => Ok(c),
            None => Err(ParseHexColorError(s.to_owned())),
        }
    }

    /// The canonical text of the color: `#` and two uppercase hexadecimal
    /// digits for each of red, green and blue, then two for the alpha where
    /// there is one.
    pub fn to_string(&self) -> (s: String)
        ensures
            s@ == color_text(*self),
    {
        let mut s = String::new();
        push_char(&mut s, '#');
        push_byte(&mut s, self.r);
        push_byte(&mut s, self.g);
        push_byte(&mut s, self.b);
        if let Some(x) = self.a {
            push_byte(&mut s, x);
        }
        assert(s@ =~= color_text(*self));
        s
    }
}

impl ParseHexColorError {
    /// The message of the error: the text that was given, then
    /// ` could not be parsed as a hex color`.
    pub fn to_string(&self) -> (m: String)
        ensures
            m@ == self.0@ + " could not be parsed as a hex color"@,
    {
        let tail = " could not be parsed as a hex color";
        let mut m = self.0.clone();
        let n = tail.unicode_len();
        let mut i: usize = 0;
        while i < n
            invariant
                n == tail@.len(),
                i <= n,
                m@ == self.0@ + tail@.subrange(0, i as int),
            decreases n - i,
        {
            push_char(&mut m, tail.get_char(i));
            i += 1;
            assert(m@ =~= self.0@ + tail@.subrange(0, i as int));
        }
        assert(tail@.subrange(0, n as int) =~= tail@);
        m
    }
}

impl core::str::FromStr for HexColor {
    type Err = ParseHexColorError;

    fn from_str(s: &str) -> Result<HexColor, ParseHexColorError> {
        HexColor::from_str(s)
    }
}

/// `c` in upper case, where it is a lowercase hexadecimal digit.
pub open spec fn upper_hex(c: char) -> char {
    if 'a' <= c && c <= 'f' {
        (c as int - 32) as char
    } else {
        c
    }
}

proof fn lemma_digit_text(c: char)
    requires
        is_hex_digit(c),
    ensures
        0 <= hex_value(c) < 16,
        upper_digit(hex_value(c)) == upper_hex(c),
{
}

proof fn lemma_digit_value(v: int)
    requires
        0 <= v < 16,
    ensures
        is_hex_digit(upper_digit(v)),
        hex_value(upper_digit(v)) == v,
{
}

proof fn lemma_pair_text(hi: char, lo: char)
    requires
        is_hex_digit(hi),
        is_hex_digit(lo),
    ensures
        byte_text(pair_byte(hi, lo)) == seq![upper_hex(hi), upper_hex(lo)],
{
    lemma_digit_text(hi);
    lemma_digit_text(lo);
    let h = hex_value(hi);
    let l = hex_value(lo);
    assert((h * 16 + l) / 16 == h && (h * 16 + l) % 16 == l) by (nonlinear_arith)
        requires
            0 <= h < 16,
            0 <= l < 16,
    ;
    assert(byte_text(pair_byte(hi, lo)) =~= seq![upper_hex(hi), upper_hex(lo)]);
}

proof fn lemma_byte_text_value(x: u8)
    ensures
        is_hex_digit(byte_text(x)[0]),
        is_hex_digit(byte_text(x)[1]),
        pair_byte(byte_text(x)[0], byte_text(x)[1]) == x,
{
    lemma_digit_value(x as int / 16);
    lemma_digit_value(x as int % 16);
}

/// Parsing a text of 6 or 8 hexadecimal digits, with or without a leading
/// `#`, and writing the color back gives `#` and the same digits in upper
/// case.
pub proof fn lemma_long_form_round_trip(t: Seq<char>)
    requires
        without_marker(t).len() == 6 || without_marker(t).len() == 8,
        all_hex_digits(without_marker(t)),
    ensures
        parse_text(t) is Some,
        color_text(parse_text(t)->Some_0) == seq!['#'] + without_marker(t).map_values(
            |c: char| upper_hex(c),
        ),
{
    let d = without_marker(t);
    lemma_pair_text(d[0], d[1]);
    lemma_pair_text(d[2], d[3]);
    lemma_pair_text(d[4], d[5]);
    if d.len() == 8 {
        lemma_pair_text(d[6], d[7]);
    }
    assert(color_text(parse_text(t)->Some_0) =~= seq!['#'] + d.map_values(|c: char| upper_hex(c)));
}

/// Writing a color as text and parsing the text gives the color back, alpha
/// present or absent as it was.
pub proof fn lemma_text_round_trip(c: HexColor)
    ensures
        parse_text(color_text(c)) == Some(c),
{
    let t = color_text(c);
    let d = without_marker(t);
    assert(d =~= t.drop_first());
    lemma_byte_text_value(c.r);
    lemma_byte_text_value(c.g);
    lemma_byte_text_value(c.b);
    if let Some(x) = c.a {
        lemma_byte_text_value(x);
    }
    assert(d =~= byte_text(c.r) + byte_text(c.g) + byte_text(c.b) + match c.a {
        Some(x) => byte_text(x),
        None => Seq::<char>::empty(),
    });
    assert(all_hex_digits(d));
}

/// Three shorthand digits write the same color, without alpha, as the six
/// digits that double each of them.
pub proof fn lemma_shorthand_doubles_digits(x: char, y: char, z: char)
    requires
        is_hex_digit(x),
        is_hex_digit(y),
        is_hex_digit(z),
    ensures
        parse_text(seq![x, y, z]) == parse_text(seq![x, x, y, y, z, z]),
        parse_text(seq![x, y, z]) matches Some(c) && c.a is None,
{
    let s = seq![x, y, z];
    let l = seq![x, x, y, y, z, z];
    assert(without_marker(s) == s);
    assert(without_marker(l) == l);
    assert(all_hex_digits(s));
    assert(all_hex_digits(l));
}

} // verus!
