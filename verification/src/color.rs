//! Colors and the parsing of color specifications.
//!
//! Accepted forms: named colors (several spellings each, in any ASCII
//! case), hex `#RRGGBB`, and `rgb(R, G, B)`. Both numeric forms read back
//! the color they are written for.

use vstd::prelude::*;

use crate::display::{decimal, digit_char};
use vstd::utf8::{
    encode_utf8, encode_utf8_valid_utf8, is_ascii_chars, is_ascii_chars_encode_utf8,
    is_char_boundary, is_char_boundary_iff_not_is_continuation_byte,
};

verus! {

/// A terminal color.
#[derive(Clone, Copy, Debug, PartialEq, Eq, Structural)]
pub enum Color {
    Black,
    Red,
    Green,
    Yellow,
    Blue,
    Magenta,
    Cyan,
    Gray,
    DarkGray,
    LightRed,
    LightGreen,
    LightYellow,
    LightBlue,
    LightMagenta,
    LightCyan,
    White,
    Rgb(u8, u8, u8),
}

/// The error for a color specification that cannot be parsed; it holds the
/// whole specification.
#[derive(Debug, Clone, PartialEq, Eq)]
pub struct ColorParseError {
    pub input: String,
}

impl ColorParseError {
    /// The message shown for the error:
    /// `invalid or unrecognized color '<input>'`.
    pub fn message(&self) -> (m: String)
        ensures
            m@ == "invalid or unrecognized color '"@ + self.input@ + "'"@,
    {
        let mut m = String::from_str("invalid or unrecognized color '");
        m.append(self.input.as_str());
        m.append("'");
        m
    }
}

// ============================================================
// Named colors
// ============================================================

/// A character with ASCII capitals turned into small letters.
pub open spec fn ascii_lower(c: char) -> char {
    if 'A' <= c <= 'Z' {
        ((c as u32) + 32) as char
    } else {
        c
    }
}

/// A text with ASCII capitals turned into small letters.
pub open spec fn ascii_lowercase(s: Seq<char>) -> Seq<char> {
    Seq::new(s.len(), |i: int| ascii_lower(s[i]))
}

/// The color a name stands for, ignoring ASCII case. `pink` is magenta,
/// `grey` is gray, and the light colors and dark gray take an optional
/// underscore (with `darkgrey` and `darkgray` the spellings without it).
pub open spec fn named_color(c: Seq<char>) -> Option<Color> {
    let l = ascii_lowercase(c);
    if l == "white"@ {
        Some(Color::White)
    } else if l == "black"@ {
        Some(Color::Black)
    } else if l == "red"@ {
        Some(Color::Red)
    } else if l == "green"@ {
        Some(Color::Green)
    } else if l == "yellow"@ {
        Some(Color::Yellow)
    } else if l == "blue"@ {
        Some(Color::Blue)
    } else if l == "magenta"@ || l == "pink"@ {
        Some(Color::Magenta)
    } else if l == "cyan"@ {
        Some(Color::Cyan)
    } else if l == "gray"@ || l == "grey"@ {
        Some(Color::Gray)
    } else if l == "dark_gray"@ || l == "darkgrey"@ || l == "darkgray"@ {
        Some(Color::DarkGray)
    } else if l == "light_red"@ || l == "lightred"@ {
        Some(Color::LightRed)
    } else if l == "light_green"@ || l == "lightgreen"@ {
        Some(Color::LightGreen)
    } else if l == "light_yellow"@ || l == "lightyellow"@ {
        Some(Color::LightYellow)
    } else if l == "light_blue"@ || l == "lightblue"@ {
        Some(Color::LightBlue)
    } else if l == "light_magenta"@ || l == "lightmagenta"@ || l == "light_pink"@ || l == "lightpink"@ {
        Some(Color::LightMagenta)
    } else if l == "light_cyan"@ || l == "lightcyan"@ {
        Some(Color::LightCyan)
    } else {
        None
    }
}

// ============================================================
// Hex form
// ============================================================

/// The value of a hexadecimal digit byte (`0-9`, `a-f`, `A-F`).
pub open spec fn hex_digit(b: u8) -> Option<u8> {
    if 48 <= b <= 57 {
        Some((b - 48) as u8)
    } else if 97 <= b <= 102 {
        Some((b - 87) as u8)
    } else if 65 <= b <= 70 {
        Some((b - 55) as u8)
    } else {
        None
    }
}

/// A two-byte field read as a hexadecimal byte value: two digits, or a
/// `+` sign followed by one digit.
pub open spec fn hex_pair(hi: u8, lo: u8) -> Option<u8> {
    if hi == 43 {
        hex_digit(lo)
    } else {
        match (hex_digit(hi), hex_digit(lo)) {
            (Some(h), Some(l)) => Some((h * 16 + l) as u8),
            _ => None,
        }
    }
}

/// Whether the specification takes the hex form: it starts with `#` and is
/// seven bytes long.
pub open spec fn is_hex_form(c: Seq<char>) -> bool {
    c.len() > 0 && c[0] == '#' && encode_utf8(c).len() == 7
}

/// The color of the hex form: three two-byte fields after the `#`.
pub open spec fn hex_color(c: Seq<char>) -> Option<Color> {
    let b = encode_utf8(c);
    match hex_pair(b[1], b[2]) {
        None => None,
        Some(r) => match hex_pair(b[3], b[4]) {
            None => None,
            Some(g) => match hex_pair(b[5], b[6]) {
                None => None,
                Some(bl) => Some(Color::Rgb(r, g, bl)),
            },
        },
    }
}

/// Whether reading the hex form would cut a character in two: the fields
/// are cut out of the bytes at byte offsets 1, 3, 5 and 7, and the second
/// cut is made only once the first field reads as a value.
pub open spec fn hex_form_splits_char(c: Seq<char>) -> bool {
    let b = encode_utf8(c);
    &&& named_color(c) is None
    &&& is_hex_form(c)
    &&& (!is_char_boundary(b, 3) || (hex_pair(b[1], b[2]) is Some && !is_char_boundary(b, 5)))
}

// ============================================================
// rgb(R, G, B) form
// ============================================================

/// Whether a character is white space in the sense of Unicode's
/// `White_Space` property.
pub open spec fn is_white_space(c: char) -> bool {
    let u = c as u32;
    ||| 9 <= u <= 13
    ||| u == 32
    ||| u == 0x85
    ||| u == 0xA0
    ||| u == 0x1680
    ||| 0x2000 <= u <= 0x200A
    ||| u == 0x2028
    ||| u == 0x2029
    ||| u == 0x202F
    ||| u == 0x205F
    ||| u == 0x3000
}

/// The text with its leading white space removed.
pub open spec fn trim_start(s: Seq<char>) -> Seq<char>
    decreases s.len(),
{
    if s.len() > 0 && is_white_space(s[0]) {
        trim_start(s.drop_first())
    } else {
        s
    }
}

/// The text with its trailing white space removed.
pub open spec fn trim_end(s: Seq<char>) -> Seq<char>
    decreases s.len(),
{
    if s.len() > 0 && is_white_space(s.last()) {
        trim_end(s.drop_last())
    } else {
        s
    }
}

/// The text with white space removed at both ends.
pub open spec fn trim(s: Seq<char>) -> Seq<char> {
    trim_end(trim_start(s))
}

/// Whether every character is an ASCII decimal digit.
pub open spec fn all_dec_digits(d: Seq<char>) -> bool {
    forall|i: int| 0 <= i < d.len() ==> '0' <= #[trigger] d[i] <= '9'
}

/// The value of a string of decimal digits.
pub open spec fn dec_value(d: Seq<char>) -> nat
    decreases d.len(),
{
    if d.len() == 0 {
        0
    } else {
        dec_value(d.drop_last()) * 10 + (d.last() as nat - '0' as nat) as nat
    }
}

/// A text read as a decimal byte value: an optional `+` sign followed by
/// one or more decimal digits, of value at most 255.
pub open spec fn parse_dec_u8(t: Seq<char>) -> Option<u8> {
    let d = if t.len() > 0 && t[0] == '+' {
        t.drop_first()
    } else {
        t
    };
    if d.len() == 0 || !all_dec_digits(d) || dec_value(d) > 255 {
        None
    } else {
        Some(dec_value(d) as u8)
    }
}

/// The positions of the commas in a text, in order.
pub open spec fn comma_positions(s: Seq<char>) -> Seq<int>
    decreases s.len(),
{
    if s.len() == 0 {
        Seq::empty()
    } else if s.last() == ',' {
        comma_positions(s.drop_last()).push(s.len() - 1)
    } else {
        comma_positions(s.drop_last())
    }
}

/// Whether the specification takes the `rgb(...)` form: it starts with
/// `rgb(` and ends with `)`.
pub open spec fn is_rgb_form(c: Seq<char>) -> bool {
    &&& c.len() >= 4
    &&& c[0] == 'r' && c[1] == 'g' && c[2] == 'b' && c[3] == '('
    &&& c.last() == ')'
}

/// The color of the `rgb(...)` form: the text between the parentheses
/// holds exactly two commas, and each of the three fields, trimmed of
/// white space, reads as a decimal byte value.
pub open spec fn rgb_color(c: Seq<char>) -> Option<Color> {
    let inner = c.subrange(4, c.len() - 1);
    let p = comma_positions(inner);
    if p.len() != 2 {
        None
    } else {
        match parse_dec_u8(trim(inner.subrange(0, p[0]))) {
            None => None,
            Some(r) => match parse_dec_u8(trim(inner.subrange(p[0] + 1, p[1]))) {
                None => None,
                Some(g) => match parse_dec_u8(trim(inner.subrange(p[1] + 1, inner.len() as int))) {
                    None => None,
                    Some(b) => Some(Color::Rgb(r, g, b)),
                },
            },
        }
    }
}

/// The color a specification stands for: a name first, then the hex form,
/// then the `rgb(...)` form; `None` where it is none of them.
pub open spec fn parse_color_spec(c: Seq<char>) -> Option<Color> {
    if named_color(c) is Some {
        named_color(c)
    } else if is_hex_form(c) {
        if hex_form_splits_char(c) {
            None
        } else {
            hex_color(c)
        }
    } else if is_rgb_form(c) {
        rgb_color(c)
    } else {
        None
    }
}

/// The color of a specification, or white where it cannot be parsed.
pub open spec fn color_or_white(c: Seq<char>) -> Color {
    match parse_color_spec(c) {
        Some(col) => col,
        None => Color::White,
    }
}

// ============================================================
// Writing a color back
// ============================================================

/// The uppercase hexadecimal digit for `d`, below sixteen.
pub open spec fn hex_digit_char(d: nat) -> char {
    if d == 0 {
        '0'
    } else if d == 1 {
        '1'
    } else if d == 2 {
        '2'
    } else if d == 3 {
        '3'
    } else if d == 4 {
        '4'
    } else if d == 5 {
        '5'
    } else if d == 6 {
        '6'
    } else if d == 7 {
        '7'
    } else if d == 8 {
        '8'
    } else if d == 9 {
        '9'
    } else if d == 10 {
        'A'
    } else if d == 11 {
        'B'
    } else if d == 12 {
        'C'
    } else if d == 13 {
        'D'
    } else if d == 14 {
        'E'
    } else {
        'F'
    }
}

/// Whether `c` is a hexadecimal digit for `d`, in either case.
pub open spec fn is_hex_digit_for(c: char, d: nat) -> bool {
    c == hex_digit_char(d) || c == ascii_lower(hex_digit_char(d))
}

/// Whether `t` is a color's components written `#RRGGBB` in hexadecimal,
/// each digit in either case.
pub open spec fn hex_written(t: Seq<char>, r: u8, g: u8, b: u8) -> bool {
    &&& t.len() == 7
    &&& t[0] == '#'
    &&& is_hex_digit_for(t[1], r as nat / 16)
    &&& is_hex_digit_for(t[2], r as nat % 16)
    &&& is_hex_digit_for(t[3], g as nat / 16)
    &&& is_hex_digit_for(t[4], g as nat % 16)
    &&& is_hex_digit_for(t[5], b as nat / 16)
    &&& is_hex_digit_for(t[6], b as nat % 16)
}

/// Two hexadecimal digits, in either case, read back as the byte they
/// were written for.
proof fn lemma_hex_pair_written(v: u8, hi: char, lo: char)
    requires
        is_hex_digit_for(hi, v as nat / 16),
        is_hex_digit_for(lo, v as nat % 16),
    ensures
        hex_pair(hi as u8, lo as u8) == Some(v),
        hi <= '\u{7f}',
        lo <= '\u{7f}',
{
}

/// A text that starts with `#` names no color.
proof fn lemma_hash_names_nothing(t: Seq<char>)
    requires
        t.len() > 0,
        t[0] == '#',
    ensures
        named_color(t) is None,
{
    reveal_strlit("white");
    reveal_strlit("black");
    reveal_strlit("red");
    reveal_strlit("green");
    reveal_strlit("yellow");
    reveal_strlit("blue");
    reveal_strlit("magenta");
    reveal_strlit("pink");
    reveal_strlit("cyan");
    reveal_strlit("gray");
    reveal_strlit("grey");
    reveal_strlit("dark_gray");
    reveal_strlit("darkgrey");
    reveal_strlit("darkgray");
    reveal_strlit("light_red");
    reveal_strlit("lightred");
    reveal_strlit("light_green");
    reveal_strlit("lightgreen");
    reveal_strlit("light_yellow");
    reveal_strlit("lightyellow");
    reveal_strlit("light_blue");
    reveal_strlit("lightblue");
    reveal_strlit("light_magenta");
    reveal_strlit("lightmagenta");
    reveal_strlit("light_pink");
    reveal_strlit("lightpink");
    reveal_strlit("light_cyan");
    reveal_strlit("lightcyan");
    let l = ascii_lowercase(t);
    assert(l[0] == '#');
    assert(l != "magenta"@) by {
        assert(l[0] != "magenta"@[0]);
    }
}

/// A color written as `#RRGGBB`, each digit in either case, reads back as
/// that color.
pub proof fn lemma_hex_round_trip(t: Seq<char>, r: u8, g: u8, b: u8)
    requires
        hex_written(t, r, g, b),
    ensures
        parse_color_spec(t) == Some(Color::Rgb(r, g, b)),
{
    lemma_hex_pair_written(r, t[1], t[2]);
    lemma_hex_pair_written(g, t[3], t[4]);
    lemma_hex_pair_written(b, t[5], t[6]);
    lemma_hash_names_nothing(t);
    assert(is_ascii_chars(t));
    is_ascii_chars_encode_utf8(t);
    let bytes = encode_utf8(t);
    assert(bytes[1] == t[1] as u8 && bytes[2] == t[2] as u8 && bytes[3] == t[3] as u8);
    assert(bytes[4] == t[4] as u8 && bytes[5] == t[5] as u8 && bytes[6] == t[6] as u8);
    encode_utf8_valid_utf8(t);
    is_char_boundary_iff_not_is_continuation_byte(bytes, 3);
    is_char_boundary_iff_not_is_continuation_byte(bytes, 5);
    assert(is_hex_form(t));
    assert(!hex_form_splits_char(t));
}

/// `n` in decimal is a nonempty string of digits whose value is `n`.
proof fn lemma_decimal_reads_back(n: nat)
    ensures
        decimal(n).len() >= 1,
        all_dec_digits(decimal(n)),
        dec_value(decimal(n)) == n,
    decreases n,
{
    let d = n % 10;
    assert(digit_char(d) as nat - '0' as nat == d && '0' <= digit_char(d) <= '9') by {
        if d == 0 {
        } else if d == 1 {
        } else if d == 2 {
        } else if d == 3 {
        } else if d == 4 {
        } else if d == 5 {
        } else if d == 6 {
        } else if d == 7 {
        } else if d == 8 {
        } else {
        }
    }
    if n >= 10 {
        lemma_decimal_reads_back(n / 10);
        let s = decimal(n / 10);
        assert(decimal(n).drop_last() =~= s);
        assert(decimal(n).last() == digit_char(d));
        assert(n == (n / 10) * 10 + d);
        assert forall|i: int| 0 <= i < decimal(n).len() implies '0' <= #[trigger] decimal(n)[i]
            <= '9' by {
            if i < s.len() {
                assert(decimal(n)[i] == s[i]);
            }
        }
    } else {
        assert(decimal(n).drop_last() =~= Seq::<char>::empty());
        assert(decimal(n).last() == digit_char(d));
        assert(dec_value(Seq::<char>::empty()) == 0);
    }
}

/// Whether a text holds no comma.
spec fn comma_free(s: Seq<char>) -> bool {
    forall|i: int| 0 <= i < s.len() ==> #[trigger] s[i] != ','
}

/// A text without commas has no comma positions.
proof fn lemma_comma_free_positions(s: Seq<char>)
    requires
        comma_free(s),
    ensures
        comma_positions(s) == Seq::<int>::empty(),
    decreases s.len(),
{
    if s.len() > 0 {
        assert(comma_free(s.drop_last()));
        lemma_comma_free_positions(s.drop_last());
    }
}

/// The comma positions of `s` followed by a comma-free text are those of
/// `s`; followed by a comma, the comma's position comes last.
proof fn lemma_comma_positions_append(s: Seq<char>, t: Seq<char>)
    requires
        comma_free(t),
    ensures
        comma_positions(s + t) == comma_positions(s),
        comma_positions(s.push(',')) == comma_positions(s).push(s.len() as int),
    decreases t.len(),
{
    assert(s.push(',').drop_last() =~= s);
    if t.len() == 0 {
        assert(s + t =~= s);
    } else {
        assert((s + t).drop_last() =~= s + t.drop_last());
        assert(comma_free(t.drop_last()));
        lemma_comma_positions_append(s, t.drop_last());
    }
}

/// Whether every character of `w` is white space.
pub open spec fn all_white(w: Seq<char>) -> bool {
    forall|i: int| 0 <= i < w.len() ==> is_white_space(#[trigger] w[i])
}

/// White space before a text that starts with another character is
/// trimmed away at the start.
proof fn lemma_trim_start_white(w: Seq<char>, x: Seq<char>)
    requires
        all_white(w),
        x.len() > 0,
        !is_white_space(x[0]),
    ensures
        trim_start(w + x) == x,
    decreases w.len(),
{
    if w.len() == 0 {
        assert(w + x =~= x);
    } else {
        assert(is_white_space(w[0]));
        assert((w + x).drop_first() =~= w.drop_first() + x);
        assert(all_white(w.drop_first())) by {
            assert forall|i: int| 0 <= i < w.drop_first().len() implies is_white_space(
                #[trigger] w.drop_first()[i],
            ) by {
                assert(w.drop_first()[i] == w[i + 1]);
            }
        }
        lemma_trim_start_white(w.drop_first(), x);
    }
}

/// White space after a text that ends with another character is trimmed
/// away at the end.
proof fn lemma_trim_end_white(x: Seq<char>, w: Seq<char>)
    requires
        all_white(w),
        x.len() > 0,
        !is_white_space(x.last()),
    ensures
        trim_end(x + w) == x,
    decreases w.len(),
{
    if w.len() == 0 {
        assert(x + w =~= x);
    } else {
        assert(is_white_space(w.last()));
        assert((x + w).drop_last() =~= x + w.drop_last());
        assert(all_white(w.drop_last()));
        lemma_trim_end_white(x, w.drop_last());
    }
}

/// A digit string between white space trims to itself.
proof fn lemma_trim_digits(w1: Seq<char>, d: Seq<char>, w2: Seq<char>)
    requires
        d.len() >= 1,
        all_dec_digits(d),
        all_white(w1),
        all_white(w2),
    ensures
        trim(w1 + d + w2) == d,
{
    assert('0' <= d[0] <= '9');
    assert('0' <= d.last() <= '9');
    assert((d + w2)[0] == d[0]);
    assert(w1 + d + w2 =~= w1 + (d + w2));
    lemma_trim_start_white(w1, d + w2);
    lemma_trim_end_white(d, w2);
}

/// A text of four characters or more that starts with `r` names no
/// color.
#[verifier::spinoff_prover]
proof fn lemma_r_text_names_nothing(t: Seq<char>)
    requires
        t.len() >= 4,
        t[0] == 'r',
    ensures
        named_color(t) is None,
{
    reveal_strlit("white");
    reveal_strlit("black");
    reveal_strlit("red");
    reveal_strlit("green");
    reveal_strlit("yellow");
    reveal_strlit("blue");
    reveal_strlit("magenta");
    reveal_strlit("pink");
    reveal_strlit("cyan");
    reveal_strlit("gray");
    reveal_strlit("grey");
    reveal_strlit("dark_gray");
    reveal_strlit("darkgrey");
    reveal_strlit("darkgray");
    reveal_strlit("light_red");
    reveal_strlit("lightred");
    reveal_strlit("light_green");
    reveal_strlit("lightgreen");
    reveal_strlit("light_yellow");
    reveal_strlit("lightyellow");
    reveal_strlit("light_blue");
    reveal_strlit("lightblue");
    reveal_strlit("light_magenta");
    reveal_strlit("lightmagenta");
    reveal_strlit("light_pink");
    reveal_strlit("lightpink");
    reveal_strlit("light_cyan");
    reveal_strlit("lightcyan");
    let l = ascii_lowercase(t);
    assert(l[0] == 'r');
    assert(l.len() != "red"@.len());
    assert(l != "white"@) by { assert(l[0] != "white"@[0]); }
    assert(l != "black"@) by { assert(l[0] != "black"@[0]); }
    assert(l != "green"@) by { assert(l[0] != "green"@[0]); }
    assert(l != "yellow"@) by { assert(l[0] != "yellow"@[0]); }
    assert(l != "blue"@) by { assert(l[0] != "blue"@[0]); }
    assert(l != "magenta"@) by { assert(l[0] != "magenta"@[0]); }
    assert(l != "pink"@) by { assert(l[0] != "pink"@[0]); }
    assert(l != "cyan"@) by { assert(l[0] != "cyan"@[0]); }
    assert(l != "gray"@) by { assert(l[0] != "gray"@[0]); }
    assert(l != "grey"@) by { assert(l[0] != "grey"@[0]); }
    assert(l != "dark_gray"@) by { assert(l[0] != "dark_gray"@[0]); }
    assert(l != "darkgrey"@) by { assert(l[0] != "darkgrey"@[0]); }
    assert(l != "darkgray"@) by { assert(l[0] != "darkgray"@[0]); }
    assert(l != "light_red"@) by { assert(l[0] != "light_red"@[0]); }
    assert(l != "lightred"@) by { assert(l[0] != "lightred"@[0]); }
    assert(l != "light_green"@) by { assert(l[0] != "light_green"@[0]); }
    assert(l != "lightgreen"@) by { assert(l[0] != "lightgreen"@[0]); }
    assert(l != "light_yellow"@) by { assert(l[0] != "light_yellow"@[0]); }
    assert(l != "lightyellow"@) by { assert(l[0] != "lightyellow"@[0]); }
    assert(l != "light_blue"@) by { assert(l[0] != "light_blue"@[0]); }
    assert(l != "lightblue"@) by { assert(l[0] != "lightblue"@[0]); }
    assert(l != "light_magenta"@) by { assert(l[0] != "light_magenta"@[0]); }
    assert(l != "lightmagenta"@) by { assert(l[0] != "lightmagenta"@[0]); }
    assert(l != "light_pink"@) by { assert(l[0] != "light_pink"@[0]); }
    assert(l != "lightpink"@) by { assert(l[0] != "lightpink"@[0]); }
    assert(l != "light_cyan"@) by { assert(l[0] != "light_cyan"@[0]); }
    assert(l != "lightcyan"@) by { assert(l[0] != "lightcyan"@[0]); }
}

/// `rgb(R,G,B)` for a color's components in decimal, with the white space
/// `w[0]` to `w[5]` around the three numbers: before and after each.
pub open spec fn rgb_written(r: u8, g: u8, b: u8, w: Seq<Seq<char>>) -> Seq<char> {
    seq!['r', 'g', 'b', '('] + w[0] + decimal(r as nat) + w[1] + seq![','] + w[2] + decimal(
        g as nat,
    ) + w[3] + seq![','] + w[4] + decimal(b as nat) + w[5] + seq![')']
}

/// A text of white space and digits holds no comma.
proof fn lemma_white_digits_comma_free(w1: Seq<char>, d: Seq<char>, w2: Seq<char>)
    requires
        all_white(w1),
        all_dec_digits(d),
        all_white(w2),
    ensures
        comma_free(w1 + d + w2),
{
    let x = w1 + d + w2;
    assert forall|i: int| 0 <= i < x.len() implies #[trigger] x[i] != ',' by {
        if i < w1.len() {
            assert(is_white_space(w1[i]));
        } else if i < w1.len() + d.len() {
            assert('0' <= d[i - w1.len()] <= '9');
        } else {
            assert(is_white_space(w2[i - w1.len() - d.len()]));
        }
    }
}

/// Three comma-free fields joined by two commas: the commas stand right
/// after the first and the second field, and cutting at them gives the
/// fields back.
proof fn lemma_three_fields(first: Seq<char>, second: Seq<char>, third: Seq<char>)
    requires
        comma_free(first),
        comma_free(second),
        comma_free(third),
    ensures
        ({
            let inner = first.push(',') + second.push(',') + third;
            let p0 = first.len() as int;
            let p1 = p0 + 1 + second.len();
            &&& comma_positions(inner) == seq![p0, p1]
            &&& inner.subrange(0, p0) == first
            &&& inner.subrange(p0 + 1, p1) == second
            &&& inner.subrange(p1 + 1, inner.len() as int) == third
        }),
{
    let inner = first.push(',') + second.push(',') + third;
    lemma_comma_free_positions(first);
    lemma_comma_positions_append(first, Seq::<char>::empty());
    let head = first.push(',');
    lemma_comma_positions_append(head, second);
    assert(head + second.push(',') =~= (head + second).push(','));
    lemma_comma_positions_append(head + second, Seq::<char>::empty());
    lemma_comma_positions_append((head + second).push(','), third);
    assert(inner =~= (head + second).push(',') + third);
    let p0 = first.len() as int;
    let p1 = p0 + 1 + second.len();
    assert(comma_positions(inner) =~= seq![p0, p1]);
    assert(inner.subrange(0, p0) =~= first);
    assert(inner.subrange(p0 + 1, p1) =~= second);
    assert(inner.subrange(p1 + 1, inner.len() as int) =~= third);
}

/// A color written as `rgb(R,G,B)` in decimal, with any white space around
/// each number, reads back as that color.
#[verifier::spinoff_prover]
pub proof fn lemma_rgb_round_trip(r: u8, g: u8, b: u8, w: Seq<Seq<char>>)
    requires
        w.len() == 6,
        forall|i: int| 0 <= i < 6 ==> all_white(#[trigger] w[i]),
    ensures
        parse_color_spec(rgb_written(r, g, b, w)) == Some(Color::Rgb(r, g, b)),
{
    let dr = decimal(r as nat);
    let dg = decimal(g as nat);
    let db = decimal(b as nat);
    lemma_decimal_reads_back(r as nat);
    lemma_decimal_reads_back(g as nat);
    lemma_decimal_reads_back(b as nat);
    assert(all_white(w[0]) && all_white(w[1]) && all_white(w[2]));
    assert(all_white(w[3]) && all_white(w[4]) && all_white(w[5]));
    let t = rgb_written(r, g, b, w);
    let first = w[0] + dr + w[1];
    let second = w[2] + dg + w[3];
    let third = w[4] + db + w[5];
    assert(t =~= seq!['r', 'g', 'b', '('] + (first.push(',') + second.push(',') + third) + seq![
        ')',
    ]);
    lemma_r_text_names_nothing(t);
    assert(!is_hex_form(t));
    assert(is_rgb_form(t));
    let inner = t.subrange(4, t.len() - 1);
    assert(inner =~= first.push(',') + second.push(',') + third);
    lemma_white_digits_comma_free(w[0], dr, w[1]);
    lemma_white_digits_comma_free(w[2], dg, w[3]);
    lemma_white_digits_comma_free(w[4], db, w[5]);
    lemma_three_fields(first, second, third);
    lemma_trim_digits(w[0], dr, w[1]);
    lemma_trim_digits(w[2], dg, w[3]);
    lemma_trim_digits(w[4], db, w[5]);
    assert('0' <= dr[0] <= '9' && '0' <= dg[0] <= '9' && '0' <= db[0] <= '9');
}

// ============================================================
// Executable parsing
// ============================================================

/// The characters of a text.
pub fn chars_of(s: &str) -> (v: Vec<char>)
    ensures
        v@ == s@,
{
    let mut v: Vec<char> = Vec::new();
    for ch in it: s.chars()
        invariant
            v@ == it.seq().take(it.index()),
            it.seq() == s@,
    {
        v.push(ch);
    }
    v
}

fn ascii_lower_char(c: char) -> (l: char)
    ensures
        l == ascii_lower(c),
{
    if 'A' <= c && c <= 'Z' {
        ((c as u32 + 32) as u8) as char
    } else {
        c
    }
}

/// Whether the characters, with ASCII capitals made small, spell `lit`.
pub(crate) fn lower_spells(v: &Vec<char>, lit: &str) -> (b: bool)
    ensures
        b == (ascii_lowercase(v@) == lit@),
{
    let w = chars_of(lit);
    if v.len() != w.len() {
        assert(ascii_lowercase(v@).len() != w@.len());
        return false;
    }
    let mut i: usize = 0;
    while i < v.len()
        invariant
            v@.len() == w@.len(),
            w@ == lit@,
            i <= v@.len(),
            forall|j: int| 0 <= j < i ==> ascii_lower(v@[j]) == w@[j],
        decreases v@.len() - i,
    {
        if ascii_lower_char(v[i]) != w[i] {
            assert(ascii_lowercase(v@)[i as int] != w@[i as int]);
            return false;
        }
        i = i + 1;
    }
    assert(ascii_lowercase(v@) =~= w@);
    true
}

fn named_color_of(v: &Vec<char>) -> (r: Option<Color>)
    ensures
        r == named_color(v@),
{
    if lower_spells(v, "white") {
        Some(Color::White)
    } else if lower_spells(v, "black") {
        Some(Color::Black)
    } else if lower_spells(v, "red") {
        Some(Color::Red)
    } else if lower_spells(v, "green") {
        Some(Color::Green)
    } else if lower_spells(v, "yellow") {
        Some(Color::Yellow)
    } else if lower_spells(v, "blue") {
        Some(Color::Blue)
    } else if lower_spells(v, "magenta") || lower_spells(v, "pink") {
        Some(Color::Magenta)
    } else if lower_spells(v, "cyan") {
        Some(Color::Cyan)
    } else if lower_spells(v, "gray") || lower_spells(v, "grey") {
        Some(Color::Gray)
    } else if lower_spells(v, "dark_gray") || lower_spells(v, "darkgrey") || lower_spells(v, "darkgray") {
        Some(Color::DarkGray)
    } else if lower_spells(v, "light_red") || lower_spells(v, "lightred") {
        Some(Color::LightRed)
    } else if lower_spells(v, "light_green") || lower_spells(v, "lightgreen") {
        Some(Color::LightGreen)
    } else if lower_spells(v, "light_yellow") || lower_spells(v, "lightyellow") {
        Some(Color::LightYellow)
    } else if lower_spells(v, "light_blue") || lower_spells(v, "lightblue") {
        Some(Color::LightBlue)
    } else if lower_spells(v, "light_magenta") || lower_spells(v, "lightmagenta") || lower_spells(v, "light_pink") || lower_spells(v, "lightpink") {
        Some(Color::LightMagenta)
    } else if lower_spells(v, "light_cyan") || lower_spells(v, "lightcyan") {
        Some(Color::LightCyan)
    } else {
        None
    }
}

fn hex_digit_of(b: u8) -> (r: Option<u8>)
    ensures
        r == hex_digit(b),
{
    if 48 <= b && b <= 57 {
        Some(b - 48)
    } else if 97 <= b && b <= 102 {
        Some(b - 87)
    } else if 65 <= b && b <= 70 {
        Some(b - 55)
    } else {
        None
    }
}

fn hex_pair_of(hi: u8, lo: u8) -> (r: Option<u8>)
    ensures
        r == hex_pair(hi, lo),
{
    if hi == 43 {
        hex_digit_of(lo)
    } else {
        match (hex_digit_of(hi), hex_digit_of(lo)) {
            (Some(h), Some(l)) => Some(h * 16 + l),
            _ => None,
        }
    }
}

/// Whether a character is white space in the sense of Unicode's
/// `White_Space` property.
pub fn is_white_space_char(c: char) -> (b: bool)
    ensures
        b == is_white_space(c),
{
    let u = c as u32;
    (9 <= u && u <= 13) || u == 32 || u == 0x85 || u == 0xA0 || u == 0x1680 || (0x2000 <= u && u
        <= 0x200A) || u == 0x2028 || u == 0x2029 || u == 0x202F || u == 0x205F || u == 0x3000
}

/// The characters of `v` from `lo` up to `hi`.
fn sub_chars(v: &Vec<char>, lo: usize, hi: usize) -> (r: Vec<char>)
    requires
        lo <= hi <= v@.len(),
    ensures
        r@ == v@.subrange(lo as int, hi as int),
{
    let mut r: Vec<char> = Vec::new();
    let mut i = lo;
    while i < hi
        invariant
            lo <= i <= hi <= v@.len(),
            r@ == v@.subrange(lo as int, i as int),
        decreases hi - i,
    {
        r.push(v[i]);
        assert(v@.subrange(lo as int, i + 1) =~= v@.subrange(lo as int, i as int).push(v@[i as int]));
        i = i + 1;
    }
    r
}

/// The characters with white space removed at both ends.
pub fn trim_chars(v: &Vec<char>) -> (r: Vec<char>)
    ensures
        r@ == trim(v@),
{
    let n = v.len();
    let mut lo: usize = 0;
    assert(v@.subrange(0, n as int) =~= v@);
    while lo < n && is_white_space_char(v[lo])
        invariant
            lo <= n == v@.len(),
            trim_start(v@) == trim_start(v@.subrange(lo as int, n as int)),
        decreases n - lo,
    {
        assert(v@.subrange(lo as int, n as int).drop_first() =~= v@.subrange(lo + 1, n as int));
        lo = lo + 1;
    }
    let ghost front = v@.subrange(lo as int, n as int);
    assert(trim_start(v@) == front);
    let mut hi: usize = n;
    while hi > lo && is_white_space_char(v[hi - 1])
        invariant
            lo <= hi <= n == v@.len(),
            front == v@.subrange(lo as int, n as int),
            trim_end(front) == trim_end(v@.subrange(lo as int, hi as int)),
        decreases hi - lo,
    {
        assert(v@.subrange(lo as int, hi as int).drop_last() =~= v@.subrange(
            lo as int,
            hi - 1,
        ));
        hi = hi - 1;
    }
    sub_chars(v, lo, hi)
}

/// The value of the decimal digits of `t` from `start` on, capped at 256;
/// `None` where one of them is not a digit.
fn capped_dec_value(t: &Vec<char>, start: usize) -> (r: Option<u32>)
    requires
        start <= t@.len(),
    ensures
        ({
            let d = t@.subrange(start as int, t@.len() as int);
            match r {
                None => !all_dec_digits(d),
                Some(v) => all_dec_digits(d) && v == (if dec_value(d) < 256 {
                    dec_value(d)
                } else {
                    256
                }),
            }
        }),
{
    let n = t.len();
    let mut val: u32 = 0;
    let mut i: usize = start;
    while i < n
        invariant
            start <= i <= n == t@.len(),
            all_dec_digits(t@.subrange(start as int, i as int)),
            val == (if dec_value(t@.subrange(start as int, i as int)) < 256 {
                dec_value(t@.subrange(start as int, i as int))
            } else {
                256
            }),
        decreases n - i,
    {
        let c = t[i];
        let ghost d = t@.subrange(start as int, n as int);
        if !('0' <= c && c <= '9') {
            assert(d[i - start] == c);
            return None;
        }
        let digit = (c as u32) - ('0' as u32);
        let ghost next_prefix = t@.subrange(start as int, i + 1);
        assert(next_prefix.drop_last() =~= t@.subrange(start as int, i as int));
        assert(next_prefix.last() == c);
        let next = val * 10 + digit;
        val = if next < 256 {
            next
        } else {
            256
        };
        i = i + 1;
    }
    Some(val)
}

/// A text read as a decimal byte value.
pub fn parse_dec_u8_chars(t: &Vec<char>) -> (r: Option<u8>)
    ensures
        r == parse_dec_u8(t@),
{
    let n = t.len();
    if n == 0 {
        return None;
    }
    let start: usize = if t[0] == '+' {
        1
    } else {
        0
    };
    assert((if t@[0] == '+' {
        t@.drop_first()
    } else {
        t@
    }) =~= t@.subrange(start as int, n as int));
    if start == n {
        return None;
    }
    match capped_dec_value(t, start) {
        None => None,
        Some(val) => {
            if val > 255 {
                None
            } else {
                Some(val as u8)
            }
        },
    }
}

/// The positions of the commas among the characters.
fn comma_positions_of(v: &Vec<char>) -> (r: Vec<usize>)
    ensures
        r@.len() == comma_positions(v@).len(),
        forall|k: int| 0 <= k < r@.len() ==> r@[k] as int == #[trigger] comma_positions(v@)[k],
{
    let mut r: Vec<usize> = Vec::new();
    let mut i: usize = 0;
    while i < v.len()
        invariant
            i <= v@.len(),
            r@.len() == comma_positions(v@.subrange(0, i as int)).len(),
            forall|k: int|
                0 <= k < r@.len() ==> r@[k] as int == #[trigger] comma_positions(
                    v@.subrange(0, i as int),
                )[k],
        decreases v@.len() - i,
    {
        assert(v@.subrange(0, i + 1).drop_last() =~= v@.subrange(0, i as int));
        if v[i] == ',' {
            r.push(i);
        }
        i = i + 1;
    }
    assert(v@.subrange(0, v@.len() as int) =~= v@);
    r
}

fn rgb_color_of(v: &Vec<char>) -> (r: Option<Color>)
    requires
        is_rgb_form(v@),
    ensures
        r == rgb_color(v@),
{
    let n = v.len();
    let inner = sub_chars(v, 4, n - 1);
    let p = comma_positions_of(&inner);
    if p.len() != 2 {
        return None;
    }
    let p0 = p[0];
    let p1 = p[1];
    proof {
        lemma_comma_positions_ordered(inner@);
    }
    let first = trim_chars(&sub_chars(&inner, 0, p0));
    let second = trim_chars(&sub_chars(&inner, p0 + 1, p1));
    let third = trim_chars(&sub_chars(&inner, p1 + 1, inner.len()));
    match parse_dec_u8_chars(&first) {
        None => None,
        Some(red) => match parse_dec_u8_chars(&second) {
            None => None,
            Some(green) => match parse_dec_u8_chars(&third) {
                None => None,
                Some(blue) => Some(Color::Rgb(red, green, blue)),
            },
        },
    }
}

/// The comma positions lie inside the text, in increasing order.
proof fn lemma_comma_positions_ordered(s: Seq<char>)
    ensures
        forall|k: int|
            0 <= k < comma_positions(s).len() ==> 0 <= #[trigger] comma_positions(s)[k] < s.len(),
        forall|k: int, l: int|
            0 <= k < l < comma_positions(s).len() ==> comma_positions(s)[k] < comma_positions(
                s,
            )[l],
    decreases s.len(),
{
    if s.len() > 0 {
        let prev = s.drop_last();
        lemma_comma_positions_ordered(prev);
        assert forall|k: int| 0 <= k < comma_positions(s).len() implies 0 <= #[trigger] comma_positions(
            s,
        )[k] < s.len() by {
            if k < comma_positions(prev).len() {
                assert(comma_positions(s)[k] == comma_positions(prev)[k]);
            }
        }
        assert forall|k: int, l: int|
            0 <= k < l < comma_positions(s).len() implies comma_positions(s)[k] < comma_positions(
            s,
        )[l] by {
            assert(comma_positions(s)[k] == comma_positions(prev)[k]);
            if l < comma_positions(prev).len() {
                assert(comma_positions(s)[l] == comma_positions(prev)[l]);
            }
        }
    }
}

/// Parses a color specification.
///
/// Accepted forms: named colors (several spellings each, in any ASCII
/// case, see [`named_color`]), hex `#RRGGBB`, and `rgb(R, G, B)`. The error
/// holds the whole specification; a hex form whose fields would cut a
/// character in two is an error too.
pub fn parse_color(s: &str) -> (r: Result<Color, ColorParseError>)
    ensures
        r is Ok <==> parse_color_spec(s@) is Some,
        r matches Ok(c) ==> parse_color_spec(s@) == Some(c),
        r matches Err(e) ==> e.input@ == s@,
{
    let v = chars_of(s);
    match named_color_of(&v) {
        Some(c) => {
            return Ok(c);
        },
        None => {},
    }
    if v.len() > 0 && v[0] == '#' && s.len() == 7 {
        let b = s.as_bytes();
        let parsed = if !s.is_char_boundary(3) {
            None
        } else {
            match hex_pair_of(b[1], b[2]) {
                None => None,
                Some(red) => if !s.is_char_boundary(5) {
                    None
                } else {
                    match hex_pair_of(b[3], b[4]) {
                        None => None,
                        Some(green) => match hex_pair_of(b[5], b[6]) {
                            None => None,
                            Some(blue) => Some(Color::Rgb(red, green, blue)),
                        },
                    }
                },
            }
        };
        return match parsed {
            Some(c) => Ok(c),
            None => Err(ColorParseError { input: s.to_owned() }),
        };
    }
    let n = v.len();
    if n >= 4 && v[0] == 'r' && v[1] == 'g' && v[2] == 'b' && v[3] == '(' && v[n - 1] == ')' {
        return match rgb_color_of(&v) {
            Some(c) => Ok(c),
            None => Err(ColorParseError { input: s.to_owned() }),
        };
    }
    Err(ColorParseError { input: s.to_owned() })
}

/// Parses a color specification, falling back to white where it cannot be
/// parsed.
pub fn color_from_str(s: &str) -> (c: Color)
    ensures
        c == color_or_white(s@),
{
    match parse_color(s) {
        Ok(c) => c,
        Err(_) => Color::White,
    }
}

} // verus!
