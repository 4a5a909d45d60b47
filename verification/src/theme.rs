//! Colours and themes.

use std::collections::HashMap;
use vstd::prelude::*;
use vstd::string::*;
use vstd::utf8::*;
use vstd::arithmetic::power::{lemma_pow_increases, pow};

verus! {

const RGBA_RED: u32 = 24;

const RGBA_GREEN: u32 = 16;

const RGBA_BLUE: u32 = 8;

const RGBA_ALPHA: u32 = 0;

/// A theme: its colour palette and named values.
#[derive(Clone, Default, Debug, PartialEq, Eq)]
pub struct Theme {
    pub colors: Colors,
    pub vars: HashMap<String, Value>,
}

/// A named value of a theme: a colour, the name of a colour, or a reference
/// to another value.
#[derive(Clone, Debug, PartialEq, Eq)]
pub enum Value {
    Rgba(Rgba),
    ColorName(String),
    Ref(String),
}

/// The palette of a theme.
#[derive(Clone, Copy, Default, Debug, PartialEq, Eq)]
pub struct Colors {
    pub normal: ColorScheme,
    pub bright: ColorScheme,
    pub dim: ColorScheme,
    pub fg: Rgba,
    pub bg: Rgba,
    pub fg_alt: Rgba,
    pub bg_alt: Rgba,
}

/// The eight terminal colours of one shade.
#[derive(Clone, Copy, Default, Debug, PartialEq, Eq)]
pub struct ColorScheme {
    pub black: Rgba,
    pub red: Rgba,
    pub green: Rgba,
    pub yellow: Rgba,
    pub blue: Rgba,
    pub magenta: Rgba,
    pub cyan: Rgba,
    pub white: Rgba,
}

/// The packed value `r << 24 | g << 16 | b << 8 | a`, each shift within 32 bits.
pub open spec fn pack(r: u32, g: u32, b: u32, a: u32) -> u32 {
    a | (b << 8u32) | (g << 16u32) | (r << 24u32)
}

/// The byte of `raw` that starts at bit `shift`.
pub open spec fn byte_at(raw: u32, shift: u32) -> u8 {
    ((raw >> shift) & 0xffu32) as u8
}

/// The packed value of opaque black, the default colour.
pub open spec fn opaque_black() -> u32 {
    pack(0, 0, 0, 255)
}

/// Whether `b` is the ASCII code of a hexadecimal digit, in either case.
pub open spec fn is_hex_digit(b: u8) -> bool {
    (48 <= b <= 57) || (65 <= b <= 70) || (97 <= b <= 102)
}

/// The value of the hexadecimal digit whose ASCII code is `b`.
pub open spec fn hex_digit_value(b: u8) -> nat {
    if 48 <= b <= 57 {
        (b - 48) as nat
    } else if 65 <= b <= 70 {
        (b - 55) as nat
    } else {
        (b - 87) as nat
    }
}

/// The number that the hexadecimal digits `digits` write, most significant first.
pub open spec fn hex_value(digits: Seq<u8>) -> nat
    decreases digits.len(),
{
    if digits.len() == 0 {
        0
    } else {
        hex_value(digits.drop_last()) * 16 + hex_digit_value(digits.last())
    }
}

/// Whether every byte of `digits` is a hexadecimal digit.
pub open spec fn all_hex_digits(digits: Seq<u8>) -> bool {
    forall|i: int| 0 <= i < digits.len() ==> is_hex_digit(#[trigger] digits[i])
}

/// Whether the UTF-8 bytes `bytes` are a colour text: `#` followed by exactly
/// six or eight hexadecimal digits.
pub open spec fn is_colour_text(bytes: Seq<u8>) -> bool {
    &&& bytes.len() == 7 || bytes.len() == 9
    &&& bytes[0] == 35
    &&& all_hex_digits(bytes.drop_first())
}

/// The eight digits of a colour text: the digits after the `#`, with `FF`
/// (full opacity) appended to six digits.
pub open spec fn colour_digits(bytes: Seq<u8>) -> Seq<u8> {
    if bytes.len() == 7 {
        bytes.drop_first() + seq![70u8, 70u8]
    } else {
        bytes.drop_first()
    }
}

/// The packed colour that the text with UTF-8 bytes `bytes` names: the value
/// of the eight digits of a colour text (`#rrggbb` or `#rrggbbaa`, six digits
/// getting alpha `FF`), and opaque black for every other text.
pub open spec fn parse_colour(bytes: Seq<u8>) -> u32 {
    if is_colour_text(bytes) {
        hex_value(colour_digits(bytes)) as u32
    } else {
        opaque_black()
    }
}

/// The lower-case hexadecimal digit for `d < 16`.
pub open spec fn hex_char(d: u32) -> char {
    if d < 10 {
        (d + 48) as char
    } else {
        (d + 87) as char
    }
}

/// The nibble of `raw` at position `i`, counting from the most significant.
pub open spec fn nibble(raw: u32, i: int) -> u32 {
    (raw >> ((28 - 4 * i) as u32)) & 0xfu32
}

/// `raw` written as eight lower-case hexadecimal digits, zero-padded.
pub open spec fn hex8(raw: u32) -> Seq<char> {
    Seq::new(8, |i: int| hex_char(nibble(raw, i)))
}

/// The text `#rrggbbaa` of a packed colour.
pub open spec fn colour_text(raw: u32) -> Seq<char> {
    seq!['#'] + hex8(raw)
}

/// A colour with red, green, blue and alpha channels, packed into a `u32`
/// with red in the most significant byte.
#[derive(Clone, Copy, Debug, PartialEq, Eq, PartialOrd, Ord)]
pub struct Rgba {
    raw: u32,
}

impl View for Rgba {
    type V = u32;

    closed spec fn view(&self) -> u32 {
        self.raw
    }
}

impl Rgba {
    /// Packs the four channels; bits of a channel beyond its byte spill into
    /// the higher channels or fall off the top, as with plain shifts.
    pub fn new(r: u32, g: u32, b: u32, a: u32) -> (c: Rgba)
        ensures
            c@ == pack(r, g, b, a),
    {
        Rgba { raw: a | (b << RGBA_BLUE) | (g << RGBA_GREEN) | (r << RGBA_RED) }
    }

    /// The byte of the packed value that starts at bit `component`.
    pub fn component(&self, component: u32) -> (v: u8)
        requires
            component < 32,
        ensures
            v == byte_at(self@, component),
    {
        let raw: u32 = self.raw;
        let addr: u32 = 0x000000FFu32 << component;
        let cv: u32 = (raw & addr) >> component;
        assert(cv == (raw >> component) & 0xffu32 && cv < 256) by (bit_vector)
            requires
                component < 32,
                addr == 0x000000FFu32 << component,
                cv == (raw & addr) >> component,
        ;
        if cv < 256 {
            cv as u8
        } else {
            0u8
        }
    }

    /// The red channel.
    pub fn red(&self) -> (v: u8)
        ensures
            v == byte_at(self@, 24),
    {
        self.component(RGBA_RED)
    }

    /// The green channel.
    pub fn green(&self) -> (v: u8)
        ensures
            v == byte_at(self@, 16),
    {
        self.component(RGBA_GREEN)
    }

    /// The blue channel.
    pub fn blue(&self) -> (v: u8)
        ensures
            v == byte_at(self@, 8),
    {
        self.component(RGBA_BLUE)
    }

    /// The alpha channel.
    pub fn alpha(&self) -> (v: u8)
        ensures
            v == byte_at(self@, 0),
    {
        self.component(RGBA_ALPHA)
    }

    /// The packed value.
    pub fn as_u32(&self) -> (v: u32)
        ensures
            v == self@,
    {
        self.raw
    }
}

impl Default for Rgba {
    /// Opaque black.
    fn default() -> (c: Self)
        ensures
            c@ == opaque_black(),
    {
        Self::new(0, 0, 0, 255)
    }
}

impl From<u32> for Rgba {
    fn from(raw: u32) -> (c: Self)
        ensures
            c@ == raw,
    {
        Rgba { raw }
    }
}

impl vstd::std_specs::convert::FromSpecImpl<u32> for Rgba {
    open spec fn obeys_from_spec() -> bool {
        true
    }

    closed spec fn from_spec(raw: u32) -> Self {
        Rgba { raw }
    }
}

impl From<Rgba> for u32 {
    fn from(rgba: Rgba) -> (v: Self)
        ensures
            v == rgba@,
    {
        rgba.as_u32()
    }
}

impl vstd::std_specs::convert::FromSpecImpl<Rgba> for u32 {
    open spec fn obeys_from_spec() -> bool {
        true
    }

    closed spec fn from_spec(rgba: Rgba) -> Self {
        rgba@
    }
}

/// The value of the hexadecimal digit `b`, known to be one.
fn digit_value(b: u8) -> (v: u32)
    requires
        is_hex_digit(b),
    ensures
        v == hex_digit_value(b),
        v < 16,
{
    if b <= 57 {
        (b - 48) as u32
    } else if b <= 70 {
        (b - 55) as u32
    } else {
        (b - 87) as u32
    }
}

impl<'a> From<&'a str> for Rgba {
    /// Reads a colour written `#rrggbb` or `#rrggbbaa` in hexadecimal digits of
    /// either case; six digits get full opacity. Every other text gives the
    /// default, opaque black.
    fn from(hex: &'a str) -> (c: Self)
        ensures
            c@ == parse_colour(hex.spec_bytes()),
    {
        let bytes: &[u8] = hex.as_bytes();
        let n: usize = bytes.len();
        if !((n == 7 || n == 9) && bytes[0] == 35) {
            return Self::default();
        }
        let mut body: Vec<u8> = Vec::new();
        let mut i: usize = 1;
        while i < n
            invariant
                1 <= i <= n,
                n == bytes@.len(),
                body@ =~= bytes@.subrange(1, i as int),
            decreases n - i,
        {
            body.push(bytes[i]);
            i = i + 1;
        }
        if n == 7 {
            body.push(70);
            body.push(70);
        }
        let ghost digits = colour_digits(bytes@);
        assert(body@ =~= digits);
        assert(forall|j: int| 0 <= j < n - 1 ==> #[trigger] digits[j] == bytes@.drop_first()[j]);
        let mut acc: u32 = 0;
        let mut k: usize = 0;
        while k < 8
            invariant
                k <= 8,
                body@ == digits,
                digits.len() == 8,
                n == bytes@.len(),
                n == 7 || n == 9,
                bytes@[0] == 35,
                digits == colour_digits(bytes@),
                bytes@ == hex.spec_bytes(),
                n == 7 ==> digits[6] == 70 && digits[7] == 70,
                forall|j: int| 0 <= j < n - 1 ==> #[trigger] digits[j] == bytes@.drop_first()[j],
                forall|j: int| 0 <= j < k ==> is_hex_digit(#[trigger] digits[j]),
                acc == hex_value(digits.take(k as int)),
            decreases 8 - k,
        {
            let b: u8 = body[k];
            if !((48 <= b && b <= 57) || (65 <= b && b <= 70) || (97 <= b && b <= 102)) {
                proof {
                    if n == 7 {
                        assert(k < 6);
                    }
                    assert(bytes@.drop_first()[k as int] == b);
                    assert(!all_hex_digits(bytes@.drop_first()));
                }
                return Self::default();
            }
            let d: u32 = digit_value(b);
            proof {
                let prefix = digits.take(k as int);
                assert(all_hex_digits(prefix)) by {
                    assert forall|j: int| 0 <= j < prefix.len() implies is_hex_digit(
                        #[trigger] prefix[j],
                    ) by {
                        assert(prefix[j] == digits[j]);
                    }
                }
                lemma_hex_value_bound(prefix);
                lemma_pow_increases(16, k as nat, 7);
                reveal_with_fuel(pow, 8);
                assert(pow(16, 7) == 0x1000_0000);
                lemma_hex_value_step(digits, k as int);
            }
            acc = acc * 16 + d;
            k = k + 1;
        }
        proof {
            assert(digits.take(8) =~= digits);
            assert(all_hex_digits(bytes@.drop_first())) by {
                assert forall|j: int| 0 <= j < bytes@.drop_first().len() implies is_hex_digit(
                    #[trigger] bytes@.drop_first()[j],
                ) by {
                    assert(digits[j] == bytes@.drop_first()[j]);
                }
            }
        }
        Rgba { raw: acc }
    }
}

impl<'a> vstd::std_specs::convert::FromSpecImpl<&'a str> for Rgba {
    open spec fn obeys_from_spec() -> bool {
        true
    }

    closed spec fn from_spec(hex: &'a str) -> Self {
        Rgba { raw: parse_colour(hex.spec_bytes()) }
    }
}

impl From<Rgba> for String {
    /// Writes a colour as `#rrggbbaa`, in lower-case hexadecimal.
    fn from(rgba: Rgba) -> (s: Self)
        ensures
            s@ == colour_text(rgba@),
    {
        let digits: &str = "0123456789abcdef";
        proof {
            reveal_strlit("0123456789abcdef");
            reveal_strlit("#");
        }
        let raw: u32 = rgba.raw;
        let mut s = String::new();
        s.append("#");
        let mut i: u32 = 0;
        while i < 8
            invariant
                i <= 8,
                digits@ == "0123456789abcdef"@,
                digits@ =~= seq!['0', '1', '2', '3', '4', '5', '6', '7', '8', '9', 'a', 'b', 'c', 'd', 'e', 'f'],
                s@ =~= seq!['#'] + hex8(raw).take(i as int),
            decreases 8 - i,
        {
            let shift: u32 = 28 - 4 * i;
            let d: u32 = (raw >> shift) & 0xfu32;
            assert(d < 16) by (bit_vector)
                requires
                    d == (raw >> shift) & 0xfu32,
            ;
            assert(d == nibble(raw, i as int));
            assert(digits@[d as int] == hex_char(d)) by {
                if d < 8 {
                    if d < 4 {
                        if d < 2 {
                            if d == 0 {} else {}
                        } else {
                            if d == 2 {} else {}
                        }
                    } else {
                        if d < 6 {
                            if d == 4 {} else {}
                        } else {
                            if d == 6 {} else {}
                        }
                    }
                } else {
                    if d < 12 {
                        if d < 10 {
                            if d == 8 {} else {}
                        } else {
                            if d == 10 {} else {}
                        }
                    } else {
                        if d < 14 {
                            if d == 12 {} else {}
                        } else {
                            if d == 14 {} else {}
                        }
                    }
                }
            }
            let ds: &str = digits.substring_ascii(d as usize, d as usize + 1);
            s.append(ds);
            assert(hex8(raw).take(i as int + 1) =~= hex8(raw).take(i as int).push(hex_char(d)));
            i = i + 1;
        }
        assert(hex8(raw).take(8) =~= hex8(raw));
        s
    }
}

/// `String` values are not compared by a spec function here: the text of the
/// result is what the `ensures` of `from` states.
impl vstd::std_specs::convert::FromSpecImpl<Rgba> for String {
    open spec fn obeys_from_spec() -> bool {
        false
    }

    open spec fn from_spec(rgba: Rgba) -> Self {
        arbitrary()
    }
}

/// Two colours with the same packed value are the same colour, so converting
/// a colour to `u32` and back (`Rgba::from(u32::from(c))`) gives `c` again.
pub proof fn lemma_same_value_same_colour(c: Rgba, d: Rgba)
    requires
        c@ == d@,
    ensures
        c == d,
{
}

/// Packing four channels that each fit in a byte and reading the channels
/// back (`red`, `green`, `blue`, `alpha` of `Rgba::new(r, g, b, a)`) gives
/// the channels that were packed.
pub proof fn lemma_channels_of_new(r: u32, g: u32, b: u32, a: u32)
    requires
        r < 256,
        g < 256,
        b < 256,
        a < 256,
    ensures
        byte_at(pack(r, g, b, a), 24) == r,
        byte_at(pack(r, g, b, a), 16) == g,
        byte_at(pack(r, g, b, a), 8) == b,
        byte_at(pack(r, g, b, a), 0) == a,
{
    assert(((((a | (b << 8u32) | (g << 16u32) | (r << 24u32)) >> 24u32) & 0xffu32) as u8) == r
        && ((((a | (b << 8u32) | (g << 16u32) | (r << 24u32)) >> 16u32) & 0xffu32) as u8) == g
        && ((((a | (b << 8u32) | (g << 16u32) | (r << 24u32)) >> 8u32) & 0xffu32) as u8) == b
        && ((((a | (b << 8u32) | (g << 16u32) | (r << 24u32)) >> 0u32) & 0xffu32) as u8) == a)
        by (bit_vector)
        requires
            r < 256,
            g < 256,
            b < 256,
            a < 256,
    ;
}

/// Reading the four channels of a colour and packing them again
/// (`Rgba::new(c.red(), c.green(), c.blue(), c.alpha())`) gives the colour back.
pub proof fn lemma_new_of_channels(raw: u32)
    ensures
        pack(
            byte_at(raw, 24) as u32,
            byte_at(raw, 16) as u32,
            byte_at(raw, 8) as u32,
            byte_at(raw, 0) as u32,
        ) == raw,
{
    assert((((((raw >> 0u32) & 0xffu32) as u8) as u32) | (((((raw >> 8u32) & 0xffu32) as u8) as u32)
        << 8u32) | (((((raw >> 16u32) & 0xffu32) as u8) as u32) << 16u32) | (((((raw >> 24u32)
        & 0xffu32) as u8) as u32) << 24u32)) == raw) by (bit_vector);
}

/// The ASCII code of the digit `hex_char(n)` reads back as `n`.
proof fn lemma_hex_char_digit(n: u32)
    requires
        n < 16,
    ensures
        is_hex_digit(hex_char(n) as u8),
        hex_digit_value(hex_char(n) as u8) == n,
        (hex_char(n) as u8) != 43,
        hex_char(n) <= '\u{7f}',
        (hex_char(n) as u8) as u32 == hex_char(n) as u32,
{
}

/// One more digit multiplies the number by sixteen and adds the digit.
proof fn lemma_hex_value_step(digits: Seq<u8>, k: int)
    requires
        0 <= k < digits.len(),
    ensures
        hex_value(digits.take(k + 1)) == hex_value(digits.take(k)) * 16 + hex_digit_value(
            digits[k],
        ),
{
    assert(digits.take(k + 1).drop_last() =~= digits.take(k));
}

/// Writing a colour as text and reading the text back (`Rgba::from` of the
/// `String::from` of a colour) gives the same colour.
pub proof fn lemma_text_round_trip(raw: u32)
    ensures
        parse_colour(encode_utf8(colour_text(raw))) == raw,
{
    let chars = colour_text(raw);
    assert forall|i: int| 0 <= i < 8 implies nibble(raw, i) < 16 by {
        let s: u32 = (28 - 4 * i) as u32;
        assert((raw >> s) & 0xfu32 < 16) by (bit_vector);
    }
    assert forall|i: int| 0 <= i < 8 implies #[trigger] hex8(raw)[i] <= '\u{7f}' by {
        lemma_hex_char_digit(nibble(raw, i));
    }
    assert(is_ascii_chars(chars));
    is_ascii_chars_encode_utf8(chars);
    let bytes = encode_utf8(chars);
    assert(bytes.len() == 9);
    assert(bytes[0] == 35);
    let digits = colour_digits(bytes);
    assert(digits =~= bytes.drop_first());
    assert forall|i: int| 0 <= i < 8 implies #[trigger] digits[i] == hex_char(nibble(raw, i))
        as u8 by {
        assert(digits[i] == bytes[i + 1]);
        assert(chars[i + 1] == hex8(raw)[i]);
    }
    assert forall|i: int| 0 <= i < 8 implies is_hex_digit(#[trigger] digits[i])
        && hex_digit_value(digits[i]) == nibble(raw, i) by {
        lemma_hex_char_digit(nibble(raw, i));
    }
    assert(all_hex_digits(bytes.drop_first()));
    let n0 = nibble(raw, 0);
    let n1 = nibble(raw, 1);
    let n2 = nibble(raw, 2);
    let n3 = nibble(raw, 3);
    let n4 = nibble(raw, 4);
    let n5 = nibble(raw, 5);
    let n6 = nibble(raw, 6);
    let n7 = nibble(raw, 7);
    assert(digits.take(0) =~= Seq::<u8>::empty());
    lemma_hex_value_step(digits, 0);
    lemma_hex_value_step(digits, 1);
    lemma_hex_value_step(digits, 2);
    lemma_hex_value_step(digits, 3);
    lemma_hex_value_step(digits, 4);
    lemma_hex_value_step(digits, 5);
    lemma_hex_value_step(digits, 6);
    lemma_hex_value_step(digits, 7);
    assert(digits.take(8) =~= digits);
    assert(n0 == (raw >> 28u32) & 0xfu32);
    assert(n1 == (raw >> 24u32) & 0xfu32);
    assert(n2 == (raw >> 20u32) & 0xfu32);
    assert(n3 == (raw >> 16u32) & 0xfu32);
    assert(n4 == (raw >> 12u32) & 0xfu32);
    assert(n5 == (raw >> 8u32) & 0xfu32);
    assert(n6 == (raw >> 4u32) & 0xfu32);
    assert(n7 == (raw >> 0u32) & 0xfu32);
    assert(raw == ((raw >> 28u32) & 0xfu32) * 0x1000_0000 + ((raw >> 24u32) & 0xfu32) * 0x100_0000
        + ((raw >> 20u32) & 0xfu32) * 0x10_0000 + ((raw >> 16u32) & 0xfu32) * 0x1_0000 + ((raw
        >> 12u32) & 0xfu32) * 0x1000 + ((raw >> 8u32) & 0xfu32) * 0x100 + ((raw >> 4u32) & 0xfu32)
        * 0x10 + ((raw >> 0u32) & 0xfu32)) by (bit_vector);
    assert(hex_value(digits) == raw);
}

/// A number of `n` hexadecimal digits is less than `16^n`.
proof fn lemma_hex_value_bound(digits: Seq<u8>)
    requires
        all_hex_digits(digits),
    ensures
        hex_value(digits) < pow(16, digits.len()),
    decreases digits.len(),
{
    reveal(pow);
    if digits.len() > 0 {
        let rest = digits.drop_last();
        assert(all_hex_digits(rest)) by {
            assert forall|i: int| 0 <= i < rest.len() implies is_hex_digit(#[trigger] rest[i]) by {
                assert(rest[i] == digits[i]);
            }
        }
        lemma_hex_value_bound(rest);
        assert(is_hex_digit(digits[digits.len() - 1]));
        assert(pow(16, digits.len()) == 16 * pow(16, rest.len()));
    }
}

/// A colour written with six hexadecimal digits (`#rrggbb`) is fully opaque:
/// it reads as `#rrggbbff`, the six digits giving red, green and blue.
pub proof fn lemma_six_digits_opaque(bytes: Seq<u8>)
    requires
        bytes.len() == 7,
        bytes[0] == 35,
        forall|i: int|
            1 <= i < 7 ==> (48 <= #[trigger] bytes[i] <= 57 || 65 <= bytes[i] <= 70 || 97
                <= bytes[i] <= 102),
    ensures
        parse_colour(bytes) == hex_value(bytes.drop_first()) * 256 + 255,
        byte_at(parse_colour(bytes), 0) == 255,
{
    assert(all_hex_digits(bytes.drop_first())) by {
        assert forall|i: int| 0 <= i < bytes.drop_first().len() implies is_hex_digit(
            #[trigger] bytes.drop_first()[i],
        ) by {
            assert(bytes.drop_first()[i] == bytes[i + 1]);
        }
    }
    let rgb = bytes.drop_first();
    let digits = colour_digits(bytes);
    assert(digits =~= rgb + seq![70u8, 70u8]);
    assert(digits.drop_last() =~= rgb + seq![70u8]);
    assert(digits.drop_last().drop_last() =~= rgb);
    lemma_hex_value_bound(rgb);
    reveal_with_fuel(pow, 7);
    assert(pow(16, 6) == 0x100_0000);
    assert(all_hex_digits(digits)) by {
        assert forall|i: int| 0 <= i < digits.len() implies is_hex_digit(#[trigger] digits[i]) by {
            if i < 6 {
                assert(digits[i] == rgb[i]);
            }
        }
    }
    assert(hex_value(digits.drop_last()) == hex_value(rgb) * 16 + 15);
    assert(hex_value(digits) == hex_value(rgb) * 256 + 255);
    assert(hex_value(digits) <= u32::MAX);
    let v = parse_colour(bytes);
    assert(v == hex_value(rgb) * 256 + 255);
    let h = hex_value(rgb) as u32;
    assert(v == h * 256 + 255);
    assert(((h * 256 + 255) as u32 >> 0u32) & 0xffu32 == 255) by (bit_vector)
        requires
            h < 0x100_0000,
    ;
}

/// The text `bytes` with the letters `A` to `F` made lower-case.
pub open spec fn lower_hex_letters(bytes: Seq<u8>) -> Seq<u8> {
    Seq::new(
        bytes.len(),
        |i: int|
            if 65 <= bytes[i] <= 70 {
                (bytes[i] + 32) as u8
            } else {
                bytes[i]
            },
    )
}

/// Digits with the same values, place by place, write the same number.
proof fn lemma_hex_value_same_digits(a: Seq<u8>, b: Seq<u8>)
    requires
        a.len() == b.len(),
        forall|i: int| 0 <= i < a.len() ==> hex_digit_value(#[trigger] a[i]) == hex_digit_value(b[i]),
    ensures
        hex_value(a) == hex_value(b),
    decreases a.len(),
{
    if a.len() > 0 {
        let (a1, b1) = (a.drop_last(), b.drop_last());
        assert forall|i: int| 0 <= i < a1.len() implies hex_digit_value(#[trigger] a1[i])
            == hex_digit_value(b1[i]) by {
            assert(a1[i] == a[i] && b1[i] == b[i]);
        }
        lemma_hex_value_same_digits(a1, b1);
        assert(hex_digit_value(a[a.len() - 1]) == hex_digit_value(b[b.len() - 1]));
    }
}

/// A `#` followed by eight hexadecimal digits, of either case, is read as the
/// number the digits write; upper- and lower-case letters give the same colour.
pub proof fn lemma_eight_digits_either_case(bytes: Seq<u8>)
    requires
        bytes.len() == 9,
        bytes[0] == 35,
        forall|i: int|
            1 <= i < 9 ==> (48 <= #[trigger] bytes[i] <= 57 || 65 <= bytes[i] <= 70 || 97
                <= bytes[i] <= 102),
    ensures
        parse_colour(bytes) == hex_value(bytes.drop_first()),
        parse_colour(bytes) == parse_colour(lower_hex_letters(bytes)),
{
    let d = bytes.drop_first();
    let low = lower_hex_letters(bytes);
    let ld = low.drop_first();
    assert(all_hex_digits(d)) by {
        assert forall|i: int| 0 <= i < d.len() implies is_hex_digit(#[trigger] d[i]) by {
            assert(d[i] == bytes[i + 1]);
        }
    }
    assert(all_hex_digits(ld)) by {
        assert forall|i: int| 0 <= i < ld.len() implies is_hex_digit(#[trigger] ld[i]) by {
            assert(ld[i] == low[i + 1]);
            assert(d[i] == bytes[i + 1]);
        }
    }
    assert forall|i: int| 0 <= i < d.len() implies hex_digit_value(#[trigger] d[i])
        == hex_digit_value(ld[i]) by {
        assert(ld[i] == low[i + 1]);
        assert(d[i] == bytes[i + 1]);
    }
    assert(low[0] == 35);
    assert(colour_digits(bytes) == d);
    assert(colour_digits(low) == ld);
    lemma_hex_value_same_digits(d, ld);
    lemma_hex_value_bound(d);
    reveal_with_fuel(pow, 9);
    assert(pow(16, 8) == 0x1_0000_0000);
}

} // verus!
