//! Colours, and the attributes that a piece of text is drawn with.

use vstd::prelude::*;

verus! {

/// A colour, by its red, green and blue parts.
#[derive(Clone, Copy, Debug, PartialEq, Eq)]
pub struct Color {
    pub r: u8,
    pub g: u8,
    pub b: u8,
}

impl Default for Color {
    /// Black.
    fn default() -> (color: Self)
        ensures
            color == (Color { r: 0, g: 0, b: 0 }),
    {
        Color { r: 0, g: 0, b: 0 }
    }
}

/// Attributes that a piece of text is drawn with.
#[derive(Clone, Copy, Debug, PartialEq, Eq)]
pub struct Highlight {
    pub foreground: Option<Color>,
    pub background: Option<Color>,
    pub special: Option<Color>,
    pub reverse: bool,
    pub italic: bool,
    pub bold: bool,
    pub underline: bool,
    pub undercurl: bool,
}

/// The highlight that asks for nothing.
pub open spec fn plain_highlight() -> Highlight {
    Highlight {
        foreground: None,
        background: None,
        special: None,
        reverse: false,
        italic: false,
        bold: false,
        underline: false,
        undercurl: false,
    }
}

impl Default for Highlight {
    /// The highlight that asks for nothing.
    fn default() -> (hl: Self)
        ensures
            hl == plain_highlight(),
    {
        Highlight {
            foreground: None,
            background: None,
            special: None,
            reverse: false,
            italic: false,
            bold: false,
            underline: false,
            undercurl: false,
        }
    }
}

/// The lower case hexadecimal digit for `n`, for `n` from 0 to 15.
pub open spec fn hex_digit(n: int) -> char
    recommends
        0 <= n < 16,
{
    if n < 10 {
        ('0' as int + n) as char
    } else {
        ('a' as int + n - 10) as char
    }
}

/// The two hexadecimal digits of a byte.
pub open spec fn hex_byte(n: u8) -> Seq<char> {
    seq![hex_digit(n as int / 16), hex_digit(n as int % 16)]
}

/// The six hexadecimal digits of a colour.
pub open spec fn hex_color(c: Color) -> Seq<char> {
    hex_byte(c.r) + hex_byte(c.g) + hex_byte(c.b)
}

/// The style sheet that gives everything the background `c`.
pub open spec fn css_text(c: Color) -> Seq<char> {
    "* {\n                            background: #"@ + hex_color(c)
        + ";\n                        }"@
}

fn push_hex_digit(out: &mut String, n: u8)
    requires
        n < 16,
    ensures
        final(out)@ == old(out)@.push(hex_digit(n as int)),
{
    if n < 10 {
        out.push((0x30u8 + n) as char);
    } else {
        out.push((0x61u8 + (n - 10)) as char);
    }
}

fn push_hex_byte(out: &mut String, n: u8)
    ensures
        final(out)@ == old(out)@ + hex_byte(n),
{
    push_hex_digit(out, n / 16);
    push_hex_digit(out, n % 16);
    assert(out@ =~= old(out)@ + hex_byte(n));
}

impl Color {
    /// The colour as six hexadecimal digits, red first.
    pub fn to_hex(&self) -> (text: String)
        ensures
            text@ == hex_color(*self),
    {
        let mut text = String::new();
        push_hex_byte(&mut text, self.r);
        push_hex_byte(&mut text, self.g);
        push_hex_byte(&mut text, self.b);
        assert(text@ =~= hex_color(*self));
        text
    }
}

/// The style sheet of the main window for the background colour `bg`.
pub fn background_css(bg: Color) -> (css: String)
    ensures
        css@ == css_text(bg),
{
    let hex: String = bg.to_hex();
    let mut css = String::new();
    css.append("* {\n                            background: #");
    css.append(hex.as_str());
    css.append(";\n                        }");
    assert(css@ =~= css_text(bg));
    css
}

/// A colour is written as two hexadecimal digits for each of its parts, red first
/// and blue last: the higher digit of a part counts sixteens and the lower one
/// counts ones.
pub proof fn law_color_is_written_by_its_parts(c: Color)
    ensures
        ({
            let digits = "0123456789abcdef"@;
            let text = hex_color(c);
            &&& text.len() == 6
            &&& text[0] == digits[c.r as int / 16]
            &&& text[1] == digits[c.r as int % 16]
            &&& text[2] == digits[c.g as int / 16]
            &&& text[3] == digits[c.g as int % 16]
            &&& text[4] == digits[c.b as int / 16]
            &&& text[5] == digits[c.b as int % 16]
        }),
{
    reveal_strlit("0123456789abcdef");
    lemma_hex_digit(c.r as int / 16);
    lemma_hex_digit(c.r as int % 16);
    lemma_hex_digit(c.g as int / 16);
    lemma_hex_digit(c.g as int % 16);
    lemma_hex_digit(c.b as int / 16);
    lemma_hex_digit(c.b as int % 16);
}

/// The digits stand in their order.
proof fn lemma_hex_digit(n: int)
    requires
        0 <= n < 16,
    ensures
        hex_digit(n) == "0123456789abcdef"@[n],
{
    reveal_strlit("0123456789abcdef");
}

/// A byte can be read off its two digits.
proof fn lemma_hex_byte_can_be_read(a: u8, b: u8)
    requires
        hex_digit(a as int / 16) == hex_digit(b as int / 16),
        hex_digit(a as int % 16) == hex_digit(b as int % 16),
    ensures
        a == b,
{
    assert(a as int / 16 == b as int / 16);
    assert(a as int % 16 == b as int % 16);
}

/// Different colours are written differently.
pub proof fn law_colors_are_told_apart(a: Color, b: Color)
    requires
        hex_color(a) == hex_color(b),
    ensures
        a == b,
{
    let x = hex_color(a);
    let y = hex_color(b);
    assert(x[0] == hex_digit(a.r as int / 16) && y[0] == hex_digit(b.r as int / 16));
    assert(x[1] == hex_digit(a.r as int % 16) && y[1] == hex_digit(b.r as int % 16));
    assert(x[2] == hex_digit(a.g as int / 16) && y[2] == hex_digit(b.g as int / 16));
    assert(x[3] == hex_digit(a.g as int % 16) && y[3] == hex_digit(b.g as int % 16));
    assert(x[4] == hex_digit(a.b as int / 16) && y[4] == hex_digit(b.b as int / 16));
    assert(x[5] == hex_digit(a.b as int % 16) && y[5] == hex_digit(b.b as int % 16));
    lemma_hex_byte_can_be_read(a.r, b.r);
    lemma_hex_byte_can_be_read(a.g, b.g);
    lemma_hex_byte_can_be_read(a.b, b.b);
}

/// The style sheet holds the colour, behind `#`, as the background of everything.
pub proof fn law_background_is_the_color(c: Color)
    ensures
        css_text(c) == "* {\n                            background: #"@ + hex_color(c)
            + ";\n                        }"@,
{
}

/// A highlight that asks for nothing has no colour and no attribute.
pub proof fn law_plain_highlight_asks_for_nothing()
    ensures
        plain_highlight().foreground is None,
        plain_highlight().background is None,
        plain_highlight().special is None,
        !plain_highlight().reverse,
        !plain_highlight().italic,
        !plain_highlight().bold,
        !plain_highlight().underline,
        !plain_highlight().undercurl,
{
}

} // verus!
