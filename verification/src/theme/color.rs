//! Colours as 8-bit RGB channels plus opacity, and the light/dark colour
//! tokens of the BigTop palette.

use vstd::prelude::*;

use crate::text::{chars_of, decimal, decimal_chars, digit_char, push_char, push_str, string_from_chars};

verus! {

/// An RGB colour with 8-bit channels and an opacity in hundredths
/// (`a == 100` is fully opaque, `a == 18` is 18% opaque).
#[derive(Debug, Clone, Copy, PartialEq, Eq, Structural)]
pub struct Color {
    /// Red channel.
    pub r: u8,
    /// Green channel.
    pub g: u8,
    /// Blue channel.
    pub b: u8,
    /// Opacity in hundredths (0 = transparent, 100 = opaque).
    pub a: u8,
}

/// Lowercase hexadecimal digit for a value below sixteen.
pub open spec fn hex_char(d: int) -> char {
    if d < 10 {
        digit_char(d)
    } else {
        ((d - 10 + 97) as u8) as char
    }
}

/// Two lowercase hex digits of a byte.
pub open spec fn byte_hex(v: u8) -> Seq<char> {
    seq![hex_char(v as int / 16), hex_char(v as int % 16)]
}

/// An opacity in hundredths written with two decimals (`18` is `"0.18"`).
pub open spec fn alpha_text(a: u8) -> Seq<char> {
    decimal((a / 100) as nat) + "."@ + seq![digit_char((a as int / 10) % 10), digit_char(a as int % 10)]
}

/// CSS text of a colour: `#rrggbb` when opaque, `rgba(r, g, b, a)` otherwise.
pub open spec fn css_text(c: Color) -> Seq<char> {
    if c.a == 100 {
        "#"@ + byte_hex(c.r) + byte_hex(c.g) + byte_hex(c.b)
    } else {
        "rgba("@ + decimal(c.r as nat) + ", "@ + decimal(c.g as nat) + ", "@ + decimal(c.b as nat)
            + ", "@ + alpha_text(c.a) + ")"@
    }
}

/// Value of a hexadecimal digit (either case), if it is one.
pub open spec fn hex_value(c: char) -> Option<u8> {
    if '0' <= c && c <= '9' {
        Some((c as u32 - 48) as u8)
    } else if 'a' <= c && c <= 'f' {
        Some((c as u32 - 97 + 10) as u8)
    } else if 'A' <= c && c <= 'F' {
        Some((c as u32 - 65 + 10) as u8)
    } else {
        None
    }
}

/// Offset of the six hex digits in a colour string (after an optional `#`).
pub open spec fn hex_offset(s: Seq<char>) -> int {
    if s.len() > 0 && s[0] == '#' {
        1
    } else {
        0
    }
}

/// A colour string this parser accepts: six hex digits after an optional `#`.
pub open spec fn valid_hex(s: Seq<char>) -> bool {
    &&& s.len() >= hex_offset(s) + 6
    &&& forall|i: int| hex_offset(s) <= i < hex_offset(s) + 6 ==> (#[trigger] hex_value(s[i])) is Some
}

/// The byte written by two hex digits.
pub open spec fn hex_pair(hi: char, lo: char) -> u8 {
    (hex_value(hi)->0 * 16 + hex_value(lo)->0) as u8
}

/// The opaque colour a valid hex string denotes.
pub open spec fn hex_color(s: Seq<char>) -> Color {
    let o = hex_offset(s);
    Color {
        r: hex_pair(s[o], s[o + 1]),
        g: hex_pair(s[o + 2], s[o + 3]),
        b: hex_pair(s[o + 4], s[o + 5]),
        a: 100,
    }
}

/// Value of one hexadecimal digit.
pub fn hex_digit(c: char) -> (r: u8)
    requires
        hex_value(c) is Some,
    ensures
        r == hex_value(c)->0,
        r < 16,
{
    if '0' <= c && c <= '9' {
        (c as u32 - 48) as u8
    } else if 'a' <= c && c <= 'f' {
        (c as u32 - 97 + 10) as u8
    } else {
        (c as u32 - 65 + 10) as u8
    }
}

/// The byte written by two hexadecimal digits.
pub fn hex_byte(hi: char, lo: char) -> (r: u8)
    requires
        hex_value(hi) is Some,
        hex_value(lo) is Some,
    ensures
        r == hex_pair(hi, lo),
{
    hex_digit(hi) * 16 + hex_digit(lo)
}

/// Parse a colour string like `#4285f4` (or `4285f4`, either case).
/// The string must hold six hex digits after the optional `#`.
pub fn hex(s: &str) -> (r: Color)
    requires
        valid_hex(s@),
    ensures
        r == hex_color(s@),
{
    let v = chars_of(s);
    let o: usize = if v.len() > 0 && v[0] == '#' {
        1
    } else {
        0
    };
    assert(hex_value(v@[o as int]) is Some);
    assert(hex_value(v@[o + 1]) is Some);
    assert(hex_value(v@[o + 2]) is Some);
    assert(hex_value(v@[o + 3]) is Some);
    assert(hex_value(v@[o + 4]) is Some);
    assert(hex_value(v@[o + 5]) is Some);
    Color {
        r: hex_byte(v[o], v[o + 1]),
        g: hex_byte(v[o + 2], v[o + 3]),
        b: hex_byte(v[o + 4], v[o + 5]),
        a: 100,
    }
}

fn hex_char_of(d: u8) -> (c: char)
    requires
        d < 16,
    ensures
        c == hex_char(d as int),
{
    if d < 10 {
        ((d + 48) as u8) as char
    } else {
        ((d - 10 + 97) as u8) as char
    }
}

impl Color {
    /// Fully opaque black.
    pub fn black() -> (c: Color)
        ensures
            c == rgb(0, 0, 0),
    {
        Color { r: 0, g: 0, b: 0, a: 100 }
    }

    /// Fully opaque white.
    pub fn white() -> (c: Color)
        ensures
            c == rgb(255, 255, 255),
    {
        Color { r: 255, g: 255, b: 255, a: 100 }
    }

    /// An opaque colour from RGB byte values.
    pub fn from_rgb8(r: u8, g: u8, b: u8) -> (c: Color)
        ensures
            c == (Color { r, g, b, a: 100 }),
    {
        Color { r, g, b, a: 100 }
    }

    /// Render as a CSS colour string: `#rrggbb` for opaque colours,
    /// `rgba(r, g, b, a)` with two decimals of opacity otherwise.
    pub fn to_css(&self) -> (s: String)
        ensures
            s@ == css_text(*self),
    {
        if self.a == 100 {
            let mut v: Vec<char> = Vec::new();
            v.push('#');
            v.push(hex_char_of(self.r / 16));
            v.push(hex_char_of(self.r % 16));
            v.push(hex_char_of(self.g / 16));
            v.push(hex_char_of(self.g % 16));
            v.push(hex_char_of(self.b / 16));
            v.push(hex_char_of(self.b % 16));
            proof {
                reveal_strlit("#");
                assert(v@ =~= "#"@ + byte_hex(self.r) + byte_hex(self.g) + byte_hex(self.b));
            }
            string_from_chars(v.as_slice())
        } else {
            let mut s = string_from_chars(chars_of("rgba(").as_slice());
            push_str(&mut s, string_from_chars(decimal_chars(self.r as u64).as_slice()).as_str());
            push_str(&mut s, ", ");
            push_str(&mut s, string_from_chars(decimal_chars(self.g as u64).as_slice()).as_str());
            push_str(&mut s, ", ");
            push_str(&mut s, string_from_chars(decimal_chars(self.b as u64).as_slice()).as_str());
            push_str(&mut s, ", ");
            push_str(&mut s, string_from_chars(decimal_chars((self.a / 100) as u64).as_slice()).as_str());
            push_char(&mut s, '.');
            push_char(&mut s, (((self.a / 10) % 10 + 48) as u8) as char);
            push_char(&mut s, ((self.a % 10 + 48) as u8) as char);
            push_str(&mut s, ")");
            proof {
                reveal_strlit(".");
                assert(s@ =~= css_text(*self));
            }
            s
        }
    }
}

/// All colour tokens that vary between light and dark themes
/// (BigTop APK design tokens).
#[derive(Debug, Clone, Copy, PartialEq, Eq, Structural)]
pub struct ThemeColors {
    /// Main window background (`#ececec` light, `#121212` dark).
    pub background: Color,
    /// Card/surface background (`#ffffff` light, `#1e1e1e` dark).
    pub surface: Color,
    /// Selected item background (`#ebf2ff` light, `#1a2744` dark).
    pub surface_selected: Color,
    /// Primary text colour (`#212121` light, `#e0e0e0` dark).
    pub text_primary: Color,
    /// Secondary/muted text colour (`#757575` light, `#9e9e9e` dark).
    pub text_secondary: Color,
    /// Divider/stroke colour (`#e0e0e0` light, `#2c2c2c` dark).
    pub divider: Color,
    /// Toolbar colour for Inbox view (`#4285f4` light, `#1a3a6e` dark).
    pub toolbar_inbox: Color,
    /// Toolbar colour for Done view (`#0f9d58` light, `#0b5e35` dark).
    pub toolbar_done: Color,
    /// Toolbar colour for Snoozed view (`#ef6c00` light, `#8f4100` dark).
    pub toolbar_snoozed: Color,
    /// Toolbar colour for the Settings (and Compose) view (`#455a64` in both themes).
    pub toolbar_settings: Color,
    /// Toolbar text/icon colour (white on coloured toolbars).
    pub toolbar_text: Color,
    /// Whether this is a dark theme.
    pub is_dark: bool,
    /// Menu item hover background (`#f5f5f5` light, `#2a2a2a` dark).
    pub menu_hover: Color,
    /// Destructive menu item hover background (`#fbe9e7` light, `#3d1a14` dark).
    pub menu_destructive_hover: Color,
    /// Destructive menu item text colour (`#ef5350` both themes).
    pub menu_destructive_text: Color,
    /// Menu separator line colour (`#e8e8e8` light, `#333333` dark).
    pub menu_separator: Color,
    /// Menu card shadow colour (black, 18% opaque light, 30% dark).
    pub menu_shadow: Color,
}

pub open spec fn rgb(r: u8, g: u8, b: u8) -> Color {
    Color { r, g, b, a: 100 }
}

/// The BigTop light palette.
pub open spec fn light_colors() -> ThemeColors {
    ThemeColors {
        background: rgb(0xec, 0xec, 0xec),
        surface: rgb(0xff, 0xff, 0xff),
        surface_selected: rgb(0xeb, 0xf2, 0xff),
        text_primary: rgb(0x21, 0x21, 0x21),
        text_secondary: rgb(0x75, 0x75, 0x75),
        divider: rgb(0xe0, 0xe0, 0xe0),
        toolbar_inbox: rgb(0x42, 0x85, 0xf4),
        toolbar_done: rgb(0x0f, 0x9d, 0x58),
        toolbar_snoozed: rgb(0xef, 0x6c, 0x00),
        toolbar_settings: rgb(0x45, 0x5a, 0x64),
        toolbar_text: rgb(0xff, 0xff, 0xff),
        is_dark: false,
        menu_hover: rgb(0xf5, 0xf5, 0xf5),
        menu_destructive_hover: rgb(0xfb, 0xe9, 0xe7),
        menu_destructive_text: rgb(0xef, 0x53, 0x50),
        menu_separator: rgb(0xe8, 0xe8, 0xe8),
        menu_shadow: Color { r: 0, g: 0, b: 0, a: 18 },
    }
}

/// The dark palette: desaturated variants of BigTop.
pub open spec fn dark_colors() -> ThemeColors {
    ThemeColors {
        background: rgb(0x12, 0x12, 0x12),
        surface: rgb(0x1e, 0x1e, 0x1e),
        surface_selected: rgb(0x1a, 0x27, 0x44),
        text_primary: rgb(0xe0, 0xe0, 0xe0),
        text_secondary: rgb(0x9e, 0x9e, 0x9e),
        divider: rgb(0x2c, 0x2c, 0x2c),
        toolbar_inbox: rgb(0x1a, 0x3a, 0x6e),
        toolbar_done: rgb(0x0b, 0x5e, 0x35),
        toolbar_snoozed: rgb(0x8f, 0x41, 0x00),
        toolbar_settings: rgb(0x45, 0x5a, 0x64),
        toolbar_text: rgb(0xff, 0xff, 0xff),
        is_dark: true,
        menu_hover: rgb(0x2a, 0x2a, 0x2a),
        menu_destructive_hover: rgb(0x3d, 0x1a, 0x14),
        menu_destructive_text: rgb(0xef, 0x53, 0x50),
        menu_separator: rgb(0x33, 0x33, 0x33),
        menu_shadow: Color { r: 0, g: 0, b: 0, a: 30 },
    }
}

impl ThemeColors {
    /// BigTop light theme -- the Google Inbox baseline.
    pub fn light() -> (t: ThemeColors)
        ensures
            t == light_colors(),
    {
        ThemeColors {
            background: Color::from_rgb8(0xec, 0xec, 0xec),
            surface: Color::from_rgb8(0xff, 0xff, 0xff),
            surface_selected: Color::from_rgb8(0xeb, 0xf2, 0xff),
            text_primary: Color::from_rgb8(0x21, 0x21, 0x21),
            text_secondary: Color::from_rgb8(0x75, 0x75, 0x75),
            divider: Color::from_rgb8(0xe0, 0xe0, 0xe0),
            toolbar_inbox: Color::from_rgb8(0x42, 0x85, 0xf4),
            toolbar_done: Color::from_rgb8(0x0f, 0x9d, 0x58),
            toolbar_snoozed: Color::from_rgb8(0xef, 0x6c, 0x00),
            toolbar_settings: Color::from_rgb8(0x45, 0x5a, 0x64),
            toolbar_text: Color::from_rgb8(0xff, 0xff, 0xff),
            is_dark: false,
            menu_hover: Color::from_rgb8(0xf5, 0xf5, 0xf5),
            menu_destructive_hover: Color::from_rgb8(0xfb, 0xe9, 0xe7),
            menu_destructive_text: Color::from_rgb8(0xef, 0x53, 0x50),
            menu_separator: Color::from_rgb8(0xe8, 0xe8, 0xe8),
            menu_shadow: Color { r: 0, g: 0, b: 0, a: 18 },
        }
    }

    /// Dark theme -- desaturated variants of the BigTop palette.
    pub fn dark() -> (t: ThemeColors)
        ensures
            t == dark_colors(),
    {
        ThemeColors {
            background: Color::from_rgb8(0x12, 0x12, 0x12),
            surface: Color::from_rgb8(0x1e, 0x1e, 0x1e),
            surface_selected: Color::from_rgb8(0x1a, 0x27, 0x44),
            text_primary: Color::from_rgb8(0xe0, 0xe0, 0xe0),
            text_secondary: Color::from_rgb8(0x9e, 0x9e, 0x9e),
            divider: Color::from_rgb8(0x2c, 0x2c, 0x2c),
            toolbar_inbox: Color::from_rgb8(0x1a, 0x3a, 0x6e),
            toolbar_done: Color::from_rgb8(0x0b, 0x5e, 0x35),
            toolbar_snoozed: Color::from_rgb8(0x8f, 0x41, 0x00),
            toolbar_settings: Color::from_rgb8(0x45, 0x5a, 0x64),
            toolbar_text: Color::from_rgb8(0xff, 0xff, 0xff),
            is_dark: true,
            menu_hover: Color::from_rgb8(0x2a, 0x2a, 0x2a),
            menu_destructive_hover: Color::from_rgb8(0x3d, 0x1a, 0x14),
            menu_destructive_text: Color::from_rgb8(0xef, 0x53, 0x50),
            menu_separator: Color::from_rgb8(0x33, 0x33, 0x33),
            menu_shadow: Color { r: 0, g: 0, b: 0, a: 30 },
        }
    }
}

} // verus!
