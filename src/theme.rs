//! Colours and the compiled theme that widgets read.
use vstd::prelude::*;
use crate::config::ThemeConfig;
use crate::text::{
    chars_of, eq_str, split_char, split_on_char, trim, trim_chars,
};

verus! {

/// An RGBA colour with 8-bit channels.
#[derive(Debug, Clone, Copy, PartialEq, Eq, Structural)]
pub struct Color {
    pub r: u8,
    pub g: u8,
    pub b: u8,
    pub a: u8,
}

/// `#1e1e2e`
pub open spec fn dark() -> Color {
    Color { r: 0x1e, g: 0x1e, b: 0x2e, a: 255 }
}

/// `#cdd6f4`
pub open spec fn white() -> Color {
    Color { r: 0xcd, g: 0xd6, b: 0xf4, a: 255 }
}

/// `#cba6f7`
pub open spec fn purple() -> Color {
    Color { r: 0xcb, g: 0xa6, b: 0xf7, a: 255 }
}

/// Value of a hexadecimal digit (either case).
pub open spec fn hex_digit(c: char) -> Option<u8> {
    if '0' <= c && c <= '9' {
        Some((c as u32 - '0' as u32) as u8)
    } else if 'a' <= c && c <= 'f' {
        Some((c as u32 - 'a' as u32 + 10) as u8)
    } else if 'A' <= c && c <= 'F' {
        Some((c as u32 - 'A' as u32 + 10) as u8)
    } else {
        None
    }
}

/// What `u8::from_str_radix(_, 16)` makes of a two-character text: two hex
/// digits, or a `+` sign followed by one.
pub open spec fn hex_byte(c0: char, c1: char) -> Option<u8> {
    match (hex_digit(c0), hex_digit(c1)) {
        (Some(h), Some(l)) => Some((h * 16 + l) as u8),
        (_, Some(l)) => if c0 == '+' {
            Some(l)
        } else {
            None
        },
        _ => None,
    }
}

/// `s` without its leading `#` characters.
pub open spec fn strip_hashes(s: Seq<char>) -> Seq<char>
    decreases s.len(),
{
    if s.len() > 0 && s[0] == '#' {
        strip_hashes(s.drop_first())
    } else {
        s
    }
}

/// The colour that a CSS-style `#RRGGBB` or `#RRGGBBAA` text denotes (any
/// number of leading `#`); `None` for any other text.
pub open spec fn parse_color(s: Seq<char>) -> Option<Color> {
    let h = strip_hashes(s);
    if h.len() == 6 {
        match (hex_byte(h[0], h[1]), hex_byte(h[2], h[3]), hex_byte(h[4], h[5])) {
            (Some(r), Some(g), Some(b)) => Some(Color { r, g, b, a: 255 }),
            _ => None,
        }
    } else if h.len() == 8 {
        match (hex_byte(h[0], h[1]), hex_byte(h[2], h[3]), hex_byte(h[4], h[5]), hex_byte(h[6], h[7])) {
            (Some(r), Some(g), Some(b), Some(a)) => Some(Color { r, g, b, a }),
            _ => None,
        }
    } else {
        None
    }
}

fn hex_digit_exec(c: char) -> (r: Option<u8>)
    ensures
        r == hex_digit(c),
{
    if '0' <= c && c <= '9' {
        Some((c as u32 - '0' as u32) as u8)
    } else if 'a' <= c && c <= 'f' {
        Some((c as u32 - 'a' as u32 + 10) as u8)
    } else if 'A' <= c && c <= 'F' {
        Some((c as u32 - 'A' as u32 + 10) as u8)
    } else {
        None
    }
}

fn hex_byte_exec(c0: char, c1: char) -> (r: Option<u8>)
    ensures
        r == hex_byte(c0, c1),
{
    match (hex_digit_exec(c0), hex_digit_exec(c1)) {
        (Some(h), Some(l)) => Some(h * 16 + l),
        (_, Some(l)) => if c0 == '+' {
            Some(l)
        } else {
            None
        },
        _ => None,
    }
}

impl Color {
    /// Parse a CSS-style hex color string (`#RRGGBB` or `#RRGGBBAA`).
    pub fn from_hex(hex: &str) -> (r: Option<Color>)
        ensures
            r == parse_color(hex@),
    {
        let v = chars_of(hex);
        let mut i: usize = 0;
        assert(v@.subrange(0, v@.len() as int) =~= v@);
        while i < v.len() && v[i] == '#'
            invariant
                i <= v@.len(),
                strip_hashes(v@) == strip_hashes(v@.subrange(i as int, v@.len() as int)),
            decreases v@.len() - i,
        {
            assert(v@.subrange(i as int, v@.len() as int).drop_first() =~= v@.subrange(
                i + 1,
                v@.len() as int,
            ));
            i += 1;
        }
        let ghost h = v@.subrange(i as int, v@.len() as int);
        assert(strip_hashes(v@) == h);
        let n = v.len() - i;
        if n == 6 {
            assert(h[0] == v@[i as int] && h[1] == v@[i + 1] && h[2] == v@[i + 2]);
            assert(h[3] == v@[i + 3] && h[4] == v@[i + 4] && h[5] == v@[i + 5]);
            match (
                hex_byte_exec(v[i], v[i + 1]),
                hex_byte_exec(v[i + 2], v[i + 3]),
                hex_byte_exec(v[i + 4], v[i + 5]),
            ) {
                (Some(r), Some(g), Some(b)) => Some(Color { r, g, b, a: 255 }),
                _ => None,
            }
        } else if n == 8 {
            assert(h[0] == v@[i as int] && h[1] == v@[i + 1] && h[2] == v@[i + 2]);
            assert(h[3] == v@[i + 3] && h[4] == v@[i + 4] && h[5] == v@[i + 5]);
            assert(h[6] == v@[i + 6] && h[7] == v@[i + 7]);
            match (
                hex_byte_exec(v[i], v[i + 1]),
                hex_byte_exec(v[i + 2], v[i + 3]),
                hex_byte_exec(v[i + 4], v[i + 5]),
                hex_byte_exec(v[i + 6], v[i + 7]),
            ) {
                (Some(r), Some(g), Some(b), Some(a)) => Some(Color { r, g, b, a }),
                _ => None,
            }
        } else {
            None
        }
    }

    pub fn dark() -> (r: Color)
        ensures
            r == dark(),
    {
        Color { r: 0x1e, g: 0x1e, b: 0x2e, a: 255 }
    }

    pub fn white() -> (r: Color)
        ensures
            r == white(),
    {
        Color { r: 0xcd, g: 0xd6, b: 0xf4, a: 255 }
    }

    pub fn purple() -> (r: Color)
        ensures
            r == purple(),
    {
        Color { r: 0xcb, g: 0xa6, b: 0xf7, a: 255 }
    }

    pub fn transparent() -> (r: Color)
        ensures
            r == (Color { r: 0, g: 0, b: 0, a: 0 }),
    {
        Color { r: 0, g: 0, b: 0, a: 0 }
    }

    /// This colour with its alpha channel replaced.
    pub fn with_alpha(self, alpha: u8) -> (r: Color)
        ensures
            r == (Color { a: alpha, ..self }),
    {
        Color { a: alpha, ..self }
    }
}

/// What `str::to_lowercase` returns for a text.
pub uninterp spec fn lower_of(s: Seq<char>) -> Seq<char>;

/// Relies on `str::to_lowercase`: the result depends on the characters alone.
#[verifier::external_body]
pub(crate) fn lowercase(s: &str) -> (r: String)
    ensures
        r@ == lower_of(s@),
{
    s.to_lowercase()
}

/// The raw comma-separated fields of `s`, in order (at least one).
pub open spec fn fields(s: Seq<char>) -> Seq<Seq<char>> {
    split_char(s, ',')
}

/// `tok` is one of the comma-separated entries of `list`, white space ignored.
pub open spec fn has_token(list: Seq<char>, tok: Seq<char>) -> bool {
    exists|i: int| 0 <= i < fields(list).len() && trim(#[trigger] fields(list)[i]) == tok
}

/// The comma-separated fields of `v`.
pub fn split_fields(v: &Vec<char>) -> (r: Vec<Vec<char>>)
    ensures
        r@.len() == fields(v@).len(),
        forall|i: int| 0 <= i < r@.len() ==> (#[trigger] r@[i])@ == fields(v@)[i],
{
    split_on_char(v, ',')
}

fn has_token_exec(list: &str, tok: &str) -> (r: bool)
    ensures
        r == has_token(list@, tok@),
{
    let v = chars_of(list);
    let fs = split_fields(&v);
    let mut i: usize = 0;
    while i < fs.len()
        invariant
            i <= fs@.len(),
            fs@.len() == fields(v@).len(),
            v@ == list@,
            forall|k: int| 0 <= k < fs@.len() ==> (#[trigger] fs@[k])@ == fields(v@)[k],
            forall|k: int| 0 <= k < i ==> trim(#[trigger] fields(v@)[k]) != tok@,
        decreases fs@.len() - i,
    {
        if eq_str(&trim_chars(&fs[i]), tok) {
            return true;
        }
        i += 1;
    }
    false
}

/// Compiled theme: colours parsed, flags decided.
#[derive(Debug, Clone)]
pub struct Theme {
    pub background: Color,
    pub foreground: Color,
    pub accent: Color,
    /// Font size, in hundredths of a point.
    pub font_size: u32,
    /// Corner radius, in hundredths of a pixel.
    pub border_radius: u32,
    pub padding: u16,
    pub gap: u16,
    /// Widget container background.  `None` = transparent.
    pub widget_bg: Option<Color>,
    pub border_color: Color,
    pub border_width: u32,
    pub clock_format: String,
    pub date_format: String,
    /// When `true`, widgets render Nerd Font glyphs; otherwise ASCII labels.
    pub use_nerd_icons: bool,
    pub widget_pad_x: u16,
    pub widget_pad_y: u16,
    /// Workspaces shown as dots rather than names.
    pub workspace_dots: bool,
    pub workspace_show_all: bool,
    pub network_show_speed: bool,
    pub network_show_name: bool,
    pub network_show_signal: bool,
}

/// A parsed colour, or `fallback` when the text denotes none.
pub open spec fn color_or(s: Seq<char>, fallback: Color) -> Color {
    match parse_color(s) {
        Some(c) => c,
        None => fallback,
    }
}

/// The theme that a `[theme]` section denotes.
pub open spec fn theme_of(cfg: ThemeConfig) -> Theme {
    Theme {
        background: color_or(cfg.background@, dark()),
        foreground: color_or(cfg.foreground@, white()),
        accent: color_or(cfg.accent@, purple()),
        font_size: cfg.font_size,
        border_radius: cfg.border_radius,
        padding: cfg.padding,
        gap: cfg.gap,
        widget_bg: if cfg.widget_bg@.len() == 0 {
            None
        } else {
            parse_color(cfg.widget_bg@)
        },
        border_color: color_or(cfg.border_color@, dark()),
        border_width: cfg.border_width,
        clock_format: cfg.clock_format,
        date_format: cfg.date_format,
        use_nerd_icons: lower_of(cfg.icon_style@) != "ascii"@,
        widget_pad_x: cfg.widget_padding_x,
        widget_pad_y: cfg.widget_padding_y,
        workspace_dots: cfg.workspace_style@ == "dots"@,
        workspace_show_all: cfg.workspace_show_all,
        network_show_speed: has_token(cfg.network_show@, "speed"@),
        network_show_name: has_token(cfg.network_show@, "name"@),
        network_show_signal: has_token(cfg.network_show@, "signal"@),
    }
}

impl Theme {
    /// Build a theme from the `[theme]` section.  Never fails: a colour text
    /// that denotes no colour falls back to the default one.
    pub fn from_config(cfg: &ThemeConfig) -> (r: Theme)
        ensures
            r == theme_of(*cfg),
    {
        let widget_bg = if cfg.widget_bg.as_str().is_empty() {
            None
        } else {
            Color::from_hex(cfg.widget_bg.as_str())
        };
        let style = lowercase(cfg.icon_style.as_str());
        Theme {
            background: Color::from_hex(cfg.background.as_str()).unwrap_or(Color::dark()),
            foreground: Color::from_hex(cfg.foreground.as_str()).unwrap_or(Color::white()),
            accent: Color::from_hex(cfg.accent.as_str()).unwrap_or(Color::purple()),
            font_size: cfg.font_size,
            border_radius: cfg.border_radius,
            padding: cfg.padding,
            gap: cfg.gap,
            widget_bg,
            border_color: Color::from_hex(cfg.border_color.as_str()).unwrap_or(Color::dark()),
            border_width: cfg.border_width,
            clock_format: cfg.clock_format.clone(),
            date_format: cfg.date_format.clone(),
            use_nerd_icons: !eq_str(&chars_of(style.as_str()), "ascii"),
            widget_pad_x: cfg.widget_padding_x,
            widget_pad_y: cfg.widget_padding_y,
            workspace_dots: eq_str(&chars_of(cfg.workspace_style.as_str()), "dots"),
            workspace_show_all: cfg.workspace_show_all,
            network_show_speed: has_token_exec(cfg.network_show.as_str(), "speed"),
            network_show_name: has_token_exec(cfg.network_show.as_str(), "name"),
            network_show_signal: has_token_exec(cfg.network_show.as_str(), "signal"),
        }
    }
}

} // verus!
