//! Colors: hex color strings parsed into RGB triples, and the theme, graph
//! and cursor settings resolved from the configuration with their fallbacks.

use vstd::prelude::*;

use crate::config::ConfigToml;
use crate::text::str_eq;

verus! {

/// An RGB triple.
#[derive(Clone, Copy, Debug, PartialEq, Eq, Structural)]
pub struct Rgb {
    pub r: u8,
    pub g: u8,
    pub b: u8,
}

/// A terminal color: one of the named palette colors the themes fall back
/// to, or an RGB triple from the configuration.
#[derive(Clone, Copy, Debug, PartialEq, Eq, Structural)]
pub enum TermColor {
    White,
    Grey,
    Red,
    Yellow,
    Rgb(Rgb),
}

/// Whether `c` is a hexadecimal digit, in either case.
pub open spec fn is_hex_digit(c: char) -> bool {
    ||| ('0' as u32) <= (c as u32) <= ('9' as u32)
    ||| ('a' as u32) <= (c as u32) <= ('f' as u32)
    ||| ('A' as u32) <= (c as u32) <= ('F' as u32)
}

/// The value of a hexadecimal digit.
pub open spec fn hex_val(c: char) -> int {
    if ('0' as u32) <= (c as u32) <= ('9' as u32) {
        (c as u32) - ('0' as u32)
    } else if ('a' as u32) <= (c as u32) <= ('f' as u32) {
        (c as u32) - ('a' as u32) + 10
    } else if ('A' as u32) <= (c as u32) <= ('F' as u32) {
        (c as u32) - ('A' as u32) + 10
    } else {
        0
    }
}

/// The byte two hexadecimal digits spell.
pub open spec fn hex_pair(h: char, l: char) -> int {
    16 * hex_val(h) + hex_val(l)
}

/// The RGB triple a hex color string of the form `#rrggbb` spells, `None`
/// for any other string.
pub open spec fn spec_hex_to_rgb(s: Seq<char>) -> Option<Rgb> {
    if s.len() == 7 && s[0] == '#' && is_hex_digit(s[1]) && is_hex_digit(s[2]) && is_hex_digit(
        s[3],
    ) && is_hex_digit(s[4]) && is_hex_digit(s[5]) && is_hex_digit(s[6]) {
        Option::Some(
            Rgb {
                r: hex_pair(s[1], s[2]) as u8,
                g: hex_pair(s[3], s[4]) as u8,
                b: hex_pair(s[5], s[6]) as u8,
            },
        )
    } else {
        Option::None
    }
}

/// The value of one hexadecimal digit character, `None` for any other.
fn hex_digit(c: char) -> (r: Option<u8>)
    ensures
        r is Some <==> is_hex_digit(c),
        r is Some ==> r->0 == hex_val(c),
{
    let u = c as u32;
    if 48 <= u && u <= 57 {
        proof {
            assert(('0' as u32) == 48 && ('9' as u32) == 57);
        }
        Option::Some((u - 48) as u8)
    } else if 97 <= u && u <= 102 {
        proof {
            assert(('a' as u32) == 97 && ('f' as u32) == 102);
        }
        Option::Some((u - 97 + 10) as u8)
    } else if 65 <= u && u <= 70 {
        proof {
            assert(('A' as u32) == 65 && ('F' as u32) == 70);
        }
        Option::Some((u - 65 + 10) as u8)
    } else {
        Option::None
    }
}

/// The byte two hexadecimal digit characters spell.
fn hex_byte(h: char, l: char) -> (r: Option<u8>)
    ensures
        r is Some <==> is_hex_digit(h) && is_hex_digit(l),
        r is Some ==> r->0 == hex_pair(h, l),
{
    match (hex_digit(h), hex_digit(l)) {
        (Option::Some(a), Option::Some(b)) => Option::Some(a * 16 + b),
        _ => Option::None,
    }
}

/// Parses a `#rrggbb` hex color string into its RGB triple.
pub fn hex_to_rgb(hex: &str) -> (r: Option<Rgb>)
    ensures
        r == spec_hex_to_rgb(hex@),
{
    let n = hex.unicode_len();
    if n != 7 {
        return Option::None;
    }
    if hex.get_char(0) != '#' {
        return Option::None;
    }
    let red = hex_byte(hex.get_char(1), hex.get_char(2));
    let green = hex_byte(hex.get_char(3), hex.get_char(4));
    let blue = hex_byte(hex.get_char(5), hex.get_char(6));
    match (red, green, blue) {
        (Option::Some(r), Option::Some(g), Option::Some(b)) => Option::Some(Rgb { r, g, b }),
        _ => Option::None,
    }
}

/// The color a configuration entry resolves to: its hex color if it parses,
/// the given fallback otherwise.
pub open spec fn spec_resolve_color(field: Option<String>, fallback: TermColor) -> TermColor {
    match field {
        Option::Some(s) => match spec_hex_to_rgb(s@) {
            Option::Some(rgb) => TermColor::Rgb(rgb),
            Option::None => fallback,
        },
        Option::None => fallback,
    }
}

/// Resolves one optional hex color entry against its fallback.
fn resolve_color(field: &Option<String>, fallback: TermColor) -> (r: TermColor)
    ensures
        r == spec_resolve_color(*field, fallback),
{
    match field {
        Option::Some(s) => match hex_to_rgb(s.as_str()) {
            Option::Some(rgb) => TermColor::Rgb(rgb),
            Option::None => fallback,
        },
        Option::None => fallback,
    }
}

/// The colors the session is drawn with.
#[derive(Clone, Copy, Debug, PartialEq, Eq, Structural)]
pub struct ThemeColors {
    pub fg: TermColor,
    pub missing: TermColor,
    pub error: TermColor,
    pub accent: TermColor,
}

impl ThemeColors {
    /// The theme the configuration describes, each missing or unparsable
    /// entry replaced by its fallback.
    pub fn new(config: &ConfigToml) -> (r: ThemeColors)
        ensures
            r == (match config.theme {
                Option::Some(t) => ThemeColors {
                    fg: spec_resolve_color(t.fg, TermColor::White),
                    missing: spec_resolve_color(t.missing, TermColor::Grey),
                    error: spec_resolve_color(t.error, TermColor::Red),
                    accent: spec_resolve_color(t.accent, TermColor::Yellow),
                },
                Option::None => ThemeColors {
                    fg: TermColor::White,
                    missing: TermColor::Grey,
                    error: TermColor::Red,
                    accent: TermColor::Yellow,
                },
            }),
    {
        match &config.theme {
            Option::Some(t) => ThemeColors {
                fg: resolve_color(&t.fg, TermColor::White),
                missing: resolve_color(&t.missing, TermColor::Grey),
                error: resolve_color(&t.error, TermColor::Red),
                accent: resolve_color(&t.accent, TermColor::Yellow),
            },
            Option::None => ThemeColors::default(),
        }
    }
}

impl Default for ThemeColors {
    fn default() -> (r: ThemeColors)
        ensures
            r == (ThemeColors {
                fg: TermColor::White,
                missing: TermColor::Grey,
                error: TermColor::Red,
                accent: TermColor::Yellow,
            }),
    {
        ThemeColors {
            fg: TermColor::White,
            missing: TermColor::Grey,
            error: TermColor::Red,
            accent: TermColor::Yellow,
        }
    }
}

/// The colors the statistics graph is drawn with.
#[derive(Clone, Copy, Debug, PartialEq, Eq, Structural)]
pub struct Graph {
    pub data: TermColor,
    pub title: TermColor,
    pub axis: TermColor,
}

impl Graph {
    /// The graph colors the configuration describes, each missing or
    /// unparsable entry replaced by its fallback.
    pub fn new(config: &ConfigToml) -> (r: Graph)
        ensures
            r == (match config.graph {
                Option::Some(t) => Graph {
                    data: spec_resolve_color(t.data, TermColor::Yellow),
                    title: spec_resolve_color(t.title, TermColor::Red),
                    axis: spec_resolve_color(t.axis, TermColor::White),
                },
                Option::None => Graph {
                    data: TermColor::Yellow,
                    title: TermColor::Red,
                    axis: TermColor::White,
                },
            }),
    {
        match &config.graph {
            Option::Some(t) => Graph {
                data: resolve_color(&t.data, TermColor::Yellow),
                title: resolve_color(&t.title, TermColor::Red),
                axis: resolve_color(&t.axis, TermColor::White),
            },
            Option::None => Graph::default(),
        }
    }
}

impl Default for Graph {
    fn default() -> (r: Graph)
        ensures
            r == (Graph { data: TermColor::Yellow, title: TermColor::Red, axis: TermColor::White }),
    {
        Graph { data: TermColor::Yellow, title: TermColor::Red, axis: TermColor::White }
    }
}

/// The cursor shapes a terminal can show.
#[derive(Clone, Copy, Debug, PartialEq, Eq, Structural)]
pub enum CursorShape {
    DefaultUserShape,
    BlinkingBlock,
    SteadyBlock,
    BlinkingUnderScore,
    SteadyUnderScore,
    BlinkingBar,
    SteadyBar,
}

/// The cursor shape a configuration string names, defaulting to the user's
/// own shape.
pub open spec fn parse_cursor_shape(s: Seq<char>) -> CursorShape {
    if s == "DefaultUserShape"@ {
        CursorShape::DefaultUserShape
    } else if s == "BlinkingBlock"@ {
        CursorShape::BlinkingBlock
    } else if s == "SteadyBlock"@ {
        CursorShape::SteadyBlock
    } else if s == "BlinkingUnderScore"@ {
        CursorShape::BlinkingUnderScore
    } else if s == "SteadyUnderScore"@ {
        CursorShape::SteadyUnderScore
    } else if s == "BlinkingBar"@ {
        CursorShape::BlinkingBar
    } else if s == "SteadyBar"@ {
        CursorShape::SteadyBar
    } else {
        CursorShape::DefaultUserShape
    }
}

/// The cursor shape the session uses.
#[derive(Clone, Copy, Debug, PartialEq, Eq, Structural)]
pub struct CursorKind {
    pub style: CursorShape,
}

impl CursorKind {
    /// The cursor shape the configuration names, or the default shape.
    pub fn new(config: &ConfigToml) -> (r: CursorKind)
        ensures
            r.style == (match config.cursor {
                Option::Some(t) => match t.style {
                    Option::Some(s) => parse_cursor_shape(s@),
                    Option::None => CursorShape::DefaultUserShape,
                },
                Option::None => CursorShape::DefaultUserShape,
            }),
    {
        match &config.cursor {
            Option::Some(t) => match &t.style {
                Option::Some(s) => {
                    let style = if str_eq(s.as_str(), "DefaultUserShape") {
                        CursorShape::DefaultUserShape
                    } else if str_eq(s.as_str(), "BlinkingBlock") {
                        CursorShape::BlinkingBlock
                    } else if str_eq(s.as_str(), "SteadyBlock") {
                        CursorShape::SteadyBlock
                    } else if str_eq(s.as_str(), "BlinkingUnderScore") {
                        CursorShape::BlinkingUnderScore
                    } else if str_eq(s.as_str(), "SteadyUnderScore") {
                        CursorShape::SteadyUnderScore
                    } else if str_eq(s.as_str(), "BlinkingBar") {
                        CursorShape::BlinkingBar
                    } else if str_eq(s.as_str(), "SteadyBar") {
                        CursorShape::SteadyBar
                    } else {
                        CursorShape::DefaultUserShape
                    };
                    CursorKind { style }
                },
                Option::None => CursorKind::default(),
            },
            Option::None => CursorKind::default(),
        }
    }
}

impl Default for CursorKind {
    fn default() -> (r: CursorKind)
        ensures
            r.style == CursorShape::DefaultUserShape,
    {
        CursorKind { style: CursorShape::DefaultUserShape }
    }
}

} // verus!
