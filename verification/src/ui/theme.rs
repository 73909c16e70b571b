//! Color themes in the style of iTerm2 color schemes.

use vstd::prelude::*;
use crate::text::string_from;

verus! {

/// An RGBA color, 8 bits per channel (premultiplied alpha).
#[derive(Debug, Clone, Copy, PartialEq, Eq, Structural)]
pub struct Color {
    pub r: u8,
    pub g: u8,
    pub b: u8,
    pub a: u8,
}

impl Color {
    /// An opaque color.
    pub fn from_rgb(r: u8, g: u8, b: u8) -> (c: Color)
        ensures
            c == (Color { r, g, b, a: 255 }),
    {
        Color { r, g, b, a: 255 }
    }

    /// A color with premultiplied alpha.
    pub fn from_rgba_premultiplied(r: u8, g: u8, b: u8, a: u8) -> (c: Color)
        ensures
            c == (Color { r, g, b, a }),
    {
        Color { r, g, b, a }
    }

    /// An opaque gray of lightness `l`.
    pub fn from_gray(l: u8) -> (c: Color)
        ensures
            c == (Color { r: l, g: l, b: l, a: 255 }),
    {
        Color { r: l, g: l, b: l, a: 255 }
    }
}

/// A terminal color scheme: text, background, cursor and selection colors,
/// and the sixteen ANSI colors.
#[derive(Debug, Clone)]
pub struct ITerm2Theme {
    pub name: String,
    pub foreground: Color,
    pub background: Color,
    pub cursor: Color,
    pub selection: Color,
    pub ansi_black: Color,
    pub ansi_red: Color,
    pub ansi_green: Color,
    pub ansi_yellow: Color,
    pub ansi_blue: Color,
    pub ansi_magenta: Color,
    pub ansi_cyan: Color,
    pub ansi_white: Color,
    pub ansi_bright_black: Color,
    pub ansi_bright_red: Color,
    pub ansi_bright_green: Color,
    pub ansi_bright_yellow: Color,
    pub ansi_bright_blue: Color,
    pub ansi_bright_magenta: Color,
    pub ansi_bright_cyan: Color,
    pub ansi_bright_white: Color,
}

/// An opaque color.
pub open spec fn rgb(r: u8, g: u8, b: u8) -> Color {
    Color { r, g, b, a: 255 }
}

/// A theme's selection color: the given color at half alpha.
pub open spec fn half(r: u8, g: u8, b: u8) -> Color {
    Color { r, g, b, a: 128 }
}

/// Whether `t` holds these colors, in the order of the fields.
pub open spec fn has_colors(t: ITerm2Theme, c: Seq<Color>) -> bool {
    &&& c.len() == 20
    &&& t.foreground == c[0]
    &&& t.background == c[1]
    &&& t.cursor == c[2]
    &&& t.selection == c[3]
    &&& t.ansi_black == c[4]
    &&& t.ansi_red == c[5]
    &&& t.ansi_green == c[6]
    &&& t.ansi_yellow == c[7]
    &&& t.ansi_blue == c[8]
    &&& t.ansi_magenta == c[9]
    &&& t.ansi_cyan == c[10]
    &&& t.ansi_white == c[11]
    &&& t.ansi_bright_black == c[12]
    &&& t.ansi_bright_red == c[13]
    &&& t.ansi_bright_green == c[14]
    &&& t.ansi_bright_yellow == c[15]
    &&& t.ansi_bright_blue == c[16]
    &&& t.ansi_bright_magenta == c[17]
    &&& t.ansi_bright_cyan == c[18]
    &&& t.ansi_bright_white == c[19]
}

fn theme_of(name: &str, c: &[Color; 20]) -> (t: ITerm2Theme)
    ensures
        t.name@ == name@,
        has_colors(t, c@),
{
    ITerm2Theme {
        name: string_from(name),
        foreground: c[0],
        background: c[1],
        cursor: c[2],
        selection: c[3],
        ansi_black: c[4],
        ansi_red: c[5],
        ansi_green: c[6],
        ansi_yellow: c[7],
        ansi_blue: c[8],
        ansi_magenta: c[9],
        ansi_cyan: c[10],
        ansi_white: c[11],
        ansi_bright_black: c[12],
        ansi_bright_red: c[13],
        ansi_bright_green: c[14],
        ansi_bright_yellow: c[15],
        ansi_bright_blue: c[16],
        ansi_bright_magenta: c[17],
        ansi_bright_cyan: c[18],
        ansi_bright_white: c[19],
    }
}

/// The colors of the default dark theme (similar to base16-ocean).
pub open spec fn default_dark_colors() -> Seq<Color> {
    seq![
        rgb(192, 197, 206), rgb(43, 48, 59), rgb(192, 197, 206), half(76, 86, 106),
        rgb(43, 48, 59), rgb(191, 97, 106), rgb(163, 190, 140), rgb(235, 203, 139),
        rgb(129, 161, 193), rgb(180, 142, 173), rgb(136, 192, 208), rgb(216, 222, 233),
        rgb(76, 86, 106), rgb(191, 97, 106), rgb(163, 190, 140), rgb(235, 203, 139),
        rgb(129, 161, 193), rgb(180, 142, 173), rgb(143, 191, 189), rgb(236, 239, 244),
    ]
}

/// The colors of the Dracula theme.
pub open spec fn dracula_colors() -> Seq<Color> {
    seq![
        rgb(248, 248, 242), rgb(40, 42, 54), rgb(248, 248, 242), half(68, 71, 90),
        rgb(33, 34, 44), rgb(255, 85, 85), rgb(80, 250, 123), rgb(241, 250, 140),
        rgb(189, 147, 249), rgb(255, 121, 198), rgb(139, 233, 253), rgb(248, 248, 242),
        rgb(98, 114, 164), rgb(255, 110, 103), rgb(90, 247, 142), rgb(244, 249, 157),
        rgb(206, 147, 216), rgb(255, 146, 208), rgb(154, 237, 254), rgb(255, 255, 255),
    ]
}

/// The colors of the Nord theme.
pub open spec fn nord_colors() -> Seq<Color> {
    seq![
        rgb(216, 222, 233), rgb(46, 52, 64), rgb(216, 222, 233), half(67, 76, 94),
        rgb(59, 66, 82), rgb(191, 97, 106), rgb(163, 190, 140), rgb(235, 203, 139),
        rgb(129, 161, 193), rgb(180, 142, 173), rgb(136, 192, 208), rgb(229, 233, 240),
        rgb(76, 86, 106), rgb(191, 97, 106), rgb(163, 190, 140), rgb(235, 203, 139),
        rgb(129, 161, 193), rgb(180, 142, 173), rgb(143, 188, 187), rgb(236, 239, 244),
    ]
}

/// The colors of the One Dark theme.
pub open spec fn one_dark_colors() -> Seq<Color> {
    seq![
        rgb(171, 178, 191), rgb(40, 44, 52), rgb(171, 178, 191), half(56, 61, 71),
        rgb(40, 44, 52), rgb(224, 108, 117), rgb(152, 195, 121), rgb(229, 192, 123),
        rgb(97, 175, 239), rgb(198, 120, 221), rgb(86, 182, 194), rgb(171, 178, 191),
        rgb(92, 99, 112), rgb(224, 108, 117), rgb(152, 195, 121), rgb(229, 192, 123),
        rgb(97, 175, 239), rgb(198, 120, 221), rgb(86, 182, 194), rgb(255, 255, 255),
    ]
}

/// The colors of the Gruvbox Dark theme.
pub open spec fn gruvbox_dark_colors() -> Seq<Color> {
    seq![
        rgb(235, 219, 178), rgb(40, 40, 40), rgb(235, 219, 178), half(80, 73, 69),
        rgb(40, 40, 40), rgb(204, 36, 29), rgb(152, 151, 26), rgb(215, 153, 33),
        rgb(69, 133, 136), rgb(177, 98, 134), rgb(104, 157, 106), rgb(168, 153, 132),
        rgb(146, 131, 116), rgb(251, 73, 52), rgb(184, 187, 38), rgb(250, 189, 47),
        rgb(131, 165, 152), rgb(211, 134, 155), rgb(142, 192, 124), rgb(235, 219, 178),
    ]
}

impl ITerm2Theme {
    /// The default dark theme (similar to base16-ocean).
    pub fn default_dark() -> (t: Self)
        ensures
            t.name@ == "Default Dark"@,
            has_colors(t, default_dark_colors()),
    {
        let c = [
            Color::from_rgb(192, 197, 206), Color::from_rgb(43, 48, 59), Color::from_rgb(192, 197, 206),
            Color::from_rgba_premultiplied(76, 86, 106, 128),
            Color::from_rgb(43, 48, 59), Color::from_rgb(191, 97, 106), Color::from_rgb(163, 190, 140),
            Color::from_rgb(235, 203, 139), Color::from_rgb(129, 161, 193), Color::from_rgb(180, 142, 173),
            Color::from_rgb(136, 192, 208), Color::from_rgb(216, 222, 233),
            Color::from_rgb(76, 86, 106), Color::from_rgb(191, 97, 106), Color::from_rgb(163, 190, 140),
            Color::from_rgb(235, 203, 139), Color::from_rgb(129, 161, 193), Color::from_rgb(180, 142, 173),
            Color::from_rgb(143, 191, 189), Color::from_rgb(236, 239, 244),
        ];
        assert(c@ =~= default_dark_colors());
        theme_of("Default Dark", &c)
    }

    /// The Dracula theme.
    pub fn dracula() -> (t: Self)
        ensures
            t.name@ == "Dracula"@,
            has_colors(t, dracula_colors()),
    {
        let c = [
            Color::from_rgb(248, 248, 242), Color::from_rgb(40, 42, 54), Color::from_rgb(248, 248, 242),
            Color::from_rgba_premultiplied(68, 71, 90, 128),
            Color::from_rgb(33, 34, 44), Color::from_rgb(255, 85, 85), Color::from_rgb(80, 250, 123),
            Color::from_rgb(241, 250, 140), Color::from_rgb(189, 147, 249), Color::from_rgb(255, 121, 198),
            Color::from_rgb(139, 233, 253), Color::from_rgb(248, 248, 242),
            Color::from_rgb(98, 114, 164), Color::from_rgb(255, 110, 103), Color::from_rgb(90, 247, 142),
            Color::from_rgb(244, 249, 157), Color::from_rgb(206, 147, 216), Color::from_rgb(255, 146, 208),
            Color::from_rgb(154, 237, 254), Color::from_rgb(255, 255, 255),
        ];
        assert(c@ =~= dracula_colors());
        theme_of("Dracula", &c)
    }

    /// The Nord theme.
    pub fn nord() -> (t: Self)
        ensures
            t.name@ == "Nord"@,
            has_colors(t, nord_colors()),
    {
        let c = [
            Color::from_rgb(216, 222, 233), Color::from_rgb(46, 52, 64), Color::from_rgb(216, 222, 233),
            Color::from_rgba_premultiplied(67, 76, 94, 128),
            Color::from_rgb(59, 66, 82), Color::from_rgb(191, 97, 106), Color::from_rgb(163, 190, 140),
            Color::from_rgb(235, 203, 139), Color::from_rgb(129, 161, 193), Color::from_rgb(180, 142, 173),
            Color::from_rgb(136, 192, 208), Color::from_rgb(229, 233, 240),
            Color::from_rgb(76, 86, 106), Color::from_rgb(191, 97, 106), Color::from_rgb(163, 190, 140),
            Color::from_rgb(235, 203, 139), Color::from_rgb(129, 161, 193), Color::from_rgb(180, 142, 173),
            Color::from_rgb(143, 188, 187), Color::from_rgb(236, 239, 244),
        ];
        assert(c@ =~= nord_colors());
        theme_of("Nord", &c)
    }

    /// The One Dark theme (similar to Atom and VS Code).
    pub fn one_dark() -> (t: Self)
        ensures
            t.name@ == "One Dark"@,
            has_colors(t, one_dark_colors()),
    {
        let c = [
            Color::from_rgb(171, 178, 191), Color::from_rgb(40, 44, 52), Color::from_rgb(171, 178, 191),
            Color::from_rgba_premultiplied(56, 61, 71, 128),
            Color::from_rgb(40, 44, 52), Color::from_rgb(224, 108, 117), Color::from_rgb(152, 195, 121),
            Color::from_rgb(229, 192, 123), Color::from_rgb(97, 175, 239), Color::from_rgb(198, 120, 221),
            Color::from_rgb(86, 182, 194), Color::from_rgb(171, 178, 191),
            Color::from_rgb(92, 99, 112), Color::from_rgb(224, 108, 117), Color::from_rgb(152, 195, 121),
            Color::from_rgb(229, 192, 123), Color::from_rgb(97, 175, 239), Color::from_rgb(198, 120, 221),
            Color::from_rgb(86, 182, 194), Color::from_rgb(255, 255, 255),
        ];
        assert(c@ =~= one_dark_colors());
        theme_of("One Dark", &c)
    }

    /// The Gruvbox Dark theme.
    pub fn gruvbox_dark() -> (t: Self)
        ensures
            t.name@ == "Gruvbox Dark"@,
            has_colors(t, gruvbox_dark_colors()),
    {
        let c = [
            Color::from_rgb(235, 219, 178), Color::from_rgb(40, 40, 40), Color::from_rgb(235, 219, 178),
            Color::from_rgba_premultiplied(80, 73, 69, 128),
            Color::from_rgb(40, 40, 40), Color::from_rgb(204, 36, 29), Color::from_rgb(152, 151, 26),
            Color::from_rgb(215, 153, 33), Color::from_rgb(69, 133, 136), Color::from_rgb(177, 98, 134),
            Color::from_rgb(104, 157, 106), Color::from_rgb(168, 153, 132),
            Color::from_rgb(146, 131, 116), Color::from_rgb(251, 73, 52), Color::from_rgb(184, 187, 38),
            Color::from_rgb(250, 189, 47), Color::from_rgb(131, 165, 152), Color::from_rgb(211, 134, 155),
            Color::from_rgb(142, 192, 124), Color::from_rgb(235, 219, 178),
        ];
        assert(c@ =~= gruvbox_dark_colors());
        theme_of("Gruvbox Dark", &c)
    }
}

} // verus!
