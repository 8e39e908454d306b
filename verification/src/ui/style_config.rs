//! Text styles as written in the configuration, and their resolution into terminal styles.
use vstd::prelude::*;
use vstd::string::*;
use ratatui::style::Color::{
    Black, Blue, Cyan, DarkGray, Gray, Green, Indexed, LightBlue, LightCyan, LightGreen,
    LightMagenta, LightRed, LightYellow, Magenta, Red, Reset, Rgb, White, Yellow,
};

verus! {

/// A terminal color: one of the named ANSI colors, an RGB color or an entry of the 256-color
/// palette (the cases of ratatui's `Color`).
#[derive(Clone, Copy, Debug, PartialEq, Eq, Structural)]
pub enum ColorValue {
    Reset,
    Black,
    Red,
    Green,
    Yellow,
    Blue,
    Magenta,
    Cyan,
    Gray,
    DarkGray,
    LightRed,
    LightGreen,
    LightYellow,
    LightBlue,
    LightMagenta,
    LightCyan,
    White,
    Rgb(u8, u8, u8),
    Indexed(u8),
}

/// The color that ratatui's `Color::from_str` reads from `name`, or `None` when it cannot
/// read the name.
pub uninterp spec fn color_of(name: Seq<char>) -> Option<ColorValue>;

/// Reads a color name with ratatui's `Color::from_str` (named colors in any case and with
/// `-`, `_` or space, `#RRGGBB`, and palette indices).
/// Claimed: the result is `color_of` the name, a function of the text alone; each ratatui
/// color is handed back as the `ColorValue` case of the same name and fields.
#[verifier::external_body]
fn parse_color(name: &str) -> (r: Option<ColorValue>)
    ensures
        r == color_of(name@),
{
    Some(match name.parse::<ratatui::style::Color>().ok()? {
        Reset => ColorValue::Reset, Black => ColorValue::Black, Red => ColorValue::Red,
        Green => ColorValue::Green, Yellow => ColorValue::Yellow, Blue => ColorValue::Blue,
        Magenta => ColorValue::Magenta, Cyan => ColorValue::Cyan, Gray => ColorValue::Gray,
        DarkGray => ColorValue::DarkGray, LightRed => ColorValue::LightRed,
        LightGreen => ColorValue::LightGreen, LightYellow => ColorValue::LightYellow,
        LightBlue => ColorValue::LightBlue, LightMagenta => ColorValue::LightMagenta,
        LightCyan => ColorValue::LightCyan, White => ColorValue::White,
        Rgb(r, g, b) => ColorValue::Rgb(r, g, b), Indexed(i) => ColorValue::Indexed(i),
    })
}

/// A style as the configuration writes it: color names and two modifiers.
pub struct StyleConfig {
    pub fg: Option<String>,
    pub bg: Option<String>,
    pub bold: bool,
    pub italic: bool,
}

impl Clone for StyleConfig {
    fn clone(&self) -> (r: Self)
        ensures
            r == *self,
    {
        StyleConfig {
            fg: clone_opt_string(&self.fg),
            bg: clone_opt_string(&self.bg),
            bold: self.bold,
            italic: self.italic,
        }
    }
}

impl Default for StyleConfig {
    fn default() -> (r: Self)
        ensures
            r.fg is None,
            r.bg is None,
            !r.bold,
            !r.italic,
    {
        StyleConfig { fg: None, bg: None, bold: false, italic: false }
    }
}

/// Copies an optional string.
pub fn clone_opt_string(s: &Option<String>) -> (r: Option<String>)
    ensures
        r == *s,
{
    match s {
        Some(t) => Some(t.clone()),
        None => None,
    }
}

/// A resolved style: the colors, and the modifiers.
#[derive(Clone, Copy, Debug, PartialEq, Eq, Structural)]
pub struct TextStyle {
    pub fg: Option<ColorValue>,
    pub bg: Option<ColorValue>,
    pub bold: bool,
    pub italic: bool,
}

impl TextStyle {
    /// The plain style: no colors, no modifiers.
    pub open spec fn plain() -> TextStyle {
        TextStyle { fg: None, bg: None, bold: false, italic: false }
    }
}

impl Default for TextStyle {
    fn default() -> (r: Self)
        ensures
            r == TextStyle::plain(),
    {
        TextStyle { fg: None, bg: None, bold: false, italic: false }
    }
}

/// The error for a color name that cannot be read.
#[derive(Clone, Copy, Debug, PartialEq, Eq, Structural)]
pub struct ColorNameError;

/// A style whose color names could not be read; it names the colors it was given.
pub struct InvalidStyle {
    pub fg: Option<String>,
    pub bg: Option<String>,
}

/// How std's `Debug` writes a string: in double quotes, with quotes, backslashes and
/// characters that do not print escaped.
pub uninterp spec fn debug_of(s: Seq<char>) -> Seq<char>;

/// Writes `s` with std's `Debug` for `str`.
/// Claimed: the text is `debug_of` the string, a function of the text alone.
#[verifier::external_body]
fn debug_text(s: &str) -> (r: String)
    ensures
        r@ == debug_of(s@),
{
    format!("{:?}", s)
}

/// How `Debug` writes an optional string: `Some(..)` around the quoted string, or `None`.
pub open spec fn option_debug(o: Option<String>) -> Seq<char> {
    match o {
        Some(s) => "Some("@ + debug_of(s@) + ")"@,
        None => "None"@,
    }
}

/// Appends the `Debug` text of an optional string to `out`.
fn append_option_debug(out: &mut String, o: &Option<String>)
    ensures
        final(out)@ == old(out)@ + option_debug(*o),
{
    match o {
        Some(s) => {
            out.append("Some(");
            let quoted = debug_text(s.as_str());
            out.append(quoted.as_str());
            out.append(")");
        },
        None => out.append("None"),
    }
}

impl InvalidStyle {
    /// The message of the error, naming both configured colors as `Debug` writes them.
    pub fn message(&self) -> (m: String)
        ensures
            m@ == "invalid style in config (fg: "@ + option_debug(self.fg) + ", bg: "@ + option_debug(self.bg)
                + ")"@,
    {
        let mut m = String::from_str("invalid style in config (fg: ");
        append_option_debug(&mut m, &self.fg);
        m.append(", bg: ");
        append_option_debug(&mut m, &self.bg);
        m.append(")");
        m
    }
}

/// The color a configured name gives, if a name is given and can be read.
pub open spec fn resolved_color(name: Option<String>) -> Option<ColorValue> {
    match name {
        Some(n) => color_of(n@),
        None => None,
    }
}

/// Whether every color name in `config` can be read.
pub open spec fn colors_valid(config: StyleConfig) -> bool {
    &&& (config.fg matches Some(f) ==> color_of(f@) is Some)
    &&& (config.bg matches Some(b) ==> color_of(b@) is Some)
}

/// The style a configuration resolves to when its color names can be read: each configured
/// color as read from its name, and the modifiers.
pub open spec fn resolved(config: StyleConfig) -> TextStyle {
    TextStyle {
        fg: resolved_color(config.fg),
        bg: resolved_color(config.bg),
        bold: config.bold,
        italic: config.italic,
    }
}

/// The resolved style, or the plain style when a color name cannot be read.
pub open spec fn resolved_or_plain(config: StyleConfig) -> TextStyle {
    if colors_valid(config) { resolved(config) } else { TextStyle::plain() }
}

/// Builds a style from colors already read (`Some(None)`: a name was given and could not be
/// read): any unreadable name is the error; otherwise the colors read are set, with the
/// modifiers.
pub fn style_from_parsed(
    fg: Option<Option<ColorValue>>,
    bg: Option<Option<ColorValue>>,
    bold: bool,
    italic: bool,
) -> (r: Result<TextStyle, ColorNameError>)
    ensures
        r is Ok <==> !(fg matches Some(None)) && !(bg matches Some(None)),
        r matches Ok(style) ==> style == (TextStyle {
            fg: match fg { Some(Some(c)) => Some(c), _ => None },
            bg: match bg { Some(Some(c)) => Some(c), _ => None },
            bold,
            italic,
        }),
{
    let mut style = TextStyle::default();
    if let Some(parsed) = fg {
        match parsed {
            Some(color) => style.fg = Some(color),
            None => return Err(ColorNameError),
        }
    }
    if let Some(parsed) = bg {
        match parsed {
            Some(color) => style.bg = Some(color),
            None => return Err(ColorNameError),
        }
    }
    if bold {
        style.bold = true;
    }
    if italic {
        style.italic = true;
    }
    Ok(style)
}

/// Resolves a configured style: each color name is read, and bold and italic are carried
/// over; an unreadable name is an error.
pub fn style_from_config(config: StyleConfig) -> (r: Result<TextStyle, ColorNameError>)
    ensures
        r is Ok <==> colors_valid(config),
        r matches Ok(style) ==> style == resolved(config),
{
    let fg = match &config.fg {
        Some(fg_str) => Some(parse_color(fg_str.as_str())),
        None => None,
    };
    let bg = match &config.bg {
        Some(bg_str) => Some(parse_color(bg_str.as_str())),
        None => None,
    };
    style_from_parsed(fg, bg, config.bold, config.italic)
}

impl StyleConfig {
    /// Resolves the style; an unreadable color name gives an error that names both colors.
    pub fn format(&self) -> (r: Result<TextStyle, InvalidStyle>)
        ensures
            r is Ok <==> colors_valid(*self),
            r matches Ok(style) ==> style == resolved(*self),
            r matches Err(e) ==> e.fg == self.fg && e.bg == self.bg,
    {
        match style_from_config(self.clone()) {
            Ok(style) => Ok(style),
            Err(_) => Err(InvalidStyle { fg: clone_opt_string(&self.fg), bg: clone_opt_string(&self.bg) }),
        }
    }

    /// The resolved style, or the plain default style when a color name cannot be read.
    pub fn format_or_default(&self) -> (r: TextStyle)
        ensures
            r == resolved_or_plain(*self),
    {
        match self.format() {
            Ok(style) => style,
            Err(_) => TextStyle::default(),
        }
    }
}

} // verus!
