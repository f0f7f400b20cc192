//! Text styles and the character-shape records they encode to.
use vstd::prelude::*;

verus! {

/// Point size used when a style names none.
pub const DEFAULT_FONT_SIZE: u32 = 10;

/// Style flag bits of a character shape.
pub const FLAG_BOLD: u32 = 1;
pub const FLAG_ITALIC: u32 = 2;
pub const FLAG_UNDERLINE: u32 = 4;
pub const FLAG_STRIKETHROUGH: u32 = 8;

/// A declarative text style: toggles, an optional size in points and an RGB
/// colour (`0xRRGGBB`).
#[derive(Debug, Clone)]
pub struct HwpxTextStyle {
    pub font_name: Option<String>,
    pub font_size: Option<u32>,
    pub bold: bool,
    pub italic: bool,
    pub underline: bool,
    pub strikethrough: bool,
    pub color: u32,
}

impl Default for HwpxTextStyle {
    fn default() -> (r: HwpxTextStyle)
        ensures
            r.font_name is None,
            r.font_size is None,
            !r.bold && !r.italic && !r.underline && !r.strikethrough,
            r.color == 0,
    {
        HwpxTextStyle {
            font_name: None,
            font_size: None,
            bold: false,
            italic: false,
            underline: false,
            strikethrough: false,
            color: 0,
        }
    }
}

/// The flag word of a style: bit 0 bold, bit 1 italic, bit 2 underline,
/// bit 3 strikethrough.
pub open spec fn style_flags(bold: bool, italic: bool, underline: bool, strike: bool) -> u32 {
    ((if bold { 1u32 } else { 0u32 }) + (if italic { 2u32 } else { 0u32 }) + (if underline {
        4u32
    } else {
        0u32
    }) + (if strike { 8u32 } else { 0u32 })) as u32
}

/// A character-shape record of the shape table.
#[derive(Debug, Clone, Copy, PartialEq, Eq, Structural)]
pub struct CharShape {
    /// Size in hundredths of a point.
    pub base_size: u64,
    /// Style flags (see `style_flags`).
    pub properties: u32,
    pub text_color: u32,
    pub underline_color: u32,
    pub shade_color: u32,
    pub shadow_color: u32,
}

/// The record a style encodes to.
pub open spec fn char_shape_of(s: HwpxTextStyle) -> CharShape {
    CharShape {
        base_size: ((match s.font_size {
            Some(p) => p,
            None => DEFAULT_FONT_SIZE,
        }) as u64 * 100) as u64,
        properties: style_flags(s.bold, s.italic, s.underline, s.strikethrough),
        text_color: s.color,
        underline_color: s.color,
        shade_color: 0xFFFFFF,
        shadow_color: 0x808080,
    }
}

/// Whether bit `k` (a power of two) is set in `p`.
pub open spec fn has_flag(p: u32, k: u32) -> bool {
    (p / k) % 2 == 1
}

impl CharShape {
    /// The shape used when a document defines none: 10 pt, black, plain.
    pub fn new_default() -> (r: CharShape)
        ensures
            r == char_shape_of(
                HwpxTextStyle {
                    font_name: None,
                    font_size: None,
                    bold: false,
                    italic: false,
                    underline: false,
                    strikethrough: false,
                    color: 0,
                },
            ),
    {
        CharShape {
            base_size: 1000,
            properties: 0,
            text_color: 0,
            underline_color: 0,
            shade_color: 0xFFFFFF,
            shadow_color: 0x808080,
        }
    }

    pub fn is_bold(&self) -> (r: bool)
        ensures
            r == has_flag(self.properties, FLAG_BOLD),
    {
        (self.properties / FLAG_BOLD) % 2 == 1
    }

    pub fn is_italic(&self) -> (r: bool)
        ensures
            r == has_flag(self.properties, FLAG_ITALIC),
    {
        (self.properties / FLAG_ITALIC) % 2 == 1
    }

    pub fn is_underline(&self) -> (r: bool)
        ensures
            r == has_flag(self.properties, FLAG_UNDERLINE),
    {
        (self.properties / FLAG_UNDERLINE) % 2 == 1
    }

    pub fn is_strikethrough(&self) -> (r: bool)
        ensures
            r == has_flag(self.properties, FLAG_STRIKETHROUGH),
    {
        (self.properties / FLAG_STRIKETHROUGH) % 2 == 1
    }
}

impl HwpxTextStyle {
    pub fn new() -> (r: HwpxTextStyle)
        ensures
            r.font_name is None,
            r.font_size is None,
            !r.bold && !r.italic && !r.underline && !r.strikethrough,
            r.color == 0,
    {
        HwpxTextStyle::default()
    }

    /// Sets the font size in points.
    pub fn size(self, size_pt: u32) -> (r: HwpxTextStyle)
        ensures
            r == (HwpxTextStyle { font_size: Some(size_pt), ..self }),
    {
        HwpxTextStyle { font_size: Some(size_pt), ..self }
    }

    pub fn bold(self) -> (r: HwpxTextStyle)
        ensures
            r == (HwpxTextStyle { bold: true, ..self }),
    {
        HwpxTextStyle { bold: true, ..self }
    }

    pub fn italic(self) -> (r: HwpxTextStyle)
        ensures
            r == (HwpxTextStyle { italic: true, ..self }),
    {
        HwpxTextStyle { italic: true, ..self }
    }

    pub fn underline(self) -> (r: HwpxTextStyle)
        ensures
            r == (HwpxTextStyle { underline: true, ..self }),
    {
        HwpxTextStyle { underline: true, ..self }
    }

    pub fn strikethrough(self) -> (r: HwpxTextStyle)
        ensures
            r == (HwpxTextStyle { strikethrough: true, ..self }),
    {
        HwpxTextStyle { strikethrough: true, ..self }
    }

    /// Sets the text colour (`0xRRGGBB`).
    pub fn color(self, color: u32) -> (r: HwpxTextStyle)
        ensures
            r == (HwpxTextStyle { color, ..self }),
    {
        HwpxTextStyle { color, ..self }
    }

    /// Encodes the style as a character-shape record.
    pub fn to_char_shape(&self) -> (r: CharShape)
        ensures
            r == char_shape_of(*self),
    {
        let mut properties: u32 = 0;
        if self.bold {
            properties = properties + FLAG_BOLD;
        }
        if self.italic {
            properties = properties + FLAG_ITALIC;
        }
        if self.underline {
            properties = properties + FLAG_UNDERLINE;
        }
        if self.strikethrough {
            properties = properties + FLAG_STRIKETHROUGH;
        }
        let size: u32 = match self.font_size {
            Some(p) => p,
            None => DEFAULT_FONT_SIZE,
        };
        CharShape {
            base_size: size as u64 * 100,
            properties,
            text_color: self.color,
            underline_color: self.color,
            shade_color: 0xFFFFFF,
            shadow_color: 0x808080,
        }
    }
}

/// A run of text with its style.
#[derive(Debug, Clone)]
pub struct StyledText {
    pub text: String,
    pub style: HwpxTextStyle,
}

impl StyledText {
    /// A run in the default style.
    pub fn new(text: &str) -> (r: StyledText)
        ensures
            r.text@ == text@,
            r.style.font_name is None,
            r.style.font_size is None,
            !r.style.bold && !r.style.italic && !r.style.underline && !r.style.strikethrough,
            r.style.color == 0,
    {
        StyledText { text: String::from_str(text), style: HwpxTextStyle::default() }
    }

    pub fn with_style(text: &str, style: HwpxTextStyle) -> (r: StyledText)
        ensures
            r.text@ == text@,
            r.style == style,
    {
        StyledText { text: String::from_str(text), style }
    }
}

} // verus!
