//! Rendition escapes: Select Graphic Rendition codes, color composition over
//! named presets, the 256-entry palette and 24-bit RGB, and the `FontSpec`
//! aggregate.
//!
//! A named preset requested in bright form uses the dedicated bright code
//! range (90–97 foreground, 100–107 background); the separate `Bright`
//! rendition code (1) is a different, independent knob, and this library
//! keeps the two independent rather than combining them.

use vstd::prelude::*;

use crate::{csi, dec_bytes, push_csi, push_dec_u16, push_sgr, sgr_bytes, TerminalOutput};

verus! {

/// A single Select Graphic Rendition operation.
#[derive(Clone, Debug)]
pub enum SetGraphicsRenditionEscape {
    Reset,
    Bright,
    Underline,
    NoUnderline,
    Negative,
    Positive,
    ForegroundBlack,
    ForegroundRed,
    ForegroundGreen,
    ForegroundYellow,
    ForegroundBlue,
    ForegroundMagenta,
    ForegroundCyan,
    ForegroundWhite,
    ForegroundExtended(ExtendedColor),
    ForegroundDefault,
    BackgroundBlack,
    BackgroundRed,
    BackgroundGreen,
    BackgroundYellow,
    BackgroundBlue,
    BackgroundMagenta,
    BackgroundCyan,
    BackgroundWhite,
    BackgroundExtended(ExtendedColor),
    BackgroundDefault,
    BrightForegroundBlack,
    BrightForegroundRed,
    BrightForegroundGreen,
    BrightForegroundYellow,
    BrightForegroundBlue,
    BrightForegroundMagenta,
    BrightForegroundCyan,
    BrightForegroundWhite,
    BrightBackgroundBlack,
    BrightBackgroundRed,
    BrightBackgroundGreen,
    BrightBackgroundYellow,
    BrightBackgroundBlue,
    BrightBackgroundMagenta,
    BrightBackgroundCyan,
    BrightBackgroundWhite,
}

/// The byte sequence of an extended-color SGR: `ESC [ 38; <code> m` for the
/// foreground, `ESC [ 48; <code> m` for the background.
pub open spec fn extended_sgr_bytes(e: ExtendedColor, background: bool) -> Seq<u8> {
    csi() + seq![
        if background {
            0x34u8
        } else {
            0x33u8
        },
        0x38u8,
        0x3bu8,
    ] + e.color_code_encoding() + seq![0x6du8]
}

impl TerminalOutput for SetGraphicsRenditionEscape {
    open spec fn encoding(&self) -> Seq<u8> {
        match self {
            SetGraphicsRenditionEscape::Reset => sgr_bytes(0),
            SetGraphicsRenditionEscape::Bright => sgr_bytes(1),
            SetGraphicsRenditionEscape::Underline => sgr_bytes(4),
            SetGraphicsRenditionEscape::NoUnderline => sgr_bytes(24),
            SetGraphicsRenditionEscape::Negative => sgr_bytes(7),
            SetGraphicsRenditionEscape::Positive => sgr_bytes(27),
            SetGraphicsRenditionEscape::ForegroundBlack => sgr_bytes(30),
            SetGraphicsRenditionEscape::ForegroundRed => sgr_bytes(31),
            SetGraphicsRenditionEscape::ForegroundGreen => sgr_bytes(32),
            SetGraphicsRenditionEscape::ForegroundYellow => sgr_bytes(33),
            SetGraphicsRenditionEscape::ForegroundBlue => sgr_bytes(34),
            SetGraphicsRenditionEscape::ForegroundMagenta => sgr_bytes(35),
            SetGraphicsRenditionEscape::ForegroundCyan => sgr_bytes(36),
            SetGraphicsRenditionEscape::ForegroundWhite => sgr_bytes(37),
            SetGraphicsRenditionEscape::ForegroundExtended(e) => extended_sgr_bytes(*e, false),
            SetGraphicsRenditionEscape::ForegroundDefault => sgr_bytes(39),
            SetGraphicsRenditionEscape::BackgroundBlack => sgr_bytes(40),
            SetGraphicsRenditionEscape::BackgroundRed => sgr_bytes(41),
            SetGraphicsRenditionEscape::BackgroundGreen => sgr_bytes(42),
            SetGraphicsRenditionEscape::BackgroundYellow => sgr_bytes(43),
            SetGraphicsRenditionEscape::BackgroundBlue => sgr_bytes(44),
            SetGraphicsRenditionEscape::BackgroundMagenta => sgr_bytes(45),
            SetGraphicsRenditionEscape::BackgroundCyan => sgr_bytes(46),
            SetGraphicsRenditionEscape::BackgroundWhite => sgr_bytes(47),
            SetGraphicsRenditionEscape::BackgroundExtended(e) => extended_sgr_bytes(*e, true),
            SetGraphicsRenditionEscape::BackgroundDefault => sgr_bytes(49),
            SetGraphicsRenditionEscape::BrightForegroundBlack => sgr_bytes(90),
            SetGraphicsRenditionEscape::BrightForegroundRed => sgr_bytes(91),
            SetGraphicsRenditionEscape::BrightForegroundGreen => sgr_bytes(92),
            SetGraphicsRenditionEscape::BrightForegroundYellow => sgr_bytes(93),
            SetGraphicsRenditionEscape::BrightForegroundBlue => sgr_bytes(94),
            SetGraphicsRenditionEscape::BrightForegroundMagenta => sgr_bytes(95),
            SetGraphicsRenditionEscape::BrightForegroundCyan => sgr_bytes(96),
            SetGraphicsRenditionEscape::BrightForegroundWhite => sgr_bytes(97),
            SetGraphicsRenditionEscape::BrightBackgroundBlack => sgr_bytes(100),
            SetGraphicsRenditionEscape::BrightBackgroundRed => sgr_bytes(101),
            SetGraphicsRenditionEscape::BrightBackgroundGreen => sgr_bytes(102),
            SetGraphicsRenditionEscape::BrightBackgroundYellow => sgr_bytes(103),
            SetGraphicsRenditionEscape::BrightBackgroundBlue => sgr_bytes(104),
            SetGraphicsRenditionEscape::BrightBackgroundMagenta => sgr_bytes(105),
            SetGraphicsRenditionEscape::BrightBackgroundCyan => sgr_bytes(106),
            SetGraphicsRenditionEscape::BrightBackgroundWhite => sgr_bytes(107),
        }
    }

    fn fmt(&self, f: &mut Vec<u8>) {
        match self {
            SetGraphicsRenditionEscape::Reset => push_sgr(0, f),
            SetGraphicsRenditionEscape::Bright => push_sgr(1, f),
            SetGraphicsRenditionEscape::Underline => push_sgr(4, f),
            SetGraphicsRenditionEscape::NoUnderline => push_sgr(24, f),
            SetGraphicsRenditionEscape::Negative => push_sgr(7, f),
            SetGraphicsRenditionEscape::Positive => push_sgr(27, f),
            SetGraphicsRenditionEscape::ForegroundBlack => push_sgr(30, f),
            SetGraphicsRenditionEscape::ForegroundRed => push_sgr(31, f),
            SetGraphicsRenditionEscape::ForegroundGreen => push_sgr(32, f),
            SetGraphicsRenditionEscape::ForegroundYellow => push_sgr(33, f),
            SetGraphicsRenditionEscape::ForegroundBlue => push_sgr(34, f),
            SetGraphicsRenditionEscape::ForegroundMagenta => push_sgr(35, f),
            SetGraphicsRenditionEscape::ForegroundCyan => push_sgr(36, f),
            SetGraphicsRenditionEscape::ForegroundWhite => push_sgr(37, f),
            SetGraphicsRenditionEscape::ForegroundExtended(e) => push_extended_sgr(e, false, f),
            SetGraphicsRenditionEscape::ForegroundDefault => push_sgr(39, f),
            SetGraphicsRenditionEscape::BackgroundBlack => push_sgr(40, f),
            SetGraphicsRenditionEscape::BackgroundRed => push_sgr(41, f),
            SetGraphicsRenditionEscape::BackgroundGreen => push_sgr(42, f),
            SetGraphicsRenditionEscape::BackgroundYellow => push_sgr(43, f),
            SetGraphicsRenditionEscape::BackgroundBlue => push_sgr(44, f),
            SetGraphicsRenditionEscape::BackgroundMagenta => push_sgr(45, f),
            SetGraphicsRenditionEscape::BackgroundCyan => push_sgr(46, f),
            SetGraphicsRenditionEscape::BackgroundWhite => push_sgr(47, f),
            SetGraphicsRenditionEscape::BackgroundExtended(e) => push_extended_sgr(e, true, f),
            SetGraphicsRenditionEscape::BackgroundDefault => push_sgr(49, f),
            SetGraphicsRenditionEscape::BrightForegroundBlack => push_sgr(90, f),
            SetGraphicsRenditionEscape::BrightForegroundRed => push_sgr(91, f),
            SetGraphicsRenditionEscape::BrightForegroundGreen => push_sgr(92, f),
            SetGraphicsRenditionEscape::BrightForegroundYellow => push_sgr(93, f),
            SetGraphicsRenditionEscape::BrightForegroundBlue => push_sgr(94, f),
            SetGraphicsRenditionEscape::BrightForegroundMagenta => push_sgr(95, f),
            SetGraphicsRenditionEscape::BrightForegroundCyan => push_sgr(96, f),
            SetGraphicsRenditionEscape::BrightForegroundWhite => push_sgr(97, f),
            SetGraphicsRenditionEscape::BrightBackgroundBlack => push_sgr(100, f),
            SetGraphicsRenditionEscape::BrightBackgroundRed => push_sgr(101, f),
            SetGraphicsRenditionEscape::BrightBackgroundGreen => push_sgr(102, f),
            SetGraphicsRenditionEscape::BrightBackgroundYellow => push_sgr(103, f),
            SetGraphicsRenditionEscape::BrightBackgroundBlue => push_sgr(104, f),
            SetGraphicsRenditionEscape::BrightBackgroundMagenta => push_sgr(105, f),
            SetGraphicsRenditionEscape::BrightBackgroundCyan => push_sgr(106, f),
            SetGraphicsRenditionEscape::BrightBackgroundWhite => push_sgr(107, f),
        }
    }
}

/// Appends an extended-color SGR sequence for the foreground or background.
pub fn push_extended_sgr(e: &ExtendedColor, background: bool, f: &mut Vec<u8>)
    ensures
        final(f)@ == old(f)@ + extended_sgr_bytes(*e, background),
{
    push_csi(f);
    if background {
        f.push(0x34u8);
    } else {
        f.push(0x33u8);
    }
    f.push(0x38u8);
    f.push(0x3bu8);
    e.write_color_code(f);
    f.push(0x6du8);
    proof {
        assert(f@ =~= old(f)@ + extended_sgr_bytes(*e, background));
    }
}

/// An index into the terminal's 256-entry color table.
#[derive(Clone, Debug)]
pub struct ColorTableValue(pub u8);

impl ColorTableValue {
    /// The sub-parameters of a palette color: `5;<index>`.
    pub open spec fn color_code_encoding(&self) -> Seq<u8> {
        seq![0x35u8, 0x3bu8] + dec_bytes(self.0 as nat)
    }

    /// Appends the palette sub-parameters `5;<index>`.
    pub fn write_color_code(&self, f: &mut Vec<u8>)
        ensures
            final(f)@ == old(f)@ + self.color_code_encoding(),
    {
        f.push(0x35u8);
        f.push(0x3bu8);
        push_dec_u16(self.0 as u16, f);
        proof {
            assert(f@ =~= old(f)@ + self.color_code_encoding());
        }
    }
}

impl TerminalOutput for ColorTableValue {
    open spec fn encoding(&self) -> Seq<u8> {
        extended_sgr_bytes(ExtendedColor::ColorTable(ColorTableValue(self.0)), false)
    }

    fn fmt(&self, f: &mut Vec<u8>) {
        let e = ExtendedColor::ColorTable(ColorTableValue(self.0));
        push_extended_sgr(&e, false, f);
    }
}

/// A 24-bit red/green/blue triple.
#[derive(Clone, Debug)]
pub struct Rgb(pub u8, pub u8, pub u8);

impl Rgb {
    /// The sub-parameters of an RGB color: `2;<r>;<g>;<b>`.
    pub open spec fn color_code_encoding(&self) -> Seq<u8> {
        seq![0x32u8, 0x3bu8] + dec_bytes(self.0 as nat) + seq![0x3bu8] + dec_bytes(self.1 as nat)
            + seq![0x3bu8] + dec_bytes(self.2 as nat)
    }

    /// Appends the RGB sub-parameters `2;<r>;<g>;<b>`.
    pub fn write_color_code(&self, f: &mut Vec<u8>)
        ensures
            final(f)@ == old(f)@ + self.color_code_encoding(),
    {
        f.push(0x32u8);
        f.push(0x3bu8);
        push_dec_u16(self.0 as u16, f);
        f.push(0x3bu8);
        push_dec_u16(self.1 as u16, f);
        f.push(0x3bu8);
        push_dec_u16(self.2 as u16, f);
        proof {
            assert(f@ =~= old(f)@ + self.color_code_encoding());
        }
    }
}

impl TerminalOutput for Rgb {
    open spec fn encoding(&self) -> Seq<u8> {
        extended_sgr_bytes(ExtendedColor::Rgb(Rgb(self.0, self.1, self.2)), false)
    }

    fn fmt(&self, f: &mut Vec<u8>) {
        let e = ExtendedColor::Rgb(Rgb(self.0, self.1, self.2));
        push_extended_sgr(&e, false, f);
    }
}

/// A color beyond the named presets: a palette index or an RGB triple.
#[derive(Clone, Debug)]
pub enum ExtendedColor {
    ColorTable(ColorTableValue),
    Rgb(Rgb),
}

impl ExtendedColor {
    /// The color's sub-parameters within an extended SGR sequence.
    pub open spec fn color_code_encoding(&self) -> Seq<u8> {
        match self {
            ExtendedColor::ColorTable(ctv) => ctv.color_code_encoding(),
            ExtendedColor::Rgb(rgb) => rgb.color_code_encoding(),
        }
    }

    /// Appends the color's sub-parameters.
    pub fn write_color_code(&self, f: &mut Vec<u8>)
        ensures
            final(f)@ == old(f)@ + self.color_code_encoding(),
    {
        match self {
            ExtendedColor::ColorTable(ctv) => ctv.write_color_code(f),
            ExtendedColor::Rgb(rgb) => rgb.write_color_code(f),
        }
    }
}

impl TerminalOutput for ExtendedColor {
    open spec fn encoding(&self) -> Seq<u8> {
        extended_sgr_bytes(*self, false)
    }

    fn fmt(&self, f: &mut Vec<u8>) {
        push_extended_sgr(self, false, f);
    }
}

/// One of the eight named colors, or the terminal's default.
#[derive(Clone, Copy, Debug)]
pub enum PresetColor {
    DefaultColor,
    Black,
    Blue,
    Green,
    Red,
    Cyan,
    Magenta,
    Yellow,
    White,
}

impl PresetColor {
    /// The foreground SGR code of this preset in its normal form.
    pub open spec fn fg_code(&self) -> nat {
        match self {
            PresetColor::DefaultColor => 39,
            PresetColor::Black => 30,
            PresetColor::Blue => 34,
            PresetColor::Green => 32,
            PresetColor::Red => 31,
            PresetColor::Cyan => 36,
            PresetColor::Magenta => 35,
            PresetColor::Yellow => 33,
            PresetColor::White => 37,
        }
    }

    /// The foreground code, bright form: the dedicated 90–97 range. The
    /// default color has no bright form and keeps its own code.
    pub open spec fn fg_code_bright(&self) -> nat {
        if self is DefaultColor {
            39
        } else {
            self.fg_code() + 60
        }
    }

    /// The background SGR code in its normal form (40–47, default 49).
    pub open spec fn bg_code(&self) -> nat {
        if self is DefaultColor {
            49
        } else {
            self.fg_code() + 10
        }
    }

    /// The background code, bright form: the dedicated 100–107 range.
    pub open spec fn bg_code_bright(&self) -> nat {
        if self is DefaultColor {
            49
        } else {
            self.fg_code() + 70
        }
    }

    /// The numeric foreground parameter for this preset.
    pub fn foreground_code(&self, bright: bool) -> (c: u16)
        ensures
            c as nat == if bright {
                self.fg_code_bright()
            } else {
                self.fg_code()
            },
    {
        match self {
            PresetColor::DefaultColor => 39,
            PresetColor::Black => if bright {
                90
            } else {
                30
            },
            PresetColor::Blue => if bright {
                94
            } else {
                34
            },
            PresetColor::Green => if bright {
                92
            } else {
                32
            },
            PresetColor::Red => if bright {
                91
            } else {
                31
            },
            PresetColor::Cyan => if bright {
                96
            } else {
                36
            },
            PresetColor::Magenta => if bright {
                95
            } else {
                35
            },
            PresetColor::Yellow => if bright {
                93
            } else {
                33
            },
            PresetColor::White => if bright {
                97
            } else {
                37
            },
        }
    }

    /// The numeric background parameter for this preset.
    pub fn background_code(&self, bright: bool) -> (c: u16)
        ensures
            c as nat == if bright {
                self.bg_code_bright()
            } else {
                self.bg_code()
            },
    {
        match self {
            PresetColor::DefaultColor => 49,
            PresetColor::Black => if bright {
                100
            } else {
                40
            },
            PresetColor::Blue => if bright {
                104
            } else {
                44
            },
            PresetColor::Green => if bright {
                102
            } else {
                42
            },
            PresetColor::Red => if bright {
                101
            } else {
                41
            },
            PresetColor::Cyan => if bright {
                106
            } else {
                46
            },
            PresetColor::Magenta => if bright {
                105
            } else {
                45
            },
            PresetColor::Yellow => if bright {
                103
            } else {
                43
            },
            PresetColor::White => if bright {
                107
            } else {
                47
            },
        }
    }
}

impl TerminalOutput for PresetColor {
    open spec fn encoding(&self) -> Seq<u8> {
        sgr_bytes(self.fg_code())
    }

    fn fmt(&self, f: &mut Vec<u8>) {
        push_sgr(self.foreground_code(false), f);
    }
}

/// A named preset together with whether its bright form is requested.
#[derive(Clone, Copy, Debug)]
pub struct PresetColorSpec {
    pub color: PresetColor,
    pub bright: bool,
}

impl TerminalOutput for PresetColorSpec {
    open spec fn encoding(&self) -> Seq<u8> {
        sgr_bytes(
            if self.bright {
                self.color.fg_code_bright()
            } else {
                self.color.fg_code()
            },
        )
    }

    fn fmt(&self, f: &mut Vec<u8>) {
        push_sgr(self.color.foreground_code(self.bright), f);
    }
}

/// A color request: a preset (possibly bright) or an extended color.
#[derive(Clone, Debug)]
pub enum ColorSpec {
    Preset(PresetColorSpec),
    Extended(ExtendedColor),
}

impl ColorSpec {
    /// The bytes this color serializes to when requested as the background.
    pub open spec fn background_encoding(&self) -> Seq<u8> {
        match self {
            ColorSpec::Preset(p) => sgr_bytes(
                if p.bright {
                    p.color.bg_code_bright()
                } else {
                    p.color.bg_code()
                },
            ),
            ColorSpec::Extended(e) => extended_sgr_bytes(*e, true),
        }
    }

    /// Appends the background form of this color.
    pub fn fmt_background(&self, f: &mut Vec<u8>)
        ensures
            final(f)@ == old(f)@ + self.background_encoding(),
    {
        match self {
            ColorSpec::Preset(p) => push_sgr(p.color.background_code(p.bright), f),
            ColorSpec::Extended(e) => push_extended_sgr(e, true, f),
        }
    }
}

impl TerminalOutput for ColorSpec {
    open spec fn encoding(&self) -> Seq<u8> {
        match self {
            ColorSpec::Preset(p) => p.encoding(),
            ColorSpec::Extended(e) => e.encoding(),
        }
    }

    fn fmt(&self, f: &mut Vec<u8>) {
        match self {
            ColorSpec::Preset(p) => p.fmt(f),
            ColorSpec::Extended(e) => e.fmt(f),
        }
    }
}

/// The two style flags: underline and negative (reverse video). A style
/// serializes to a single SGR sequence carrying both parameters, so that a
/// whole style is one independently valid escape.
#[derive(Clone, Copy, Debug)]
pub struct Style {
    pub underline: bool,
    pub negative: bool,
}

impl TerminalOutput for Style {
    open spec fn encoding(&self) -> Seq<u8> {
        csi() + dec_bytes(
            if self.underline {
                4
            } else {
                24
            },
        ) + seq![0x3bu8] + dec_bytes(
            if self.negative {
                7
            } else {
                27
            },
        ) + seq![0x6du8]
    }

    fn fmt(&self, f: &mut Vec<u8>) {
        push_csi(f);
        if self.underline {
            push_dec_u16(4, f);
        } else {
            push_dec_u16(24, f);
        }
        f.push(0x3bu8);
        if self.negative {
            push_dec_u16(7, f);
        } else {
            push_dec_u16(27, f);
        }
        f.push(0x6du8);
        proof {
            assert(f@ =~= old(f)@ + self.encoding());
        }
    }
}

/// A complete font request: style flags, a foreground color and a background
/// color, each independently resolvable. It serializes to exactly three
/// escapes in style → foreground → background order, each a valid CSI
/// sequence on its own, so an interrupted write never leaves a malformed
/// sequence behind.
#[derive(Clone, Debug)]
pub struct FontSpec {
    pub style: Style,
    pub foreground_color: ColorSpec,
    pub background_color: ColorSpec,
}

impl TerminalOutput for FontSpec {
    open spec fn encoding(&self) -> Seq<u8> {
        self.style.encoding() + self.foreground_color.encoding()
            + self.background_color.background_encoding()
    }

    fn fmt(&self, f: &mut Vec<u8>) {
        self.style.fmt(f);
        self.foreground_color.fmt(f);
        self.background_color.fmt_background(f);
        proof {
            assert(f@ =~= old(f)@ + self.encoding());
        }
    }
}

} // verus!
