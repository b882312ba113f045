//! Byte-level tests of the escape encodings: every variant family against
//! the literal sequence it must produce.

use ansion::escapes::cursor::CursorEscape;
use ansion::escapes::formatting::{
    ColorSpec, ColorTableValue, ExtendedColor, FontSpec, PresetColor, PresetColorSpec, Rgb,
    SetGraphicsRenditionEscape, Style,
};
use ansion::escapes::AnsiEscape;
use ansion::TerminalOutput;

fn bytes_of<T: TerminalOutput + ?Sized>(t: &T) -> Vec<u8> {
    let mut buf: Vec<u8> = Vec::new();
    t.fmt(&mut buf);
    buf
}

#[test]
fn cursor_motion_encodings() {
    assert_eq!(bytes_of(&CursorEscape::Up(3)), b"\x1b[3A");
    assert_eq!(bytes_of(&CursorEscape::Down(0)), b"\x1b[0B");
    assert_eq!(bytes_of(&CursorEscape::Forward(12)), b"\x1b[12C");
    assert_eq!(bytes_of(&CursorEscape::Back(1)), b"\x1b[1D");
    assert_eq!(bytes_of(&CursorEscape::NextLine(1)), b"\x1b[1E");
    assert_eq!(bytes_of(&CursorEscape::PreviousLine(3)), b"\x1b[3F");
    assert_eq!(bytes_of(&CursorEscape::HorizontalAbsolute(42)), b"\x1b[42G");
    assert_eq!(bytes_of(&CursorEscape::Position(5, 10)), b"\x1b[5;10H");
}

#[test]
fn cursor_fixed_encodings() {
    assert_eq!(bytes_of(&CursorEscape::SavePosition), b"\x1b[s");
    assert_eq!(bytes_of(&CursorEscape::RestorePosition), b"\x1b[u");
    assert_eq!(bytes_of(&CursorEscape::EnableBlinking), b"\x1b[?12h");
    assert_eq!(bytes_of(&CursorEscape::DisableBlinking), b"\x1b[?12l");
    assert_eq!(bytes_of(&CursorEscape::Show), b"\x1b[?25h");
    assert_eq!(bytes_of(&CursorEscape::Hide), b"\x1b[?25l");
}

#[test]
fn decimal_rendering_edges() {
    assert_eq!(bytes_of(&CursorEscape::Up(0)), b"\x1b[0A");
    assert_eq!(bytes_of(&CursorEscape::Up(9)), b"\x1b[9A");
    assert_eq!(bytes_of(&CursorEscape::Up(10)), b"\x1b[10A");
    assert_eq!(bytes_of(&CursorEscape::Up(65535)), b"\x1b[65535A");
    assert_eq!(bytes_of(&CursorEscape::Up(100)), b"\x1b[100A");
}

#[test]
fn scroll_and_line_encodings() {
    assert_eq!(bytes_of(&AnsiEscape::ScrollUp(2)), b"\x1b[2S");
    assert_eq!(bytes_of(&AnsiEscape::ScrollDown(2)), b"\x1b[2T");
    assert_eq!(bytes_of(&AnsiEscape::InsertLine(7)), b"\x1b[7L");
    assert_eq!(bytes_of(&AnsiEscape::DeleteLine(7)), b"\x1b[7M");
}

#[test]
fn screen_buffer_encodings() {
    assert_eq!(bytes_of(&AnsiEscape::SwitchToAlternateScreenBuffer), b"\x1b[?1049h");
    assert_eq!(bytes_of(&AnsiEscape::SwitchToMainScreenBuffer), b"\x1b[?1049l");
}

#[test]
fn ansi_escape_delegates() {
    assert_eq!(bytes_of(&AnsiEscape::Cursor(CursorEscape::PreviousLine(3))), b"\x1b[3F");
    assert_eq!(
        bytes_of(&AnsiEscape::SetGraphicsRendition(SetGraphicsRenditionEscape::Reset)),
        b"\x1b[0m"
    );
}

#[test]
fn sgr_simple_encodings() {
    assert_eq!(bytes_of(&SetGraphicsRenditionEscape::Reset), b"\x1b[0m");
    assert_eq!(bytes_of(&SetGraphicsRenditionEscape::Bright), b"\x1b[1m");
    assert_eq!(bytes_of(&SetGraphicsRenditionEscape::Underline), b"\x1b[4m");
    assert_eq!(bytes_of(&SetGraphicsRenditionEscape::NoUnderline), b"\x1b[24m");
    assert_eq!(bytes_of(&SetGraphicsRenditionEscape::Negative), b"\x1b[7m");
    assert_eq!(bytes_of(&SetGraphicsRenditionEscape::Positive), b"\x1b[27m");
}

#[test]
fn sgr_preset_color_encodings() {
    assert_eq!(bytes_of(&SetGraphicsRenditionEscape::ForegroundBlack), b"\x1b[30m");
    assert_eq!(bytes_of(&SetGraphicsRenditionEscape::ForegroundRed), b"\x1b[31m");
    assert_eq!(bytes_of(&SetGraphicsRenditionEscape::ForegroundWhite), b"\x1b[37m");
    assert_eq!(bytes_of(&SetGraphicsRenditionEscape::ForegroundDefault), b"\x1b[39m");
    assert_eq!(bytes_of(&SetGraphicsRenditionEscape::BackgroundBlack), b"\x1b[40m");
    assert_eq!(bytes_of(&SetGraphicsRenditionEscape::BackgroundBlue), b"\x1b[44m");
    assert_eq!(bytes_of(&SetGraphicsRenditionEscape::BackgroundDefault), b"\x1b[49m");
    assert_eq!(bytes_of(&SetGraphicsRenditionEscape::BrightForegroundRed), b"\x1b[91m");
    assert_eq!(bytes_of(&SetGraphicsRenditionEscape::BrightForegroundWhite), b"\x1b[97m");
    assert_eq!(bytes_of(&SetGraphicsRenditionEscape::BrightBackgroundRed), b"\x1b[101m");
    assert_eq!(bytes_of(&SetGraphicsRenditionEscape::BrightBackgroundWhite), b"\x1b[107m");
}

#[test]
fn sgr_extended_color_encodings() {
    let palette = ExtendedColor::ColorTable(ColorTableValue(8));
    assert_eq!(
        bytes_of(&SetGraphicsRenditionEscape::ForegroundExtended(palette.clone())),
        b"\x1b[38;5;8m"
    );
    assert_eq!(
        bytes_of(&SetGraphicsRenditionEscape::BackgroundExtended(palette)),
        b"\x1b[48;5;8m"
    );
    let rgb = ExtendedColor::Rgb(Rgb(1, 2, 3));
    assert_eq!(
        bytes_of(&SetGraphicsRenditionEscape::ForegroundExtended(rgb.clone())),
        b"\x1b[38;2;1;2;3m"
    );
    assert_eq!(
        bytes_of(&SetGraphicsRenditionEscape::BackgroundExtended(rgb)),
        b"\x1b[48;2;1;2;3m"
    );
}

#[test]
fn rgb_foreground_encoding() {
    assert_eq!(bytes_of(&Rgb(255, 0, 0)), b"\x1b[38;2;255;0;0m");
}

#[test]
fn color_table_foreground_encoding() {
    assert_eq!(bytes_of(&ColorTableValue(8)), b"\x1b[38;5;8m");
    assert_eq!(bytes_of(&ColorTableValue(255)), b"\x1b[38;5;255m");
}

#[test]
fn extended_color_foreground_encoding() {
    assert_eq!(bytes_of(&ExtendedColor::Rgb(Rgb(10, 20, 30))), b"\x1b[38;2;10;20;30m");
    assert_eq!(
        bytes_of(&ExtendedColor::ColorTable(ColorTableValue(0))),
        b"\x1b[38;5;0m"
    );
}

#[test]
fn preset_color_encodings() {
    assert_eq!(bytes_of(&PresetColor::DefaultColor), b"\x1b[39m");
    assert_eq!(bytes_of(&PresetColor::Black), b"\x1b[30m");
    assert_eq!(bytes_of(&PresetColor::Red), b"\x1b[31m");
    assert_eq!(bytes_of(&PresetColor::Green), b"\x1b[32m");
    assert_eq!(bytes_of(&PresetColor::Yellow), b"\x1b[33m");
    assert_eq!(bytes_of(&PresetColor::Blue), b"\x1b[34m");
    assert_eq!(bytes_of(&PresetColor::Magenta), b"\x1b[35m");
    assert_eq!(bytes_of(&PresetColor::Cyan), b"\x1b[36m");
    assert_eq!(bytes_of(&PresetColor::White), b"\x1b[37m");
}

#[test]
fn preset_color_spec_encodings() {
    let bright_red = PresetColorSpec { color: PresetColor::Red, bright: true };
    assert_eq!(bytes_of(&bright_red), b"\x1b[91m");
    let plain_red = PresetColorSpec { color: PresetColor::Red, bright: false };
    assert_eq!(bytes_of(&plain_red), b"\x1b[31m");
    // The default color has no bright form: requesting it bright keeps its code.
    let bright_default = PresetColorSpec { color: PresetColor::DefaultColor, bright: true };
    assert_eq!(bytes_of(&bright_default), b"\x1b[39m");
}

#[test]
fn color_spec_background_forms() {
    let mut buf: Vec<u8> = Vec::new();
    ColorSpec::Preset(PresetColorSpec { color: PresetColor::Red, bright: true })
        .fmt_background(&mut buf);
    assert_eq!(buf, b"\x1b[101m");

    let mut buf2: Vec<u8> = Vec::new();
    ColorSpec::Preset(PresetColorSpec { color: PresetColor::DefaultColor, bright: false })
        .fmt_background(&mut buf2);
    assert_eq!(buf2, b"\x1b[49m");

    let mut buf3: Vec<u8> = Vec::new();
    ColorSpec::Extended(ExtendedColor::ColorTable(ColorTableValue(8))).fmt_background(&mut buf3);
    assert_eq!(buf3, b"\x1b[48;5;8m");
}

#[test]
fn style_is_one_escape() {
    assert_eq!(bytes_of(&Style { underline: true, negative: false }), b"\x1b[4;27m");
    assert_eq!(bytes_of(&Style { underline: false, negative: true }), b"\x1b[24;7m");
    assert_eq!(bytes_of(&Style { underline: false, negative: false }), b"\x1b[24;27m");
}

#[test]
fn font_spec_three_escapes_in_order() {
    let spec = FontSpec {
        style: Style { underline: true, negative: false },
        foreground_color: ColorSpec::Preset(PresetColorSpec { color: PresetColor::Red, bright: true }),
        background_color: ColorSpec::Preset(PresetColorSpec {
            color: PresetColor::DefaultColor,
            bright: false,
        }),
    };
    let buf = bytes_of(&spec);
    // Style, then foreground, then background.
    assert_eq!(buf, b"\x1b[4;27m\x1b[91m\x1b[49m");
    // Exactly three escapes, each an independently valid CSI sequence.
    let escapes: Vec<usize> = buf
        .iter()
        .enumerate()
        .filter(|(_, b)| **b == 0x1b)
        .map(|(i, _)| i)
        .collect();
    assert_eq!(escapes.len(), 3);
    for (k, start) in escapes.iter().enumerate() {
        let end = if k + 1 < escapes.len() { escapes[k + 1] } else { buf.len() };
        let one = &buf[*start..end];
        assert_eq!(one[1], b'[');
        assert_eq!(*one.last().unwrap(), b'm');
    }
}

#[test]
fn text_passes_through() {
    assert_eq!(bytes_of("Hay sup!"), b"Hay sup!");
    assert_eq!(bytes_of(""), b"");
}

#[test]
fn serialization_is_deterministic() {
    let v = AnsiEscape::Cursor(CursorEscape::Position(1, 2));
    assert_eq!(bytes_of(&v), bytes_of(&v.clone()));
    let r = Rgb(200, 100, 50);
    assert_eq!(bytes_of(&r), bytes_of(&r.clone()));
}
