//! The escape model: typed values for cursor motion, scrolling, line
//! insertion, rendition changes and screen-buffer switches, each with exactly
//! one CSI byte sequence.

use vstd::prelude::*;

use crate::{csi, dec_bytes, push_csi, push_dec_u16, TerminalOutput};

pub mod cursor;
pub mod formatting;

verus! {

/// The full set of ANSI escapes that this library supports cross-platform.
#[derive(Clone, Debug)]
pub enum AnsiEscape {
    Cursor(cursor::CursorEscape),
    ScrollUp(u16),
    ScrollDown(u16),
    InsertLine(u16),
    DeleteLine(u16),
    SetGraphicsRendition(formatting::SetGraphicsRenditionEscape),
    SwitchToAlternateScreenBuffer,
    SwitchToMainScreenBuffer,
}

impl TerminalOutput for AnsiEscape {
    open spec fn encoding(&self) -> Seq<u8> {
        match self {
            AnsiEscape::Cursor(c) => c.encoding(),
            AnsiEscape::ScrollUp(x) => csi() + dec_bytes(*x as nat) + seq![0x53u8],  // S
            AnsiEscape::ScrollDown(x) => csi() + dec_bytes(*x as nat) + seq![0x54u8],  // T
            AnsiEscape::InsertLine(x) => csi() + dec_bytes(*x as nat) + seq![0x4cu8],  // L
            AnsiEscape::DeleteLine(x) => csi() + dec_bytes(*x as nat) + seq![0x4du8],  // M
            AnsiEscape::SetGraphicsRendition(sgr) => sgr.encoding(),
            AnsiEscape::SwitchToAlternateScreenBuffer => csi() + seq![
                0x3fu8,
                0x31u8,
                0x30u8,
                0x34u8,
                0x39u8,
                0x68u8,
            ],  // ?1049h
            AnsiEscape::SwitchToMainScreenBuffer => csi() + seq![
                0x3fu8,
                0x31u8,
                0x30u8,
                0x34u8,
                0x39u8,
                0x6cu8,
            ],  // ?1049l
        }
    }

    fn fmt(&self, f: &mut Vec<u8>) {
        match self {
            AnsiEscape::Cursor(c) => c.fmt(f),
            AnsiEscape::ScrollUp(x) => push_count_escape(*x, 0x53u8, f),
            AnsiEscape::ScrollDown(x) => push_count_escape(*x, 0x54u8, f),
            AnsiEscape::InsertLine(x) => push_count_escape(*x, 0x4cu8, f),
            AnsiEscape::DeleteLine(x) => push_count_escape(*x, 0x4du8, f),
            AnsiEscape::SetGraphicsRendition(sgr) => sgr.fmt(f),
            AnsiEscape::SwitchToAlternateScreenBuffer => {
                push_csi(f);
                f.push(0x3fu8);
                f.push(0x31u8);
                f.push(0x30u8);
                f.push(0x34u8);
                f.push(0x39u8);
                f.push(0x68u8);
                proof {
                    assert(f@ =~= old(f)@ + self.encoding());
                }
            },
            AnsiEscape::SwitchToMainScreenBuffer => {
                push_csi(f);
                f.push(0x3fu8);
                f.push(0x31u8);
                f.push(0x30u8);
                f.push(0x34u8);
                f.push(0x39u8);
                f.push(0x6cu8);
                proof {
                    assert(f@ =~= old(f)@ + self.encoding());
                }
            },
        }
    }
}

/// Appends `ESC [ <count> <final-byte>`, the common shape of the
/// parameterized escapes.
pub fn push_count_escape(count: u16, final_byte: u8, f: &mut Vec<u8>)
    ensures
        final(f)@ == old(f)@ + csi() + dec_bytes(count as nat) + seq![final_byte],
{
    push_csi(f);
    push_dec_u16(count, f);
    f.push(final_byte);
    proof {
        assert(f@ =~= old(f)@ + csi() + dec_bytes(count as nat) + seq![final_byte]);
    }
}

} // verus!
