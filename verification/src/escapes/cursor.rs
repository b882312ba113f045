//! Cursor escapes: motion, absolute positioning, save/restore, visibility
//! and blink toggles.

use vstd::prelude::*;

use crate::{csi, dec_bytes, push_csi, push_dec_u16, TerminalOutput};
use crate::escapes::push_count_escape;

verus! {

/// A cursor operation. Counts and coordinates are non-negative 16-bit values.
#[derive(Clone, Debug)]
pub enum CursorEscape {
    Up(u16),
    Down(u16),
    Forward(u16),
    Back(u16),
    NextLine(u16),
    PreviousLine(u16),
    HorizontalAbsolute(u16),
    Position(u16, u16),
    SavePosition,
    RestorePosition,
    EnableBlinking,
    DisableBlinking,
    Show,
    Hide,
}

impl TerminalOutput for CursorEscape {
    open spec fn encoding(&self) -> Seq<u8> {
        match self {
            CursorEscape::Up(x) => csi() + dec_bytes(*x as nat) + seq![0x41u8],  // A
            CursorEscape::Down(x) => csi() + dec_bytes(*x as nat) + seq![0x42u8],  // B
            CursorEscape::Forward(x) => csi() + dec_bytes(*x as nat) + seq![0x43u8],  // C
            CursorEscape::Back(x) => csi() + dec_bytes(*x as nat) + seq![0x44u8],  // D
            CursorEscape::NextLine(x) => csi() + dec_bytes(*x as nat) + seq![0x45u8],  // E
            CursorEscape::PreviousLine(x) => csi() + dec_bytes(*x as nat) + seq![0x46u8],  // F
            CursorEscape::HorizontalAbsolute(x) => csi() + dec_bytes(*x as nat) + seq![0x47u8],  // G
            CursorEscape::Position(x, y) => csi() + dec_bytes(*x as nat) + seq![0x3bu8]
                + dec_bytes(*y as nat) + seq![0x48u8],  // x;yH
            CursorEscape::SavePosition => csi() + seq![0x73u8],  // s
            CursorEscape::RestorePosition => csi() + seq![0x75u8],  // u
            CursorEscape::EnableBlinking => csi() + seq![0x3fu8, 0x31u8, 0x32u8, 0x68u8],  // ?12h
            CursorEscape::DisableBlinking => csi() + seq![0x3fu8, 0x31u8, 0x32u8, 0x6cu8],  // ?12l
            CursorEscape::Show => csi() + seq![0x3fu8, 0x32u8, 0x35u8, 0x68u8],  // ?25h
            CursorEscape::Hide => csi() + seq![0x3fu8, 0x32u8, 0x35u8, 0x6cu8],  // ?25l
        }
    }

    fn fmt(&self, f: &mut Vec<u8>) {
        match self {
            CursorEscape::Up(x) => push_count_escape(*x, 0x41u8, f),
            CursorEscape::Down(x) => push_count_escape(*x, 0x42u8, f),
            CursorEscape::Forward(x) => push_count_escape(*x, 0x43u8, f),
            CursorEscape::Back(x) => push_count_escape(*x, 0x44u8, f),
            CursorEscape::NextLine(x) => push_count_escape(*x, 0x45u8, f),
            CursorEscape::PreviousLine(x) => push_count_escape(*x, 0x46u8, f),
            CursorEscape::HorizontalAbsolute(x) => push_count_escape(*x, 0x47u8, f),
            CursorEscape::Position(x, y) => {
                push_csi(f);
                push_dec_u16(*x, f);
                f.push(0x3bu8);
                push_dec_u16(*y, f);
                f.push(0x48u8);
                proof {
                    assert(f@ =~= old(f)@ + self.encoding());
                }
            },
            CursorEscape::SavePosition => {
                push_csi(f);
                f.push(0x73u8);
                proof {
                    assert(f@ =~= old(f)@ + self.encoding());
                }
            },
            CursorEscape::RestorePosition => {
                push_csi(f);
                f.push(0x75u8);
                proof {
                    assert(f@ =~= old(f)@ + self.encoding());
                }
            },
            CursorEscape::EnableBlinking => push_private_toggle(0x31u8, 0x32u8, true, f),
            CursorEscape::DisableBlinking => push_private_toggle(0x31u8, 0x32u8, false, f),
            CursorEscape::Show => push_private_toggle(0x32u8, 0x35u8, true, f),
            CursorEscape::Hide => push_private_toggle(0x32u8, 0x35u8, false, f),
        }
    }
}

/// Appends a two-digit private-mode toggle: `ESC [ ? <d1> <d2> h` to enable,
/// with final byte `l` to disable.
fn push_private_toggle(d1: u8, d2: u8, enable: bool, f: &mut Vec<u8>)
    ensures
        final(f)@ == old(f)@ + csi() + seq![0x3fu8, d1, d2, if enable {
            0x68u8
        } else {
            0x6cu8
        }],
{
    push_csi(f);
    f.push(0x3fu8);
    f.push(d1);
    f.push(d2);
    if enable {
        f.push(0x68u8);
    } else {
        f.push(0x6cu8);
    }
    proof {
        assert(f@ =~= old(f)@ + csi() + seq![0x3fu8, d1, d2, if enable {
            0x68u8
        } else {
            0x6cu8
        }]);
    }
}

} // verus!
