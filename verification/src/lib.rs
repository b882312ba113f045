//! Terminal control: ANSI escape sequences with an exact byte-level encoding,
//! and a cooked/raw terminal-mode state machine that restores the original
//! line discipline when the handle goes out of scope.
//!
//! Every escape value serializes to exactly one well-formed CSI byte sequence
//! (`ESC [ <params> <final-byte>`); the encoding of each value is pinned down
//! by the spec functions below. The terminal handle owns one backend per
//! standard stream, snapshots the stream's attributes at construction, and
//! writes that snapshot back when it is dropped.

use vstd::prelude::*;
use vstd::string::StringSliceAdditionalSpecFns;

pub mod escapes;
pub mod unix;
pub mod windows;

verus! {

/// `std::io::Error`, the error type of the OS calls this library relies on.
/// Declared so that it can appear in signatures; its values are carried
/// through untouched.
#[verifier::external_type_specification]
#[verifier::external_body]
pub struct ExIoError(std::io::Error);

/// The Control Sequence Introducer: every escape this library emits starts
/// with the two bytes `ESC [`.
pub open spec fn csi() -> Seq<u8> {
    seq![0x1bu8, 0x5bu8]
}

/// The ASCII byte of the decimal digit `n % 10`.
pub open spec fn dec_digit_byte(n: nat) -> u8 {
    (0x30 + (n % 10)) as u8
}

/// The ASCII decimal rendering of `n`: no sign, no leading zeros, and a
/// single `0x30` for zero itself.
pub open spec fn dec_bytes(n: nat) -> Seq<u8>
    decreases n,
{
    if n < 10 {
        seq![dec_digit_byte(n)]
    } else {
        dec_bytes(n / 10).push(dec_digit_byte(n))
    }
}

/// A complete Select Graphic Rendition sequence with a single parameter:
/// `ESC [ <code> m`.
pub open spec fn sgr_bytes(code: nat) -> Seq<u8> {
    csi() + dec_bytes(code) + seq![0x6du8]
}

/// Appends the ASCII decimal rendering of `n`.
pub fn push_dec_u16(n: u16, f: &mut Vec<u8>)
    ensures
        final(f)@ == old(f)@ + dec_bytes(n as nat),
    decreases n,
{
    if n >= 10 {
        push_dec_u16(n / 10, f);
    }
    f.push(0x30u8 + (n % 10) as u8);
    proof {
        assert(f@ =~= old(f)@ + dec_bytes(n as nat));
    }
}

/// Appends the two CSI bytes `ESC [`.
pub fn push_csi(f: &mut Vec<u8>)
    ensures
        final(f)@ == old(f)@ + csi(),
{
    f.push(0x1bu8);
    f.push(0x5bu8);
    proof {
        assert(f@ =~= old(f)@ + csi());
    }
}

/// Appends the single-parameter SGR sequence `ESC [ <code> m`.
pub fn push_sgr(code: u16, f: &mut Vec<u8>)
    ensures
        final(f)@ == old(f)@ + sgr_bytes(code as nat),
{
    push_csi(f);
    push_dec_u16(code, f);
    f.push(0x6du8);
    proof {
        assert(f@ =~= old(f)@ + sgr_bytes(code as nat));
    }
}

/// Something an `AnsiTerminal` can write to the output stream: a value with
/// exactly one byte-level serialization.
pub trait TerminalOutput {
    /// The exact bytes this value serializes to.
    spec fn encoding(&self) -> Seq<u8>;

    /// Appends this value's serialization to `f`.
    fn fmt(&self, f: &mut Vec<u8>)
        ensures
            final(f)@ == old(f)@ + self.encoding(),
    ;
}

/// Literal text passes through unchanged: its serialization is its UTF-8
/// bytes.
impl TerminalOutput for str {
    open spec fn encoding(&self) -> Seq<u8> {
        self.spec_bytes()
    }

    fn fmt(&self, f: &mut Vec<u8>) {
        let bytes: &[u8] = self.as_bytes();
        proof {
            assert(old(f)@ + bytes@.subrange(0, 0) =~= old(f)@);
        }
        let mut i: usize = 0;
        while i < bytes.len()
            invariant
                i <= bytes@.len(),
                bytes@ == self.spec_bytes(),
                f@ == old(f)@ + bytes@.subrange(0, i as int),
            decreases bytes@.len() - i,
        {
            let b = bytes[i];
            f.push(b);
            i = i + 1;
            proof {
                assert(bytes@.subrange(0, i as int) =~= bytes@.subrange(
                    0,
                    i - 1,
                ).push(bytes@[i - 1]));
            }
        }
        proof {
            assert(bytes@.subrange(0, bytes@.len() as int) =~= bytes@);
        }
    }
}

/// An abstract, coarse-grained mode that one of the standard streams can be
/// set to: "cooked" (echo, line buffering, OS processing) or "raw"
/// (byte-at-a-time, nothing translated).
#[derive(Clone, Copy, Debug)]
pub enum TerminalChannelMode {
    Cooked,
    Raw,
}

/// An abstract, coarse-grained set of modes for each standard stream that an
/// `AnsiTerminal` manipulates. `cooked` and `raw` are the only constructors:
/// no partial capability set exists at this layer.
#[derive(Clone, Copy, Debug)]
pub struct TerminalModeOptions {
    stdin: TerminalChannelMode,
    stdout: TerminalChannelMode,
}

impl TerminalModeOptions {
    /// The mode requested for standard input.
    pub closed spec fn spec_stdin(&self) -> TerminalChannelMode {
        self.stdin
    }

    /// The mode requested for standard output.
    pub closed spec fn spec_stdout(&self) -> TerminalChannelMode {
        self.stdout
    }

    /// Both streams in the human-interactive mode.
    pub fn cooked() -> (r: Self)
        ensures
            r.spec_stdin() is Cooked,
            r.spec_stdout() is Cooked,
    {
        TerminalModeOptions { stdin: TerminalChannelMode::Cooked, stdout: TerminalChannelMode::Cooked }
    }

    /// Both streams in the program-controlled mode.
    pub fn raw() -> (r: Self)
        ensures
            r.spec_stdin() is Raw,
            r.spec_stdout() is Raw,
    {
        TerminalModeOptions { stdin: TerminalChannelMode::Raw, stdout: TerminalChannelMode::Raw }
    }
}

/// An error encountered while constructing an `AnsiTerminal`, identifying
/// which stream could not be set up.
#[derive(Debug)]
pub enum TerminalSetupError {
    Stdin(std::io::Error),
    Stdout(std::io::Error),
    CouldNotSetInitialTermState(TerminalModeSetError),
}

/// An error encountered when setting the mode on a standard stream,
/// identifying which stream the OS rejected the flags for.
#[derive(Debug)]
pub enum TerminalModeSetError {
    Stdin(std::io::Error),
    Stdout(std::io::Error),
}

impl From<TerminalModeSetError> for TerminalSetupError {
    fn from(e: TerminalModeSetError) -> (r: Self) {
        TerminalSetupError::CouldNotSetInitialTermState(e)
    }
}

impl vstd::std_specs::convert::FromSpecImpl<TerminalModeSetError> for TerminalSetupError {
    open spec fn obeys_from_spec() -> bool {
        true
    }

    open spec fn from_spec(e: TerminalModeSetError) -> Self {
        TerminalSetupError::CouldNotSetInitialTermState(e)
    }
}

/// The terminal as a resource: mode control over the standard streams and
/// byte-exact output of escape sequences and text.
pub trait AnsiTerminal {
    /// Applies the requested mode to every terminal-backed standard stream.
    fn set_mode(&mut self, options: TerminalModeOptions) -> (r: Result<(), TerminalModeSetError>);

    /// Serializes `t` and writes its bytes to standard output.
    fn write<T: TerminalOutput + ?Sized>(&mut self, t: &T) -> (r: Result<(), std::io::Error>);

    /// Flushes standard output.
    fn flush(&mut self) -> (r: Result<(), std::io::Error>);
}

/// Convenience wrapper around `ansi_terminal_with_config` that defaults to
/// all channels set to cooked mode.
pub fn ansi_terminal() -> (r: Result<unix::UnixAnsiTerminal, TerminalSetupError>)
    ensures
        r matches Ok(t) ==> t.wf() && t.modes_match(TerminalChannelMode::Cooked, TerminalChannelMode::Cooked),
{
    ansi_terminal_with_config(TerminalModeOptions::cooked())
}

/// Constructs a terminal handle and applies the modes in `options`. The
/// handle starts from the snapshot taken at construction; on failure to apply
/// the initial mode the error says so.
pub fn ansi_terminal_with_config(options: TerminalModeOptions) -> (r: Result<
    unix::UnixAnsiTerminal,
    TerminalSetupError,
>)
    ensures
        r matches Ok(t) ==> t.wf() && t.modes_match(options.spec_stdin(), options.spec_stdout()),
        r matches Err(e) ==> e is CouldNotSetInitialTermState,
{
    match unix::UnixAnsiTerminal::new() {
        Ok(mut t) => match t.set_mode(options) {
            Ok(()) => Ok(t),
            Err(e) => Err(TerminalSetupError::CouldNotSetInitialTermState(e)),
        },
        Err(e) => Err(e),
    }
}

} // verus!
