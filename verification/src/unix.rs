//! POSIX backend: per-stream terminal state captured through the termios API.
//!
//! Each terminal-backed stream snapshots its attributes at construction,
//! derives the raw attribute set from that snapshot once, and switches
//! between the two precomputed sets — never toggling individual bits. The
//! snapshot is written back unconditionally when the state is dropped. A
//! stream whose attributes cannot be queried (a redirected file or pipe) is
//! not an error: mode control on it degrades to a no-op.
//!
//! The `applied` field is a ghost model of the attribute set most recently
//! handed to the OS for this descriptor. It is faithful while the handle is
//! the stream's only mutator, which is the ownership discipline this library
//! assumes: one live handle per physical stream.

use vstd::prelude::*;

use crate::{
    AnsiTerminal, TerminalChannelMode, TerminalModeOptions, TerminalModeSetError,
    TerminalOutput, TerminalSetupError,
};

verus! {

/// `termios::Termios`, the POSIX terminal-attribute structure. Opaque here:
/// the library snapshots, derives, applies and restores whole values and
/// never reads an individual flag out of one.
#[verifier::external_type_specification]
#[verifier::external_body]
pub struct ExTermios(termios::Termios);

/// File descriptor of standard input, fixed by POSIX.
pub const STDIN_FILE_DESCRIPTOR: i32 = 0;

/// File descriptor of standard output, fixed by POSIX.
pub const STDOUT_FILE_DESCRIPTOR: i32 = 1;

/// Relies on `termios::Termios::from_fd` (POSIX `tcgetattr`): returns the
/// attributes currently in effect on `fd`, or the OS error when `fd` is not
/// backed by a terminal device.
#[verifier::external_body]
fn termios_snapshot(fd: i32) -> (r: Result<termios::Termios, std::io::Error>)
    opens_invariants none
    no_unwind
{
    termios::Termios::from_fd(fd)
}

/// Relies on `termios::cfmakeraw` (POSIX): derives from `t` the attribute
/// set with echo, canonical input, signal generation and output processing
/// disabled. The result is stored and applied as a whole; nothing is read
/// out of it.
#[verifier::external_body]
fn make_raw(t: &termios::Termios) -> (r: termios::Termios)
    opens_invariants none
    no_unwind
{
    let mut raw = *t;
    termios::cfmakeraw(&mut raw);
    raw
}

/// Relies on `termios::tcsetattr` (POSIX) with `TCSANOW`: asks the OS to
/// apply `t` to the terminal behind `fd` immediately, without draining
/// pending output, and surfaces the OS error when the call is rejected.
#[verifier::external_body]
fn apply_attrs(fd: i32, t: &termios::Termios) -> (r: Result<(), std::io::Error>)
    opens_invariants none
    no_unwind
{
    termios::tcsetattr(fd, termios::TCSANOW, t)
}

/// Relies on `std::io::Write::write_all` on standard output: sends the bytes
/// as they are, surfacing any I/O error unmodified.
#[verifier::external_body]
fn write_stdout(bytes: &[u8]) -> (r: Result<(), std::io::Error>)
    opens_invariants none
    no_unwind
{
    std::io::Write::write_all(&mut std::io::stdout(), bytes)
}

/// Relies on `std::io::Write::flush` on standard output.
#[verifier::external_body]
fn flush_stdout() -> (r: Result<(), std::io::Error>)
    opens_invariants none
    no_unwind
{
    std::io::Write::flush(&mut std::io::stdout())
}

/// Relies on `std::io::Write::write_all` on standard output: sends exactly
/// the four bytes given, ignoring any I/O error. Destruction needs a write
/// that provably cannot unwind, which rules out building a buffer first.
#[verifier::external_body]
fn write_four_bytes_stdout(b0: u8, b1: u8, b2: u8, b3: u8)
    opens_invariants none
    no_unwind
{
    let _ = std::io::Write::write_all(&mut std::io::stdout(), &[b0, b1, b2, b3]);
}

/// Live state of one terminal-backed stream: the attributes captured at
/// construction (`termios_to_restore`), the cooked set (the same snapshot),
/// the raw set derived from it once, and a ghost model of the attributes
/// most recently applied to the device.
pub struct TerminalState {
    file_descriptor: i32,
    raw_termios: termios::Termios,
    cooked_termios: termios::Termios,
    termios_to_restore: termios::Termios,
    applied: Ghost<termios::Termios>,
}

impl TerminalState {
    /// The stream's file descriptor.
    pub closed spec fn fd(&self) -> i32 {
        self.file_descriptor
    }

    /// The precomputed raw attribute set.
    pub closed spec fn raw_attrs(&self) -> termios::Termios {
        self.raw_termios
    }

    /// The precomputed cooked attribute set.
    pub closed spec fn cooked_attrs(&self) -> termios::Termios {
        self.cooked_termios
    }

    /// The attribute set captured at construction, written back on drop.
    pub closed spec fn restore_attrs(&self) -> termios::Termios {
        self.termios_to_restore
    }

    /// Model of the attribute set most recently applied to the device.
    pub closed spec fn applied_attrs(&self) -> termios::Termios {
        self.applied@
    }

    /// The attribute set that `mode` selects.
    pub open spec fn attrs_for(&self, mode: TerminalChannelMode) -> termios::Termios {
        match mode {
            TerminalChannelMode::Raw => self.raw_attrs(),
            TerminalChannelMode::Cooked => self.cooked_attrs(),
        }
    }

    /// Well-formed: the cooked attribute set is the construction snapshot.
    pub open spec fn wf(&self) -> bool {
        self.cooked_attrs() == self.restore_attrs()
    }

    /// Directly after construction: nothing has been applied beyond what the
    /// device already had, so the model equals the snapshot.
    pub open spec fn fresh(&self) -> bool {
        self.wf() && self.applied_attrs() == self.restore_attrs()
    }

    /// Captures the attributes of the terminal behind `fd`. Fails exactly
    /// when the OS query fails, which is how a redirected stream announces
    /// itself.
    pub fn try_from_fd(fd: i32) -> (r: Result<TerminalState, std::io::Error>)
        ensures
            r matches Ok(s) ==> s.fresh() && s.fd() == fd,
    {
        match termios_snapshot(fd) {
            Ok(t) => {
                let raw = make_raw(&t);
                Ok(
                    TerminalState {
                        file_descriptor: fd,
                        raw_termios: raw,
                        cooked_termios: t,
                        termios_to_restore: t,
                        applied: Ghost(t),
                    },
                )
            },
            Err(e) => Err(e),
        }
    }

    /// Applies the attribute set that `mode` selects, with "apply now"
    /// semantics. When the OS rejects the call the attributes actually in
    /// effect are unknown (the call may have partially applied), so nothing
    /// is said of the model in that case; the cached sets always survive.
    pub fn set_mode(&mut self, mode: TerminalChannelMode) -> (r: Result<(), std::io::Error>)
        ensures
            final(self).fd() == old(self).fd(),
            final(self).raw_attrs() == old(self).raw_attrs(),
            final(self).cooked_attrs() == old(self).cooked_attrs(),
            final(self).restore_attrs() == old(self).restore_attrs(),
            r is Ok ==> set_mode_transition(*old(self), *final(self), mode),
    {
        let r = match mode {
            TerminalChannelMode::Raw => apply_attrs(self.file_descriptor, &self.raw_termios),
            TerminalChannelMode::Cooked => apply_attrs(self.file_descriptor, &self.cooked_termios),
        };
        match r {
            Ok(()) => {
                self.applied = Ghost(self.attrs_for(mode));
                Ok(())
            },
            Err(e) => Err(e),
        }
    }

    /// Writes back the attributes captured at construction. Called on every
    /// exit path through `drop`; available separately so that restoration can
    /// be requested early.
    pub fn restore(&mut self) -> (r: Result<(), std::io::Error>)
        ensures
            final(self).fd() == old(self).fd(),
            final(self).raw_attrs() == old(self).raw_attrs(),
            final(self).cooked_attrs() == old(self).cooked_attrs(),
            final(self).restore_attrs() == old(self).restore_attrs(),
            r is Ok ==> restore_transition(*old(self), *final(self)),
        opens_invariants none
        no_unwind
    {
        let r = apply_attrs(self.file_descriptor, &self.termios_to_restore);
        match r {
            Ok(()) => {
                self.applied = Ghost(self.restore_attrs());
                Ok(())
            },
            Err(e) => Err(e),
        }
    }
}

impl Drop for TerminalState {
    /// Restoration is unconditional and non-cancelable: it runs on every exit
    /// path, and a failure to restore is ignored here, never propagated — a
    /// destructor has no caller to report to.
    fn drop(&mut self)
        opens_invariants none
        no_unwind
    {
        let _ = self.restore();
    }
}

/// The successful transition of `TerminalState::set_mode`: the cached sets
/// and descriptor survive, and the selected set is now applied.
pub open spec fn set_mode_transition(
    pre: TerminalState,
    post: TerminalState,
    mode: TerminalChannelMode,
) -> bool {
    &&& post.fd() == pre.fd()
    &&& post.raw_attrs() == pre.raw_attrs()
    &&& post.cooked_attrs() == pre.cooked_attrs()
    &&& post.restore_attrs() == pre.restore_attrs()
    &&& post.applied_attrs() == pre.attrs_for(mode)
}

/// The successful transition of `TerminalState::restore`: the cached sets and
/// descriptor survive, and the construction snapshot is applied again.
pub open spec fn restore_transition(pre: TerminalState, post: TerminalState) -> bool {
    &&& post.fd() == pre.fd()
    &&& post.raw_attrs() == pre.raw_attrs()
    &&& post.cooked_attrs() == pre.cooked_attrs()
    &&& post.restore_attrs() == pre.restore_attrs()
    &&& post.applied_attrs() == pre.restore_attrs()
}

/// Round-trip law: on a terminal-backed stream in its baseline state,
/// switching to raw and back to cooked applies exactly the attribute set the
/// device had before either call.
pub proof fn lemma_raw_cooked_round_trip(s0: TerminalState, s1: TerminalState, s2: TerminalState)
    requires
        s0.wf(),
        set_mode_transition(s0, s1, TerminalChannelMode::Raw),
        set_mode_transition(s1, s2, TerminalChannelMode::Cooked),
    ensures
        s2.applied_attrs() == s0.restore_attrs(),
        s0.applied_attrs() == s0.cooked_attrs() ==> s2.applied_attrs() == s0.applied_attrs(),
{
}

/// Idempotence law: requesting the same mode twice leaves the same attribute
/// set applied as a single request.
pub proof fn lemma_set_mode_idempotent(
    s0: TerminalState,
    s1: TerminalState,
    s2: TerminalState,
    mode: TerminalChannelMode,
)
    requires
        set_mode_transition(s0, s1, mode),
        set_mode_transition(s1, s2, mode),
    ensures
        s2.applied_attrs() == s1.applied_attrs(),
{
}

/// Restoration law: a stream that is constructed and then restored without
/// any mode change ends bit-for-bit where it started.
pub proof fn lemma_untouched_restore(s0: TerminalState, s1: TerminalState)
    requires
        s0.fresh(),
        restore_transition(s0, s1),
    ensures
        s1.applied_attrs() == s0.applied_attrs(),
        s1.applied_attrs() == s0.restore_attrs(),
{
}

/// Restoration law: destruction reapplies the construction snapshot no
/// matter which mode changes happened in between.
pub proof fn lemma_restore_after_mode_change(
    s0: TerminalState,
    s1: TerminalState,
    s2: TerminalState,
    mode: TerminalChannelMode,
)
    requires
        s0.fresh(),
        set_mode_transition(s0, s1, mode),
        restore_transition(s1, s2),
    ensures
        s2.applied_attrs() == s0.applied_attrs(),
        s2.applied_attrs() == s0.restore_attrs(),
{
}

/// A standard stream as captured at construction: either terminal-backed,
/// with live state, or redirected, on which mode control is a no-op.
pub enum Stream {
    Tty(TerminalState),
    NonTty(i32),
}

impl Stream {
    /// Captures `fd`. A terminal-backed descriptor yields live state; any
    /// other descriptor degrades to `NonTty` — writing to a redirected file
    /// must not fail just because mode control is meaningless there.
    pub fn acquire(fd: i32) -> (r: Stream)
        ensures
            r matches Stream::Tty(s) ==> s.fresh() && s.fd() == fd,
            r matches Stream::NonTty(d) ==> d == fd,
    {
        match TerminalState::try_from_fd(fd) {
            Ok(state) => Stream::Tty(state),
            Err(_) => Stream::NonTty(fd),
        }
    }
}

/// The backend owned for standard input.
pub struct StdInputHandle(pub Stream);

/// The backend owned for standard output.
pub struct StdOutputHandle(pub Stream);

/// The POSIX terminal handle: one backend per standard stream. Dropping it
/// resets the graphic rendition and then restores each stream's captured
/// attributes.
pub struct UnixAnsiTerminal {
    stdin: StdInputHandle,
    stdout: StdOutputHandle,
}

/// Both streams hold the same backend identity (descriptor, cached attribute
/// sets, tty-ness); only the applied model may differ.
pub open spec fn stream_same_backend(a: Stream, b: Stream) -> bool {
    match (a, b) {
        (Stream::Tty(sa), Stream::Tty(sb)) => {
            &&& sb.fd() == sa.fd()
            &&& sb.raw_attrs() == sa.raw_attrs()
            &&& sb.cooked_attrs() == sa.cooked_attrs()
            &&& sb.restore_attrs() == sa.restore_attrs()
        },
        (Stream::NonTty(da), Stream::NonTty(db)) => da == db,
        _ => false,
    }
}

/// A terminal-backed stream has the attribute set of `mode` applied; a
/// redirected stream matches every mode vacuously.
pub open spec fn stream_mode_matches(st: Stream, mode: TerminalChannelMode) -> bool {
    st matches Stream::Tty(s) ==> s.applied_attrs() == s.attrs_for(mode)
}

impl UnixAnsiTerminal {
    /// The backend for standard input.
    pub closed spec fn stdin_stream(&self) -> Stream {
        self.stdin.0
    }

    /// The backend for standard output.
    pub closed spec fn stdout_stream(&self) -> Stream {
        self.stdout.0
    }

    /// Every terminal-backed stream is well-formed.
    pub open spec fn wf(&self) -> bool {
        &&& (self.stdin_stream() matches Stream::Tty(s) ==> s.wf())
        &&& (self.stdout_stream() matches Stream::Tty(s) ==> s.wf())
    }

    /// Directly after construction: no stream has been touched.
    pub open spec fn is_fresh(&self) -> bool {
        &&& (self.stdin_stream() matches Stream::Tty(s) ==> s.fresh())
        &&& (self.stdout_stream() matches Stream::Tty(s) ==> s.fresh())
    }

    /// The requested modes are applied on every terminal-backed stream.
    pub open spec fn modes_match(&self, mi: TerminalChannelMode, mo: TerminalChannelMode) -> bool {
        &&& stream_mode_matches(self.stdin_stream(), mi)
        &&& stream_mode_matches(self.stdout_stream(), mo)
    }

    /// Acquires both standard streams. This cannot fail: a stream whose
    /// attributes cannot be queried is treated as redirected, not as an
    /// error.
    pub fn new() -> (r: Result<UnixAnsiTerminal, TerminalSetupError>)
        ensures
            r is Ok,
            r matches Ok(t) ==> t.wf() && t.is_fresh(),
    {
        Ok(
            UnixAnsiTerminal {
                stdin: StdInputHandle(Stream::acquire(STDIN_FILE_DESCRIPTOR)),
                stdout: StdOutputHandle(Stream::acquire(STDOUT_FILE_DESCRIPTOR)),
            },
        )
    }

    /// Whether standard input was terminal-backed at construction.
    pub fn stdin_is_tty(&self) -> (r: bool)
        ensures
            r == self.stdin_stream() is Tty,
    {
        match &self.stdin.0 {
            Stream::Tty(_) => true,
            Stream::NonTty(_) => false,
        }
    }

    /// Whether standard output was terminal-backed at construction.
    pub fn stdout_is_tty(&self) -> (r: bool)
        ensures
            r == self.stdout_stream() is Tty,
    {
        match &self.stdout.0 {
            Stream::Tty(_) => true,
            Stream::NonTty(_) => false,
        }
    }
}

impl AnsiTerminal for UnixAnsiTerminal {
    /// Applies the stdin mode, then the stdout mode, each only where the
    /// stream is terminal-backed. Fails tagged with the stream the OS
    /// rejected, without rolling back the one that succeeded. On a handle
    /// with no terminal-backed stream this always succeeds and changes
    /// nothing observable.
    fn set_mode(&mut self, options: TerminalModeOptions) -> (r: Result<(), TerminalModeSetError>)
        ensures
            stream_same_backend(old(self).stdin_stream(), final(self).stdin_stream()),
            stream_same_backend(old(self).stdout_stream(), final(self).stdout_stream()),
            r is Ok ==> final(self).modes_match(options.spec_stdin(), options.spec_stdout()),
            r matches Err(e) ==> ((e is Stdin && old(self).stdin_stream() is Tty) || (e is Stdout
                && old(self).stdout_stream() is Tty)),
            r matches Err(e) && e is Stdin ==> final(self).stdout_stream() == old(
                self,
            ).stdout_stream(),
            // No rollback: when stdout fails, the mode already applied to a
            // terminal-backed stdin stays applied.
            r matches Err(e) && e is Stdout ==> stream_mode_matches(
                final(self).stdin_stream(),
                options.spec_stdin(),
            ),
            old(self).stdin_stream() is NonTty ==> final(self).stdin_stream() == old(
                self,
            ).stdin_stream(),
            old(self).stdout_stream() is NonTty ==> final(self).stdout_stream() == old(
                self,
            ).stdout_stream(),
            old(self).stdin_stream() is NonTty && old(self).stdout_stream() is NonTty ==> r is Ok
                && *final(self) == *old(self),
    {
        let stdin_mode = options.stdin;
        let stdout_mode = options.stdout;
        match &mut self.stdin.0 {
            Stream::Tty(state) => {
                match state.set_mode(stdin_mode) {
                    Ok(()) => (),
                    Err(e) => {
                        return Err(TerminalModeSetError::Stdin(e));
                    },
                }
            },
            Stream::NonTty(_) => (),
        }
        match &mut self.stdout.0 {
            Stream::Tty(state) => {
                match state.set_mode(stdout_mode) {
                    Ok(()) => (),
                    Err(e) => {
                        return Err(TerminalModeSetError::Stdout(e));
                    },
                }
            },
            Stream::NonTty(_) => (),
        }
        Ok(())
    }

    /// Serializes `t` and writes the bytes to standard output. Writing never
    /// touches the mode state machine.
    fn write<T: TerminalOutput + ?Sized>(&mut self, t: &T) -> (r: Result<(), std::io::Error>)
        ensures
            *final(self) == *old(self),
    {
        let mut buf: Vec<u8> = Vec::new();
        t.fmt(&mut buf);
        write_stdout(buf.as_slice())
    }

    /// Flushes standard output. Never touches the mode state machine.
    fn flush(&mut self) -> (r: Result<(), std::io::Error>)
        ensures
            *final(self) == *old(self),
    {
        flush_stdout()
    }
}

impl Drop for UnixAnsiTerminal {
    /// On scope exit the graphic rendition is reset; each owned stream then
    /// restores its captured attributes when its own state is dropped, on
    /// every exit path.
    fn drop(&mut self)
        opens_invariants none
        no_unwind
    {
        proof {
            assert(seq![0x1bu8, 0x5bu8, 0x30u8, 0x6du8]
                =~= crate::escapes::formatting::SetGraphicsRenditionEscape::Reset.encoding());
        }
        write_four_bytes_stdout(0x1bu8, 0x5bu8, 0x30u8, 0x6du8);
    }
}

} // verus!
