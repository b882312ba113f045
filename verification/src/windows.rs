//! Windows console backend: translation of the abstract mode into
//! console-mode flag words, and the per-stream flag state machine.
//!
//! The console API calls that query and apply a word to the live device exist
//! only on Windows builds; everything around them is verified here: which
//! word a mode request translates to, that a mode switch replaces exactly the
//! six managed bits and leaves every unrelated bit untouched, and that
//! restoration reapplies the word captured at construction bit-for-bit. The
//! platform edge hands in the queried words and carries the computed words to
//! the device.

use vstd::prelude::*;

use crate::{TerminalChannelMode, TerminalModeOptions};

verus! {

/// Console input flag: control characters are processed by the OS
/// (the console API's `ENABLE_PROCESSED_INPUT`).
pub const ENABLE_PROCESSED_INPUT: u32 = 0x0001;

/// Console input flag: line buffering (`ENABLE_LINE_INPUT`).
pub const ENABLE_LINE_INPUT: u32 = 0x0002;

/// Console input flag: echo (`ENABLE_ECHO_INPUT`).
pub const ENABLE_ECHO_INPUT: u32 = 0x0004;

/// Console output flag: output processing (`ENABLE_PROCESSED_OUTPUT`).
pub const ENABLE_PROCESSED_OUTPUT: u32 = 0x0001;

/// Console output flag: wrap at end of line (`ENABLE_WRAP_AT_EOL_OUTPUT`).
pub const ENABLE_WRAP_AT_EOL_OUTPUT: u32 = 0x0002;

/// Console output flag: the OS interprets ANSI escape sequences
/// (`ENABLE_VIRTUAL_TERMINAL_PROCESSING`).
pub const ENABLE_VIRTUAL_TERMINAL_PROCESSING: u32 = 0x0004;

/// Console output flag: no automatic carriage return on line feed
/// (`DISABLE_NEWLINE_AUTO_RETURN`).
pub const DISABLE_NEWLINE_AUTO_RETURN: u32 = 0x0008;

/// The input-stream bits a mode switch manages: processed input, line input
/// and echo.
pub const MANAGED_INPUT_MASK: u32 = 0x0007;

/// The output-stream bits a mode switch manages: processed output, wrapping
/// and newline auto-return — never virtual-terminal processing, which is set
/// once at construction and not revisited.
pub const MANAGED_OUTPUT_MASK: u32 = 0x000b;

/// The six console capabilities that the abstract mode controls.
#[derive(Clone, Copy, Debug)]
pub struct WindowsTerminalMode {
    pub disable_newline_auto_return: bool,
    pub echo_input: bool,
    pub line_input: bool,
    pub processed_input: bool,
    pub processed_output: bool,
    pub wrap_at_eol_output: bool,
}

/// The translation of an abstract mode request: a cooked stream turns the
/// human-friendly capabilities on; a raw stream turns them all off and asks
/// for no newline auto-return.
pub open spec fn spec_win_mode(options: TerminalModeOptions) -> WindowsTerminalMode {
    WindowsTerminalMode {
        disable_newline_auto_return: options.spec_stdin() is Raw,
        echo_input: options.spec_stdin() is Cooked,
        line_input: options.spec_stdin() is Cooked,
        processed_input: options.spec_stdin() is Cooked,
        processed_output: options.spec_stdout() is Cooked,
        wrap_at_eol_output: options.spec_stdout() is Cooked,
    }
}

impl WindowsTerminalMode {
    /// Translates the abstract request into the six capabilities.
    pub fn from_options(options: TerminalModeOptions) -> (r: WindowsTerminalMode)
        ensures
            r == spec_win_mode(options),
    {
        let stdin_cooked = match options.stdin {
            TerminalChannelMode::Cooked => true,
            TerminalChannelMode::Raw => false,
        };
        let stdout_cooked = match options.stdout {
            TerminalChannelMode::Cooked => true,
            TerminalChannelMode::Raw => false,
        };
        WindowsTerminalMode {
            disable_newline_auto_return: !stdin_cooked,
            echo_input: stdin_cooked,
            line_input: stdin_cooked,
            processed_input: stdin_cooked,
            processed_output: stdout_cooked,
            wrap_at_eol_output: stdout_cooked,
        }
    }

    /// Composes the input-stream word from the three input capabilities.
    pub fn stdin_word(&self) -> (w: u32)
        ensures
            w == spec_stdin_word(*self),
    {
        let e: u32 = if self.echo_input {
            ENABLE_ECHO_INPUT
        } else {
            0
        };
        let l: u32 = if self.line_input {
            ENABLE_LINE_INPUT
        } else {
            0
        };
        let p: u32 = if self.processed_input {
            ENABLE_PROCESSED_INPUT
        } else {
            0
        };
        e | l | p
    }

    /// Composes the output-stream word from the three output capabilities.
    pub fn stdout_word(&self) -> (w: u32)
        ensures
            w == spec_stdout_word(*self),
    {
        let d: u32 = if self.disable_newline_auto_return {
            DISABLE_NEWLINE_AUTO_RETURN
        } else {
            0
        };
        let p: u32 = if self.processed_output {
            ENABLE_PROCESSED_OUTPUT
        } else {
            0
        };
        let w: u32 = if self.wrap_at_eol_output {
            ENABLE_WRAP_AT_EOL_OUTPUT
        } else {
            0
        };
        d | p | w
    }
}

impl From<TerminalModeOptions> for WindowsTerminalMode {
    fn from(options: TerminalModeOptions) -> (r: Self) {
        WindowsTerminalMode::from_options(options)
    }
}

impl vstd::std_specs::convert::FromSpecImpl<TerminalModeOptions> for WindowsTerminalMode {
    open spec fn obeys_from_spec() -> bool {
        true
    }

    open spec fn from_spec(options: TerminalModeOptions) -> Self {
        spec_win_mode(options)
    }
}

/// The input word a capability set requests.
pub open spec fn spec_stdin_word(m: WindowsTerminalMode) -> u32 {
    (if m.echo_input {
        ENABLE_ECHO_INPUT
    } else {
        0u32
    }) | (if m.line_input {
        ENABLE_LINE_INPUT
    } else {
        0u32
    }) | (if m.processed_input {
        ENABLE_PROCESSED_INPUT
    } else {
        0u32
    })
}

/// The output word a capability set requests.
pub open spec fn spec_stdout_word(m: WindowsTerminalMode) -> u32 {
    (if m.disable_newline_auto_return {
        DISABLE_NEWLINE_AUTO_RETURN
    } else {
        0u32
    }) | (if m.processed_output {
        ENABLE_PROCESSED_OUTPUT
    } else {
        0u32
    }) | (if m.wrap_at_eol_output {
        ENABLE_WRAP_AT_EOL_OUTPUT
    } else {
        0u32
    })
}

/// The word after a mode switch: the requested bits within the managed mask,
/// every other bit exactly as it was.
pub open spec fn replace_managed(state: u32, word: u32, mask: u32) -> u32 {
    (state & !mask) | word
}

/// The requested words never name a bit outside their managed masks.
pub proof fn lemma_words_within_masks(m: WindowsTerminalMode)
    ensures
        spec_stdin_word(m) & MANAGED_INPUT_MASK == spec_stdin_word(m),
        spec_stdout_word(m) & MANAGED_OUTPUT_MASK == spec_stdout_word(m),
{
    let e: u32 = if m.echo_input {
        0x4u32
    } else {
        0u32
    };
    let l: u32 = if m.line_input {
        0x2u32
    } else {
        0u32
    };
    let p: u32 = if m.processed_input {
        0x1u32
    } else {
        0u32
    };
    assert((e | l | p) & 0x7u32 == (e | l | p)) by (bit_vector)
        requires
            (e == 0x4u32 || e == 0u32) && (l == 0x2u32 || l == 0u32) && (p == 0x1u32 || p
                == 0u32),
    ;
    let d: u32 = if m.disable_newline_auto_return {
        0x8u32
    } else {
        0u32
    };
    let po: u32 = if m.processed_output {
        0x1u32
    } else {
        0u32
    };
    let w: u32 = if m.wrap_at_eol_output {
        0x2u32
    } else {
        0u32
    };
    assert((d | po | w) & 0xbu32 == (d | po | w)) by (bit_vector)
        requires
            (d == 0x8u32 || d == 0u32) && (po == 0x1u32 || po == 0u32) && (w == 0x2u32 || w
                == 0u32),
    ;
}

/// A mode switch never touches a bit outside its managed mask.
pub proof fn lemma_unmanaged_bits_preserved(state: u32, word: u32, mask: u32)
    requires
        word & mask == word,
    ensures
        replace_managed(state, word, mask) & !mask == state & !mask,
{
    assert(((state & !mask) | word) & !mask == state & !mask) by (bit_vector)
        requires
            word & mask == word,
    ;
}

/// Idempotence law: switching to the same request twice leaves the same word
/// as a single switch.
pub proof fn lemma_mode_switch_idempotent(state: u32, word: u32, mask: u32)
    ensures
        replace_managed(replace_managed(state, word, mask), word, mask) == replace_managed(
            state,
            word,
            mask,
        ),
{
    assert((((state & !mask) | word) & !mask) | word == (state & !mask) | word) by (bit_vector);
}

/// Round-trip law: switching to raw and back to cooked gives exactly the
/// word a single cooked switch gives; when the managed bits started in the
/// cooked pattern, the whole word is restored bit-for-bit.
pub proof fn lemma_mode_round_trip(state: u32, raw_word: u32, cooked_word: u32, mask: u32)
    requires
        raw_word & mask == raw_word,
        cooked_word & mask == cooked_word,
    ensures
        replace_managed(replace_managed(state, raw_word, mask), cooked_word, mask)
            == replace_managed(state, cooked_word, mask),
        state & mask == cooked_word ==> replace_managed(
            replace_managed(state, raw_word, mask),
            cooked_word,
            mask,
        ) == state,
{
    assert(((((state & !mask) | raw_word) & !mask) | cooked_word) == ((state & !mask)
        | cooked_word)) by (bit_vector)
        requires
            raw_word & mask == raw_word,
    ;
    assert(state & mask == cooked_word ==> ((state & !mask) | cooked_word) == state)
        by (bit_vector);
}

/// A mode switch driven by a translated request never touches a bit outside
/// the managed masks, whoever set that bit.
pub proof fn lemma_switch_keeps_unrelated_bits(state: u32, options: TerminalModeOptions)
    ensures
        replace_managed(state, spec_stdin_word(spec_win_mode(options)), MANAGED_INPUT_MASK)
            & !MANAGED_INPUT_MASK == state & !MANAGED_INPUT_MASK,
        replace_managed(state, spec_stdout_word(spec_win_mode(options)), MANAGED_OUTPUT_MASK)
            & !MANAGED_OUTPUT_MASK == state & !MANAGED_OUTPUT_MASK,
{
    lemma_words_within_masks(spec_win_mode(options));
    lemma_unmanaged_bits_preserved(
        state,
        spec_stdin_word(spec_win_mode(options)),
        MANAGED_INPUT_MASK,
    );
    lemma_unmanaged_bits_preserved(
        state,
        spec_stdout_word(spec_win_mode(options)),
        MANAGED_OUTPUT_MASK,
    );
}

/// Two successive translated switches (raw then cooked, or any other pair)
/// land exactly where the second switch alone lands; and a stream whose
/// managed bits already held the second request's pattern makes the round
/// trip bit-for-bit.
pub proof fn lemma_translated_round_trip(
    state: u32,
    first: TerminalModeOptions,
    second: TerminalModeOptions,
)
    ensures
        replace_managed(
            replace_managed(state, spec_stdin_word(spec_win_mode(first)), MANAGED_INPUT_MASK),
            spec_stdin_word(spec_win_mode(second)),
            MANAGED_INPUT_MASK,
        ) == replace_managed(state, spec_stdin_word(spec_win_mode(second)), MANAGED_INPUT_MASK),
        state & MANAGED_INPUT_MASK == spec_stdin_word(spec_win_mode(second)) ==> replace_managed(
            replace_managed(state, spec_stdin_word(spec_win_mode(first)), MANAGED_INPUT_MASK),
            spec_stdin_word(spec_win_mode(second)),
            MANAGED_INPUT_MASK,
        ) == state,
        replace_managed(
            replace_managed(state, spec_stdout_word(spec_win_mode(first)), MANAGED_OUTPUT_MASK),
            spec_stdout_word(spec_win_mode(second)),
            MANAGED_OUTPUT_MASK,
        ) == replace_managed(state, spec_stdout_word(spec_win_mode(second)), MANAGED_OUTPUT_MASK),
        state & MANAGED_OUTPUT_MASK == spec_stdout_word(spec_win_mode(second)) ==> replace_managed(
            replace_managed(state, spec_stdout_word(spec_win_mode(first)), MANAGED_OUTPUT_MASK),
            spec_stdout_word(spec_win_mode(second)),
            MANAGED_OUTPUT_MASK,
        ) == state,
{
    lemma_words_within_masks(spec_win_mode(first));
    lemma_words_within_masks(spec_win_mode(second));
    lemma_mode_round_trip(
        state,
        spec_stdin_word(spec_win_mode(first)),
        spec_stdin_word(spec_win_mode(second)),
        MANAGED_INPUT_MASK,
    );
    lemma_mode_round_trip(
        state,
        spec_stdout_word(spec_win_mode(first)),
        spec_stdout_word(spec_win_mode(second)),
        MANAGED_OUTPUT_MASK,
    );
}

/// Cached flag state of one console-backed stream: the word captured at
/// construction and the word currently requested of the device.
pub struct ConsoleHandle {
    state_to_restore: u32,
    state: u32,
}

impl ConsoleHandle {
    /// The word currently requested of the device.
    pub closed spec fn spec_state(&self) -> u32 {
        self.state
    }

    /// The word captured at construction, reapplied on destruction.
    pub closed spec fn spec_state_to_restore(&self) -> u32 {
        self.state_to_restore
    }

    /// Captures a stream whose console-mode query returned `mode`.
    pub fn from_queried_mode(mode: u32) -> (r: ConsoleHandle)
        ensures
            r.spec_state() == mode,
            r.spec_state_to_restore() == mode,
    {
        ConsoleHandle { state_to_restore: mode, state: mode }
    }

    /// Additive flag application, as used once at construction to turn on
    /// virtual-terminal processing without disturbing anything else.
    pub fn set_flags(&mut self, flags: u32)
        ensures
            final(self).spec_state() == old(self).spec_state() | flags,
            final(self).spec_state_to_restore() == old(self).spec_state_to_restore(),
    {
        self.state = self.state | flags;
    }

    /// A mode switch: replaces the managed bits with the requested word and
    /// leaves every bit outside `mask` — whoever set it — untouched.
    pub fn set_managed(&mut self, word: u32, mask: u32)
        ensures
            final(self).spec_state() == replace_managed(old(self).spec_state(), word, mask),
            final(self).spec_state_to_restore() == old(self).spec_state_to_restore(),
    {
        self.state = (self.state & !mask) | word;
    }

    /// Reverts to the word captured at construction, bit-for-bit.
    pub fn restore(&mut self)
        ensures
            final(self).spec_state() == old(self).spec_state_to_restore(),
            final(self).spec_state_to_restore() == old(self).spec_state_to_restore(),
    {
        self.state = self.state_to_restore;
    }

    /// The word currently requested of the device.
    pub fn current_state(&self) -> (w: u32)
        ensures
            w == self.spec_state(),
    {
        self.state
    }

    /// The word captured at construction.
    pub fn captured_state(&self) -> (w: u32)
        ensures
            w == self.spec_state_to_restore(),
    {
        self.state_to_restore
    }
}

/// A standard stream on the console backend: console-backed with cached
/// flags, or not console-backed, on which mode requests are silently accepted
/// and ignored.
pub enum StreamHandle {
    NonConsole,
    Console(ConsoleHandle),
}

impl StreamHandle {
    /// Captures a stream from the result of the console-mode query. A failed
    /// query (`None`) means the stream is not console-backed — a redirected
    /// file, not an error.
    pub fn from_queried(mode: Option<u32>) -> (r: StreamHandle)
        ensures
            mode matches Some(w) ==> r matches StreamHandle::Console(c) && c.spec_state() == w
                && c.spec_state_to_restore() == w,
            mode is None ==> r is NonConsole,
    {
        match mode {
            Some(w) => StreamHandle::Console(ConsoleHandle::from_queried_mode(w)),
            None => StreamHandle::NonConsole,
        }
    }
}

/// One stream across a mode switch: a non-console stream is untouched; a
/// console-backed stream keeps its captured word and has its managed bits
/// replaced with the requested word.
pub open spec fn console_switch(pre: StreamHandle, post: StreamHandle, word: u32, mask: u32) -> bool {
    match (pre, post) {
        (StreamHandle::NonConsole, StreamHandle::NonConsole) => true,
        (StreamHandle::Console(a), StreamHandle::Console(b)) => {
            &&& b.spec_state_to_restore() == a.spec_state_to_restore()
            &&& b.spec_state() == replace_managed(a.spec_state(), word, mask)
        },
        _ => false,
    }
}

/// The console terminal handle: one stream state per standard stream. The
/// words queried from the console API are handed in by the platform edge.
pub struct WindowsAnsiTerminal {
    stdin: StreamHandle,
    stdout: StreamHandle,
}

impl WindowsAnsiTerminal {
    /// The state held for standard input.
    pub closed spec fn stdin_handle(&self) -> StreamHandle {
        self.stdin
    }

    /// The state held for standard output.
    pub closed spec fn stdout_handle(&self) -> StreamHandle {
        self.stdout
    }

    /// Builds the handle from the queried words. On a console-backed output
    /// stream the virtual-terminal-processing flag is turned on once,
    /// additively, before any mode translation runs — the OS requires it to
    /// interpret ANSI escapes at all.
    pub fn new(stdin_mode: Option<u32>, stdout_mode: Option<u32>) -> (r: WindowsAnsiTerminal)
        ensures
            stdin_mode matches Some(w) ==> r.stdin_handle() matches StreamHandle::Console(c)
                && c.spec_state() == w && c.spec_state_to_restore() == w,
            stdin_mode is None ==> r.stdin_handle() is NonConsole,
            stdout_mode matches Some(w) ==> r.stdout_handle() matches StreamHandle::Console(c)
                && c.spec_state() == w | ENABLE_VIRTUAL_TERMINAL_PROCESSING
                && c.spec_state_to_restore() == w,
            stdout_mode is None ==> r.stdout_handle() is NonConsole,
    {
        let stdin = StreamHandle::from_queried(stdin_mode);
        let mut stdout = StreamHandle::from_queried(stdout_mode);
        match &mut stdout {
            StreamHandle::Console(c) => c.set_flags(ENABLE_VIRTUAL_TERMINAL_PROCESSING),
            StreamHandle::NonConsole => (),
        }
        WindowsAnsiTerminal { stdin, stdout }
    }

    /// Applies a mode request: each console-backed stream has its managed
    /// bits replaced by the translated word; non-console streams are silently
    /// left alone.
    pub fn set_mode(&mut self, options: TerminalModeOptions)
        ensures
            console_switch(
                old(self).stdin_handle(),
                final(self).stdin_handle(),
                spec_stdin_word(spec_win_mode(options)),
                MANAGED_INPUT_MASK,
            ),
            console_switch(
                old(self).stdout_handle(),
                final(self).stdout_handle(),
                spec_stdout_word(spec_win_mode(options)),
                MANAGED_OUTPUT_MASK,
            ),
            old(self).stdin_handle() is NonConsole && old(self).stdout_handle() is NonConsole
                ==> *final(self) == *old(self),
    {
        let m = WindowsTerminalMode::from_options(options);
        let word_in = m.stdin_word();
        let word_out = m.stdout_word();
        match &mut self.stdin {
            StreamHandle::Console(c) => c.set_managed(word_in, MANAGED_INPUT_MASK),
            StreamHandle::NonConsole => (),
        }
        match &mut self.stdout {
            StreamHandle::Console(c) => c.set_managed(word_out, MANAGED_OUTPUT_MASK),
            StreamHandle::NonConsole => (),
        }
    }

    /// The word currently held for standard input, when console-backed.
    pub fn stdin_state(&self) -> (r: Option<u32>)
        ensures
            r == (match self.stdin_handle() {
                StreamHandle::Console(c) => Some(c.spec_state()),
                StreamHandle::NonConsole => None,
            }),
    {
        match &self.stdin {
            StreamHandle::Console(c) => Some(c.current_state()),
            StreamHandle::NonConsole => None,
        }
    }

    /// The word currently held for standard output, when console-backed.
    pub fn stdout_state(&self) -> (r: Option<u32>)
        ensures
            r == (match self.stdout_handle() {
                StreamHandle::Console(c) => Some(c.spec_state()),
                StreamHandle::NonConsole => None,
            }),
    {
        match &self.stdout {
            StreamHandle::Console(c) => Some(c.current_state()),
            StreamHandle::NonConsole => None,
        }
    }

    /// Reverts every console-backed stream to its captured word, as
    /// destruction does on the platform edge.
    pub fn restore(&mut self)
        ensures
            final(self).stdin_handle() matches StreamHandle::Console(c) ==> (old(
                self,
            ).stdin_handle() matches StreamHandle::Console(a) && c.spec_state()
                == a.spec_state_to_restore() && c.spec_state_to_restore()
                == a.spec_state_to_restore()),
            final(self).stdout_handle() matches StreamHandle::Console(c) ==> (old(
                self,
            ).stdout_handle() matches StreamHandle::Console(a) && c.spec_state()
                == a.spec_state_to_restore() && c.spec_state_to_restore()
                == a.spec_state_to_restore()),
            old(self).stdin_handle() is NonConsole <==> final(self).stdin_handle() is NonConsole,
            old(self).stdout_handle() is NonConsole <==> final(self).stdout_handle() is NonConsole,
    {
        match &mut self.stdin {
            StreamHandle::Console(c) => c.restore(),
            StreamHandle::NonConsole => (),
        }
        match &mut self.stdout {
            StreamHandle::Console(c) => c.restore(),
            StreamHandle::NonConsole => (),
        }
    }
}

} // verus!
