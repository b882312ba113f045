//! Tests of the mode state machine: the POSIX handle on redirected streams,
//! and the console backend's flag-word model.

use ansion::escapes::cursor::CursorEscape;
use ansion::unix::{Stream, UnixAnsiTerminal};
use ansion::windows::{
    ConsoleHandle, StreamHandle, WindowsAnsiTerminal, WindowsTerminalMode,
};
use ansion::{
    ansi_terminal, ansi_terminal_with_config, AnsiTerminal, TerminalModeOptions,
    TerminalModeSetError, TerminalOutput, TerminalSetupError,
};

#[test]
fn construction_succeeds() {
    let t = UnixAnsiTerminal::new();
    assert!(t.is_ok());
}

#[test]
fn ansi_terminal_defaults_to_cooked() {
    let t = ansi_terminal();
    assert!(t.is_ok());
}

#[test]
fn with_config_accepts_both_presets() {
    let t = ansi_terminal_with_config(TerminalModeOptions::cooked());
    assert!(t.is_ok());
    let t2 = ansi_terminal_with_config(TerminalModeOptions::raw());
    assert!(t2.is_ok());
}

#[test]
fn set_mode_on_redirected_stream_is_ok_noop() {
    // Under the test harness the standard streams are redirected; mode
    // control must then succeed and do nothing. On a live terminal the
    // assertions still hold, so the test is not conditional.
    let mut t = UnixAnsiTerminal::new().unwrap();
    assert!(t.set_mode(TerminalModeOptions::raw()).is_ok());
    assert!(t.set_mode(TerminalModeOptions::cooked()).is_ok());
}

#[test]
fn set_mode_twice_is_idempotent_at_the_api() {
    let mut t = UnixAnsiTerminal::new().unwrap();
    assert!(t.set_mode(TerminalModeOptions::raw()).is_ok());
    assert!(t.set_mode(TerminalModeOptions::raw()).is_ok());
    assert!(t.set_mode(TerminalModeOptions::cooked()).is_ok());
}

#[test]
fn acquire_of_non_terminal_descriptor_degrades() {
    // A descriptor that is certainly not a terminal: a pipe would do; the
    // test harness gives us redirected standard streams only when run
    // headless, so use an obviously invalid descriptor value instead. The
    // query fails and the stream degrades to NonTty rather than erroring.
    let s = Stream::acquire(-1);
    assert!(matches!(s, Stream::NonTty(-1)));
}

#[test]
fn end_to_end_raw_write_restore() {
    // Construct, go raw, emit an escape and literal text, then drop: the
    // emitted bytes must be exactly the escape followed by the text, and
    // destruction must run cleanly (restoring whatever was captured).
    let mut t = ansi_terminal().unwrap();
    assert!(t.set_mode(TerminalModeOptions::raw()).is_ok());

    let mut expected: Vec<u8> = Vec::new();
    CursorEscape::PreviousLine(3).fmt(&mut expected);
    "Hay sup!".fmt(&mut expected);
    assert_eq!(expected, b"\x1b[3FHay sup!");

    // The same values through the terminal's own write path.
    assert!(t.write(&CursorEscape::PreviousLine(3)).is_ok());
    assert!(t.write("Hay sup!").is_ok());
    assert!(t.flush().is_ok());
    drop(t);
}

#[test]
fn setup_error_from_mode_set_error() {
    let inner = std::io::Error::new(std::io::ErrorKind::Other, "rejected");
    let e = TerminalSetupError::from(TerminalModeSetError::Stdin(inner));
    assert!(matches!(
        e,
        TerminalSetupError::CouldNotSetInitialTermState(TerminalModeSetError::Stdin(_))
    ));
}

#[test]
fn windows_mode_translation() {
    let raw = WindowsTerminalMode::from_options(TerminalModeOptions::raw());
    assert!(raw.disable_newline_auto_return);
    assert!(!raw.echo_input);
    assert!(!raw.line_input);
    assert!(!raw.processed_input);
    assert!(!raw.processed_output);
    assert!(!raw.wrap_at_eol_output);

    let cooked = WindowsTerminalMode::from(TerminalModeOptions::cooked());
    assert!(!cooked.disable_newline_auto_return);
    assert!(cooked.echo_input);
    assert!(cooked.line_input);
    assert!(cooked.processed_input);
    assert!(cooked.processed_output);
    assert!(cooked.wrap_at_eol_output);
}

#[test]
fn windows_flag_words() {
    let cooked = WindowsTerminalMode::from_options(TerminalModeOptions::cooked());
    assert_eq!(cooked.stdin_word(), 0x7);
    assert_eq!(cooked.stdout_word(), 0x3);
    let raw = WindowsTerminalMode::from_options(TerminalModeOptions::raw());
    assert_eq!(raw.stdin_word(), 0x0);
    assert_eq!(raw.stdout_word(), 0x8);
}

#[test]
fn windows_construction_enables_ansi_processing_once() {
    let t = WindowsAnsiTerminal::new(Some(0x7), Some(0x3));
    assert_eq!(t.stdin_state(), Some(0x7));
    // Virtual-terminal processing (0x4) is OR'd in on the output stream.
    assert_eq!(t.stdout_state(), Some(0x7));

    let redirected = WindowsAnsiTerminal::new(None, None);
    assert_eq!(redirected.stdin_state(), None);
    assert_eq!(redirected.stdout_state(), None);
}

#[test]
fn windows_round_trip_restores_queried_flags() {
    // Default console words: cooked pattern on input, processing+wrap on
    // output. Raw then cooked must land exactly where a single cooked switch
    // lands, which is the starting word again.
    let mut t = WindowsAnsiTerminal::new(Some(0x7), Some(0x3));
    t.set_mode(TerminalModeOptions::raw());
    assert_eq!(t.stdin_state(), Some(0x0));
    assert_eq!(t.stdout_state(), Some(0xc));
    t.set_mode(TerminalModeOptions::cooked());
    assert_eq!(t.stdin_state(), Some(0x7));
    assert_eq!(t.stdout_state(), Some(0x7));
}

#[test]
fn windows_mode_switch_keeps_unrelated_bits() {
    // 0x210: bits the abstraction does not manage (e.g. mouse input and
    // extended flags); they survive every switch.
    let mut t = WindowsAnsiTerminal::new(Some(0x217), Some(0x13)) ;
    t.set_mode(TerminalModeOptions::raw());
    assert_eq!(t.stdin_state(), Some(0x210));
    assert_eq!(t.stdout_state(), Some(0x1c));
    t.set_mode(TerminalModeOptions::cooked());
    assert_eq!(t.stdin_state(), Some(0x217));
    assert_eq!(t.stdout_state(), Some(0x17));
}

#[test]
fn windows_set_mode_is_idempotent() {
    let mut a = WindowsAnsiTerminal::new(Some(0x1f7), Some(0x13));
    a.set_mode(TerminalModeOptions::raw());
    let after_one = (a.stdin_state(), a.stdout_state());
    a.set_mode(TerminalModeOptions::raw());
    assert_eq!((a.stdin_state(), a.stdout_state()), after_one);
}

#[test]
fn windows_restore_reapplies_captured_words() {
    let mut t = WindowsAnsiTerminal::new(Some(0x217), Some(0x13));
    t.set_mode(TerminalModeOptions::raw());
    t.restore();
    assert_eq!(t.stdin_state(), Some(0x217));
    // Restoration is bit-for-bit to the queried word: the ANSI-processing
    // flag added at construction is not kept either.
    assert_eq!(t.stdout_state(), Some(0x13));
}

#[test]
fn windows_untouched_handle_restores_exactly() {
    let mut t = WindowsAnsiTerminal::new(Some(0x29a), Some(0x5));
    t.restore();
    assert_eq!(t.stdin_state(), Some(0x29a));
    assert_eq!(t.stdout_state(), Some(0x5));
}

#[test]
fn console_handle_additive_and_managed_updates() {
    let mut c = ConsoleHandle::from_queried_mode(0x1);
    c.set_flags(0x4);
    assert_eq!(c.current_state(), 0x5);
    c.set_managed(0x2, 0x7);
    assert_eq!(c.current_state(), 0x2);
    assert_eq!(c.captured_state(), 0x1);
    c.restore();
    assert_eq!(c.current_state(), 0x1);
}

#[test]
fn stream_handle_from_query() {
    assert!(matches!(StreamHandle::from_queried(None), StreamHandle::NonConsole));
    assert!(matches!(
        StreamHandle::from_queried(Some(0x7)),
        StreamHandle::Console(_)
    ));
}
