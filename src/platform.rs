use vstd::prelude::*;

verus! {

/// Console control event sent when the console window is closed.
pub const CTRL_CLOSE_EVENT: u32 = 2;

/// Console control event sent when the user logs off.
pub const CTRL_LOGOFF_EVENT: u32 = 5;

/// Console control event sent when the system shuts down.
pub const CTRL_SHUTDOWN_EVENT: u32 = 6;

/// The events that a console control handler reports as handled, so that the
/// process keeps running when its console goes away.
pub open spec fn is_termination_event(ctrl_type: u32) -> bool {
    ctrl_type == CTRL_CLOSE_EVENT || ctrl_type == CTRL_LOGOFF_EVENT || ctrl_type
        == CTRL_SHUTDOWN_EVENT
}

/// The verdict of the console control handler, as the operating system reads it:
/// `1` ("handled") for the close, logoff and shutdown events, `0` ("not handled",
/// the default processing applies) for every other event.
pub fn ctrl_handler_verdict(ctrl_type: u32) -> (r: i32)
    ensures
        is_termination_event(ctrl_type) ==> r == 1,
        !is_termination_event(ctrl_type) ==> r == 0,
{
    if ctrl_type == CTRL_CLOSE_EVENT || ctrl_type == CTRL_LOGOFF_EVENT || ctrl_type
        == CTRL_SHUTDOWN_EVENT {
        1
    } else {
        0
    }
}

/// Argument of `GetStdHandle` that selects the standard output handle (`-11`).
pub const STD_OUTPUT_HANDLE: u32 = 0xFFFF_FFF5;

/// Console output mode flag that makes the console act on ANSI escape sequences
/// instead of printing them.
pub const ENABLE_VIRTUAL_TERMINAL_PROCESSING: u32 = 0x0004;

/// The console mode with escape-sequence interpretation switched on and every
/// other flag kept.
pub open spec fn virtual_terminal_mode(mode: u32) -> u32 {
    mode | ENABLE_VIRTUAL_TERMINAL_PROCESSING
}

/// What came of reading the display mode of standard output.
#[derive(Clone, Copy, Debug, PartialEq, Eq, Structural)]
pub enum ConsoleProbe {
    /// No standard output handle could be obtained.
    NoHandle,
    /// A handle was obtained, but it has no console mode (no console, or output
    /// redirected to a file or a pipe).
    ReadFailed,
    /// The console's current display-mode flags.
    Mode(u32),
}

/// The mode to write back after a probe: none where nothing could be read.
pub open spec fn mode_to_write_spec(probe: ConsoleProbe) -> Option<u32> {
    match probe {
        ConsoleProbe::Mode(m) => Some(virtual_terminal_mode(m)),
        _ => None,
    }
}

/// Sets the escape-sequence flag in a console mode and keeps all other flags.
pub fn with_virtual_terminal(mode: u32) -> (r: u32)
    ensures
        r == virtual_terminal_mode(mode),
        r & ENABLE_VIRTUAL_TERMINAL_PROCESSING == ENABLE_VIRTUAL_TERMINAL_PROCESSING,
        r & !ENABLE_VIRTUAL_TERMINAL_PROCESSING == mode & !ENABLE_VIRTUAL_TERMINAL_PROCESSING,
{
    let r = mode | ENABLE_VIRTUAL_TERMINAL_PROCESSING;
    assert(r & 4u32 == 4u32 && r & !4u32 == mode & !4u32) by (bit_vector)
        requires
            r == mode | 4u32,
    ;
    r
}

/// Decides, from what reading standard output's mode gave, which mode to write
/// back: the same flags with escape-sequence interpretation on, or nothing at all
/// when there is no handle or no console behind it.
pub fn mode_to_write(probe: ConsoleProbe) -> (r: Option<u32>)
    ensures
        r == mode_to_write_spec(probe),
{
    match probe {
        ConsoleProbe::Mode(m) => Some(with_virtual_terminal(m)),
        ConsoleProbe::NoHandle => None,
        ConsoleProbe::ReadFailed => None,
    }
}

/// Enabling escape sequences a second time writes the mode the first time wrote:
/// on a console whose mode the first call set, the second writes that same mode.
pub proof fn lemma_enable_idempotent(mode: u32)
    ensures
        virtual_terminal_mode(virtual_terminal_mode(mode)) == virtual_terminal_mode(mode),
        mode_to_write_spec(ConsoleProbe::Mode(virtual_terminal_mode(mode)))
            == mode_to_write_spec(ConsoleProbe::Mode(mode)),
{
    assert((mode | 4u32) | 4u32 == mode | 4u32) by (bit_vector);
}

/// Enabling escape sequences changes no flag but its own: every other flag of
/// the written mode is the flag that was read, and a flag that was already on
/// stays on.
pub proof fn lemma_enable_changes_only_its_flag(mode: u32)
    ensures
        virtual_terminal_mode(mode) & !ENABLE_VIRTUAL_TERMINAL_PROCESSING == mode
            & !ENABLE_VIRTUAL_TERMINAL_PROCESSING,
        virtual_terminal_mode(mode) & mode == mode,
{
    assert((mode | 4u32) & !4u32 == mode & !4u32 && (mode | 4u32) & mode == mode) by (bit_vector);
}

/// Without a console (no handle, or output that is not a console) nothing is
/// written.
pub proof fn lemma_no_console_no_write(probe: ConsoleProbe)
    requires
        !(probe is Mode),
    ensures
        mode_to_write_spec(probe) is None,
{
}

/// Enables interpretation of ANSI escape sequences on standard output.
///
/// Where the process has no console host whose mode must be switched, there is
/// nothing to do: the call changes nothing, cannot fail and returns at once.
pub fn enable_virtual_terminal_processing() {
}

/// Installs a console control handler that keeps the process alive when its
/// console is closed, the user logs off or the system shuts down.
///
/// Where the process has no console host to register with, the call changes
/// nothing, cannot fail and returns at once.
pub fn install_console_ctrl_handler() {
}

} // verus!
