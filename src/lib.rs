use vstd::prelude::*;

pub mod platform;

verus! {

pub use crate::platform::{
    ctrl_handler_verdict,
    enable_virtual_terminal_processing,
    install_console_ctrl_handler,
    mode_to_write,
    with_virtual_terminal,
    ConsoleProbe,
    CTRL_CLOSE_EVENT,
    CTRL_LOGOFF_EVENT,
    CTRL_SHUTDOWN_EVENT,
    ENABLE_VIRTUAL_TERMINAL_PROCESSING,
    STD_OUTPUT_HANDLE,
};

} // verus!
