use vstd::prelude::*;

verus! {

/// Message severity bits reported by the driver's debug messenger.
pub const SEVERITY_VERBOSE: u32 = 0x1;
pub const SEVERITY_INFO: u32 = 0x10;
pub const SEVERITY_WARNING: u32 = 0x100;
pub const SEVERITY_ERROR: u32 = 0x1000;

/// The value the debug callback hands back to the driver: never abort the
/// call that produced the message.
pub const DEBUG_CALLBACK_CONTINUE: u32 = 0;

/// The level at which a driver message is logged.
#[derive(Debug, Clone, Copy, PartialEq, Eq, Structural)]
pub enum LogLevel {
    Info,
    Warn,
    Error,
}

pub open spec fn spec_log_level(severity: u32) -> LogLevel {
    if severity == SEVERITY_WARNING {
        LogLevel::Warn
    } else if severity == SEVERITY_ERROR {
        LogLevel::Error
    } else {
        LogLevel::Info
    }
}

/// Warnings are logged as warnings, errors as errors, everything else as
/// information.
pub fn log_level_for(severity: u32) -> (r: LogLevel)
    ensures
        r == spec_log_level(severity),
{
    if severity == SEVERITY_WARNING {
        LogLevel::Warn
    } else if severity == SEVERITY_ERROR {
        LogLevel::Error
    } else {
        LogLevel::Info
    }
}

} // verus!
