//! The two ways in which the controller can fail, and their union.

use vstd::prelude::*;
use vstd::std_specs::convert::FromSpecImpl;
use crate::flag::Flag;

verus! {

/// The operating system refused raw access to an I/O port.
#[derive(Debug, Clone, Copy, PartialEq, Eq, Structural)]
pub struct FailedToSetIOPermissionError {
    /// The port that access was requested for.
    pub port: u16,
    /// The raw status that the request returned.
    pub return_value: i32,
}

impl FailedToSetIOPermissionError {
    pub fn new(port: u16, return_value: i32) -> (e: FailedToSetIOPermissionError)
        ensures
            e.port == port,
            e.return_value == return_value,
    {
        FailedToSetIOPermissionError { port, return_value }
    }
}

/// A status flag did not reach the wanted state in time.
#[derive(Debug, Clone, Copy, PartialEq, Eq, Structural)]
pub struct CommandFlagWaitTimedOutError {
    /// The flag that was waited for.
    pub flag: Flag,
    /// The state that it was waited to reach: `true` for on.
    pub on: bool,
}

impl CommandFlagWaitTimedOutError {
    pub fn new(flag: Flag, on: bool) -> (e: CommandFlagWaitTimedOutError)
        ensures
            e.flag == flag,
            e.on == on,
    {
        CommandFlagWaitTimedOutError { flag, on }
    }
}

/// Every error that stops the controller.
#[derive(Debug, Clone, Copy, PartialEq, Eq, Structural)]
pub enum RunError {
    FailedToSetIOPermissionError(FailedToSetIOPermissionError),
    CommandFlagWaitTimedOutError(CommandFlagWaitTimedOutError),
}

impl From<FailedToSetIOPermissionError> for RunError {
    fn from(err: FailedToSetIOPermissionError) -> (e: RunError) {
        RunError::FailedToSetIOPermissionError(err)
    }
}

impl FromSpecImpl<FailedToSetIOPermissionError> for RunError {
    open spec fn obeys_from_spec() -> bool {
        true
    }

    open spec fn from_spec(err: FailedToSetIOPermissionError) -> RunError {
        RunError::FailedToSetIOPermissionError(err)
    }
}

impl From<CommandFlagWaitTimedOutError> for RunError {
    fn from(err: CommandFlagWaitTimedOutError) -> (e: RunError) {
        RunError::CommandFlagWaitTimedOutError(err)
    }
}

impl FromSpecImpl<CommandFlagWaitTimedOutError> for RunError {
    open spec fn obeys_from_spec() -> bool {
        true
    }

    open spec fn from_spec(err: CommandFlagWaitTimedOutError) -> RunError {
        RunError::CommandFlagWaitTimedOutError(err)
    }
}

} // verus!
