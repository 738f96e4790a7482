//! Action payloads: typed inbound commands from the automation backend.
//!
//! Device-level actions carry an explicit output number; output-scoped
//! actions omit it, because the output index is bound when the handler is
//! registered on its sub-target. Port numbers in payloads are one-based
//! presentation values; converting a payload into a [`VideohubCommand`]
//! normalizes them to the zero-based convention of the bridge.

use vstd::prelude::*;

use crate::events::VideohubCommand;
use crate::ports::{spec_to_zero_based, to_zero_based};

verus! {

/// Route an input to an output (device-level).
#[derive(Debug, PartialEq)]
pub struct SetRouteAction {
    /// Output port number (one-based).
    pub output: u32,
    /// Input port number (one-based).
    pub input: u32,
}

/// Rename an input port (device-level).
#[derive(Debug, PartialEq)]
pub struct SetInputLabelAction {
    /// Input port number (one-based).
    pub input: u32,
    /// New label for the input.
    pub label: String,
}

/// Rename an output port (device-level).
#[derive(Debug, PartialEq)]
pub struct SetOutputLabelAction {
    /// Output port number (one-based).
    pub output: u32,
    /// New label for the output.
    pub label: String,
}

/// Request a lock change on an output (device-level).
#[derive(Debug, PartialEq)]
pub struct SetOutputLockAction {
    /// Output port number (one-based).
    pub output: u32,
    /// Whether to lock the output.
    pub locked: bool,
}

/// Request a take-mode change on an output (device-level).
#[derive(Debug, PartialEq)]
pub struct SetTakeModeAction {
    /// Output port number (one-based).
    pub output: u32,
    /// Whether to enable take mode.
    pub enabled: bool,
}

/// Route an input to this output (output-scoped; the output is implicit).
#[derive(Debug, PartialEq)]
pub struct SetInputAction {
    /// Input port number (one-based).
    pub input: u32,
}

/// Rename this output (output-scoped; the output is implicit).
#[derive(Debug, PartialEq)]
pub struct SetLabelAction {
    /// New label for the output.
    pub label: String,
}

/// Request a lock change on this output (output-scoped).
#[derive(Debug, PartialEq)]
pub struct SetLockAction {
    /// Whether to lock the output.
    pub locked: bool,
}

/// Request a take-mode change on this output (output-scoped).
#[derive(Debug, PartialEq)]
pub struct SetTakeModeOnThisOutputAction {
    /// Whether to enable take mode.
    pub enabled: bool,
}

impl SetRouteAction {
    /// Normalizes both one-based port numbers and forms the route command.
    pub fn into_command(self) -> (c: VideohubCommand)
        ensures
            c matches VideohubCommand::Route { output, input } && output == spec_to_zero_based(
                self.output) && input == spec_to_zero_based(self.input),
    {
        VideohubCommand::Route {
            output: to_zero_based(self.output),
            input: to_zero_based(self.input),
        }
    }
}

impl SetInputLabelAction {
    /// Normalizes the one-based input number and forms the label command.
    pub fn into_command(self) -> (c: VideohubCommand)
        ensures
            c matches VideohubCommand::InputLabel { input, label } && input == spec_to_zero_based(
                self.input) && label == self.label,
    {
        VideohubCommand::InputLabel { input: to_zero_based(self.input), label: self.label }
    }
}

impl SetOutputLabelAction {
    /// Normalizes the one-based output number and forms the label command.
    pub fn into_command(self) -> (c: VideohubCommand)
        ensures
            c matches VideohubCommand::OutputLabel { output, label } && output
                == spec_to_zero_based(self.output) && label == self.label,
    {
        VideohubCommand::OutputLabel { output: to_zero_based(self.output), label: self.label }
    }
}

impl SetOutputLockAction {
    /// Normalizes the one-based output number and forms the lock command.
    pub fn into_command(self) -> (c: VideohubCommand)
        ensures
            c matches VideohubCommand::OutputLock { output, locked } && output
                == spec_to_zero_based(self.output) && locked == self.locked,
    {
        VideohubCommand::OutputLock { output: to_zero_based(self.output), locked: self.locked }
    }
}

impl SetTakeModeAction {
    /// Normalizes the one-based output number and forms the take-mode
    /// command.
    pub fn into_command(self) -> (c: VideohubCommand)
        ensures
            c matches VideohubCommand::TakeMode { output, enabled } && output
                == spec_to_zero_based(self.output) && enabled == self.enabled,
    {
        VideohubCommand::TakeMode { output: to_zero_based(self.output), enabled: self.enabled }
    }
}

impl SetInputAction {
    /// Forms the route command for the output this handler was bound to.
    /// `output` is the zero-based index captured at registration; only the
    /// input number in the payload is one-based and gets normalized.
    pub fn into_command(self, output: u32) -> (c: VideohubCommand)
        ensures
            c matches VideohubCommand::SetInput { output: o, input } && o == output && input
                == spec_to_zero_based(self.input),
    {
        VideohubCommand::SetInput { output, input: to_zero_based(self.input) }
    }
}

impl SetLabelAction {
    /// Forms the label command for the output this handler was bound to.
    pub fn into_command(self, output: u32) -> (c: VideohubCommand)
        ensures
            c matches VideohubCommand::OutputLabel { output: o, label } && o == output && label
                == self.label,
    {
        VideohubCommand::OutputLabel { output, label: self.label }
    }
}

impl SetLockAction {
    /// Forms the lock command for the output this handler was bound to.
    pub fn into_command(self, output: u32) -> (c: VideohubCommand)
        ensures
            c matches VideohubCommand::OutputLock { output: o, locked } && o == output && locked
                == self.locked,
    {
        VideohubCommand::OutputLock { output, locked: self.locked }
    }
}

impl SetTakeModeOnThisOutputAction {
    /// Forms the take-mode command for the output this handler was bound to.
    pub fn into_command(self, output: u32) -> (c: VideohubCommand)
        ensures
            c matches VideohubCommand::TakeMode { output: o, enabled } && o == output && enabled
                == self.enabled,
    {
        VideohubCommand::TakeMode { output, enabled: self.enabled }
    }
}

} // verus!
