//! The command dispatcher: one normalized command becomes at most one
//! device message.
//!
//! Route and label commands map one-to-one onto device messages. Lock and
//! take-mode commands are accepted but produce no message: the device treats
//! those attributes as read-only telemetry, so the dispatcher records the
//! request and forwards nothing. Commands are consumed one at a time by a
//! single task, in submission order, and are never reordered or coalesced.

use vstd::prelude::*;

use crate::device::{Label, Message, Route};
use crate::events::VideohubCommand;

verus! {

/// Translates one command. Returns the message to send to the device, or
/// `None` exactly for the command kinds the device cannot apply.
pub fn dispatch_command(cmd: VideohubCommand) -> (r: Option<Message>)
    ensures
        match cmd {
            VideohubCommand::Route { output, input } => r matches Option::Some(m)
                && m matches Message::VideoOutputRouting(v) && v@ =~= seq![
                (Route { to_output: output, from_input: input }),
            ],
            VideohubCommand::SetInput { output, input } => r matches Option::Some(m)
                && m matches Message::VideoOutputRouting(v) && v@ =~= seq![
                (Route { to_output: output, from_input: input }),
            ],
            VideohubCommand::InputLabel { input, label } => r matches Option::Some(m)
                && m matches Message::InputLabels(v) && v@.len() == 1 && v@[0].id == input
                && v@[0].name == label,
            VideohubCommand::OutputLabel { output, label } => r matches Option::Some(m)
                && m matches Message::OutputLabels(v) && v@.len() == 1 && v@[0].id == output
                && v@[0].name == label,
            VideohubCommand::OutputLock { .. } => r is None,
            VideohubCommand::TakeMode { .. } => r is None,
        },
{
    match cmd {
        VideohubCommand::Route { output, input } => {
            let mut v: Vec<Route> = Vec::new();
            v.push(Route { to_output: output, from_input: input });
            Option::Some(Message::VideoOutputRouting(v))
        },
        VideohubCommand::SetInput { output, input } => {
            let mut v: Vec<Route> = Vec::new();
            v.push(Route { to_output: output, from_input: input });
            Option::Some(Message::VideoOutputRouting(v))
        },
        VideohubCommand::InputLabel { input, label } => {
            let mut v: Vec<Label> = Vec::new();
            v.push(Label { id: input, name: label });
            Option::Some(Message::InputLabels(v))
        },
        VideohubCommand::OutputLabel { output, label } => {
            let mut v: Vec<Label> = Vec::new();
            v.push(Label { id: output, name: label });
            Option::Some(Message::OutputLabels(v))
        },
        VideohubCommand::OutputLock { .. } => Option::None,
        VideohubCommand::TakeMode { .. } => Option::None,
    }
}

/// The message that asks the device to speak: the device pushes its state
/// unprompted, so a keep-alive is all a status request needs.
pub fn status_request_message() -> (r: Message)
    ensures
        r is Ping,
{
    Message::Ping
}

} // verus!
