//! What an inform frame carries: a command from the controller, or the report
//! of a gateway.

pub mod command;
pub mod gateway;
pub mod json;
pub mod net;
pub mod stats;

use crate::inform::payload::command::{OpnFiInformPayloadCommand, OpnFiInformPayloadNoOpCommand};
use crate::inform::payload::gateway::OpnFiInformGatewayPayload;
use vstd::prelude::*;

verus! {

/// The payload of an inform frame.
#[derive(PartialEq, Clone, Debug)]
pub enum OpnFiInformPayload {
    Command(OpnFiInformPayloadCommand),
    Gateway(OpnFiInformGatewayPayload),
}

impl Default for OpnFiInformPayload {
    /// The command to inform again after 10 seconds.
    fn default() -> (r: Self)
        ensures
            r matches OpnFiInformPayload::Command(OpnFiInformPayloadCommand::NoOp(noop))
                && noop.interval == 10,
    {
        OpnFiInformPayload::Command(
            OpnFiInformPayloadCommand::NoOp(OpnFiInformPayloadNoOpCommand::default()),
        )
    }
}

} // verus!
