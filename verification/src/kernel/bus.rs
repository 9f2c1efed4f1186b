//! Routing on the message bus: which agents a message goes to.
//! The channels themselves are the caller's.

use vstd::prelude::*;
use crate::kernel::agent::{AgentId, AgentMessage, MessageKind};

verus! {

/// Messages each agent's channel holds.
pub const CHANNEL_BUF: usize = 256;

/// Messages the bus's own channel holds.
pub const BUS_BUF: usize = 1024;

/// Where the bus sends a message.
#[derive(Debug, Clone, Copy, PartialEq, Eq, Structural)]
pub enum Route {
    /// Tell every agent to shut down, then stop routing.
    ShutdownAll,
    /// Deliver to the one agent addressed.
    Deliver(AgentId),
    /// Deliver a copy to every agent, each addressed to it.
    Broadcast,
}

/// The route of a message of kind `kind` addressed to `to`.
pub open spec fn route_for(kind: MessageKind, to: Option<AgentId>) -> Route {
    if kind == MessageKind::Shutdown {
        Route::ShutdownAll
    } else {
        match to {
            Some(id) => Route::Deliver(id),
            None => Route::Broadcast,
        }
    }
}

/// The route of `msg`: a shutdown goes to all; otherwise to its addressee,
/// or to all when it has none.
pub fn route(msg: &AgentMessage) -> (r: Route)
    ensures
        r == route_for(msg.kind, msg.to),
{
    match msg.kind {
        MessageKind::Shutdown => Route::ShutdownAll,
        _ => match msg.to {
            Some(id) => Route::Deliver(id),
            None => Route::Broadcast,
        },
    }
}

/// Where every message goes: a shutdown to every agent, whoever it is
/// addressed to; any other message to its addressee alone, or to every
/// agent when it has none.
pub proof fn lemma_routes(kind: MessageKind, to: Option<AgentId>)
    ensures
        kind == MessageKind::Shutdown ==> route_for(kind, to) == Route::ShutdownAll,
        kind != MessageKind::Shutdown && to is Some ==> route_for(kind, to) == Route::Deliver(to->0),
        kind != MessageKind::Shutdown && to is None ==> route_for(kind, to) == Route::Broadcast,
{
}

} // verus!
