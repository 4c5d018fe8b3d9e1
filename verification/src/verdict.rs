//! What the gossip layer is told to do with a message.

use vstd::prelude::*;
use crate::error::{GossipMessageError, GossipMessageErrorView};

verus! {

/// What to do with a gossip message once it has been looked at.
#[derive(Clone, Copy, Debug, PartialEq, Eq)]
pub enum Action {
    /// Drop the message without forwarding it.
    Empty,
    /// Forward the bundle to the peers.
    RebroadcastBundle,
    /// Forward the execution receipt to the peers.
    RebroadcastExecutionReceipt,
}

/// The mathematical value of the outcome of handling a gossip message.
pub open spec fn verdict_view(verdict: Result<Action, GossipMessageError>) -> Result<
    Action,
    GossipMessageErrorView,
> {
    match verdict {
        Ok(action) => Ok(action),
        Err(error) => Err(error@),
    }
}

/// Copies the outcome of handling a gossip message.
pub fn duplicate_verdict(verdict: &Result<Action, GossipMessageError>) -> (copy: Result<
    Action,
    GossipMessageError,
>)
    ensures
        verdict_view(copy) == verdict_view(*verdict),
{
    match verdict {
        Ok(action) => Ok(*action),
        Err(error) => Err(error.duplicate()),
    }
}

} // verus!
