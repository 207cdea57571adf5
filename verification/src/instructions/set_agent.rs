//! Handing the agent's role to another identity.

use vstd::prelude::*;
use crate::error::AuctionError;
use crate::identity::Identity;
use crate::state::AuctionState;

verus! {

/// What a change of agent works on.
#[derive(Clone, Copy, Debug, PartialEq, Eq)]
pub struct SetAgent {
    pub auction_state: AuctionState,
    /// The authenticated caller.
    pub agent: Identity,
    /// The identity that becomes the agent. It is stored as given and does
    /// not have to accept.
    pub new_agent: Identity,
}

impl SetAgent {
    /// Why the change is rejected, if it is.
    pub open spec fn rejection(self) -> Option<AuctionError> {
        if self.auction_state.agent != self.agent {
            Some(AuctionError::OnlyAgent)
        } else {
            None
        }
    }

    /// The records after the role was handed over.
    pub open spec fn handed_over(self) -> SetAgent {
        SetAgent {
            auction_state: AuctionState { agent: self.new_agent, ..self.auction_state },
            ..self
        }
    }
}

/// Makes `new_agent` the agent, with immediate effect. A rejected change
/// changes nothing.
pub fn handler(ctx: &mut SetAgent) -> (r: Result<(), AuctionError>)
    ensures
        match r {
            Ok(()) => {
                &&& old(ctx).rejection() is None
                &&& *final(ctx) == old(ctx).handed_over()
            },
            Err(e) => {
                &&& old(ctx).rejection() == Some(e)
                &&& *final(ctx) == *old(ctx)
            },
        },
{
    if ctx.auction_state.agent != ctx.agent {
        return Err(AuctionError::OnlyAgent);
    }
    ctx.auction_state.agent = ctx.new_agent;
    Ok(())
}

} // verus!
