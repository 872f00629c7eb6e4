//! The decision a handle operation makes after waiting for the actor.
//!
//! A handle call sends one message into the actor's mailbox and waits on a
//! single-use reply channel. The channel work itself is the shell's; what
//! the shell hands back is whether a reply arrived at all. The verdict on
//! that outcome is verified here: a reply is passed through unchanged, and a
//! missing reply — the mailbox or the reply channel was closed because the
//! core shut down — becomes [`GatewayUnavailable`], never anything else.

use vstd::prelude::*;

use crate::errors::GatewayUnavailable;

verus! {

/// Turn the outcome of one mailbox round-trip into the caller's result. The
/// call succeeds exactly when a reply arrived, and the reply is returned as
/// it came; a closed mailbox yields [`GatewayUnavailable`], deterministically.
pub fn reply_or_unavailable<T>(outcome: Option<T>) -> (r: Result<T, GatewayUnavailable>)
    ensures
        outcome matches Some(v) ==> r == Result::<T, GatewayUnavailable>::Ok(v),
        outcome matches None ==> r == Result::<T, GatewayUnavailable>::Err(GatewayUnavailable),
{
    match outcome {
        Some(v) => Ok(v),
        None => Err(GatewayUnavailable),
    }
}

} // verus!
