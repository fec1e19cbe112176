//! Decisions of nickname negotiation and of the liveness monitor that end in
//! a failure of the taxonomy.

use vstd::prelude::*;

use crate::error::Error;

verus! {

/// The nickname to try on attempt `attempt` (counting from zero), or
/// `NoUsableNick` once every candidate has been tried.
pub fn next_nickname(candidates: &Vec<String>, attempt: usize) -> (r: Result<&String, Error>)
    ensures
        attempt < candidates@.len() ==> r == Ok::<&String, Error>(&candidates@[attempt as int]),
        attempt >= candidates@.len() ==> r matches Err(Error::NoUsableNick),
{
    if attempt < candidates.len() {
        Ok(&candidates[attempt])
    } else {
        Err(Error::NoUsableNick)
    }
}

/// Whether a ping sent at `sent` has gone unanswered for the whole of
/// `window` at time `now`.
pub open spec fn ping_expired(sent: u64, now: u64, window: u64) -> bool {
    now >= sent && now - sent >= window
}

/// Checks the liveness of the connection at time `now`: with a ping sent at
/// `awaiting` and still unanswered, the connection has timed out once `window`
/// has passed since then.
pub fn check_ping(awaiting: Option<u64>, now: u64, window: u64) -> (r: Result<(), Error>)
    ensures
        match awaiting {
            Some(sent) => if ping_expired(sent, now, window) {
                r matches Err(Error::PingTimeout)
            } else {
                r is Ok
            },
            None => r is Ok,
        },
{
    match awaiting {
        Some(sent) => if now >= sent && now - sent >= window {
            Err(Error::PingTimeout)
        } else {
            Ok(())
        },
        None => Ok(()),
    }
}

} // verus!
