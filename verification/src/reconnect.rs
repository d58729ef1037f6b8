//! The retry rule of an outbound connection to a peer: how attempts are
//! counted, when the dialer waits out its backoff delay, and the error it
//! gives up with.

use vstd::prelude::*;
use crate::error::RabiaError;
use crate::text::{around_number, concat, decimal_text};

verus! {

/// The count of attempts after a failed one, and whether to wait out the
/// backoff delay before going on. A failed handshake is always followed by
/// a wait; a connection that could not be opened, or timed out, is followed
/// by one only while attempts remain.
pub fn after_failed_attempt(attempts: usize, max_attempts: usize, handshake_failed: bool) -> (r: (usize, bool))
    requires
        attempts < max_attempts,
    ensures
        r.0 == attempts + 1,
        r.1 == (handshake_failed || attempts + 1 < max_attempts),
{
    let made = attempts + 1;
    (made, handshake_failed || made < max_attempts)
}

/// The error a dialer gives up with after `attempts` attempts at `addr`:
/// "Failed to connect to `addr` after `attempts` attempts".
pub fn connect_failure(addr: &str, attempts: usize) -> (r: RabiaError)
    ensures
        r matches RabiaError::Network { message: m }
            && m@ == "Failed to connect to "@ + addr@ + " after "@ + decimal_text(attempts as nat) + " attempts"@,
{
    let head = concat("Failed to connect to ", addr);
    let tail = around_number(" after ", attempts as u64, " attempts");
    let text = concat(head.as_str(), tail.as_str());
    proof {
        assert(text@ =~= "Failed to connect to "@ + addr@ + " after "@ + decimal_text(attempts as nat) + " attempts"@);
    }
    RabiaError::network(text.as_str())
}

} // verus!
