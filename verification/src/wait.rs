use vstd::prelude::*;

use crate::errors::ObsError;
use crate::events::EventNotification;

verus! {

/// `a + b`, saturating at the clock's maximum.
pub open spec fn sat_add(a: u64, b: u64) -> u64 {
    if a + b <= u64::MAX {
        (a + b) as u64
    } else {
        u64::MAX
    }
}

/// The engine-clock deadline of a wait begun at `now` with the given
/// timeout, in milliseconds.
pub fn compute_deadline(now: u64, timeout_ms: u64) -> (r: u64)
    ensures
        r == sat_add(now, timeout_ms),
{
    if now <= u64::MAX - timeout_ms {
        now + timeout_ms
    } else {
        u64::MAX
    }
}

/// How long a caller blocks on its private reply slot: the wait's own
/// timeout plus a small grace period that absorbs relay latency between
/// the engine's deadline check and the slot delivery.
pub fn slot_wait_ms(timeout_ms: u64) -> (r: u64)
    ensures
        r == sat_add(timeout_ms, 200),
{
    compute_deadline(timeout_ms, 200)
}

/// Checks that a resolved notification answers the identifier the caller
/// waited on; one that carries another identifier is a broken
/// correlation, surfaced as `EventManagerError`. Errors pass through
/// unchanged.
pub fn check_received(received: Result<EventNotification, ObsError>, identifier: i32) -> (r: Result<
    EventNotification,
    ObsError,
>)
    ensures
        (received matches Ok(n) ==> (if n.identifier == Some(identifier) {
            r matches Ok(m) && m == n
        } else {
            r matches Err(e) && (e matches ObsError::EventManagerError(_))
        })),
        (received matches Err(e) ==> (r matches Err(e2) && e2 == e)),
{
    match received {
        Ok(n) => {
            let matches_id = match n.identifier {
                Some(i) => i == identifier,
                None => false,
            };
            if matches_id {
                Ok(n)
            } else {
                Err(
                    ObsError::EventManagerError(
                        String::from_str("received event with incorrect identifier"),
                    ),
                )
            }
        },
        Err(e) => Err(e),
    }
}

/// Maps what the caller's payload decoder returned to the wait's final
/// outcome: a decoded payload succeeds; a decoder that declares the
/// event inapplicable surfaces as an unexpected-event-type
/// `EventManagerError`; a decode failure surfaces as `Deserialization`.
pub fn decode_outcome<T>(decoded: Result<Option<T>, ObsError>) -> (r: Result<T, ObsError>)
    ensures
        (decoded matches Ok(p) ==> (if p is Some {
            r matches Ok(q) && q == p->Some_0
        } else {
            r matches Err(e) && (e matches ObsError::EventManagerError(_))
        })),
        (decoded matches Err(_) ==> (r matches Err(e) && (e matches ObsError::Deserialization(
            _,
        )))),
{
    match decoded {
        Ok(Some(p)) => Ok(p),
        Ok(None) => Err(ObsError::EventManagerError(String::from_str("unexpected event type"))),
        Err(_) => Err(
            ObsError::Deserialization(String::from_str("failed to deserialize event payload")),
        ),
    }
}

/// The error a wait ends with when its reply slot never fills: the local
/// timeout elapsed, or the engine went away before answering.
pub fn slot_failure(timed_out: bool) -> (r: ObsError)
    ensures
        timed_out ==> r matches ObsError::Timeout(_),
        !timed_out ==> r matches ObsError::EventManagerError(_),
{
    if timed_out {
        ObsError::Timeout(String::from_str("request timed out"))
    } else {
        ObsError::EventManagerError(String::from_str("manager shutdown or disconnected"))
    }
}

} // verus!
