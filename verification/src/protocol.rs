//! The locally decidable half of the sync protocol client: the credential
//! gate that every remote operation passes through, and the interpretation
//! of a remote answer into either success or a classified failure.

use vstd::prelude::*;

use crate::error::DeviceSyncError;

verus! {

/// Every remote operation requires a stored credential; its absence
/// short-circuits locally as an auth failure, before any network call is
/// made. This is the same gate the scheduler relies on.
pub fn require_credential(token: Option<String>) -> (r: Result<String, DeviceSyncError>)
    ensures
        match r {
            Ok(t) => token matches Some(tok) && tok == t,
            Err(e) => token is None && (e matches DeviceSyncError::Auth { message } && message@
                == "No sync credential is configured"@),
        },
{
    match token {
        Some(t) => Ok(t),
        None => Err(DeviceSyncError::auth("No sync credential is configured".to_owned())),
    }
}

/// Locally validate a batch of events before pushing it to the server: the
/// batch must carry the events in strictly increasing, gapless index order,
/// starting exactly at the next index the server-confirmed cursor expects.
/// A batch that breaks the ordering is rejected here, before any network
/// call, as an invalid request.
pub fn validate_push_batch(next_expected: u64, indices: &Vec<u64>) -> (r: Result<
    (),
    DeviceSyncError,
>)
    ensures
        r is Ok <==> (forall|j: int|
            0 <= j < indices@.len() ==> indices@[j] == next_expected + j),
        r matches Err(e) ==> (e matches DeviceSyncError::InvalidRequest { message } && message@
            == "Events to push do not continue the confirmed cursor in gapless order"@),
{
    let mut i: usize = 0;
    while i < indices.len()
        invariant
            0 <= i <= indices@.len(),
            forall|j: int| 0 <= j < i ==> indices@[j] == next_expected + j,
        decreases indices@.len() - i,
    {
        let expected: u128 = next_expected as u128 + i as u128;
        if indices[i] as u128 != expected {
            return Err(
                DeviceSyncError::invalid_request(
                    "Events to push do not continue the confirmed cursor in gapless order".to_owned(),
                ),
            );
        }
        i = i + 1;
    }
    Ok(())
}

/// Interpret a remote answer: a success status carries a payload the caller
/// goes on to decode; any other status is the structured API failure the
/// classifier works on, carried through unchanged.
pub fn classify_response(
    status: u16,
    code: String,
    message: String,
    details: Option<serde_json::Value>,
) -> (r: Result<(), DeviceSyncError>)
    ensures
        200 <= status < 300 ==> r is Ok,
        !(200 <= status < 300) ==> (r matches Err(e) && (e matches DeviceSyncError::Api {
            status: st,
            code: c,
            message: m,
            details: d,
        } && st == status && c == code && m == message && d == details)),
{
    if 200 <= status && status < 300 {
        Ok(())
    } else {
        Err(DeviceSyncError::api_structured(status, code, message, details))
    }
}

} // verus!
