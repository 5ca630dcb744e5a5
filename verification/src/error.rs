//! Failure taxonomy for the sync engine and the classification rules the
//! orchestrator uses to pick a recovery strategy: retry class, integrity
//! detection, cursor staleness, and snapshot-id validation failures.

use vstd::prelude::*;

verus! {

/// A retry-policy bucket attached to every classified failure.
#[derive(Debug, Clone, Copy, PartialEq, Eq, Structural)]
pub enum ApiRetryClass {
    Retryable,
    Permanent,
    ReauthRequired,
}

/// The declared payload of a remote error response is carried through as an
/// opaque `serde_json::Value`; this engine never looks inside it.
#[verifier::external_type_specification]
#[verifier::external_body]
pub struct ExValue(serde_json::Value);

/// True when the pattern occurs as a contiguous substring of the text.
pub open spec fn contains_seq(hay: Seq<char>, needle: Seq<char>) -> bool {
    exists|i: int|
        0 <= i && i + needle.len() <= hay.len() && #[trigger] hay.subrange(
            i,
            i + needle.len() as int,
        ) == needle
}

/// Relies on `str::contains` with a `&str` pattern: returns true exactly when
/// the pattern occurs as a contiguous substring of the receiver.
#[verifier::external_body]
pub(crate) fn str_contains(hay: &str, needle: &str) -> (r: bool)
    ensures
        r == contains_seq(hay@, needle@),
{
    hay.contains(needle)
}

/// Character-for-character equality of two string slices.
fn str_eq(a: &str, b: &str) -> (r: bool)
    ensures
        r == (a@ == b@),
{
    let sa: String = a.to_owned();
    let sb: String = b.to_owned();
    sa == sb
}

/// The server code that reports a cursor older than the retention window.
pub open spec fn stale_cursor_code() -> Seq<char> {
    "SYNC_CURSOR_TOO_OLD"@
}

/// The server codes that report untrustworthy segment or snapshot data.
pub open spec fn is_integrity_code_spec(code: Seq<char>) -> bool {
    ||| code == "SYNC_SEGMENT_OBJECT_MISSING"@
    ||| code == "SYNC_SEGMENT_OFFSET_INVALID"@
    ||| code == "SYNC_SEGMENT_CHECKSUM_MISMATCH"@
    ||| code == "SYNC_SEGMENT_STREAM_MISMATCH"@
    ||| code == "SYNC_EVENT_INDEX_MISMATCH"@
    ||| code == "SYNC_SNAPSHOT_OBJECT_MISSING"@
    ||| code == "SYNC_SNAPSHOT_CHECKSUM_MISMATCH"@
}

/// Returns true when the given code indicates an integrity problem.
pub fn is_integrity_code(code: &str) -> (r: bool)
    ensures
        r == is_integrity_code_spec(code@),
{
    str_eq(code, "SYNC_SEGMENT_OBJECT_MISSING") || str_eq(code, "SYNC_SEGMENT_OFFSET_INVALID")
        || str_eq(code, "SYNC_SEGMENT_CHECKSUM_MISMATCH") || str_eq(
        code,
        "SYNC_SEGMENT_STREAM_MISMATCH",
    ) || str_eq(code, "SYNC_EVENT_INDEX_MISMATCH") || str_eq(code, "SYNC_SNAPSHOT_OBJECT_MISSING")
        || str_eq(code, "SYNC_SNAPSHOT_CHECKSUM_MISMATCH")
}

/// Errors that can occur during device sync operations.
#[derive(Debug)]
pub enum DeviceSyncError {
    /// Network or connection-level failure before a response was obtained,
    /// carrying the transport error's description.
    Http { message: String },
    /// A response body could not be parsed into the expected structure.
    Json { message: String },
    /// The remote service answered with a non-success status.
    Api { status: u16, code: String, message: String, details: Option<serde_json::Value> },
    /// The client detected a locally-invalid request before sending.
    InvalidRequest { message: String },
    /// A credential is absent or was rejected before a request was attempted.
    Auth { message: String },
}

impl DeviceSyncError {
    /// HTTP status of the remote answer, when the failure is a remote answer.
    pub open spec fn status_spec(&self) -> Option<u16> {
        match self {
            DeviceSyncError::Api { status, .. } => Some(*status),
            _ => None,
        }
    }

    /// The machine-readable code of a remote answer, when one is present.
    pub open spec fn code_spec(&self) -> Option<Seq<char>> {
        match self {
            DeviceSyncError::Api { code, .. } => if code@.len() == 0 {
                None
            } else {
                Some(code@)
            },
            _ => None,
        }
    }

    /// Whether the failure reports untrustworthy segment or snapshot data,
    /// whose only safe remedy is to discard the cursor and bootstrap.
    pub open spec fn is_integrity_error_spec(&self) -> bool {
        match self {
            DeviceSyncError::Api { code, .. } => is_integrity_code_spec(code@),
            _ => false,
        }
    }

    /// Whether the failure reports a cursor outside the retention window.
    pub open spec fn is_stale_cursor_spec(&self) -> bool {
        match self {
            DeviceSyncError::Api { code, .. } => code@ == stale_cursor_code(),
            _ => false,
        }
    }

    /// The retry-policy class of the failure.
    pub open spec fn retry_class_spec(&self) -> ApiRetryClass {
        match self {
            DeviceSyncError::Api { status, .. } => if *status == 401 || *status == 403 {
                ApiRetryClass::ReauthRequired
            } else if *status == 408 || *status == 409 || *status == 423 || *status == 425
                || *status == 429 {
                ApiRetryClass::Retryable
            } else if 500 <= *status && *status <= 599 {
                ApiRetryClass::Retryable
            } else {
                ApiRetryClass::Permanent
            },
            DeviceSyncError::Http { .. } => ApiRetryClass::Retryable,
            DeviceSyncError::Json { .. } => ApiRetryClass::Permanent,
            DeviceSyncError::InvalidRequest { .. } => ApiRetryClass::Permanent,
            DeviceSyncError::Auth { .. } => ApiRetryClass::ReauthRequired,
        }
    }

    /// Whether server-side validation rejected the snapshot-id format.
    pub open spec fn is_snapshot_id_validation_error_spec(&self) -> bool {
        match self {
            DeviceSyncError::Api { status, code, message, .. } => *status == 400 && (contains_seq(
                message@,
                "snapshotId"@,
            ) || contains_seq(code@, "snapshotId"@)) && (contains_seq(message@, "Invalid UUID"@)
                || contains_seq(message@, "invalid_format"@) || contains_seq(
                code@,
                "invalid_format"@,
            )),
            _ => false,
        }
    }

    /// Create an API error from status and message.
    pub fn api(status: u16, message: String) -> (e: Self)
        ensures
            e matches DeviceSyncError::Api { status: st, code, message: msg, details } && st
                == status && code@.len() == 0 && msg == message && details is None,
    {
        DeviceSyncError::Api { status, code: String::new(), message, details: None }
    }

    /// Create an API error with a structured code and details.
    pub fn api_structured(
        status: u16,
        code: String,
        message: String,
        details: Option<serde_json::Value>,
    ) -> (e: Self)
        ensures
            e matches DeviceSyncError::Api { status: st, code: c, message: msg, details: d } && st
                == status && c == code && msg == message && d == details,
    {
        DeviceSyncError::Api { status, code, message, details }
    }

    /// Create an invalid request error.
    pub fn invalid_request(message: String) -> (e: Self)
        ensures
            e matches DeviceSyncError::InvalidRequest { message: msg } && msg == message,
    {
        DeviceSyncError::InvalidRequest { message }
    }

    /// Create an auth error.
    pub fn auth(message: String) -> (e: Self)
        ensures
            e matches DeviceSyncError::Auth { message: msg } && msg == message,
    {
        DeviceSyncError::Auth { message }
    }

    /// HTTP status if this is an API error.
    pub fn status_code(&self) -> (r: Option<u16>)
        ensures
            r == self.status_spec(),
    {
        match self {
            DeviceSyncError::Api { status, .. } => Some(*status),
            _ => None,
        }
    }

    /// Machine-readable error code, if present.
    pub fn error_code(&self) -> (r: Option<&str>)
        ensures
            match r {
                Some(c) => self.code_spec() == Some(c@),
                None => self.code_spec() is None,
            },
    {
        match self {
            DeviceSyncError::Api { code, .. } => {
                if code.as_str().is_empty() {
                    None
                } else {
                    Some(code.as_str())
                }
            },
            _ => None,
        }
    }

    /// Returns true when the error code indicates an integrity problem
    /// (segment/snapshot corruption) that should trigger bootstrap.
    pub fn is_integrity_error(&self) -> (r: bool)
        ensures
            r == self.is_integrity_error_spec(),
    {
        match self {
            DeviceSyncError::Api { code, .. } => is_integrity_code(code.as_str()),
            _ => false,
        }
    }

    /// Returns true when the local cursor is too old for incremental sync.
    pub fn is_stale_cursor(&self) -> (r: bool)
        ensures
            r == self.is_stale_cursor_spec(),
    {
        match self {
            DeviceSyncError::Api { code, .. } => str_eq(code.as_str(), "SYNC_CURSOR_TOO_OLD"),
            _ => false,
        }
    }

    /// Classify error for retry policy.
    pub fn retry_class(&self) -> (r: ApiRetryClass)
        ensures
            r == self.retry_class_spec(),
    {
        match self {
            DeviceSyncError::Api { status, .. } => {
                if *status == 401 || *status == 403 {
                    ApiRetryClass::ReauthRequired
                } else if *status == 408 || *status == 409 || *status == 423 || *status == 425
                    || *status == 429 {
                    ApiRetryClass::Retryable
                } else if 500 <= *status && *status <= 599 {
                    ApiRetryClass::Retryable
                } else {
                    ApiRetryClass::Permanent
                }
            },
            DeviceSyncError::Http { .. } => ApiRetryClass::Retryable,
            DeviceSyncError::Json { .. } => ApiRetryClass::Permanent,
            DeviceSyncError::InvalidRequest { .. } => ApiRetryClass::Permanent,
            DeviceSyncError::Auth { .. } => ApiRetryClass::ReauthRequired,
        }
    }

    /// Returns true when server-side validation rejected the snapshotId
    /// UUID format.
    pub fn is_snapshot_id_validation_error(&self) -> (r: bool)
        ensures
            r == self.is_snapshot_id_validation_error_spec(),
    {
        match self {
            DeviceSyncError::Api { status, code, message, .. } => {
                *status == 400 && (str_contains(message.as_str(), "snapshotId") || str_contains(
                    code.as_str(),
                    "snapshotId",
                )) && (str_contains(message.as_str(), "Invalid UUID") || str_contains(
                    message.as_str(),
                    "invalid_format",
                ) || str_contains(code.as_str(), "invalid_format"))
            },
            _ => false,
        }
    }
}

/// Statuses 401 and 403 of a remote answer always demand reauthentication.
pub proof fn lemma_reauth_statuses(e: DeviceSyncError)
    requires
        e matches DeviceSyncError::Api { status, .. } && (status == 401 || status == 403),
    ensures
        e.retry_class_spec() is ReauthRequired,
{
}

/// Statuses 408, 409, 423, 425, 429 and the whole 500 range of a remote
/// answer are safe to retry on a later pass.
pub proof fn lemma_retryable_statuses(e: DeviceSyncError)
    requires
        e matches DeviceSyncError::Api { status, .. } && (status == 408 || status == 409 || status
            == 423 || status == 425 || status == 429 || (500 <= status && status <= 599)),
    ensures
        e.retry_class_spec() is Retryable,
{
}

/// Every other status of a remote answer is a permanent failure.
pub proof fn lemma_permanent_statuses(e: DeviceSyncError)
    requires
        e matches DeviceSyncError::Api { status, .. } && status != 401 && status != 403 && status
            != 408 && status != 409 && status != 423 && status != 425 && status != 429 && !(500
            <= status && status <= 599),
    ensures
        e.retry_class_spec() is Permanent,
{
}

/// Neither the staleness code nor an empty code counts as an integrity code.
pub proof fn lemma_integrity_codes_exclude_stale_and_empty()
    ensures
        !is_integrity_code_spec(stale_cursor_code()),
        !is_integrity_code_spec(Seq::<char>::empty()),
{
    reveal_strlit("SYNC_CURSOR_TOO_OLD");
    reveal_strlit("SYNC_SEGMENT_OBJECT_MISSING");
    reveal_strlit("SYNC_SEGMENT_OFFSET_INVALID");
    reveal_strlit("SYNC_SEGMENT_CHECKSUM_MISMATCH");
    reveal_strlit("SYNC_SEGMENT_STREAM_MISMATCH");
    reveal_strlit("SYNC_EVENT_INDEX_MISMATCH");
    reveal_strlit("SYNC_SNAPSHOT_OBJECT_MISSING");
    reveal_strlit("SYNC_SNAPSHOT_CHECKSUM_MISMATCH");
    assert(stale_cursor_code().len() == 19);
    assert("SYNC_SEGMENT_OBJECT_MISSING"@.len() == 27);
    assert("SYNC_SEGMENT_OFFSET_INVALID"@.len() == 27);
    assert("SYNC_SEGMENT_CHECKSUM_MISMATCH"@.len() == 30);
    assert("SYNC_SEGMENT_STREAM_MISMATCH"@.len() == 28);
    assert("SYNC_EVENT_INDEX_MISMATCH"@.len() == 25);
    assert("SYNC_SNAPSHOT_OBJECT_MISSING"@.len() == 28);
    assert("SYNC_SNAPSHOT_CHECKSUM_MISMATCH"@.len() == 31);
}

/// Staleness and integrity are mutually exclusive labels on one failure.
pub proof fn lemma_stale_and_integrity_exclusive(e: DeviceSyncError)
    ensures
        !(e.is_stale_cursor_spec() && e.is_integrity_error_spec()),
{
    lemma_integrity_codes_exclude_stale_and_empty();
}

} // verus!
