//! Client-side engine for synchronizing an event-sourced local store with a
//! remote cloud service: failure classification, the segment/snapshot sync
//! protocol, cursor recovery logic, and the periodic trigger that drives it.

mod error;
mod features;
mod orchestrator;
mod protocol;
mod scheduler;

pub use features::ClientGateError;
pub use features::ConnectService;
pub use features::PlatformCapabilities;
pub use features::PlatformInfo;
pub use features::cloud_sync_enabled;
pub use features::connect_sync_enabled;
pub use features::connect_sync_supported;
pub use features::device_sync_enabled;
pub use features::device_sync_supported;
pub use features::is_cloud_sync_enabled;
pub use features::is_connect_sync_enabled;
pub use features::is_desktop;
pub use features::is_device_sync_enabled;
pub use features::is_mobile;
pub use features::mobile_target;

pub use protocol::classify_response;
pub use protocol::require_credential;
pub use protocol::validate_push_batch;

pub use scheduler::INITIAL_DELAY_SECS;
pub use scheduler::SYNC_INTERVAL_SECS;
pub use scheduler::ScheduledOutcomeLog;
pub use scheduler::SyncScheduler;
pub use scheduler::classify_scheduled_outcome;
pub use scheduler::expected_auth_failure;
pub use scheduler::is_expected_auth_failure;
pub use scheduler::scheduled_pass_runs;
pub use scheduler::start_broker_sync_scheduler;

pub use orchestrator::Cursor;
pub use orchestrator::PassAction;
pub use orchestrator::PassPhase;
pub use orchestrator::SegmentFetch;
pub use orchestrator::SnapshotFetch;
pub use orchestrator::StepOutcome;
pub use orchestrator::SyncOrchestrator;
pub use orchestrator::SyncResult;
pub use orchestrator::cursor_no_rewind;
pub use orchestrator::error_has_local_code;
pub use orchestrator::lemma_cursor_monotonic;
pub use orchestrator::lemma_refetch_after_interruption;

pub use error::ApiRetryClass;
pub use error::DeviceSyncError;
pub use error::contains_seq;
pub use error::is_integrity_code;
pub use error::is_integrity_code_spec;
pub use error::stale_cursor_code;
pub use error::lemma_reauth_statuses;
pub use error::lemma_retryable_statuses;
pub use error::lemma_permanent_statuses;
pub use error::lemma_integrity_codes_exclude_stale_and_empty;
pub use error::lemma_stale_and_integrity_exclusive;
