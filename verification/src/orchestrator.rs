//! The sync orchestrator: drives exactly one sync pass at a time through the
//! states start, bootstrap or incremental, applying, and committed or failed.
//!
//! The orchestrator holds the durable client state (the cursor and the
//! pending-bootstrap flag) and makes every protocol decision; the caller
//! performs the network fetches it asks for and feeds the outcomes back in.
//! The cursor advances only after a segment has been fully verified and
//! applied, and is replaced wholesale only when a bootstrap snapshot is
//! adopted.

use vstd::prelude::*;

use crate::error::DeviceSyncError;

verus! {

/// The client's durable position marker within a stream's segment and event
/// sequence: the last confirmed segment, the last confirmed event, and the
/// server-supplied staleness token.
#[derive(Debug, Clone, Copy, PartialEq, Eq, Structural)]
pub struct Cursor {
    pub segment_index: u64,
    pub event_index: u64,
    pub staleness_token: u64,
}

impl Cursor {
    /// Positions stay clear of the numeric ceiling so that the next segment
    /// and event indices can always be formed.
    pub open spec fn wf(&self) -> bool {
        self.segment_index < u64::MAX && self.event_index < u64::MAX
    }
}

/// What a snapshot download handed back: the as-of position the snapshot
/// represents, its declared checksum, and the checksum recomputed locally
/// over the downloaded bytes.
#[derive(Debug, Clone, Copy, PartialEq, Eq, Structural)]
pub struct SnapshotFetch {
    pub as_of_segment: u64,
    pub as_of_event: u64,
    pub staleness_token: u64,
    pub declared_checksum: u64,
    pub computed_checksum: u64,
    pub event_count: u64,
}

/// What a segment download handed back: its ordinal position, the event-index
/// range it covers, its declared checksum, and the checksum recomputed
/// locally over the downloaded bytes.
#[derive(Debug, Clone, Copy, PartialEq, Eq, Structural)]
pub struct SegmentFetch {
    pub segment_index: u64,
    pub first_event: u64,
    pub last_event: u64,
    pub declared_checksum: u64,
    pub computed_checksum: u64,
}

/// Where the orchestrator stands within the current pass.
#[derive(Debug, Clone, Copy, PartialEq, Eq, Structural)]
pub enum PassPhase {
    /// No pass is running.
    Idle,
    /// A bootstrap pass is waiting for a snapshot download.
    AwaitSnapshot,
    /// An incremental pass is waiting for the next segment download.
    AwaitSegment,
}

/// The next remote operation the caller must perform, or the notice that a
/// pass is already running and the request was coalesced.
#[derive(Debug, Clone, Copy, PartialEq, Eq, Structural)]
pub enum PassAction {
    FetchSnapshot,
    FetchSegment { segment_index: u64 },
    AlreadyRunning,
}

/// Outcome of one orchestrator pass: how much was applied, how it ended, and
/// the classified failure when it failed. Created per pass, not persisted.
#[derive(Debug)]
pub struct SyncResult {
    pub events_applied: u64,
    pub snapshot_applied: bool,
    pub committed: bool,
    pub error: Option<DeviceSyncError>,
}

/// What one protocol step decided: fetch another segment, or the pass ended.
#[derive(Debug)]
pub enum StepOutcome {
    Continue { next_segment_index: u64 },
    Finished { result: SyncResult },
}

/// Whether a failure value is the one recorded when local verification finds
/// corrupt or discontinuous sync data: a conflict-status remote-answer shape
/// carrying the given structured code and message, with no details payload.
pub open spec fn error_has_local_code(
    err: &Option<DeviceSyncError>,
    code: Seq<char>,
    msg: Seq<char>,
) -> bool {
    match err {
        Some(DeviceSyncError::Api { status, code: c, message: m, details }) => *status == 409
            && c@ == code && m@ == msg && details is None,
        _ => false,
    }
}

/// A step of recorded cursor history that never rewinds: every pass step
/// other than adopting a fresh bootstrap snapshot relates its cursor states
/// this way.
pub open spec fn cursor_no_rewind(pre: Option<Cursor>, post: Option<Cursor>) -> bool {
    pre matches Some(c) ==> post matches Some(d) && d.event_index >= c.event_index
        && d.segment_index >= c.segment_index
}

/// The sync orchestrator's durable state and the in-flight pass bookkeeping.
#[derive(Debug, Clone, Copy, PartialEq, Eq, Structural)]
pub struct SyncOrchestrator {
    /// The persisted cursor; absent until a first bootstrap succeeded.
    pub cursor: Option<Cursor>,
    /// Set when the previous pass ended with a stale-cursor or integrity
    /// failure: the next pass must bootstrap regardless of retry class.
    pub force_bootstrap: bool,
    /// Where the current pass stands; `Idle` between passes.
    pub phase: PassPhase,
    /// Events applied so far during the running pass.
    pub pass_events: u64,
}

impl SyncOrchestrator {
    pub open spec fn wf(&self) -> bool {
        &&& (self.cursor matches Some(c) ==> c.wf())
        &&& (self.phase is AwaitSegment ==> (self.cursor matches Some(c) && self.pass_events
            <= c.event_index + 1))
    }

    /// The remote operation a pass started in the given state asks for.
    pub open spec fn planned_action(s: SyncOrchestrator) -> PassAction {
        if !(s.phase is Idle) {
            PassAction::AlreadyRunning
        } else if s.cursor is None || s.force_bootstrap {
            PassAction::FetchSnapshot
        } else {
            PassAction::FetchSegment {
                segment_index: (s.cursor.unwrap().segment_index + 1) as u64,
            }
        }
    }

    /// Whether a fetched segment may be applied on top of the given cursor:
    /// checksums agree, it is the immediately following segment, its event
    /// range starts exactly at the next expected index without gap or
    /// overlap, and the advanced positions remain representable.
    pub open spec fn segment_accepted(c: Cursor, seg: SegmentFetch) -> bool {
        &&& seg.computed_checksum == seg.declared_checksum
        &&& seg.segment_index == c.segment_index + 1
        &&& seg.first_event == c.event_index + 1
        &&& seg.first_event <= seg.last_event
        &&& seg.last_event < u64::MAX
        &&& seg.segment_index < u64::MAX
    }

    /// A never-synced engine: no cursor, nothing forcing a bootstrap.
    pub fn new() -> (s: Self)
        ensures
            s.wf(),
            s.cursor is None,
            !s.force_bootstrap,
            s.phase is Idle,
    {
        SyncOrchestrator { cursor: None, force_bootstrap: false, phase: PassPhase::Idle, pass_events: 0 }
    }

    /// Rebuild the engine from durably persisted state, as after a restart:
    /// only the cursor and the pending-bootstrap flag survive a process end.
    pub fn resume(cursor: Option<Cursor>, force_bootstrap: bool) -> (s: Self)
        requires
            cursor matches Some(c) ==> c.wf(),
        ensures
            s.wf(),
            s.cursor == cursor,
            s.force_bootstrap == force_bootstrap,
            s.phase is Idle,
    {
        SyncOrchestrator { cursor, force_bootstrap, phase: PassPhase::Idle, pass_events: 0 }
    }

    /// Start one sync pass. A request made while a pass is in flight is
    /// coalesced: it changes nothing and is answered `AlreadyRunning`. A
    /// fresh install (no cursor) or a pending bootstrap enters bootstrap;
    /// otherwise the pass continues incrementally at the segment right after
    /// the cursor.
    pub fn begin_pass(&mut self) -> (a: PassAction)
        requires
            old(self).wf(),
        ensures
            final(self).wf(),
            a == Self::planned_action(*old(self)),
            final(self).cursor == old(self).cursor,
            final(self).force_bootstrap == old(self).force_bootstrap,
            cursor_no_rewind(old(self).cursor, final(self).cursor),
            !(old(self).phase is Idle) ==> *final(self) == *old(self),
            old(self).phase is Idle && (old(self).cursor is None || old(self).force_bootstrap)
                ==> final(self).phase is AwaitSnapshot && final(self).pass_events == 0,
            old(self).phase is Idle && old(self).cursor is Some && !old(self).force_bootstrap
                ==> final(self).phase is AwaitSegment && final(self).pass_events == 0,
    {
        match self.phase {
            PassPhase::Idle => {
                self.pass_events = 0;
                match self.cursor {
                    Some(c) => {
                        if self.force_bootstrap {
                            self.phase = PassPhase::AwaitSnapshot;
                            PassAction::FetchSnapshot
                        } else {
                            self.phase = PassPhase::AwaitSegment;
                            PassAction::FetchSegment { segment_index: c.segment_index + 1 }
                        }
                    },
                    None => {
                        self.phase = PassPhase::AwaitSnapshot;
                        PassAction::FetchSnapshot
                    },
                }
            },
            _ => PassAction::AlreadyRunning,
        }
    }

    /// Feed back a downloaded snapshot during a bootstrap pass. On a checksum
    /// mismatch the snapshot is rejected: the pass fails as retryable with a
    /// snapshot-checksum failure, and the old cursor and pending-bootstrap
    /// flag stay untouched so the next pass retries the bootstrap. On a match
    /// the cursor is replaced wholesale with the snapshot's as-of position,
    /// the pending bootstrap is cleared, and the pass commits.
    pub fn on_snapshot(&mut self, snap: SnapshotFetch) -> (r: SyncResult)
        requires
            old(self).wf(),
            old(self).phase is AwaitSnapshot,
            snap.as_of_segment < u64::MAX,
            snap.as_of_event < u64::MAX,
        ensures
            final(self).wf(),
            final(self).phase is Idle,
            snap.computed_checksum != snap.declared_checksum ==> {
                &&& final(self).cursor == old(self).cursor
                &&& final(self).force_bootstrap == old(self).force_bootstrap
                &&& !r.committed
                &&& !r.snapshot_applied
                &&& r.events_applied == 0
                &&& error_has_local_code(
                    &r.error,
                    "SYNC_SNAPSHOT_CHECKSUM_MISMATCH"@,
                    "Snapshot checksum did not match the downloaded bytes"@,
                )
            },
            snap.computed_checksum == snap.declared_checksum ==> {
                &&& final(self).cursor == Some(
                    Cursor {
                        segment_index: snap.as_of_segment,
                        event_index: snap.as_of_event,
                        staleness_token: snap.staleness_token,
                    },
                )
                &&& !final(self).force_bootstrap
                &&& r.committed
                &&& r.snapshot_applied
                &&& r.events_applied == snap.event_count
                &&& r.error is None
            },
    {
        self.phase = PassPhase::Idle;
        if snap.computed_checksum != snap.declared_checksum {
            let e = local_integrity_failure(
                "SYNC_SNAPSHOT_CHECKSUM_MISMATCH",
                "Snapshot checksum did not match the downloaded bytes",
            );
            SyncResult { events_applied: 0, snapshot_applied: false, committed: false, error: Some(e) }
        } else {
            self.cursor = Some(
                Cursor {
                    segment_index: snap.as_of_segment,
                    event_index: snap.as_of_event,
                    staleness_token: snap.staleness_token,
                },
            );
            self.force_bootstrap = false;
            SyncResult {
                events_applied: snap.event_count,
                snapshot_applied: true,
                committed: true,
                error: None,
            }
        }
    }

    /// Feed back a downloaded segment during an incremental pass. The segment
    /// is verified before anything else happens: its checksum must match the
    /// downloaded bytes, and its event range must start exactly at the next
    /// expected index. A checksum mismatch or a gap or overlap is an
    /// integrity failure: the pass ends, the cursor stays at its last
    /// committed value, and the next pass is forced to bootstrap. Only a
    /// fully verified segment advances the cursor, one segment at a time.
    pub fn on_segment(&mut self, seg: SegmentFetch) -> (out: StepOutcome)
        requires
            old(self).wf(),
            old(self).phase is AwaitSegment,
        ensures
            final(self).wf(),
            cursor_no_rewind(old(self).cursor, final(self).cursor),
            Self::segment_accepted(old(self).cursor.unwrap(), seg) ==> {
                &&& final(self).cursor == Some(
                    Cursor {
                        segment_index: seg.segment_index,
                        event_index: seg.last_event,
                        staleness_token: old(self).cursor.unwrap().staleness_token,
                    },
                )
                &&& final(self).force_bootstrap == old(self).force_bootstrap
                &&& final(self).phase is AwaitSegment
                &&& final(self).pass_events == old(self).pass_events + (seg.last_event
                    - seg.first_event + 1)
                &&& (out matches StepOutcome::Continue { next_segment_index }
                    && next_segment_index == seg.segment_index + 1)
            },
            !Self::segment_accepted(old(self).cursor.unwrap(), seg) ==> {
                &&& final(self).cursor == old(self).cursor
                &&& final(self).force_bootstrap
                &&& final(self).phase is Idle
                &&& (out matches StepOutcome::Finished { result } && (!result.committed
                    && !result.snapshot_applied && result.events_applied == old(self).pass_events
                    && (if seg.computed_checksum != seg.declared_checksum {
                        error_has_local_code(
                            &result.error,
                            "SYNC_SEGMENT_CHECKSUM_MISMATCH"@,
                            "Segment checksum did not match the downloaded bytes"@,
                        )
                    } else {
                        error_has_local_code(
                            &result.error,
                            "SYNC_EVENT_INDEX_MISMATCH"@,
                            "Segment event range does not continue the cursor position"@,
                        )
                    })))
            },
    {
        let c = match self.cursor {
            Some(c) => c,
            None => {
                proof {
                    assert(false);
                }
                Cursor { segment_index: 0, event_index: 0, staleness_token: 0 }
            },
        };
        if seg.computed_checksum != seg.declared_checksum {
            self.phase = PassPhase::Idle;
            self.force_bootstrap = true;
            let e = local_integrity_failure(
                "SYNC_SEGMENT_CHECKSUM_MISMATCH",
                "Segment checksum did not match the downloaded bytes",
            );
            StepOutcome::Finished {
                result: SyncResult {
                    events_applied: self.pass_events,
                    snapshot_applied: false,
                    committed: false,
                    error: Some(e),
                },
            }
        } else if seg.segment_index == c.segment_index + 1 && seg.first_event == c.event_index + 1
            && seg.first_event <= seg.last_event && seg.last_event < u64::MAX && seg.segment_index
            < u64::MAX {
            let applied = seg.last_event - seg.first_event + 1;
            self.pass_events = self.pass_events + applied;
            self.cursor = Some(
                Cursor {
                    segment_index: seg.segment_index,
                    event_index: seg.last_event,
                    staleness_token: c.staleness_token,
                },
            );
            StepOutcome::Continue { next_segment_index: seg.segment_index + 1 }
        } else {
            self.phase = PassPhase::Idle;
            self.force_bootstrap = true;
            let e = local_integrity_failure(
                "SYNC_EVENT_INDEX_MISMATCH",
                "Segment event range does not continue the cursor position",
            );
            StepOutcome::Finished {
                result: SyncResult {
                    events_applied: self.pass_events,
                    snapshot_applied: false,
                    committed: false,
                    error: Some(e),
                },
            }
        }
    }

    /// The server reported no further segments: the incremental pass commits
    /// at the cursor position the verified segments reached.
    pub fn on_no_more_segments(&mut self) -> (r: SyncResult)
        requires
            old(self).wf(),
            old(self).phase is AwaitSegment,
        ensures
            final(self).wf(),
            final(self).phase is Idle,
            final(self).cursor == old(self).cursor,
            final(self).force_bootstrap == old(self).force_bootstrap,
            cursor_no_rewind(old(self).cursor, final(self).cursor),
            r.committed,
            !r.snapshot_applied,
            r.events_applied == old(self).pass_events,
            r.error is None,
    {
        self.phase = PassPhase::Idle;
        SyncResult {
            events_applied: self.pass_events,
            snapshot_applied: false,
            committed: true,
            error: None,
        }
    }

    /// A remote operation of the running pass failed with a classified
    /// error: the pass ends, the cursor stays at its last committed value,
    /// and a stale-cursor or integrity failure forces the next pass to
    /// bootstrap.
    pub fn on_failure(&mut self, err: DeviceSyncError) -> (r: SyncResult)
        requires
            old(self).wf(),
            !(old(self).phase is Idle),
        ensures
            final(self).wf(),
            final(self).phase is Idle,
            final(self).cursor == old(self).cursor,
            cursor_no_rewind(old(self).cursor, final(self).cursor),
            final(self).force_bootstrap == (old(self).force_bootstrap
                || err.is_integrity_error_spec() || err.is_stale_cursor_spec()),
            !r.committed,
            !r.snapshot_applied,
            r.events_applied == old(self).pass_events,
            r.error == Some(err),
    {
        self.phase = PassPhase::Idle;
        if err.is_integrity_error() || err.is_stale_cursor() {
            self.force_bootstrap = true;
        }
        SyncResult {
            events_applied: self.pass_events,
            snapshot_applied: false,
            committed: false,
            error: Some(err),
        }
    }

    /// Abandon the running pass, as when the host process shuts down: the
    /// cursor never stands past the last durably committed segment, so
    /// tearing the pass down changes no durable state.
    pub fn abandon_pass(&mut self)
        requires
            old(self).wf(),
        ensures
            final(self).wf(),
            final(self).phase is Idle,
            final(self).cursor == old(self).cursor,
            final(self).force_bootstrap == old(self).force_bootstrap,
            cursor_no_rewind(old(self).cursor, final(self).cursor),
    {
        self.phase = PassPhase::Idle;
    }

    /// The persisted cursor, absent until a first bootstrap succeeded.
    pub fn current_cursor(&self) -> (c: Option<Cursor>)
        ensures
            c == self.cursor,
    {
        self.cursor
    }

    /// Whether the next pass is forced to bootstrap.
    pub fn needs_bootstrap(&self) -> (r: bool)
        ensures
            r == self.force_bootstrap,
    {
        self.force_bootstrap
    }

    /// Whether a pass is in flight; at most one ever is.
    pub fn pass_in_flight(&self) -> (r: bool)
        ensures
            r == !(self.phase is Idle),
    {
        match self.phase {
            PassPhase::Idle => false,
            _ => true,
        }
    }
}

/// Build the failure recorded when local verification finds corrupt or
/// discontinuous sync data; it carries the same structured code the server
/// uses for the condition, at the conflict status.
fn local_integrity_failure(code: &str, message: &str) -> (e: DeviceSyncError)
    ensures
        e matches DeviceSyncError::Api { status, code: c, message: m, details } && status == 409u16
            && c@ == code@ && m@ == message@ && details is None,
{
    DeviceSyncError::api_structured(409, code.to_owned(), message.to_owned(), None)
}

/// Cursor monotonicity: across any recorded chain of cursor states in which
/// every single step avoids rewinding — which every pass step other than
/// adopting a fresh bootstrap snapshot guarantees — the cursor's event index
/// never decreases from the first state to the last.
pub proof fn lemma_cursor_monotonic(history: Seq<Option<Cursor>>)
    requires
        history.len() >= 1,
        forall|i: int|
            0 <= i < history.len() - 1 ==> #[trigger] cursor_no_rewind(
                history[i],
                history[i + 1],
            ),
    ensures
        cursor_no_rewind(history[0], history[history.len() - 1]),
    decreases history.len(),
{
    if history.len() > 1 {
        let prefix = history.drop_last();
        assert forall|i: int| 0 <= i < prefix.len() - 1 implies #[trigger] cursor_no_rewind(
            prefix[i],
            prefix[i + 1],
        ) by {
            assert(cursor_no_rewind(history[i], history[i + 1]));
        }
        lemma_cursor_monotonic(prefix);
        let k = history.len() - 2;
        assert(cursor_no_rewind(history[k], history[k + 1]));
        assert(history[k + 1] == history[history.len() - 1]);
    }
}

/// Segment application atomicity: a pass torn down with its cursor still at
/// the last committed segment — as after a crash between verifying a segment
/// and committing it — plans exactly the same fetch on the next pass, so the
/// interrupted segment is fetched and applied again.
pub proof fn lemma_refetch_after_interruption(before: SyncOrchestrator, after: SyncOrchestrator)
    requires
        before.phase is Idle,
        after.phase is Idle,
        after.cursor == before.cursor,
        after.force_bootstrap == before.force_bootstrap,
    ensures
        SyncOrchestrator::planned_action(after) == SyncOrchestrator::planned_action(before),
{
}

} // verus!
