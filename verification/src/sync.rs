//! The steps of an incremental history sync with a device.
//!
//! The worker performs each `SyncAction` (talking to the device and the
//! local store) and feeds what came of it back as a `SyncInput`;
//! `sync_step` decides what happens next.

use vstd::prelude::*;
use crate::service::{plan_history_sync, records_to_download};
use crate::session::SensorEvent;
use crate::text::push_str;

verus! {

/// An error to show, with an optional suggestion.
#[derive(Debug)]
pub struct ErrorText {
    pub message: String,
    pub suggestion: Option<String>,
}

/// Where a history sync stands.
#[derive(Debug)]
pub enum SyncPhase {
    /// Checking that the local store opens.
    Start,
    /// Connecting to the device.
    Connecting,
    /// Reading how many records the device holds.
    ReadingInfo,
    /// Asking the store where to resume, with `total` records on the device.
    Planning { total: u16 },
    /// Downloading the records from `start_index` on.
    Downloading { total: u16, start_index: u16 },
    /// Saving `count` downloaded records.
    Saving { total: u16, count: usize },
    /// Finished.
    Done,
}

/// Where the store says to resume.
#[derive(Debug)]
pub enum SyncStart {
    /// The store could not be opened.
    NoStore,
    /// The store could not tell; the whole history is downloaded.
    Unknown,
    /// Resume at this 1-based record index.
    Resume(u16),
}

/// How a download ended.
#[derive(Debug)]
pub enum DownloadOutcome {
    /// This many records were downloaded.
    Records(usize),
    /// The download failed.
    Failed(ErrorText),
    /// The download took longer than five minutes.
    TimedOut,
    /// The user cancelled it.
    Cancelled,
}

/// What came of the last action.
#[derive(Debug)]
pub enum SyncInput {
    StoreChecked(Result<(), ErrorText>),
    Connected(Result<(), ErrorText>),
    InfoRead(Result<u16, ErrorText>),
    StartComputed(SyncStart),
    Downloaded(DownloadOutcome),
    /// The records were handed to the store (`store_open` is false when the
    /// store could not be opened to take them).
    Saved { store_open: bool },
}

/// What the interface is told.
#[derive(Debug)]
pub enum SyncReport {
    /// A sync started, of this many records when known.
    Started { total_records: Option<u16> },
    /// The sync failed.
    Failed(ErrorText),
    /// The download timed out.
    TimedOut,
    /// The sync finished with this many new records.
    Synced { count: usize },
    /// The user cancelled the sync.
    Cancelled,
}

/// Something the worker does next.
#[derive(Debug)]
pub enum SyncAction {
    /// Tell the interface.
    Report(SyncReport),
    /// Connect to the device, with retries.
    Connect,
    /// Read the device's history information.
    ReadInfo,
    /// Ask the store where to resume for this many records on the device.
    PlanStart { total: u16 },
    /// Download from `start_index` on; `total_records` are expected.
    Download { start_index: u16, total_records: u16 },
    /// Disconnect from the device.
    Disconnect,
    /// Store the downloaded records and remember that `total` were synced.
    SaveRecords { total: u16 },
    /// Load the stored history and send it to the interface.
    LoadStoredHistory,
}

/// The next phase and the actions after an input; an input that does not
/// belong to the phase changes nothing.
pub open spec fn sync_next(phase: SyncPhase, input: SyncInput) -> (SyncPhase, Seq<SyncAction>) {
    match (phase, input) {
        (SyncPhase::Start, SyncInput::StoreChecked(r)) => match r {
            Err(e) => (SyncPhase::Done, seq![SyncAction::Report(SyncReport::Failed(e))]),
            Ok(_) => (
                SyncPhase::Connecting,
                seq![
                    SyncAction::Report(SyncReport::Started { total_records: None }),
                    SyncAction::Connect,
                ],
            ),
        },
        (SyncPhase::Connecting, SyncInput::Connected(r)) => match r {
            Err(e) => (SyncPhase::Done, seq![SyncAction::Report(SyncReport::Failed(e))]),
            Ok(_) => (SyncPhase::ReadingInfo, seq![SyncAction::ReadInfo]),
        },
        (SyncPhase::ReadingInfo, SyncInput::InfoRead(r)) => match r {
            Err(e) => (
                SyncPhase::Done,
                seq![SyncAction::Disconnect, SyncAction::Report(SyncReport::Failed(e))],
            ),
            Ok(total) => (SyncPhase::Planning { total }, seq![SyncAction::PlanStart { total }]),
        },
        (SyncPhase::Planning { total }, SyncInput::StartComputed(s)) => match s {
            SyncStart::NoStore => (SyncPhase::Done, seq![SyncAction::Disconnect]),
            _ => {
                let start: u16 = match s {
                    SyncStart::Resume(i) => i,
                    _ => 1,
                };
                match records_to_download(start as int, total as int) {
                    None => (
                        SyncPhase::Done,
                        seq![
                            SyncAction::Disconnect,
                            SyncAction::Report(SyncReport::Synced { count: 0 }),
                            SyncAction::LoadStoredHistory,
                        ],
                    ),
                    Some(n) => (
                        SyncPhase::Downloading { total, start_index: start },
                        seq![
                            SyncAction::Report(SyncReport::Started { total_records: Some(n as u16) }),
                            SyncAction::Download { start_index: start, total_records: n as u16 },
                        ],
                    ),
                }
            },
        },
        (SyncPhase::Downloading { total, start_index }, SyncInput::Downloaded(d)) => match d {
            DownloadOutcome::Records(count) => (
                SyncPhase::Saving { total, count },
                seq![SyncAction::Disconnect, SyncAction::SaveRecords { total }],
            ),
            DownloadOutcome::Failed(e) => (
                SyncPhase::Done,
                seq![SyncAction::Disconnect, SyncAction::Report(SyncReport::Failed(e))],
            ),
            DownloadOutcome::TimedOut => (
                SyncPhase::Done,
                seq![SyncAction::Disconnect, SyncAction::Report(SyncReport::TimedOut)],
            ),
            DownloadOutcome::Cancelled => (
                SyncPhase::Done,
                seq![SyncAction::Disconnect, SyncAction::Report(SyncReport::Cancelled)],
            ),
        },
        (SyncPhase::Saving { total, count }, SyncInput::Saved { store_open }) => if store_open {
            (
                SyncPhase::Done,
                seq![
                    SyncAction::Report(SyncReport::Synced { count }),
                    SyncAction::LoadStoredHistory,
                ],
            )
        } else {
            (SyncPhase::Done, Seq::empty())
        },
        (p, _) => (p, Seq::empty()),
    }
}

/// The error that an input reports, when it belongs to the phase and tells
/// of a failure: the store check, the connection, reading the device's
/// information or the download failed.
pub open spec fn failure_of(phase: SyncPhase, input: SyncInput) -> Option<ErrorText> {
    match (phase, input) {
        (SyncPhase::Start, SyncInput::StoreChecked(Err(e))) => Some(e),
        (SyncPhase::Connecting, SyncInput::Connected(Err(e))) => Some(e),
        (SyncPhase::ReadingInfo, SyncInput::InfoRead(Err(e))) => Some(e),
        (SyncPhase::Downloading { .. }, SyncInput::Downloaded(DownloadOutcome::Failed(e))) => Some(e),
        _ => None,
    }
}

/// Whether an action reports a failure to the interface.
pub open spec fn reports_failure(a: SyncAction) -> bool {
    a matches SyncAction::Report(SyncReport::Failed(_))
}

/// A failure that the store or the device reports ends the sync and is
/// reported to the interface exactly once, with that error; no other step
/// reports a failure. A failed connection is reported and nothing else is done.
pub proof fn lemma_failures_reported_once(phase: SyncPhase, input: SyncInput)
    ensures
        failure_of(phase, input) matches Some(e) ==> {
            &&& sync_next(phase, input).0 is Done
            &&& exists|k: int|
                0 <= k < sync_next(phase, input).1.len() && #[trigger] sync_next(phase, input).1[k]
                    == SyncAction::Report(SyncReport::Failed(e)) && forall|j: int|
                    0 <= j < sync_next(phase, input).1.len() && j != k ==> !reports_failure(
                        #[trigger] sync_next(phase, input).1[j],
                    )
        },
        failure_of(phase, input) is None ==> forall|j: int|
            0 <= j < sync_next(phase, input).1.len() ==> !reports_failure(#[trigger] sync_next(phase, input).1[j]),
        input matches SyncInput::Connected(Err(e)) ==> (phase is Connecting ==> sync_next(phase, input) == (
            SyncPhase::Done,
            seq![SyncAction::Report(SyncReport::Failed(e))],
        )),
{
    let acts = sync_next(phase, input).1;
    match failure_of(phase, input) {
        Some(e) => {
            if acts.len() == 1 {
                assert(acts[0] == SyncAction::Report(SyncReport::Failed(e)));
            } else {
                assert(acts.len() == 2);
                assert(acts[1] == SyncAction::Report(SyncReport::Failed(e)));
                assert(!reports_failure(acts[0]));
            }
        },
        None => {
            assert forall|j: int| 0 <= j < acts.len() implies !reports_failure(#[trigger] acts[j]) by {
                match (phase, input) {
                    (SyncPhase::Planning { total }, SyncInput::StartComputed(st)) => {
                        match st {
                            SyncStart::NoStore => {},
                            _ => {
                                let start: u16 = match st {
                                    SyncStart::Resume(i) => i,
                                    _ => 1,
                                };
                                match records_to_download(start as int, total as int) {
                                    None => {},
                                    Some(n) => {},
                                }
                            },
                        }
                    },
                    _ => {},
                }
            }
        },
    }
}

/// The inputs `sync_step` takes: resuming at index 0 with a full device is
/// left out, as the record count would not fit.
pub open spec fn sync_input_fits(phase: SyncPhase, input: SyncInput) -> bool {
    !((phase matches SyncPhase::Planning { total } && total == u16::MAX) && (
    input matches SyncInput::StartComputed(SyncStart::Resume(i)) && i == 0))
}

/// Decides the next phase and actions of a history sync.
#[verifier::rlimit(30)]
pub fn sync_step(phase: SyncPhase, input: SyncInput) -> (r: (SyncPhase, Vec<SyncAction>))
    requires
        sync_input_fits(phase, input),
    ensures
        r.0 == sync_next(phase, input).0,
        r.1@ == sync_next(phase, input).1,
{
    let ghost expected = sync_next(phase, input);
    let mut actions: Vec<SyncAction> = Vec::new();
    let next = match (phase, input) {
        (SyncPhase::Start, SyncInput::StoreChecked(r)) => match r {
            Err(e) => {
                actions.push(SyncAction::Report(SyncReport::Failed(e)));
                SyncPhase::Done
            },
            Ok(_) => {
                actions.push(SyncAction::Report(SyncReport::Started { total_records: None }));
                actions.push(SyncAction::Connect);
                SyncPhase::Connecting
            },
        },
        (SyncPhase::Connecting, SyncInput::Connected(r)) => match r {
            Err(e) => {
                actions.push(SyncAction::Report(SyncReport::Failed(e)));
                SyncPhase::Done
            },
            Ok(_) => {
                actions.push(SyncAction::ReadInfo);
                SyncPhase::ReadingInfo
            },
        },
        (SyncPhase::ReadingInfo, SyncInput::InfoRead(r)) => match r {
            Err(e) => {
                actions.push(SyncAction::Disconnect);
                actions.push(SyncAction::Report(SyncReport::Failed(e)));
                SyncPhase::Done
            },
            Ok(total) => {
                actions.push(SyncAction::PlanStart { total });
                SyncPhase::Planning { total }
            },
        },
        (SyncPhase::Planning { total }, SyncInput::StartComputed(s)) => {
            let start: Option<u16> = match s {
                SyncStart::NoStore => None,
                SyncStart::Unknown => Some(1),
                SyncStart::Resume(i) => Some(i),
            };
            match start {
                None => {
                    actions.push(SyncAction::Disconnect);
                    SyncPhase::Done
                },
                Some(start) => match plan_history_sync(start, total) {
                    None => {
                        actions.push(SyncAction::Disconnect);
                        actions.push(SyncAction::Report(SyncReport::Synced { count: 0 }));
                        actions.push(SyncAction::LoadStoredHistory);
                        SyncPhase::Done
                    },
                    Some(n) => {
                        actions.push(SyncAction::Report(SyncReport::Started { total_records: Some(n) }));
                        actions.push(SyncAction::Download { start_index: start, total_records: n });
                        SyncPhase::Downloading { total, start_index: start }
                    },
                },
            }
        },
        (SyncPhase::Downloading { total, start_index }, SyncInput::Downloaded(d)) => match d {
            DownloadOutcome::Records(count) => {
                actions.push(SyncAction::Disconnect);
                actions.push(SyncAction::SaveRecords { total });
                SyncPhase::Saving { total, count }
            },
            DownloadOutcome::Failed(e) => {
                actions.push(SyncAction::Disconnect);
                actions.push(SyncAction::Report(SyncReport::Failed(e)));
                SyncPhase::Done
            },
            DownloadOutcome::TimedOut => {
                actions.push(SyncAction::Disconnect);
                actions.push(SyncAction::Report(SyncReport::TimedOut));
                SyncPhase::Done
            },
            DownloadOutcome::Cancelled => {
                actions.push(SyncAction::Disconnect);
                actions.push(SyncAction::Report(SyncReport::Cancelled));
                SyncPhase::Done
            },
        },
        (SyncPhase::Saving { total, count }, SyncInput::Saved { store_open }) => {
            if store_open {
                actions.push(SyncAction::Report(SyncReport::Synced { count }));
                actions.push(SyncAction::LoadStoredHistory);
            }
            SyncPhase::Done
        },
        (p, _) => p,
    };
    assert(actions@ =~= expected.1);
    (next, actions)
}

/// The message of a timed-out history download.
pub open spec fn timeout_message() -> Seq<char> {
    "History download timed out after 300s"@
}

/// The suggestion for a timed-out history download.
pub open spec fn timeout_suggestion() -> Seq<char> {
    "Large history downloads can take time. Try again or sync in smaller batches."@
}

/// The event that tells the interface about a sync of device `id`.
pub open spec fn report_event_matches(id: Seq<char>, report: SyncReport, e: SensorEvent) -> bool {
    match report {
        SyncReport::Started { total_records } => e matches SensorEvent::HistorySyncStarted {
            device_id,
            total_records: t,
        } && device_id@ == id && t == total_records,
        SyncReport::Failed(err) => e matches SensorEvent::HistorySyncError {
            device_id,
            error,
            suggestion,
        } && device_id@ == id && error == err.message && suggestion == err.suggestion,
        SyncReport::TimedOut => e matches SensorEvent::HistorySyncError {
            device_id,
            error,
            suggestion,
        } && device_id@ == id && error@ == timeout_message() && (suggestion matches Some(s)
            && s@ == timeout_suggestion()),
        SyncReport::Synced { count } => e matches SensorEvent::HistorySynced { device_id, count: c }
            && device_id@ == id && c == count,
        SyncReport::Cancelled => e matches SensorEvent::OperationCancelled { operation }
            && operation@ == "History sync for "@ + id,
    }
}

/// The event that reports a sync step of device `device_id` to the interface.
pub fn report_event(device_id: &str, report: SyncReport) -> (e: SensorEvent)
    ensures
        report_event_matches(device_id@, report, e),
{
    match report {
        SyncReport::Started { total_records } => SensorEvent::HistorySyncStarted {
            device_id: String::from_str(device_id),
            total_records,
        },
        SyncReport::Failed(err) => SensorEvent::HistorySyncError {
            device_id: String::from_str(device_id),
            error: err.message,
            suggestion: err.suggestion,
        },
        SyncReport::TimedOut => SensorEvent::HistorySyncError {
            device_id: String::from_str(device_id),
            error: String::from_str("History download timed out after 300s"),
            suggestion: Some(
                String::from_str(
                    "Large history downloads can take time. Try again or sync in smaller batches.",
                ),
            ),
        },
        SyncReport::Synced { count } => SensorEvent::HistorySynced {
            device_id: String::from_str(device_id),
            count,
        },
        SyncReport::Cancelled => {
            let mut operation = String::from_str("History sync for ");
            push_str(&mut operation, device_id);
            SensorEvent::OperationCancelled { operation }
        },
    }
}

/// A sync always ends: every phase but the last moves forward on its own
/// input, and a finished sync asks for nothing more.
pub proof fn lemma_sync_progresses(phase: SyncPhase, input: SyncInput)
    ensures
        phase is Done ==> sync_next(phase, input).0 is Done && sync_next(phase, input).1.len() == 0,
        sync_phase_rank(sync_next(phase, input).0) >= sync_phase_rank(phase),
{
}

/// The order of the phases.
pub open spec fn sync_phase_rank(p: SyncPhase) -> int {
    match p {
        SyncPhase::Start => 0,
        SyncPhase::Connecting => 1,
        SyncPhase::ReadingInfo => 2,
        SyncPhase::Planning { .. } => 3,
        SyncPhase::Downloading { .. } => 4,
        SyncPhase::Saving { .. } => 5,
        SyncPhase::Done => 6,
    }
}

/// Every download request covers exactly the records from its start index
/// to the last one on the device, and a download only starts when there is
/// something new.
pub proof fn lemma_download_covers_rest(total: u16, s: SyncStart)
    requires
        sync_input_fits(SyncPhase::Planning { total }, SyncInput::StartComputed(s)),
    ensures
        forall|k: int|
            0 <= k < sync_next(SyncPhase::Planning { total }, SyncInput::StartComputed(s)).1.len()
                ==> match #[trigger] sync_next(
                SyncPhase::Planning { total },
                SyncInput::StartComputed(s),
            ).1[k] {
                SyncAction::Download { start_index, total_records } => start_index <= total
                    && start_index + total_records == total + 1,
                _ => true,
            },
{
}

} // verus!
