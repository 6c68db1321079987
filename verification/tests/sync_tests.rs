use aranet_cli::circuit::{CircuitBreaker, CircuitState};
use aranet_cli::service::{
    missing_client_event, status_reply_event, status_request_gate, ServiceError,
    ServiceStatusReply,
};
use aranet_cli::session::SensorEvent;
use aranet_cli::sync::{
    report_event, sync_step, DownloadOutcome, ErrorText, SyncAction, SyncInput, SyncPhase,
    SyncReport, SyncStart,
};

fn err(msg: &str) -> ErrorText {
    ErrorText { message: msg.to_string(), suggestion: None }
}

#[test]
fn full_incremental_sync() {
    let (p, a) = sync_step(SyncPhase::Start, SyncInput::StoreChecked(Ok(())));
    assert!(matches!(p, SyncPhase::Connecting));
    assert!(matches!(a.as_slice(), [SyncAction::Report(SyncReport::Started { total_records: None }), SyncAction::Connect]));
    let (p, a) = sync_step(p, SyncInput::Connected(Ok(())));
    assert!(matches!(p, SyncPhase::ReadingInfo));
    assert!(matches!(a.as_slice(), [SyncAction::ReadInfo]));
    let (p, a) = sync_step(p, SyncInput::InfoRead(Ok(500)));
    assert!(matches!(p, SyncPhase::Planning { total: 500 }));
    assert!(matches!(a.as_slice(), [SyncAction::PlanStart { total: 500 }]));
    let (p, a) = sync_step(p, SyncInput::StartComputed(SyncStart::Resume(451)));
    assert!(matches!(p, SyncPhase::Downloading { total: 500, start_index: 451 }));
    assert!(matches!(
        a.as_slice(),
        [SyncAction::Report(SyncReport::Started { total_records: Some(50) }), SyncAction::Download { start_index: 451, total_records: 50 }]
    ));
    let (p, a) = sync_step(p, SyncInput::Downloaded(DownloadOutcome::Records(50)));
    assert!(matches!(p, SyncPhase::Saving { total: 500, count: 50 }));
    assert!(matches!(a.as_slice(), [SyncAction::Disconnect, SyncAction::SaveRecords { total: 500 }]));
    let (p, a) = sync_step(p, SyncInput::Saved { store_open: true });
    assert!(matches!(p, SyncPhase::Done));
    assert!(matches!(a.as_slice(), [SyncAction::Report(SyncReport::Synced { count: 50 }), SyncAction::LoadStoredHistory]));
}

#[test]
fn up_to_date_and_unknown_start() {
    let (p, a) = sync_step(SyncPhase::Planning { total: 10 }, SyncInput::StartComputed(SyncStart::Resume(11)));
    assert!(matches!(p, SyncPhase::Done));
    assert!(matches!(
        a.as_slice(),
        [SyncAction::Disconnect, SyncAction::Report(SyncReport::Synced { count: 0 }), SyncAction::LoadStoredHistory]
    ));
    let (_, a) = sync_step(SyncPhase::Planning { total: 10 }, SyncInput::StartComputed(SyncStart::Unknown));
    assert!(matches!(a.as_slice(), [_, SyncAction::Download { start_index: 1, total_records: 10 }]));
    let (p, a) = sync_step(SyncPhase::Planning { total: 10 }, SyncInput::StartComputed(SyncStart::NoStore));
    assert!(matches!(p, SyncPhase::Done));
    assert!(matches!(a.as_slice(), [SyncAction::Disconnect]));
}

#[test]
fn failures_end_the_sync() {
    let (p, a) = sync_step(SyncPhase::Start, SyncInput::StoreChecked(Err(err("Failed to open store"))));
    assert!(matches!(p, SyncPhase::Done));
    assert!(matches!(a.as_slice(), [SyncAction::Report(SyncReport::Failed(e))] if e.message == "Failed to open store"));
    let (_, a) = sync_step(SyncPhase::ReadingInfo, SyncInput::InfoRead(Err(err("x"))));
    assert!(matches!(a.as_slice(), [SyncAction::Disconnect, SyncAction::Report(SyncReport::Failed(_))]));
    let (_, a) = sync_step(
        SyncPhase::Downloading { total: 5, start_index: 1 },
        SyncInput::Downloaded(DownloadOutcome::TimedOut),
    );
    assert!(matches!(a.as_slice(), [SyncAction::Disconnect, SyncAction::Report(SyncReport::TimedOut)]));
    let (_, a) = sync_step(
        SyncPhase::Downloading { total: 5, start_index: 1 },
        SyncInput::Downloaded(DownloadOutcome::Cancelled),
    );
    assert!(matches!(a.as_slice(), [SyncAction::Disconnect, SyncAction::Report(SyncReport::Cancelled)]));
    let (p, a) = sync_step(SyncPhase::Saving { total: 5, count: 5 }, SyncInput::Saved { store_open: false });
    assert!(matches!(p, SyncPhase::Done));
    assert!(a.is_empty());
    // An input that does not belong to the phase changes nothing.
    let (p, a) = sync_step(SyncPhase::Connecting, SyncInput::Saved { store_open: true });
    assert!(matches!(p, SyncPhase::Connecting));
    assert!(a.is_empty());
}

#[test]
fn reports_become_events() {
    let e = report_event("dev", SyncReport::TimedOut);
    assert!(matches!(e, SensorEvent::HistorySyncError { ref device_id, ref error, suggestion: Some(ref s) }
        if device_id == "dev"
            && error == "History download timed out after 300s"
            && s == "Large history downloads can take time. Try again or sync in smaller batches."));
    let e = report_event("dev", SyncReport::Cancelled);
    assert!(matches!(e, SensorEvent::OperationCancelled { ref operation } if operation == "History sync for dev"));
    let e = report_event("dev", SyncReport::Synced { count: 7 });
    assert!(matches!(e, SensorEvent::HistorySynced { ref device_id, count: 7 } if device_id == "dev"));
    let e = report_event("dev", SyncReport::Failed(ErrorText { message: "m".to_string(), suggestion: Some("s".to_string()) }));
    assert!(matches!(e, SensorEvent::HistorySyncError { ref error, suggestion: Some(ref s), .. } if error == "m" && s == "s"));
}

#[test]
fn service_status_through_breaker() {
    let mut cb = CircuitBreaker::new();
    assert!(status_request_gate(&mut cb).is_none());
    for _ in 0..3 {
        let e = status_reply_event(&mut cb, Err(ServiceError::InvalidUrl("x".to_string())));
        assert!(matches!(e, SensorEvent::ServiceStatusRefreshed { reachable: false, collector_running: false, uptime_seconds: None, ref devices } if devices.is_empty()));
    }
    assert_eq!(cb.state(), CircuitState::Open);
    let gated = status_request_gate(&mut cb);
    assert!(matches!(gated, Some(SensorEvent::ServiceStatusRefreshed { reachable: false, collector_running: false, uptime_seconds: None, ref devices }) if devices.is_empty()));
    let e = status_reply_event(
        &mut cb,
        Ok(ServiceStatusReply { collector_running: true, uptime_seconds: Some(5), devices: Vec::new() }),
    );
    assert!(matches!(e, SensorEvent::ServiceStatusRefreshed { reachable: true, collector_running: true, uptime_seconds: Some(5), .. }));
    assert_eq!(cb.state(), CircuitState::Closed);
    let e = missing_client_event("http://x");
    assert!(matches!(e, SensorEvent::ServiceStatusError { ref error }
        if error == "Service client not initialized. Check if the service URL 'http://x' is valid."));
}
