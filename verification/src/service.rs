//! Talking to the background collector service: user-facing error
//! messages, interpreting the service command's output, planning an
//! incremental history sync and pacing the automatic refresh.

use std::time::Instant;
use vstd::prelude::*;
use crate::circuit::{CircuitBreaker, CircuitState};
use crate::clock::{instant_now, nanos_since};
use crate::session::{SensorEvent, ServiceDeviceStats, ServiceMonitoredDevice};
use crate::text::{contains, dec, has_substring, push_dec, push_str, trim_text, trimmed};

verus! {

/// What went wrong when calling the service.
#[derive(Debug, Clone)]
pub enum ServiceError {
    /// The service could not be reached at this URL.
    NotReachable { url: String },
    /// The configured URL is not valid.
    InvalidUrl(String),
    /// The service answered with an error status.
    Api { status: u16, message: String },
    /// The request failed; `text` describes the failure.
    Request { timed_out: bool, connect_failed: bool, text: String },
}

/// The message for an API error status: authentication, permission and
/// missing-endpoint statuses get fixed texts (`not_found` for 404), server
/// errors and other statuses show the status and the service's message.
pub open spec fn api_error_text(status: u16, message: Seq<char>, not_found: Seq<char>) -> Seq<char> {
    if status == 401 {
        "Authentication required. Check your API key."@
    } else if status == 403 {
        "Access denied. Check your API key permissions."@
    } else if status == 404 {
        not_found
    } else if 500 <= status <= 599 {
        "Service error ("@ + dec(status as nat) + "): "@ + message
    } else {
        "API error ("@ + dec(status as nat) + "): "@ + message
    }
}

/// The user-facing message for a service error, with `not_found` as the text
/// for a missing endpoint.
pub open spec fn service_error_text(e: ServiceError, not_found: Seq<char>) -> Seq<char> {
    match e {
        ServiceError::NotReachable { url } => "Service not reachable at "@ + url@
            + ". Run 'aranet-service run' to start it."@,
        ServiceError::InvalidUrl(url) => "Invalid service URL: '"@ + url@
            + "'. Check your configuration."@,
        ServiceError::Api { status, message } => api_error_text(status, message@, not_found),
        ServiceError::Request { timed_out, connect_failed, text } => if timed_out {
            "Request timed out. The service may be overloaded."@
        } else if connect_failed {
            "Connection failed. The service may not be running."@
        } else {
            "Request failed: "@ + text@
        },
    }
}

fn service_error_message(e: &ServiceError, not_found: &str) -> (r: String)
    ensures
        r@ == service_error_text(*e, not_found@),
{
    match e {
        ServiceError::NotReachable { url } => {
            let mut s = String::from_str("Service not reachable at ");
            push_str(&mut s, url.as_str());
            push_str(&mut s, ". Run 'aranet-service run' to start it.");
            s
        },
        ServiceError::InvalidUrl(url) => {
            let mut s = String::from_str("Invalid service URL: '");
            push_str(&mut s, url.as_str());
            push_str(&mut s, "'. Check your configuration.");
            s
        },
        ServiceError::Api { status, message } => {
            let status = *status;
            if status == 401 {
                String::from_str("Authentication required. Check your API key.")
            } else if status == 403 {
                String::from_str("Access denied. Check your API key permissions.")
            } else if status == 404 {
                String::from_str(not_found)
            } else if 500 <= status && status <= 599 {
                let mut s = String::from_str("Service error (");
                push_dec(&mut s, status as u64);
                push_str(&mut s, "): ");
                push_str(&mut s, message.as_str());
                s
            } else {
                let mut s = String::from_str("API error (");
                push_dec(&mut s, status as u64);
                push_str(&mut s, "): ");
                push_str(&mut s, message.as_str());
                s
            }
        },
        ServiceError::Request { timed_out, connect_failed, text } => {
            if *timed_out {
                String::from_str("Request timed out. The service may be overloaded.")
            } else if *connect_failed {
                String::from_str("Connection failed. The service may not be running.")
            } else {
                let mut s = String::from_str("Request failed: ");
                push_str(&mut s, text.as_str());
                s
            }
        },
    }
}

/// Formats a service error into a user-friendly message.
pub fn format_service_error(e: &ServiceError) -> (r: String)
    ensures
        r@ == service_error_text(*e, "Endpoint not found. The service may be an older version."@),
{
    service_error_message(e, "Endpoint not found. The service may be an older version.")
}

/// Whether the system service is installed and running, from the exit status
/// and output of its `status` command: running when the output mentions
/// `running`, installed when the command succeeded or the output mentions
/// `stopped`.
pub fn service_status_from_output(success: bool, stdout: &str) -> (r: (bool, bool))
    ensures
        r == (success || has_substring(stdout@, "stopped"@), has_substring(stdout@, "running"@)),
{
    let running = contains(stdout, "running");
    let installed = success || contains(stdout, "stopped");
    (installed, running)
}

/// Arguments of a service command: `service`, the action, and `--user` for
/// a per-user service.
pub fn service_command_args(action: &str, user_level: bool) -> (r: Vec<String>)
    ensures
        r@.map_values(|s: String| s@) == (if user_level {
            seq!["service"@, action@, "--user"@]
        } else {
            seq!["service"@, action@]
        }),
{
    let mut v: Vec<String> = Vec::new();
    v.push(String::from_str("service"));
    v.push(String::from_str(action));
    if user_level {
        v.push(String::from_str("--user"));
    }
    assert(v@.map_values(|s: String| s@) =~= (if user_level {
        seq!["service"@, action@, "--user"@]
    } else {
        seq!["service"@, action@]
    }));
    v
}

/// The number of records to download in an incremental history sync that
/// starts at record `start_index` (1-based) of `total_on_device`, or `None`
/// when the local copy is already up to date.
pub open spec fn records_to_download(start_index: int, total_on_device: int) -> Option<int> {
    if start_index > total_on_device {
        None
    } else {
        Some(total_on_device - start_index + 1)
    }
}

/// Plans an incremental history sync.
pub fn plan_history_sync(start_index: u16, total_on_device: u16) -> (r: Option<u16>)
    requires
        !(start_index == 0 && total_on_device == u16::MAX),
    ensures
        match records_to_download(start_index as int, total_on_device as int) {
            Some(n) => r == Some(n as u16),
            None => r is None,
        },
{
    if start_index > total_on_device {
        None
    } else {
        Some(total_on_device.saturating_sub(start_index) + 1)
    }
}

/// The shortest positive value of `intervals`, or `None` when none is positive.
pub open spec fn min_positive(intervals: Seq<u16>) -> Option<u16>
    decreases intervals.len(),
{
    if intervals.len() == 0 {
        None
    } else {
        let rest = min_positive(intervals.drop_last());
        let x = intervals.last();
        if x == 0 {
            rest
        } else {
            match rest {
                None => Some(x),
                Some(m) => if x < m { Some(x) } else { Some(m) },
            }
        }
    }
}

/// The refresh interval in seconds: the shortest positive measurement
/// interval among the connected devices, or 60 when there is none.
pub open spec fn refresh_interval(intervals: Seq<u16>) -> nat {
    match min_positive(intervals) {
        Some(m) => m as nat,
        None => 60,
    }
}

proof fn lemma_min_positive_is_least(intervals: Seq<u16>)
    ensures
        min_positive(intervals) is Some <==> exists|k: int| 0 <= k < intervals.len() && intervals[k] > 0,
        min_positive(intervals) matches Some(m) ==> m > 0 && (exists|k: int|
            0 <= k < intervals.len() && intervals[k] == m) && forall|k: int|
            0 <= k < intervals.len() && intervals[k] > 0 ==> m <= #[trigger] intervals[k],
    decreases intervals.len(),
{
    if intervals.len() > 0 {
        let p = intervals.drop_last();
        let last = intervals.len() - 1;
        let x = intervals[last];
        lemma_min_positive_is_least(p);
        assert(intervals.last() == x);
        assert forall|k: int| 0 <= k < p.len() implies #[trigger] p[k] == intervals[k] by {}
        if exists|k: int| 0 <= k < intervals.len() && intervals[k] > 0 {
            if x == 0 {
                let k = choose|k: int| 0 <= k < intervals.len() && intervals[k] > 0;
                assert(k != last);
                assert(p[k] > 0);
            }
        }
        match min_positive(p) {
            Some(m) => {
                let j = choose|k: int| 0 <= k < p.len() && p[k] == m;
                assert(intervals[j] == m);
                assert forall|k: int| 0 <= k < intervals.len() && intervals[k] > 0 implies min_positive(
                    intervals,
                )->0 <= #[trigger] intervals[k] by {
                    if k < last {
                        assert(p[k] == intervals[k]);
                    }
                }
            },
            None => {
                assert forall|k: int| 0 <= k < intervals.len() && intervals[k] > 0 implies min_positive(
                    intervals,
                )->0 <= #[trigger] intervals[k] by {
                    if k < last {
                        assert(p[k] == intervals[k]);
                        assert(p[k] > 0);
                    }
                }
            },
        }
    }
}

/// The refresh interval is the shortest positive measurement interval: it
/// is one of the positive intervals and no positive interval is shorter;
/// with no positive interval it is 60 seconds.
pub proof fn lemma_refresh_interval_is_shortest(intervals: Seq<u16>)
    ensures
        (exists|k: int| 0 <= k < intervals.len() && intervals[k] > 0) ==> (exists|k: int|
            0 <= k < intervals.len() && intervals[k] > 0 && refresh_interval(intervals) == intervals[k]),
        forall|k: int|
            0 <= k < intervals.len() && intervals[k] > 0 ==> refresh_interval(intervals) <= #[trigger] intervals[k],
        (forall|k: int| 0 <= k < intervals.len() ==> intervals[k] == 0) ==> refresh_interval(intervals) == 60,
{
    lemma_min_positive_is_least(intervals);
    if min_positive(intervals) is None {
        assert forall|k: int| 0 <= k < intervals.len() && intervals[k] > 0 implies refresh_interval(intervals)
            <= #[trigger] intervals[k] by {
            assert(exists|k: int| 0 <= k < intervals.len() && intervals[k] > 0);
        }
    } else {
        if forall|k: int| 0 <= k < intervals.len() ==> intervals[k] == 0 {
            let k = choose|k: int| 0 <= k < intervals.len() && intervals[k] > 0;
            assert(intervals[k] == 0);
        }
    }
}

/// The shortest positive interval, or 60 when none is positive.
pub fn auto_refresh_interval(intervals: &[u16]) -> (r: u64)
    ensures
        r == refresh_interval(intervals@),
{
    let mut best: u16 = 60;
    let mut found = false;
    let n = intervals.len();
    let mut i: usize = 0;
    while i < n
        invariant
            n == intervals@.len(),
            i <= n,
            min_positive(intervals@.take(i as int)) == (if found { Some(best) } else { None::<u16> }),
            !found ==> best == 60,
        decreases n - i,
    {
        let x = intervals[i];
        proof {
            let prefix = intervals@.take(i as int);
            let next = intervals@.take(i + 1);
            assert(next.drop_last() =~= prefix);
            assert(next.last() == x);
        }
        if x > 0 {
            if !found || x < best {
                best = x;
            }
            found = true;
        }
        i = i + 1;
    }
    assert(intervals@.take(n as int) =~= intervals@);
    best as u64
}

/// Pacing of the automatic refresh of connected devices.
#[derive(Debug)]
pub struct AutoRefresh {
    /// Whether automatic refresh is on.
    pub enabled: bool,
    /// When the last automatic refresh happened (or the pacing started).
    pub last: Option<Instant>,
}

impl AutoRefresh {
    /// Decides whether to refresh now, given the time since the last refresh
    /// (`None` when pacing has not started) and the interval in seconds.
    /// Returns whether to refresh and whether to restart the pacing clock:
    /// the first check only starts the clock; afterwards a refresh is due
    /// once the interval has passed, and restarts the clock.
    pub fn decide(enabled: bool, since_last_nanos: Option<u128>, interval_secs: u64) -> (r: (bool, bool))
        ensures
            r == (if !enabled {
                (false, false)
            } else {
                match since_last_nanos {
                    None => (false, true),
                    Some(e) => {
                        let due = e >= interval_secs as int * 1_000_000_000;
                        (due, due)
                    },
                }
            }),
    {
        if !enabled {
            return (false, false);
        }
        match since_last_nanos {
            None => (false, true),
            Some(e) => {
                let due = e >= (interval_secs as u128) * 1_000_000_000;
                (due, due)
            },
        }
    }

    /// Checks whether connected devices are due for a refresh, reading the
    /// clock; `intervals` are the measurement intervals of the connected devices.
    /// While disabled nothing changes; the first check only starts the pacing
    /// clock; afterwards the clock is kept until a refresh is due.
    pub fn check(&mut self, intervals: &[u16]) -> (r: bool)
        ensures
            final(self).enabled == old(self).enabled,
            !old(self).enabled ==> !r && final(self).last == old(self).last,
            old(self).enabled && old(self).last is None ==> !r && final(self).last is Some,
            old(self).enabled && old(self).last is Some ==> final(self).last is Some && (!r
                ==> final(self).last == old(self).last),
    {
        let interval = auto_refresh_interval(intervals);
        let since = match &self.last {
            Some(at) => Some(nanos_since(at)),
            None => None,
        };
        let (refresh, restart) = Self::decide(self.enabled, since, interval);
        if restart {
            self.last = Some(instant_now());
        }
        refresh
    }
}

} // verus!

verus! {

/// What a successful status request returned.
#[derive(Debug)]
pub struct ServiceStatusReply {
    /// Whether the collector is running.
    pub collector_running: bool,
    /// The collector's uptime in seconds.
    pub uptime_seconds: Option<u64>,
    /// Per-device collection statistics.
    pub devices: Vec<ServiceDeviceStats>,
}

/// Checks, before a status request, whether the circuit breaker lets it
/// through (reading the clock when it is open). When it does not, the
/// service is reported unreachable without asking it, and that event is
/// returned; `None` means the request goes ahead.
pub fn status_request_gate(breaker: &mut CircuitBreaker) -> (r: Option<SensorEvent>)
    requires
        old(breaker).wf(),
    ensures
        final(breaker).wf(),
        final(breaker).spec_failures() == old(breaker).spec_failures(),
        final(breaker).spec_threshold() == old(breaker).spec_threshold(),
        final(breaker).spec_recovery_nanos() == old(breaker).spec_recovery_nanos(),
        final(breaker).spec_opened_at() == old(breaker).spec_opened_at(),
        old(breaker).spec_state() != CircuitState::Open ==> r is None && final(breaker).spec_state()
            == old(breaker).spec_state(),
        old(breaker).spec_state() == CircuitState::Open ==> (final(breaker).spec_state()
            == CircuitState::Open || final(breaker).spec_state() == CircuitState::HalfOpen),
        r is Some ==> final(breaker).spec_state() == CircuitState::Open,
        r matches Some(e) ==> e matches SensorEvent::ServiceStatusRefreshed {
            reachable,
            collector_running,
            uptime_seconds,
            devices,
        } && !reachable && !collector_running && uptime_seconds is None && devices@.len() == 0,
{
    if !breaker.should_allow() {
        if breaker.time_until_retry().is_some() {
            return Some(
                SensorEvent::ServiceStatusRefreshed {
                    reachable: false,
                    collector_running: false,
                    uptime_seconds: None,
                    devices: Vec::new(),
                },
            );
        }
    }
    None
}

/// The event when there is no service client for the configured URL.
pub fn missing_client_event(url: &str) -> (e: SensorEvent)
    ensures
        e matches SensorEvent::ServiceStatusError { error } && error@
            == "Service client not initialized. Check if the service URL '"@ + url@
            + "' is valid."@,
{
    let mut error = String::from_str("Service client not initialized. Check if the service URL '");
    push_str(&mut error, url);
    push_str(&mut error, "' is valid.");
    SensorEvent::ServiceStatusError { error }
}

/// Records the outcome of a status request in the circuit breaker and
/// returns the event to send: the service state on success (which closes
/// the circuit); on failure (which counts towards opening it) the service
/// is reported unreachable, so that the interface shows it as not running.
pub fn status_reply_event(breaker: &mut CircuitBreaker, reply: Result<ServiceStatusReply, ServiceError>) -> (e: SensorEvent)
    requires
        old(breaker).wf(),
        old(breaker).spec_failures() < u32::MAX,
    ensures
        final(breaker).wf(),
        match reply {
            Ok(st) => {
                &&& e == (SensorEvent::ServiceStatusRefreshed {
                    reachable: true,
                    collector_running: st.collector_running,
                    uptime_seconds: st.uptime_seconds,
                    devices: st.devices,
                })
                &&& final(breaker).spec_state() == CircuitState::Closed
                &&& final(breaker).spec_failures() == 0
            },
            Err(_) => {
                &&& e matches SensorEvent::ServiceStatusRefreshed {
                    reachable,
                    collector_running,
                    uptime_seconds,
                    devices,
                } && !reachable && !collector_running && uptime_seconds is None && devices@.len() == 0
                &&& final(breaker).spec_failures() == old(breaker).spec_failures() + 1
            },
        },
{
    match reply {
        Ok(st) => {
            breaker.record_success();
            SensorEvent::ServiceStatusRefreshed {
                reachable: true,
                collector_running: st.collector_running,
                uptime_seconds: st.uptime_seconds,
                devices: st.devices,
            }
        },
        Err(_) => {
            breaker.record_failure();
            SensorEvent::ServiceStatusRefreshed {
                reachable: false,
                collector_running: false,
                uptime_seconds: None,
                devices: Vec::new(),
            }
        },
    }
}

} // verus!

verus! {

/// The badge of a device in the collection statistics: `POLL` while
/// polling, `FAIL` after an error, `PASS` after a success, `WAIT` before any.
pub open spec fn collection_badge_text(polling: bool, has_error: bool, success_count: u64) -> Seq<char> {
    if polling {
        "POLL"@
    } else if has_error {
        "FAIL"@
    } else if success_count > 0 {
        "PASS"@
    } else {
        "WAIT"@
    }
}

/// The badge of a device in the collection statistics.
pub fn collection_badge(stats: &ServiceDeviceStats) -> (r: &'static str)
    ensures
        r@ == collection_badge_text(stats.polling, stats.last_error is Some, stats.success_count),
{
    if stats.polling {
        "POLL"
    } else if stats.last_error.is_some() {
        "FAIL"
    } else if stats.success_count > 0 {
        "PASS"
    } else {
        "WAIT"
    }
}

/// The statistics line of a device: `Success: S | Failures: F | Interval: Ns`.
pub fn collection_stats_text(stats: &ServiceDeviceStats) -> (r: String)
    ensures
        r@ == "Success: "@ + dec(stats.success_count as nat) + " | Failures: "@ + dec(
            stats.failure_count as nat,
        ) + " | Interval: "@ + dec(stats.poll_interval as nat) + "s"@,
{
    let mut s = String::from_str("Success: ");
    push_dec(&mut s, stats.success_count);
    push_str(&mut s, " | Failures: ");
    push_dec(&mut s, stats.failure_count);
    push_str(&mut s, " | Interval: ");
    push_dec(&mut s, stats.poll_interval);
    push_str(&mut s, "s");
    s
}

/// How a monitored device is listed: `alias (address)`, or the address
/// without an alias.
pub fn monitored_device_label(address: &str, alias: &Option<String>) -> (r: String)
    ensures
        r@ == match *alias {
            Some(a) => a@ + " ("@ + address@ + ")"@,
            None => address@,
        },
{
    match alias {
        Some(a) => {
            let mut s = String::from_str(a.as_str());
            push_str(&mut s, " (");
            push_str(&mut s, address);
            push_str(&mut s, ")");
            s
        },
        None => String::from_str(address),
    }
}

} // verus!

verus! {

/// The text for a missing endpoint in the worker's service messages.
pub open spec fn endpoint_missing_text() -> Seq<char> {
    "Endpoint not found. The service may be an older version."@
}

/// How a request to start or stop the collector ended (the worker waits
/// at most 15 seconds for it).
#[derive(Debug)]
pub enum ControlReply {
    /// There is no service client.
    NoClient,
    /// The service answered.
    Replied(Result<(), ServiceError>),
    /// The service did not answer in time.
    TimedOut,
}

/// What the worker sends after asking the service to start (`start`) or
/// stop the collector, and whether it then refreshes the service status.
pub fn after_collector_control(start: bool, reply: ControlReply) -> (r: (SensorEvent, bool))
    ensures
        match reply {
            ControlReply::NoClient => r.0 matches SensorEvent::ServiceCollectorError { error } && error@
                == "Service client not initialized. Run 'aranet-service run' first, then restart the GUI."@
                && !r.1,
            ControlReply::Replied(Ok(_)) => r.1 && if start {
                r.0 is ServiceCollectorStarted
            } else {
                r.0 is ServiceCollectorStopped
            },
            ControlReply::Replied(Err(e)) => r.0 matches SensorEvent::ServiceCollectorError { error }
                && error@ == service_error_text(e, endpoint_missing_text()) && !r.1,
            ControlReply::TimedOut => r.0 matches SensorEvent::ServiceCollectorError { error } && error@
                == "Operation timed out. The service may be unresponsive."@ && !r.1,
        },
{
    match reply {
        ControlReply::NoClient => (
            SensorEvent::ServiceCollectorError {
                error: String::from_str(
                    "Service client not initialized. Run 'aranet-service run' first, then restart the GUI.",
                ),
            },
            false,
        ),
        ControlReply::Replied(Ok(_)) => if start {
            (SensorEvent::ServiceCollectorStarted, true)
        } else {
            (SensorEvent::ServiceCollectorStopped, true)
        },
        ControlReply::Replied(Err(e)) => (
            SensorEvent::ServiceCollectorError { error: format_service_error(&e) },
            false,
        ),
        ControlReply::TimedOut => (
            SensorEvent::ServiceCollectorError {
                error: String::from_str("Operation timed out. The service may be unresponsive."),
            },
            false,
        ),
    }
}

/// The event after fetching the service's configuration; `None` is a
/// missing service client.
pub fn after_config_fetch(reply: Option<Result<Vec<ServiceMonitoredDevice>, ServiceError>>) -> (e: SensorEvent)
    ensures
        match reply {
            None => e matches SensorEvent::ServiceConfigError { error } && error@
                == "Service client not initialized"@,
            Some(Ok(ds)) => e matches SensorEvent::ServiceConfigFetched { devices } && devices@ == ds@,
            Some(Err(err)) => e matches SensorEvent::ServiceConfigError { error } && error@
                == service_error_text(err, endpoint_missing_text()),
        },
{
    match reply {
        None => SensorEvent::ServiceConfigError { error: String::from_str("Service client not initialized") },
        Some(Ok(devices)) => SensorEvent::ServiceConfigFetched { devices },
        Some(Err(err)) => SensorEvent::ServiceConfigError { error: format_service_error(&err) },
    }
}

/// A monitored-device error event for operation `op`.
pub open spec fn device_error_is(e: SensorEvent, op: Seq<char>, message: Seq<char>) -> bool {
    e matches SensorEvent::ServiceDeviceError { operation, error } && operation@ == op && error@
        == message
}

/// What the worker sends after asking the service to add a device to its
/// monitoring (`updated` false) or to change one (`updated` true), and
/// whether it then refreshes the service status; `None` is a missing
/// service client.
pub fn after_device_saved(updated: bool, reply: Option<Result<ServiceMonitoredDevice, ServiceError>>) -> (r: (
    SensorEvent,
    bool,
))
    ensures
        ({
            let op = if updated {
                "update"@
            } else {
                "add"@
            };
            match reply {
                None => !r.1 && device_error_is(r.0, op, "Service client not initialized"@),
                Some(Ok(d)) => r.1 && r.0 == (if updated {
                    SensorEvent::ServiceDeviceUpdated { device: d }
                } else {
                    SensorEvent::ServiceDeviceAdded { device: d }
                }),
                Some(Err(err)) => !r.1 && device_error_is(
                    r.0,
                    op,
                    service_error_text(err, endpoint_missing_text()),
                ),
            }
        }),
{
    let op = if updated {
        "update"
    } else {
        "add"
    };
    match reply {
        None => (
            SensorEvent::ServiceDeviceError {
                operation: String::from_str(op),
                error: String::from_str("Service client not initialized"),
            },
            false,
        ),
        Some(Ok(device)) => if updated {
            (SensorEvent::ServiceDeviceUpdated { device }, true)
        } else {
            (SensorEvent::ServiceDeviceAdded { device }, true)
        },
        Some(Err(err)) => (
            SensorEvent::ServiceDeviceError {
                operation: String::from_str(op),
                error: format_service_error(&err),
            },
            false,
        ),
    }
}

/// What the worker sends after asking the service to stop monitoring the
/// device at `address`, and whether it then refreshes the service status;
/// `None` is a missing service client.
pub fn after_device_removed(address: &str, reply: Option<Result<(), ServiceError>>) -> (r: (SensorEvent, bool))
    ensures
        match reply {
            None => !r.1 && device_error_is(r.0, "remove"@, "Service client not initialized"@),
            Some(Ok(_)) => r.0 matches SensorEvent::ServiceDeviceRemoved { address: a } && a@ == address@
                && r.1,
            Some(Err(err)) => !r.1 && device_error_is(
                r.0,
                "remove"@,
                service_error_text(err, endpoint_missing_text()),
            ),
        },
{
    match reply {
        None => (
            SensorEvent::ServiceDeviceError {
                operation: String::from_str("remove"),
                error: String::from_str("Service client not initialized"),
            },
            false,
        ),
        Some(Ok(_)) => (SensorEvent::ServiceDeviceRemoved { address: String::from_str(address) }, true),
        Some(Err(err)) => (
            SensorEvent::ServiceDeviceError {
                operation: String::from_str("remove"),
                error: format_service_error(&err),
            },
            false,
        ),
    }
}

/// A command for the system service.
#[derive(Debug, Clone, Copy, PartialEq, Eq, Structural)]
pub enum SystemAction {
    Install,
    Uninstall,
    Start,
    Stop,
}

/// The name of a system-service command, as the service's command line
/// and the error events spell it.
pub open spec fn system_action_text(a: SystemAction) -> Seq<char> {
    match a {
        SystemAction::Install => "install"@,
        SystemAction::Uninstall => "uninstall"@,
        SystemAction::Start => "start"@,
        SystemAction::Stop => "stop"@,
    }
}

/// The name of a system-service command.
pub fn system_action_name(a: SystemAction) -> (r: &'static str)
    ensures
        r@ == system_action_text(a),
{
    match a {
        SystemAction::Install => "install",
        SystemAction::Uninstall => "uninstall",
        SystemAction::Start => "start",
        SystemAction::Stop => "stop",
    }
}

/// How a task that the worker ran on a blocking thread ended.
#[derive(Debug)]
pub enum TaskOutcome<T> {
    /// It returned this.
    Finished(T),
    /// It did not finish (it panicked or was cancelled); the text says why.
    Failed(String),
}

/// What the worker sends after running a system-service command, and
/// whether it then refreshes the service status (after starting or
/// stopping the service).
pub fn after_system_action(a: SystemAction, outcome: TaskOutcome<Result<(), String>>) -> (r: (
    SensorEvent,
    bool,
))
    ensures
        match outcome {
            TaskOutcome::Finished(Ok(_)) => r.0 == (match a {
                SystemAction::Install => SensorEvent::SystemServiceInstalled,
                SystemAction::Uninstall => SensorEvent::SystemServiceUninstalled,
                SystemAction::Start => SensorEvent::SystemServiceStarted,
                SystemAction::Stop => SensorEvent::SystemServiceStopped,
            }) && r.1 == (a == SystemAction::Start || a == SystemAction::Stop),
            TaskOutcome::Finished(Err(e)) => r.0 matches SensorEvent::SystemServiceError {
                operation,
                error,
            } && operation@ == system_action_text(a) && error == e && !r.1,
            TaskOutcome::Failed(t) => r.0 matches SensorEvent::SystemServiceError { operation, error }
                && operation@ == system_action_text(a) && error@ == "Task failed: "@ + t@ && !r.1,
        },
{
    match outcome {
        TaskOutcome::Finished(Ok(_)) => match a {
            SystemAction::Install => (SensorEvent::SystemServiceInstalled, false),
            SystemAction::Uninstall => (SensorEvent::SystemServiceUninstalled, false),
            SystemAction::Start => (SensorEvent::SystemServiceStarted, true),
            SystemAction::Stop => (SensorEvent::SystemServiceStopped, true),
        },
        TaskOutcome::Finished(Err(error)) => (
            SensorEvent::SystemServiceError {
                operation: String::from_str(system_action_name(a)),
                error,
            },
            false,
        ),
        TaskOutcome::Failed(t) => {
            let mut error = String::from_str("Task failed: ");
            push_str(&mut error, t.as_str());
            (
                SensorEvent::SystemServiceError {
                    operation: String::from_str(system_action_name(a)),
                    error,
                },
                false,
            )
        },
    }
}

/// The event after checking whether the system service is installed and
/// running.
pub fn after_status_check(outcome: TaskOutcome<(bool, bool)>) -> (e: SensorEvent)
    ensures
        match outcome {
            TaskOutcome::Finished((installed, running)) => e == (SensorEvent::SystemServiceStatus {
                installed,
                running,
            }),
            TaskOutcome::Failed(t) => e matches SensorEvent::SystemServiceError { operation, error }
                && operation@ == "status"@ && error@ == "Task failed: "@ + t@,
        },
{
    match outcome {
        TaskOutcome::Finished((installed, running)) => SensorEvent::SystemServiceStatus { installed, running },
        TaskOutcome::Failed(t) => {
            let mut error = String::from_str("Task failed: ");
            push_str(&mut error, t.as_str());
            SensorEvent::SystemServiceError { operation: String::from_str("status"), error }
        },
    }
}

/// The error of a service command that exited unsuccessfully: its error
/// output followed by its standard output, without surrounding whitespace.
pub fn command_failure_text(stderr: &str, stdout: &str) -> (r: String)
    ensures
        r@ == trimmed(stderr@ + stdout@),
{
    let mut both = String::from_str(stderr);
    push_str(&mut both, stdout);
    trim_text(both.as_str())
}

/// The error when the service command could not be started.
pub fn launch_failure_text(cause: &str) -> (r: String)
    ensures
        r@ == "Failed to run aranet-service: "@ + cause@,
{
    let mut s = String::from_str("Failed to run aranet-service: ");
    push_str(&mut s, cause);
    s
}

} // verus!
