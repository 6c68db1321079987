//! Per-device state of the desktop interface: the current and previous
//! readings, session statistics, connection and uptime.

use std::time::Instant;
use time::OffsetDateTime;
use vstd::prelude::*;
use crate::clock::{instant_now, nanos_since};
use crate::text::{dec, push_dec, push_str};
use crate::types::{int_trend, ConnectionState, DeviceType, Trend};

verus! {

/// A current reading, with the integer values the interface logic reads.
#[derive(Debug, Clone, Copy)]
pub struct CurrentReading {
    /// CO2 concentration in ppm (0 when the device does not measure it).
    pub co2: u16,
    /// Relative humidity in percent.
    pub humidity: u8,
    /// Battery level in percent.
    pub battery: u8,
    /// Measurement interval in seconds.
    pub interval: u16,
    /// Seconds since the measurement was taken.
    pub age: u16,
    /// Radon concentration in Bq/m³, for radon devices.
    pub radon: Option<u32>,
}

/// Session statistics of a device: minimum, maximum and running sum of the
/// CO2 and radon readings seen in this session.
#[derive(Debug, Clone, Copy)]
pub struct SessionStats {
    /// Minimum CO2 reading.
    pub co2_min: Option<u16>,
    /// Maximum CO2 reading.
    pub co2_max: Option<u16>,
    /// Sum of CO2 readings.
    pub co2_sum: u64,
    /// Number of CO2 readings.
    pub co2_count: u32,
    /// Minimum radon reading.
    pub radon_min: Option<u32>,
    /// Maximum radon reading.
    pub radon_max: Option<u32>,
    /// Sum of radon readings.
    pub radon_sum: u64,
    /// Number of radon readings.
    pub radon_count: u32,
}

/// Statistics before any reading.
pub open spec fn empty_stats() -> SessionStats {
    SessionStats {
        co2_min: None,
        co2_max: None,
        co2_sum: 0,
        co2_count: 0,
        radon_min: None,
        radon_max: None,
        radon_sum: 0,
        radon_count: 0,
    }
}

impl Default for SessionStats {
    fn default() -> (r: Self)
        ensures
            r == empty_stats(),
    {
        SessionStats {
            co2_min: None,
            co2_max: None,
            co2_sum: 0,
            co2_count: 0,
            radon_min: None,
            radon_max: None,
            radon_sum: 0,
            radon_count: 0,
        }
    }
}

/// The smaller of an optional running minimum and a new value.
pub open spec fn min_with(m: Option<u64>, v: u64) -> u64 {
    match m {
        Some(x) => if x <= v { x } else { v },
        None => v,
    }
}

/// The larger of an optional running maximum and a new value.
pub open spec fn max_with(m: Option<u64>, v: u64) -> u64 {
    match m {
        Some(x) => if x >= v { x } else { v },
        None => v,
    }
}

/// The statistics after one more reading: CO2 is tracked only when it is
/// non-zero, radon only when present.
pub open spec fn stats_after(s: SessionStats, co2: u16, radon: Option<u32>) -> SessionStats {
    let s1 = if co2 > 0 {
        SessionStats {
            co2_min: Some(
                min_with(
                    match s.co2_min {
                        Some(m) => Some(m as u64),
                        None => None,
                    },
                    co2 as u64,
                ) as u16,
            ),
            co2_max: Some(
                max_with(
                    match s.co2_max {
                        Some(m) => Some(m as u64),
                        None => None,
                    },
                    co2 as u64,
                ) as u16,
            ),
            co2_sum: (s.co2_sum + co2) as u64,
            co2_count: (s.co2_count + 1) as u32,
            ..s
        }
    } else {
        s
    };
    match radon {
        Some(r) => SessionStats {
            radon_min: Some(
                min_with(
                    match s1.radon_min {
                        Some(m) => Some(m as u64),
                        None => None,
                    },
                    r as u64,
                ) as u32,
            ),
            radon_max: Some(
                max_with(
                    match s1.radon_max {
                        Some(m) => Some(m as u64),
                        None => None,
                    },
                    r as u64,
                ) as u32,
            ),
            radon_sum: (s1.radon_sum + r) as u64,
            radon_count: (s1.radon_count + 1) as u32,
            ..s1
        },
        None => s1,
    }
}

impl SessionStats {
    /// Whether one more reading can be added without the sums or counts overflowing.
    pub open spec fn can_add(&self, reading: CurrentReading) -> bool {
        &&& (reading.co2 > 0 ==> self.co2_sum + reading.co2 <= u64::MAX && self.co2_count
            < u32::MAX)
        &&& (reading.radon matches Some(r) ==> self.radon_sum + r <= u64::MAX
            && self.radon_count < u32::MAX)
    }

    /// Whether one more reading can be added (see `can_add`).
    pub fn fits(&self, reading: &CurrentReading) -> (r: bool)
        ensures
            r == self.can_add(*reading),
    {
        let co2_ok = reading.co2 == 0 || (self.co2_sum <= u64::MAX - reading.co2 as u64
            && self.co2_count < u32::MAX);
        let radon_ok = match reading.radon {
            Some(r) => self.radon_sum <= u64::MAX - r as u64 && self.radon_count < u32::MAX,
            None => true,
        };
        co2_ok && radon_ok
    }

    /// Adds a reading to the statistics.
    pub fn update(&mut self, reading: &CurrentReading)
        requires
            old(self).can_add(*reading),
        ensures
            *final(self) == stats_after(*old(self), reading.co2, reading.radon),
    {
        if reading.co2 > 0 {
            let c = reading.co2;
            self.co2_min = Some(
                match self.co2_min {
                    Some(m) => if m <= c { m } else { c },
                    None => c,
                },
            );
            self.co2_max = Some(
                match self.co2_max {
                    Some(m) => if m >= c { m } else { c },
                    None => c,
                },
            );
            self.co2_sum = self.co2_sum + c as u64;
            self.co2_count = self.co2_count + 1;
        }
        match reading.radon {
            Some(r) => {
                self.radon_min = Some(
                    match self.radon_min {
                        Some(m) => if m <= r { m } else { r },
                        None => r,
                    },
                );
                self.radon_max = Some(
                    match self.radon_max {
                        Some(m) => if m >= r { m } else { r },
                        None => r,
                    },
                );
                self.radon_sum = self.radon_sum + r as u64;
                self.radon_count = self.radon_count + 1;
            },
            None => {},
        }
    }

    /// Average CO2 (integer division), if any CO2 reading was recorded.
    pub fn co2_avg(&self) -> (r: Option<u16>)
        ensures
            r == (if self.co2_count > 0 {
                Some((self.co2_sum / self.co2_count as u64) as u16)
            } else {
                None
            }),
    {
        if self.co2_count > 0 {
            Some((self.co2_sum / self.co2_count as u64) as u16)
        } else {
            None
        }
    }

    /// Average radon (integer division), if any radon reading was recorded.
    pub fn radon_avg(&self) -> (r: Option<u32>)
        ensures
            r == (if self.radon_count > 0 {
                Some((self.radon_sum / self.radon_count as u64) as u32)
            } else {
                None
            }),
    {
        if self.radon_count > 0 {
            Some((self.radon_sum / self.radon_count as u64) as u32)
        } else {
            None
        }
    }
}

} // verus!

verus! {

/// The connected time shown for a device: seconds below a minute, then
/// minutes and seconds, then hours and minutes.
pub open spec fn uptime_text(secs: nat) -> Seq<char> {
    if secs < 60 {
        dec(secs) + "s"@
    } else if secs < 3600 {
        dec(secs / 60) + "m "@ + dec(secs % 60) + "s"@
    } else {
        dec(secs / 3600) + "h "@ + dec((secs % 3600) / 60) + "m"@
    }
}

/// Renders a connected time from whole seconds.
pub fn format_connected_time(secs: u64) -> (r: String)
    ensures
        r@ == uptime_text(secs as nat),
{
    let mut s = String::new();
    if secs < 60 {
        push_dec(&mut s, secs);
        push_str(&mut s, "s");
    } else if secs < 3600 {
        push_dec(&mut s, secs / 60);
        push_str(&mut s, "m ");
        push_dec(&mut s, secs % 60);
        push_str(&mut s, "s");
    } else {
        push_dec(&mut s, secs / 3600);
        push_str(&mut s, "h ");
        push_dec(&mut s, (secs % 3600) / 60);
        push_str(&mut s, "m");
    }
    s
}

/// State of one device in the interface.
#[derive(Debug)]
pub struct DeviceState {
    pub id: String,
    pub name: Option<String>,
    pub device_type: Option<DeviceType>,
    pub rssi: Option<i16>,
    pub connection: ConnectionState,
    pub reading: Option<CurrentReading>,
    pub previous_reading: Option<CurrentReading>,
    pub history: Vec<crate::history::HistoryRecord>,
    pub syncing_history: bool,
    /// Progress of a history sync: (downloaded, total).
    pub sync_progress: Option<(usize, usize)>,
    /// Whether the current reading came from the cache rather than the device.
    pub reading_from_cache: bool,
    /// Background polling interval in seconds, when polling.
    pub background_polling: Option<u64>,
    /// Session statistics.
    pub session_stats: SessionStats,
    /// When the device was connected.
    pub connected_at: Option<Instant>,
    /// When history was last synced from the device.
    pub last_sync: Option<OffsetDateTime>,
}

impl DeviceState {
    /// A newly discovered, disconnected device without readings.
    pub fn from_discovered(
        id: &str,
        name: Option<&str>,
        device_type: Option<DeviceType>,
        rssi: Option<i16>,
    ) -> (r: Self)
        ensures
            r.id@ == id@,
            match name {
                Some(n) => r.name matches Some(m) && m@ == n@,
                None => r.name is None,
            },
            r.device_type == device_type,
            r.rssi == rssi,
            r.connection is Disconnected,
            r.reading is None,
            r.previous_reading is None,
            r.history@.len() == 0,
            !r.syncing_history,
            r.sync_progress is None,
            !r.reading_from_cache,
            r.background_polling is None,
            r.connected_at is None,
            r.last_sync is None,
            r.session_stats == empty_stats(),
    {
        DeviceState {
            id: String::from_str(id),
            name: match name {
                Some(n) => Some(String::from_str(n)),
                None => None,
            },
            device_type,
            rssi,
            connection: ConnectionState::Disconnected,
            reading: None,
            previous_reading: None,
            history: Vec::new(),
            syncing_history: false,
            sync_progress: None,
            reading_from_cache: false,
            background_polling: None,
            session_stats: SessionStats::default(),
            connected_at: None,
            last_sync: None,
        }
    }

    /// A device loaded from the cache; its reading, if any, is marked as cached.
    pub fn from_cached(
        id: &str,
        name: Option<&str>,
        device_type: Option<DeviceType>,
        reading: Option<CurrentReading>,
        last_sync: Option<OffsetDateTime>,
    ) -> (r: Self)
        ensures
            r.id@ == id@,
            match name {
                Some(n) => r.name matches Some(m) && m@ == n@,
                None => r.name is None,
            },
            r.device_type == device_type,
            r.rssi is None,
            r.connection is Disconnected,
            r.reading == reading,
            r.previous_reading is None,
            r.history@.len() == 0,
            !r.syncing_history,
            r.sync_progress is None,
            r.reading_from_cache == reading is Some,
            r.background_polling is None,
            r.connected_at is None,
            r.last_sync == last_sync,
            r.session_stats == empty_stats(),
    {
        DeviceState {
            id: String::from_str(id),
            name: match name {
                Some(n) => Some(String::from_str(n)),
                None => None,
            },
            device_type,
            rssi: None,
            connection: ConnectionState::Disconnected,
            reading,
            previous_reading: None,
            history: Vec::new(),
            syncing_history: false,
            sync_progress: None,
            reading_from_cache: reading.is_some(),
            background_polling: None,
            session_stats: SessionStats::default(),
            connected_at: None,
            last_sync,
        }
    }

    /// The name to show: the device name, or its identifier.
    pub fn display_name(&self) -> (r: &str)
        ensures
            r@ == (match self.name {
                Some(n) => n@,
                None => self.id@,
            }),
    {
        match &self.name {
            Some(n) => n.as_str(),
            None => self.id.as_str(),
        }
    }

    /// Takes a live reading: statistics are updated, the current reading
    /// becomes the previous one, and the reading is marked as live.
    pub fn update_reading(&mut self, reading: CurrentReading)
        requires
            old(self).session_stats.can_add(reading),
        ensures
            *final(self) == (DeviceState {
                session_stats: stats_after(old(self).session_stats, reading.co2, reading.radon),
                previous_reading: old(self).reading,
                reading: Some(reading),
                reading_from_cache: false,
                ..*old(self)
            }),
    {
        self.session_stats.update(&reading);
        self.previous_reading = self.reading;
        self.reading = Some(reading);
        self.reading_from_cache = false;
    }

    /// How long the device has been connected, reading the clock; `None`
    /// when it is not connected.
    pub fn uptime(&self) -> (r: Option<String>)
        ensures
            self.connected_at is None ==> r is None,
            self.connected_at is Some ==> (r matches Some(s) && exists|secs: nat| s@ == uptime_text(secs)),
    {
        match &self.connected_at {
            None => None,
            Some(at) => {
                let nanos = nanos_since(at);
                let secs128 = nanos / 1_000_000_000;
                let secs: u64 = if secs128 > u64::MAX as u128 { u64::MAX } else { secs128 as u64 };
                Some(format_connected_time(secs))
            },
        }
    }

    /// Whether cached data is shown: there is a reading, the device is not
    /// connected, and the reading came from the cache.
    pub fn is_showing_cached_data(&self) -> (r: bool)
        ensures
            r == (self.reading is Some && !(self.connection is Connected) && self.reading_from_cache),
    {
        let connected = match self.connection {
            ConnectionState::Connected => true,
            _ => false,
        };
        self.reading.is_some() && !connected && self.reading_from_cache
    }

    /// CO2 trend between the previous and the current reading (stable within
    /// 20 ppm); `None` without both readings or when either CO2 value is zero.
    pub fn co2_trend(&self) -> (r: Option<Trend>)
        ensures
            r == (match (self.reading, self.previous_reading) {
                (Some(cur), Some(prev)) => if cur.co2 == 0 || prev.co2 == 0 {
                    None
                } else {
                    Some(int_trend(cur.co2 as int, prev.co2 as int, 20))
                },
                _ => None,
            }),
    {
        match (self.reading, self.previous_reading) {
            (Some(cur), Some(prev)) => {
                if cur.co2 == 0 || prev.co2 == 0 {
                    None
                } else {
                    Some(Trend::from_int_delta(cur.co2 as i64, prev.co2 as i64, 20))
                }
            },
            _ => None,
        }
    }

    /// Humidity trend between the previous and the current reading (stable
    /// within 2 percentage points).
    pub fn humidity_trend(&self) -> (r: Option<Trend>)
        ensures
            r == (match (self.reading, self.previous_reading) {
                (Some(cur), Some(prev)) => Some(int_trend(cur.humidity as int, prev.humidity as int, 2)),
                _ => None,
            }),
    {
        match (self.reading, self.previous_reading) {
            (Some(cur), Some(prev)) => Some(
                Trend::from_int_delta(cur.humidity as i64, prev.humidity as i64, 2),
            ),
            _ => None,
        }
    }
}

} // verus!

verus! {

/// One tracked quantity agrees with itself: without values there is no
/// minimum, maximum or sum; with values the minimum is at most the maximum
/// and the sum lies between count times minimum and count times maximum.
pub open spec fn part_consistent(count: int, min: Option<int>, max: Option<int>, sum: int) -> bool {
    if count == 0 {
        min is None && max is None && sum == 0
    } else {
        &&& count > 0
        &&& min is Some
        &&& max is Some
        &&& min->0 <= max->0
        &&& count * min->0 <= sum
        &&& sum <= count * max->0
    }
}

/// The CO2 and radon statistics each agree with themselves, so each
/// average lies between the minimum and the maximum.
pub open spec fn stats_consistent(s: SessionStats) -> bool {
    &&& part_consistent(
        s.co2_count as int,
        match s.co2_min {
            Some(v) => Some(v as int),
            None => None,
        },
        match s.co2_max {
            Some(v) => Some(v as int),
            None => None,
        },
        s.co2_sum as int,
    )
    &&& part_consistent(
        s.radon_count as int,
        match s.radon_min {
            Some(v) => Some(v as int),
            None => None,
        },
        match s.radon_max {
            Some(v) => Some(v as int),
            None => None,
        },
        s.radon_sum as int,
    )
}

/// Adding a value keeps a quantity consistent.
proof fn lemma_part_add(count: int, min: Option<int>, max: Option<int>, sum: int, c: int)
    requires
        part_consistent(count, min, max, sum),
        c >= 0,
    ensures
        part_consistent(
            count + 1,
            Some(
                match min {
                    Some(m) => if m <= c { m } else { c },
                    None => c,
                },
            ),
            Some(
                match max {
                    Some(m) => if m >= c { m } else { c },
                    None => c,
                },
            ),
            sum + c,
        ),
{
    if count == 0 {
    } else {
        let lo = min->0;
        let hi = max->0;
        let nlo: int = if lo <= c { lo } else { c };
        let nhi: int = if hi >= c { hi } else { c };
        assert((count + 1) * nlo <= sum + c) by (nonlinear_arith)
            requires
                count * lo <= sum,
                nlo <= lo,
                nlo <= c,
                count >= 0,
        ;
        assert(sum + c <= (count + 1) * nhi) by (nonlinear_arith)
            requires
                sum <= count * hi,
                hi <= nhi,
                c <= nhi,
                count >= 0,
        ;
    }
}

/// Every reading keeps the statistics consistent, and the statistics
/// before any reading are consistent.
pub proof fn lemma_stats_stay_consistent(s: SessionStats, reading: CurrentReading)
    requires
        stats_consistent(s),
        s.can_add(reading),
    ensures
        stats_consistent(stats_after(s, reading.co2, reading.radon)),
        stats_consistent(empty_stats()),
{
    let co2_min = match s.co2_min {
        Some(v) => Some(v as int),
        None => None,
    };
    let co2_max = match s.co2_max {
        Some(v) => Some(v as int),
        None => None,
    };
    let radon_min = match s.radon_min {
        Some(v) => Some(v as int),
        None => None,
    };
    let radon_max = match s.radon_max {
        Some(v) => Some(v as int),
        None => None,
    };
    if reading.co2 > 0 {
        lemma_part_add(s.co2_count as int, co2_min, co2_max, s.co2_sum as int, reading.co2 as int);
    }
    if let Some(r) = reading.radon {
        lemma_part_add(s.radon_count as int, radon_min, radon_max, s.radon_sum as int, r as int);
    }
}

} // verus!
