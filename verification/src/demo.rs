//! Deterministic demo data for screenshots.

use time::OffsetDateTime;
use vstd::prelude::*;
use crate::device::{CurrentReading, DeviceState, SessionStats};
use crate::history::{midnight_utc_nanos, HistoryRecord};
use crate::types::{ConnectionState, DeviceType};

verus! {

/// Nanoseconds in one minute.
pub const NANOS_PER_MINUTE: i128 = 60_000_000_000;

/// Nanoseconds in one day.
const DAY_NANOS: i128 = 86_400_000_000_000;

/// Nanoseconds in one hour.
const HOUR_NANOS: i128 = 3_600_000_000_000;

/// The hour of the day (UTC) of a Unix time in nanoseconds.
pub open spec fn utc_hour(nanos: int) -> int {
    (nanos % 86_400_000_000_000) / 3_600_000_000_000
}

/// Whether `nanos` lies within the times the `time` crate represents:
/// from the first day of year -9999 to the end of year 9999.
pub open spec fn representable_time(nanos: int) -> bool {
    midnight_utc_nanos(-9999, 1, 1) <= nanos < midnight_utc_nanos(10000, 1, 1)
}

/// The demo CO2 value of record `i` taken at `hour`: rising by 30 ppm an
/// hour from 700 between 8:00 and 22:00, 450 at night, with a repeating
/// offset between -50 and 49, kept within 400 to 1200.
pub open spec fn demo_co2(hour: int, i: int) -> int {
    let base = if 8 <= hour < 22 { 700 + (hour - 8) * 30 } else { 450 };
    let v = base + (i * 17) % 100 - 50;
    if v < 400 { 400 } else if v > 1200 { 1200 } else { v }
}

/// The demo CO2 history: `count` records five minutes apart, the last one
/// at `now_nanos`.
pub open spec fn demo_co2_record(now_nanos: int, count: int, i: int) -> HistoryRecord {
    let ts = now_nanos - (count - 1 - i) * 5 * NANOS_PER_MINUTE;
    HistoryRecord {
        timestamp_nanos: ts as i128,
        co2: demo_co2(utc_hour(ts), i) as u16,
        humidity: (40 + i % 20) as u8,
        radon: None,
    }
}

/// Generates the demo CO2 history; every record's time must be one the
/// calendar holds.
pub fn generate_co2_history(count: usize, now_nanos: i128) -> (r: Vec<HistoryRecord>)
    requires
        representable_time(now_nanos as int),
        count == 0 || representable_time(now_nanos - (count - 1) * 5 * NANOS_PER_MINUTE),
    ensures
        r@.len() == count,
        forall|i: int| 0 <= i < count ==> #[trigger] r@[i] == demo_co2_record(now_nanos as int, count as int, i),
{
    proof {
        assert(midnight_utc_nanos(-9999, 1, 1) == -377_705_116_800_000_000_000);
        assert(midnight_utc_nanos(10000, 1, 1) == 253_402_300_800_000_000_000);
    }
    let mut out: Vec<HistoryRecord> = Vec::new();
    let mut i: usize = 0;
    while i < count
        invariant
            i <= count,
            -377_705_116_800_000_000_000 <= now_nanos < 253_402_300_800_000_000_000,
            -377_705_116_800_000_000_000 <= now_nanos - (count - 1) * 5 * NANOS_PER_MINUTE,
            out@.len() == i,
            forall|k: int| 0 <= k < i ==> #[trigger] out@[k] == demo_co2_record(now_nanos as int, count as int, k),
        decreases count - i,
    {
        let back: i128 = (count - 1 - i) as i128;
        assert(back * 5 * NANOS_PER_MINUTE <= (count - 1) * 5 * NANOS_PER_MINUTE) by (nonlinear_arith)
            requires
                0 <= back <= count - 1,
        ;
        let ts: i128 = now_nanos - back * 5 * NANOS_PER_MINUTE;
        let shifted: i128 = ts + 5_000_000 * DAY_NANOS;
        let hour: i128 = (shifted % DAY_NANOS) / HOUR_NANOS;
        proof {
            vstd::arithmetic::div_mod::lemma_mod_multiples_vanish(5_000_000, ts as int, DAY_NANOS as int);
            assert(shifted == DAY_NANOS * 5_000_000 + ts);
            assert(hour == utc_hour(ts as int));
        }
        let base: i128 = if 8 <= hour && hour < 22 { 700 + (hour - 8) * 30 } else { 450 };
        let noise: i128 = ((i % 100) * 17 % 100) as i128 - 50;
        proof {
            vstd::arithmetic::div_mod::lemma_mul_mod_noop_left(i as int, 17, 100);
        }
        let v = base + noise;
        let co2: u16 = if v < 400 { 400 } else if v > 1200 { 1200 } else { v as u16 };
        let humidity: u8 = (40 + i % 20) as u8;
        out.push(HistoryRecord { timestamp_nanos: ts, co2, humidity, radon: None });
        proof {
            assert(out@[i as int] == demo_co2_record(now_nanos as int, count as int, i as int));
        }
        i = i + 1;
    }
    out
}

/// The demo Aranet4 device (Aranet4 17C3C): connected, with a current
/// reading, a day of history at five-minute intervals ending at
/// `now_nanos`, last synced at `synced_at`.
pub open spec fn demo_aranet4(r: DeviceState, now_nanos: i128, synced_at: OffsetDateTime) -> bool {
    &&& r.id@ == "921df903-d89b-9c97-6ffa-bb80d7c8e471"@
    &&& (r.name matches Some(n) && n@ == "Aranet4 17C3C"@)
    &&& r.device_type == Some(DeviceType::Aranet4)
    &&& r.rssi == Some(-75i16)
    &&& r.connection is Connected
    &&& r.reading == Some(
        CurrentReading { co2: 633, humidity: 19, battery: 96, interval: 300, age: 8, radon: None },
    )
    &&& r.history@.len() == 288
    &&& forall|i: int| 0 <= i < 288 ==> #[trigger] r.history@[i] == demo_co2_record(now_nanos as int, 288, i)
    &&& !r.syncing_history
    &&& !r.reading_from_cache
    &&& r.last_sync == Some(synced_at)
}

/// Creates the demo Aranet4 device.
pub fn create_aranet4_device(now_nanos: i128, synced_at: OffsetDateTime) -> (r: DeviceState)
    requires
        representable_time(now_nanos as int),
        representable_time(now_nanos - 287 * 5 * NANOS_PER_MINUTE),
    ensures
        demo_aranet4(r, now_nanos, synced_at),
{
    DeviceState {
        id: String::from_str("921df903-d89b-9c97-6ffa-bb80d7c8e471"),
        name: Some(String::from_str("Aranet4 17C3C")),
        device_type: Some(DeviceType::Aranet4),
        rssi: Some(-75),
        connection: ConnectionState::Connected,
        reading: Some(
            CurrentReading { co2: 633, humidity: 19, battery: 96, interval: 300, age: 8, radon: None },
        ),
        previous_reading: None,
        history: generate_co2_history(288, now_nanos),
        syncing_history: false,
        sync_progress: None,
        reading_from_cache: false,
        background_polling: None,
        session_stats: SessionStats::default(),
        connected_at: None,
        last_sync: Some(synced_at),
    }
}

} // verus!

verus! {

/// The demo radon device (AranetRn+ 306B8): connected, with a current
/// reading of 110 Bq/m³, the given hourly history, last synced at
/// `synced_at`.
pub open spec fn demo_radon(r: DeviceState, history: Seq<HistoryRecord>, synced_at: OffsetDateTime) -> bool {
    &&& r.id@ == "387c18c7-299f-cc32-d01c-6cf29a8d3ca5"@
    &&& (r.name matches Some(n) && n@ == "AranetRn+ 306B8"@)
    &&& r.device_type == Some(DeviceType::AranetRadon)
    &&& r.rssi == Some(-77i16)
    &&& r.connection is Connected
    &&& r.reading == Some(
        CurrentReading { co2: 0, humidity: 23, battery: 94, interval: 600, age: 175, radon: Some(110) },
    )
    &&& r.history@ == history
    &&& !r.syncing_history
    &&& !r.reading_from_cache
    &&& r.last_sync == Some(synced_at)
}

/// Creates the demo radon device.
pub fn create_radon_device(history: Vec<HistoryRecord>, synced_at: OffsetDateTime) -> (r: DeviceState)
    ensures
        demo_radon(r, history@, synced_at),
{
    DeviceState {
        id: String::from_str("387c18c7-299f-cc32-d01c-6cf29a8d3ca5"),
        name: Some(String::from_str("AranetRn+ 306B8")),
        device_type: Some(DeviceType::AranetRadon),
        rssi: Some(-77),
        connection: ConnectionState::Connected,
        reading: Some(
            CurrentReading { co2: 0, humidity: 23, battery: 94, interval: 600, age: 175, radon: Some(110) },
        ),
        previous_reading: None,
        history,
        syncing_history: false,
        sync_progress: None,
        reading_from_cache: false,
        background_polling: None,
        session_stats: SessionStats::default(),
        connected_at: None,
        last_sync: Some(synced_at),
    }
}

/// The demo devices: the Aranet4 (history ending at `now_nanos`, synced at
/// `aranet4_synced_at`) and the radon device (with `radon_history`, synced
/// at `radon_synced_at`), in that order.
pub fn create_demo_devices(
    now_nanos: i128,
    aranet4_synced_at: OffsetDateTime,
    radon_history: Vec<HistoryRecord>,
    radon_synced_at: OffsetDateTime,
) -> (r: Vec<DeviceState>)
    requires
        representable_time(now_nanos as int),
        representable_time(now_nanos - 287 * 5 * NANOS_PER_MINUTE),
    ensures
        r@.len() == 2,
        demo_aranet4(r@[0], now_nanos, aranet4_synced_at),
        demo_radon(r@[1], radon_history@, radon_synced_at),
{
    let mut v: Vec<DeviceState> = Vec::new();
    v.push(create_aranet4_device(now_nanos, aranet4_synced_at));
    v.push(create_radon_device(radon_history, radon_synced_at));
    v
}

} // verus!
