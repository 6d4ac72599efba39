//! The telemetry simulator: a stateful cursor over a ride's waypoints that
//! derives one telemetry frame per poll and advances.
//!
//! `spec_step` is the mathematical step function of the simulator; the
//! executable `next_update` returns exactly what `spec_step` says, so every
//! property of a poll sequence can be proved of iterated `spec_step`.

use crate::geo::{
    calculate_distance, haversine_micro_spec, lemma_haversine_range, MAX_SEGMENT_MICRO_MILES,
};
use crate::models::{RideData, TelemetryUpdate, Waypoint};
use crate::timestamp::{elapsed_millis, elapsed_millis_spec};
use vstd::prelude::*;

verus! {

/// A full battery, in micro-percent.
pub const BATTERY_FULL_MICRO: u64 = 100_000_000;

/// Base battery drain per frame, in micro-percent (0.005 percent).
pub const BASE_DRAIN_MICRO: u64 = 5_000;

/// Simulates telemetry for a recorded ride: exclusively owns the ride and a
/// cursor into its waypoints, plus the running battery and distance totals.
pub struct TelemetrySimulator {
    pub ride_data: RideData,
    /// Position within the waypoint sequence; advanced one step per poll,
    /// never beyond the number of waypoints.
    pub current_index: usize,
    /// Remaining charge in micro-percent; non-increasing, floored at 0.
    pub battery_level: u64,
    /// Cumulative distance in micro-miles; non-decreasing.
    pub distance: u64,
}

/// Whether all three measurements of a waypoint are present. Fallback
/// coordinates are substituted all-or-nothing: a frame either uses the
/// recorded triple verbatim or the synthetic triple entirely.
pub open spec fn wp_complete(w: Waypoint) -> bool {
    w.lat is Some && w.lon is Some && w.elevation_ft is Some
}

/// An addition on u64 that stops at the top instead of wrapping.
pub open spec fn sat_add_spec(a: int, b: int) -> int {
    if a + b > u64::MAX {
        u64::MAX as int
    } else {
        a + b
    }
}

fn sat_add(a: u64, b: u64) -> (r: u64)
    ensures
        r == sat_add_spec(a as int, b as int),
        r >= a,
        r >= b,
{
    if a <= u64::MAX - b {
        a + b
    } else {
        u64::MAX
    }
}

/// An i64 clamped at the top of its range; fallback coordinates grow with
/// the cursor and are capped rather than wrapped for extreme indices.
pub open spec fn sat_i64_spec(v: int) -> int {
    if v > i64::MAX {
        i64::MAX as int
    } else {
        v
    }
}

/// Synthetic fallback latitude for the waypoint at index `i`, in
/// micro-degrees: 40.0 + i·0.001 degrees.
pub open spec fn fallback_lat_spec(i: int) -> int {
    sat_i64_spec(40_000_000 + i * 1000)
}

/// Synthetic fallback longitude for the waypoint at index `i`, in
/// micro-degrees: −105.0 + i·0.001 degrees.
pub open spec fn fallback_lon_spec(i: int) -> int {
    sat_i64_spec(-105_000_000 + i * 1000)
}

/// Synthetic fallback elevation for the waypoint at index `i`, in
/// micro-feet: 5400.0 + i feet.
pub open spec fn fallback_elevation_spec(i: int) -> int {
    sat_i64_spec(5_400_000_000 + i * 1_000_000)
}

/// The resolved (lat, lon, elevation) triple for the waypoint `w` at index
/// `i`: the recorded values verbatim when all three are present, otherwise
/// the synthetic triple, never a mixture.
pub open spec fn resolved_triple(w: Waypoint, i: int) -> (int, int, int) {
    if wp_complete(w) {
        (w.lat->0 as int, w.lon->0 as int, w.elevation_ft->0 as int)
    } else {
        (fallback_lat_spec(i), fallback_lon_spec(i), fallback_elevation_spec(i))
    }
}

/// Speed and segment distance for the step from the waypoint before `i` to
/// the resolved position (`lat`, `lon`) at `i`, both in micro-units:
/// - at the first waypoint there is no prior point: both are 0;
/// - where the previous waypoint lacks latitude or longitude, no segment can
///   be measured: both are 0;
/// - otherwise the segment is the great-circle distance from the previous
///   recorded position; where either timestamp fails to parse or the
///   duration is zero or negative, speed is 0 but the distance still
///   accrues;
/// - otherwise speed is distance over elapsed hours.
pub open spec fn spec_speed_and_segment(ride: RideData, i: int, lat: int, lon: int) -> (int, int) {
    if i == 0 {
        (0, 0)
    } else {
        let prev = ride.waypoints@[i - 1];
        if !(prev.lat is Some && prev.lon is Some) {
            (0, 0)
        } else {
            let seg = haversine_micro_spec(prev.lat->0 as int, prev.lon->0 as int, lat, lon);
            let cur = ride.waypoints@[i];
            match elapsed_millis_spec(prev.timestamp@, cur.timestamp@) {
                Some(ms) => (seg * 3_600_000 / ms, seg),
                None => (0, seg),
            }
        }
    }
}

/// The battery level after one frame at the given speed: drain is
/// 0.005 · (1 + speed/20) percent, floored at an empty battery.
pub open spec fn spec_drained(battery: int, speed: int) -> int {
    let drain = BASE_DRAIN_MICRO as int + speed / 4000;
    if battery > drain {
        battery - drain
    } else {
        0
    }
}

fn drain_battery(battery: u64, speed: u64) -> (r: u64)
    ensures
        r == spec_drained(battery as int, speed as int),
        r <= battery,
{
    let drain = BASE_DRAIN_MICRO + speed / 4000;
    if battery > drain {
        battery - drain
    } else {
        0
    }
}

/// A simulator freshly constructed over `ride`: cursor at the start, full
/// battery, no distance.
pub open spec fn spec_new(ride: RideData) -> TelemetrySimulator {
    TelemetrySimulator {
        ride_data: ride,
        current_index: 0,
        battery_level: BATTERY_FULL_MICRO,
        distance: 0,
    }
}

/// The cursor stays within the waypoint sequence and the battery within its
/// range.
pub open spec fn sim_wf(s: TelemetrySimulator) -> bool {
    &&& s.current_index <= s.ride_data.waypoints@.len()
    &&& s.battery_level <= BATTERY_FULL_MICRO
}

/// One step of the simulator: nothing at or beyond the end of the ride
/// (the state does not change), otherwise the next frame and the advanced
/// state.
pub open spec fn spec_step(s: TelemetrySimulator) -> (TelemetrySimulator, Option<
    TelemetryUpdate,
>) {
    if s.current_index >= s.ride_data.waypoints@.len() {
        (s, None)
    } else {
        let i = s.current_index as int;
        let w = s.ride_data.waypoints@[i];
        let (lat, lon, elevation) = resolved_triple(w, i);
        let (speed, seg) = spec_speed_and_segment(s.ride_data, i, lat, lon);
        let battery = spec_drained(s.battery_level as int, speed);
        let dist = sat_add_spec(s.distance as int, seg);
        let next = TelemetrySimulator {
            ride_data: s.ride_data,
            current_index: (s.current_index + 1) as usize,
            battery_level: battery as u64,
            distance: dist as u64,
        };
        let frame = TelemetryUpdate {
            timestamp: w.timestamp,
            lat: lat as i64,
            lon: lon as i64,
            elevation_ft: elevation as i64,
            avg_speed_mph: speed as u64,
            battery_percentage: battery as u64,
            distance_miles: dist as u64,
        };
        (next, Some(frame))
    }
}

impl TelemetrySimulator {
    /// Creates a new simulator over the given ride: cursor at the start,
    /// full battery, no distance. Takes ownership of the ride.
    pub fn new(ride_data: RideData) -> (s: Self)
        ensures
            s == spec_new(ride_data),
            sim_wf(s),
    {
        TelemetrySimulator {
            ride_data,
            current_index: 0,
            battery_level: BATTERY_FULL_MICRO,
            distance: 0,
        }
    }

    fn fallback_lat(&self) -> (r: i64)
        ensures
            r == fallback_lat_spec(self.current_index as int),
    {
        let v: i128 = 40_000_000 + (self.current_index as i128) * 1000;
        if v > i64::MAX as i128 {
            i64::MAX
        } else {
            v as i64
        }
    }

    fn fallback_lon(&self) -> (r: i64)
        ensures
            r == fallback_lon_spec(self.current_index as int),
    {
        let v: i128 = -105_000_000 + (self.current_index as i128) * 1000;
        if v > i64::MAX as i128 {
            i64::MAX
        } else {
            v as i64
        }
    }

    fn fallback_elevation(&self) -> (r: i64)
        ensures
            r == fallback_elevation_spec(self.current_index as int),
    {
        let v: i128 = 5_400_000_000 + (self.current_index as i128) * 1_000_000;
        if v > i64::MAX as i128 {
            i64::MAX
        } else {
            v as i64
        }
    }

    /// Speed and segment distance against the waypoint before the cursor,
    /// from the resolved coordinates at the cursor.
    fn calculate_speed_and_distance(&self, lat: i64, lon: i64) -> (r: (u64, u64))
        requires
            self.current_index < self.ride_data.waypoints@.len(),
        ensures
            (r.0 as int, r.1 as int) == spec_speed_and_segment(
                self.ride_data,
                self.current_index as int,
                lat as int,
                lon as int,
            ),
            r.1 <= MAX_SEGMENT_MICRO_MILES,
    {
        if self.current_index == 0 {
            return (0, 0);
        }
        let prev = &self.ride_data.waypoints[self.current_index - 1];
        let (prev_lat, prev_lon) = match (prev.lat, prev.lon) {
            (Some(a), Some(b)) => (a, b),
            _ => {
                return (0, 0);
            },
        };
        let seg = calculate_distance(prev_lat, prev_lon, lat, lon);
        let cur = &self.ride_data.waypoints[self.current_index];
        match elapsed_millis(prev.timestamp.as_str(), cur.timestamp.as_str()) {
            Some(ms) => (seg * 3_600_000 / ms, seg),
            None => (0, seg),
        }
    }

    /// Returns the next telemetry frame and advances the cursor, or nothing
    /// once the ride is exhausted (a terminal condition, not an error): the
    /// returned frame and the new state are exactly one `spec_step`.
    pub fn next_update(&mut self) -> (r: Option<TelemetryUpdate>)
        requires
            sim_wf(*old(self)),
        ensures
            *final(self) == spec_step(*old(self)).0,
            r == spec_step(*old(self)).1,
            sim_wf(*final(self)),
            r is Some <==> old(self).current_index < old(self).ride_data.waypoints@.len(),
            final(self).ride_data == old(self).ride_data,
            final(self).battery_level <= old(self).battery_level,
            final(self).distance >= old(self).distance,
    {
        if self.current_index >= self.ride_data.waypoints.len() {
            return None;
        }
        let current = &self.ride_data.waypoints[self.current_index];
        let all_present = current.lat.is_some() && current.lon.is_some()
            && current.elevation_ft.is_some();
        let (lat, lon, elevation_ft) = if all_present {
            (
                *current.lat.as_ref().unwrap(),
                *current.lon.as_ref().unwrap(),
                *current.elevation_ft.as_ref().unwrap(),
            )
        } else {
            (self.fallback_lat(), self.fallback_lon(), self.fallback_elevation())
        };
        let timestamp = current.timestamp.clone();
        let (avg_speed, segment_distance) = self.calculate_speed_and_distance(lat, lon);
        let battery_level = drain_battery(self.battery_level, avg_speed);
        let total_distance = sat_add(self.distance, segment_distance);
        self.battery_level = battery_level;
        self.distance = total_distance;
        let update = TelemetryUpdate {
            timestamp,
            lat,
            lon,
            elevation_ft,
            avg_speed_mph: avg_speed,
            battery_percentage: battery_level,
            distance_miles: total_distance,
        };
        self.current_index = self.current_index + 1;
        Some(update)
    }
}

/// The simulator state after `k` polls from state `s`.
pub open spec fn sim_after(s: TelemetrySimulator, k: nat) -> TelemetrySimulator
    decreases k,
{
    if k == 0 {
        s
    } else {
        spec_step(sim_after(s, (k - 1) as nat)).0
    }
}

/// The speed and segment of a step are never negative, and the segment is
/// bounded by the largest great-circle distance.
pub proof fn lemma_speed_and_segment_range(ride: RideData, i: int, lat: int, lon: int)
    ensures
        0 <= spec_speed_and_segment(ride, i, lat, lon).0,
        0 <= spec_speed_and_segment(ride, i, lat, lon).1 <= MAX_SEGMENT_MICRO_MILES as int,
{
    if i != 0 {
        let prev = ride.waypoints@[i - 1];
        if prev.lat is Some && prev.lon is Some {
            lemma_haversine_range(prev.lat->0 as int, prev.lon->0 as int, lat, lon);
            let seg = haversine_micro_spec(prev.lat->0 as int, prev.lon->0 as int, lat, lon);
            let cur = ride.waypoints@[i];
            match elapsed_millis_spec(prev.timestamp@, cur.timestamp@) {
                Some(ms) => {
                    assert(0 <= seg * 3_600_000 / ms) by (nonlinear_arith)
                        requires
                            0 <= seg,
                            0 < ms,
                    ;
                },
                None => {},
            }
        }
    }
}

/// Stepping preserves well-formedness, never moves the cursor backwards or
/// past the end, and never changes the ride.
pub proof fn lemma_step_preserves_wf(s: TelemetrySimulator)
    requires
        sim_wf(s),
    ensures
        sim_wf(spec_step(s).0),
        spec_step(s).0.ride_data == s.ride_data,
        s.current_index <= spec_step(s).0.current_index <= s.ride_data.waypoints@.len(),
{
    assert(s.ride_data.waypoints.len() == s.ride_data.waypoints@.len());
    lemma_battery_non_increasing(s);
}

/// Cumulative distance never decreases from one frame to the next, and each
/// frame reports the state's running total.
pub proof fn lemma_distance_non_decreasing(s: TelemetrySimulator)
    ensures
        s.distance <= spec_step(s).0.distance,
        spec_step(s).1 matches Some(f) ==> f.distance_miles == spec_step(s).0.distance,
{
    if s.current_index < s.ride_data.waypoints@.len() {
        let i = s.current_index as int;
        let w = s.ride_data.waypoints@[i];
        let (lat, lon, elevation) = resolved_triple(w, i);
        lemma_speed_and_segment_range(s.ride_data, i, lat, lon);
    }
}

/// The battery never charges and never drops below empty, whatever the
/// speed sequence.
pub proof fn lemma_battery_non_increasing(s: TelemetrySimulator)
    ensures
        0 <= spec_step(s).0.battery_level <= s.battery_level,
        spec_step(s).1 matches Some(f) ==> f.battery_percentage == spec_step(s).0.battery_level,
{
    if s.current_index < s.ride_data.waypoints@.len() {
        let i = s.current_index as int;
        let w = s.ride_data.waypoints@[i];
        let (lat, lon, elevation) = resolved_triple(w, i);
        lemma_speed_and_segment_range(s.ride_data, i, lat, lon);
    }
}

/// Replaying a ride with N waypoints yields one present frame per poll for
/// each of the first N polls and nothing from the (N+1)-th on; the cursor
/// after k polls is k capped at N, so it never exceeds N.
pub proof fn lemma_replay_yields_each_waypoint_once(ride: RideData, k: nat)
    requires
        ride.waypoints@.len() <= usize::MAX,
    ensures
        sim_wf(sim_after(spec_new(ride), k)),
        sim_after(spec_new(ride), k).ride_data == ride,
        sim_after(spec_new(ride), k).current_index == if k <= ride.waypoints@.len() {
            k as int
        } else {
            ride.waypoints@.len() as int
        },
        k < ride.waypoints@.len() ==> spec_step(sim_after(spec_new(ride), k)).1 is Some,
        k >= ride.waypoints@.len() ==> spec_step(sim_after(spec_new(ride), k)).1 is None,
    decreases k,
{
    if k > 0 {
        lemma_replay_yields_each_waypoint_once(ride, (k - 1) as nat);
        lemma_step_preserves_wf(sim_after(spec_new(ride), (k - 1) as nat));
    }
}

/// Across the frames of one replay, cumulative distance is non-decreasing
/// and battery is non-increasing.
pub proof fn lemma_replay_monotone(ride: RideData, k: nat)
    requires
        ride.waypoints@.len() <= usize::MAX,
    ensures
        sim_after(spec_new(ride), k).distance <= sim_after(spec_new(ride), (k + 1) as nat).distance,
        sim_after(spec_new(ride), (k + 1) as nat).battery_level <= sim_after(
            spec_new(ride),
            k,
        ).battery_level,
{
    lemma_distance_non_decreasing(sim_after(spec_new(ride), k));
    lemma_battery_non_increasing(sim_after(spec_new(ride), k));
}

/// Two consecutive waypoints whose timestamps are exactly one hour apart
/// yield a frame whose average speed in micro-miles-per-hour equals the
/// segment distance in micro-miles.
pub proof fn lemma_speed_matches_distance_over_one_hour(s: TelemetrySimulator, lat: int, lon: int)
    requires
        0 < s.current_index < s.ride_data.waypoints@.len(),
        s.ride_data.waypoints@[s.current_index - 1].lat is Some,
        s.ride_data.waypoints@[s.current_index - 1].lon is Some,
        elapsed_millis_spec(
            s.ride_data.waypoints@[s.current_index - 1].timestamp@,
            s.ride_data.waypoints@[s.current_index as int].timestamp@,
        ) == Some(3_600_000int),
    ensures
        spec_speed_and_segment(s.ride_data, s.current_index as int, lat, lon).0
            == spec_speed_and_segment(s.ride_data, s.current_index as int, lat, lon).1,
{
    let i = s.current_index as int;
    let prev = s.ride_data.waypoints@[i - 1];
    let seg = haversine_micro_spec(prev.lat->0 as int, prev.lon->0 as int, lat, lon);
    lemma_haversine_range(prev.lat->0 as int, prev.lon->0 as int, lat, lon);
    assert(seg * 3_600_000 / 3_600_000 == seg) by (nonlinear_arith)
        requires
            0 <= seg,
    ;
}

/// Fallback resolution is all-or-nothing: a waypoint missing any of its
/// three measurements resolves to the synthetic triple entirely, never to a
/// mixture of recorded and synthetic values.
pub proof fn lemma_fallback_all_or_nothing(w: Waypoint, i: int)
    requires
        !wp_complete(w),
    ensures
        resolved_triple(w, i) == (
            fallback_lat_spec(i),
            fallback_lon_spec(i),
            fallback_elevation_spec(i),
        ),
{
}

} // verus!

