//! Immutable value types describing a ride and the telemetry frames derived
//! from it. Coordinates are micro-degrees, elevation micro-feet, speed
//! micro-miles-per-hour, battery micro-percent, distance micro-miles.

use vstd::prelude::*;

verus! {

/// One recorded GPS/time/elevation sample in a ride. Each of the three
/// measurements may independently be absent.
pub struct Waypoint {
    /// RFC 3339 timestamp of the sample.
    pub timestamp: String,
    /// Latitude in micro-degrees, if recorded.
    pub lat: Option<i64>,
    /// Longitude in micro-degrees, if recorded.
    pub lon: Option<i64>,
    /// Elevation in micro-feet, if recorded.
    pub elevation_ft: Option<i64>,
}

/// An ordered recording of waypoints plus metadata. Insertion order is
/// temporal order. `number_waypoints` is advisory metadata and may differ
/// from `waypoints.len()`; only the actual length bounds iteration.
pub struct RideData {
    pub name: String,
    pub start_time: String,
    pub end_time: String,
    pub number_waypoints: usize,
    pub waypoints: Vec<Waypoint>,
}

/// One simulator output: resolved position and elevation plus derived speed,
/// battery charge and cumulative distance.
pub struct TelemetryUpdate {
    pub timestamp: String,
    /// Latitude in micro-degrees (fallback-resolved, always concrete).
    pub lat: i64,
    /// Longitude in micro-degrees (fallback-resolved, always concrete).
    pub lon: i64,
    /// Elevation in micro-feet (fallback-resolved, always concrete).
    pub elevation_ft: i64,
    /// Average speed over the last segment, in micro-miles-per-hour.
    pub avg_speed_mph: u64,
    /// Remaining battery charge in micro-percent, between 0 and 100 percent.
    pub battery_percentage: u64,
    /// Cumulative distance in micro-miles; never decreases over a ride.
    pub distance_miles: u64,
}

impl Clone for Waypoint {
    fn clone(&self) -> (res: Self)
        ensures
            res == *self,
    {
        Waypoint {
            timestamp: self.timestamp.clone(),
            lat: self.lat,
            lon: self.lon,
            elevation_ft: self.elevation_ft,
        }
    }
}

/// Two rides are the same recording: equal metadata and equal waypoints.
pub open spec fn eq_ride(a: RideData, b: RideData) -> bool {
    &&& a.name == b.name
    &&& a.start_time == b.start_time
    &&& a.end_time == b.end_time
    &&& a.number_waypoints == b.number_waypoints
    &&& a.waypoints@ == b.waypoints@
}

impl Clone for RideData {
    fn clone(&self) -> (res: Self)
        ensures
            eq_ride(res, *self),
    {
        let waypoints = self.waypoints.clone();
        proof {
            assert(waypoints@ =~= self.waypoints@);
        }
        RideData {
            name: self.name.clone(),
            start_time: self.start_time.clone(),
            end_time: self.end_time.clone(),
            number_waypoints: self.number_waypoints,
            waypoints,
        }
    }
}

} // verus!
