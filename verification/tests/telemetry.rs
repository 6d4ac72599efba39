//! End-to-end tests of the telemetry replay library: frame sequences,
//! monotonicity, distance values, fallback policy and the simulation slot.

use telemetry_sim::geo::calculate_distance;
use telemetry_sim::models::{RideData, TelemetryUpdate, Waypoint};
use telemetry_sim::simulator::TelemetrySimulator;
use telemetry_sim::slot::{ride_file_path, SimError, SimulationSlot};
use telemetry_sim::timestamp::elapsed_millis;

fn wp(timestamp: &str, lat: Option<i64>, lon: Option<i64>, elevation_ft: Option<i64>) -> Waypoint {
    Waypoint {
        timestamp: timestamp.to_string(),
        lat,
        lon,
        elevation_ft,
    }
}

fn ride(name: &str, waypoints: Vec<Waypoint>) -> RideData {
    RideData {
        name: name.to_string(),
        start_time: "2024-06-01T08:00:00Z".to_string(),
        end_time: "2024-06-01T09:00:00Z".to_string(),
        number_waypoints: waypoints.len(),
        waypoints,
    }
}

fn poll_all(sim: &mut TelemetrySimulator, n: usize) -> Vec<TelemetryUpdate> {
    let mut frames = Vec::new();
    for _ in 0..n {
        if let Some(f) = sim.next_update() {
            frames.push(f);
        }
    }
    frames
}

#[test]
fn replay_yields_each_waypoint_once_then_nothing() {
    let r = ride(
        "morning",
        vec![
            wp("2024-06-01T08:00:00Z", Some(40_000_000), Some(-105_000_000), Some(5_300_000_000)),
            wp("2024-06-01T08:10:00Z", Some(40_010_000), Some(-105_010_000), Some(5_310_000_000)),
            wp("2024-06-01T08:20:00Z", Some(40_020_000), Some(-105_020_000), Some(5_320_000_000)),
        ],
    );
    let mut sim = TelemetrySimulator::new(r);
    let f0 = sim.next_update().expect("first frame");
    let f1 = sim.next_update().expect("second frame");
    let f2 = sim.next_update().expect("third frame");
    assert_eq!(f0.timestamp, "2024-06-01T08:00:00Z");
    assert_eq!(f1.timestamp, "2024-06-01T08:10:00Z");
    assert_eq!(f2.timestamp, "2024-06-01T08:20:00Z");
    assert!(sim.next_update().is_none());
    assert!(sim.next_update().is_none());
}

#[test]
fn first_frame_has_no_speed_and_no_distance() {
    let r = ride(
        "single",
        vec![wp("2024-06-01T08:00:00Z", Some(40_000_000), Some(-105_000_000), Some(5_280_000_000))],
    );
    let mut sim = TelemetrySimulator::new(r);
    let f = sim.next_update().expect("frame");
    assert_eq!(f.lat, 40_000_000);
    assert_eq!(f.lon, -105_000_000);
    assert_eq!(f.elevation_ft, 5_280_000_000);
    assert_eq!(f.avg_speed_mph, 0);
    assert_eq!(f.distance_miles, 0);
    assert_eq!(f.battery_percentage, 100_000_000 - 5_000);
}

#[test]
fn distance_is_non_decreasing_across_frames() {
    let r = ride(
        "wander",
        vec![
            wp("2024-06-01T08:00:00Z", Some(0), Some(0), Some(0)),
            wp("2024-06-01T08:30:00Z", Some(0), Some(1_000_000), Some(0)),
            wp("2024-06-01T09:00:00Z", None, None, None),
            wp("2024-06-01T09:30:00Z", Some(500_000), Some(500_000), Some(0)),
            wp("2024-06-01T10:00:00Z", Some(0), Some(0), Some(0)),
        ],
    );
    let mut sim = TelemetrySimulator::new(r);
    let frames = poll_all(&mut sim, 5);
    assert_eq!(frames.len(), 5);
    for pair in frames.windows(2) {
        assert!(pair[0].distance_miles <= pair[1].distance_miles);
    }
    assert!(frames[4].distance_miles > 0);
}

#[test]
fn battery_never_charges_and_never_goes_below_zero() {
    // Nearly antipodal hops one millisecond apart: absurdly high speeds.
    let mut waypoints = Vec::new();
    for i in 0..40 {
        let lon = if i % 2 == 0 { Some(0) } else { Some(179_000_000) };
        let ts = format!("2024-06-01T08:00:00.{:03}Z", i);
        waypoints.push(wp(&ts, Some(0), lon, Some(0)));
    }
    let mut sim = TelemetrySimulator::new(ride("sprint", waypoints));
    let frames = poll_all(&mut sim, 40);
    assert_eq!(frames.len(), 40);
    for pair in frames.windows(2) {
        assert!(pair[0].battery_percentage >= pair[1].battery_percentage);
    }
    // u64 keeps the floor at zero by type; the drain at these speeds must
    // actually reach it.
    assert_eq!(frames[39].battery_percentage, 0);
}

#[test]
fn one_degree_of_longitude_at_the_equator() {
    // radius · π/180 miles, in micro-miles.
    let d = calculate_distance(0, 0, 0, 1_000_000);
    assert!(d > 69_050_000, "distance {d}");
    assert!(d < 69_150_000, "distance {d}");
    // The same arc measured the other way around.
    assert_eq!(d, calculate_distance(0, 1_000_000, 0, 0));
    // No movement, no distance.
    assert_eq!(calculate_distance(40_000_000, -105_000_000, 40_000_000, -105_000_000), 0);
}

#[test]
fn speed_equals_separation_after_exactly_one_hour() {
    let r = ride(
        "steady",
        vec![
            wp("2024-06-01T08:00:00Z", Some(0), Some(0), Some(0)),
            wp("2024-06-01T09:00:00Z", Some(0), Some(1_000_000), Some(0)),
        ],
    );
    let mut sim = TelemetrySimulator::new(r);
    let f0 = sim.next_update().expect("first frame");
    let f1 = sim.next_update().expect("second frame");
    assert_eq!(f0.distance_miles, 0);
    let separation = f1.distance_miles - f0.distance_miles;
    assert!(separation > 0);
    assert_eq!(f1.avg_speed_mph, separation);
}

#[test]
fn missing_elevation_uses_the_full_synthetic_triple() {
    let r = ride(
        "patchy",
        vec![
            wp("2024-06-01T08:00:00Z", Some(40_000_000), Some(-105_000_000), Some(5_300_000_000)),
            wp("2024-06-01T08:10:00Z", Some(41_000_000), Some(-104_000_000), None),
        ],
    );
    let mut sim = TelemetrySimulator::new(r);
    let _ = sim.next_update().expect("first frame");
    let f1 = sim.next_update().expect("second frame");
    // Not a mixture of the recorded lat/lon with a synthetic elevation:
    // the whole triple is synthetic, deterministic in the index.
    assert_eq!(f1.lat, 40_001_000);
    assert_eq!(f1.lon, -104_999_000);
    assert_eq!(f1.elevation_ft, 5_401_000_000);
}

#[test]
fn unparseable_timestamp_zeroes_speed_but_distance_still_accrues() {
    let r = ride(
        "clockless",
        vec![
            wp("yesterday about noon", Some(0), Some(0), Some(0)),
            wp("2024-06-01T09:00:00Z", Some(0), Some(1_000_000), Some(0)),
        ],
    );
    let mut sim = TelemetrySimulator::new(r);
    let _ = sim.next_update().expect("first frame");
    let f1 = sim.next_update().expect("second frame");
    assert_eq!(f1.avg_speed_mph, 0);
    assert!(f1.distance_miles > 69_000_000);
}

#[test]
fn zero_duration_zeroes_speed_but_distance_still_accrues() {
    let r = ride(
        "frozen",
        vec![
            wp("2024-06-01T08:00:00Z", Some(0), Some(0), Some(0)),
            wp("2024-06-01T08:00:00Z", Some(0), Some(1_000_000), Some(0)),
        ],
    );
    let mut sim = TelemetrySimulator::new(r);
    let _ = sim.next_update().expect("first frame");
    let f1 = sim.next_update().expect("second frame");
    assert_eq!(f1.avg_speed_mph, 0);
    assert!(f1.distance_miles > 69_000_000);
}

#[test]
fn previous_waypoint_without_coordinates_measures_no_segment() {
    let r = ride(
        "blind",
        vec![
            wp("2024-06-01T08:00:00Z", None, Some(0), Some(0)),
            wp("2024-06-01T09:00:00Z", Some(0), Some(1_000_000), Some(0)),
        ],
    );
    let mut sim = TelemetrySimulator::new(r);
    let _ = sim.next_update().expect("first frame");
    let f1 = sim.next_update().expect("second frame");
    assert_eq!(f1.avg_speed_mph, 0);
    assert_eq!(f1.distance_miles, 0);
}

#[test]
fn elapsed_millis_reads_real_timestamps() {
    assert_eq!(
        elapsed_millis("2024-06-01T08:00:00Z", "2024-06-01T09:00:00Z"),
        Some(3_600_000)
    );
    assert_eq!(
        elapsed_millis("2024-06-01T08:00:00Z", "2024-06-01T08:00:00.250Z"),
        Some(250)
    );
    // Offsets denote instants: 10:00+02:00 is 08:00Z.
    assert_eq!(
        elapsed_millis("2024-06-01T08:00:00Z", "2024-06-01T10:00:00+02:00"),
        None
    );
    // Negative and zero durations yield nothing.
    assert_eq!(elapsed_millis("2024-06-01T09:00:00Z", "2024-06-01T08:00:00Z"), None);
    // Unparseable input yields nothing rather than a panic.
    assert_eq!(elapsed_millis("not a timestamp", "2024-06-01T08:00:00Z"), None);
}

#[test]
fn ride_file_path_maps_the_closed_set_of_ride_types() {
    assert_eq!(ride_file_path("chill"), Ok("resources/rides/ride-chill.json".to_string()));
    assert_eq!(
        ride_file_path("hardcore"),
        Ok("resources/rides/ride-hardcore.json".to_string())
    );
    assert_eq!(ride_file_path("downhill"), Err(SimError::InvalidRideType));
    assert_eq!(ride_file_path(""), Err(SimError::InvalidRideType));
    assert_eq!(ride_file_path("CHILL"), Err(SimError::InvalidRideType));
}

#[test]
fn poll_with_no_simulator_started_returns_nothing_not_an_error() {
    let mut slot = SimulationSlot::new();
    assert!(slot.poll().is_none());
    assert!(slot.poll().is_none());
    assert!(slot.peek_ride().is_none());
}

#[test]
fn failed_start_leaves_the_running_simulation_untouched() {
    let mut slot = SimulationSlot::new();
    slot.start(ride(
        "keeper",
        vec![
            wp("2024-06-01T08:00:00Z", Some(0), Some(0), Some(0)),
            wp("2024-06-01T09:00:00Z", Some(0), Some(1_000_000), Some(0)),
        ],
    ));
    let f0 = slot.poll().expect("first frame");
    assert_eq!(f0.timestamp, "2024-06-01T08:00:00Z");
    // A load that failed must not destroy the in-flight simulation.
    assert_eq!(slot.start_loaded(Err(SimError::InvalidRideType)), Err(SimError::InvalidRideType));
    assert_eq!(slot.start_loaded(Err(SimError::IOError)), Err(SimError::IOError));
    assert_eq!(slot.start_loaded(Err(SimError::ParseError)), Err(SimError::ParseError));
    assert_eq!(slot.start_loaded(Err(SimError::LockError)), Err(SimError::LockError));
    let ride_back = slot.peek_ride().expect("still active");
    assert_eq!(ride_back.name, "keeper");
    // The cursor kept its place: the next frame is the second waypoint.
    let f1 = slot.poll().expect("second frame");
    assert_eq!(f1.timestamp, "2024-06-01T09:00:00Z");
}

#[test]
fn restart_discards_progress_and_begins_at_the_first_waypoint() {
    let mut slot = SimulationSlot::new();
    slot.start(ride(
        "first",
        vec![
            wp("2024-06-01T08:00:00Z", Some(0), Some(0), Some(0)),
            wp("2024-06-01T09:00:00Z", Some(0), Some(1_000_000), Some(0)),
        ],
    ));
    let _ = slot.poll().expect("progress");
    slot.start(ride(
        "second",
        vec![wp("2025-01-01T00:00:00Z", Some(1_000_000), Some(2_000_000), Some(3_000_000))],
    ));
    let f = slot.poll().expect("fresh frame");
    assert_eq!(f.timestamp, "2025-01-01T00:00:00Z");
    assert_eq!(f.distance_miles, 0);
    assert_eq!(f.battery_percentage, 100_000_000 - 5_000);
}

#[test]
fn successful_start_loaded_installs_the_ride() {
    let mut slot = SimulationSlot::new();
    let outcome = slot.start_loaded(Ok(ride(
        "loaded",
        vec![wp("2024-06-01T08:00:00Z", Some(0), Some(0), Some(0))],
    )));
    assert_eq!(outcome, Ok(()));
    assert_eq!(slot.peek_ride().expect("active").name, "loaded");
}

#[test]
fn peek_ride_does_not_advance_the_cursor() {
    let mut slot = SimulationSlot::new();
    slot.start(ride(
        "steady",
        vec![wp("2024-06-01T08:00:00Z", Some(0), Some(0), Some(0))],
    ));
    let snapshot = slot.peek_ride().expect("snapshot");
    assert_eq!(snapshot.name, "steady");
    assert_eq!(snapshot.waypoints.len(), 1);
    // Peeking twice changes nothing; polling still yields the first frame.
    let _ = slot.peek_ride().expect("snapshot again");
    let f = slot.poll().expect("first frame");
    assert_eq!(f.timestamp, "2024-06-01T08:00:00Z");
}

#[test]
fn stop_clears_the_slot_and_is_idempotent() {
    let mut slot = SimulationSlot::new();
    slot.start(ride(
        "short",
        vec![wp("2024-06-01T08:00:00Z", Some(0), Some(0), Some(0))],
    ));
    slot.stop();
    assert!(slot.poll().is_none());
    assert!(slot.peek_ride().is_none());
    slot.stop();
    assert!(slot.poll().is_none());
}

#[test]
fn exhausted_simulator_stays_installed() {
    let mut slot = SimulationSlot::new();
    slot.start(ride(
        "tiny",
        vec![wp("2024-06-01T08:00:00Z", Some(0), Some(0), Some(0))],
    ));
    assert!(slot.poll().is_some());
    assert!(slot.poll().is_none());
    // Nothing distinguishes exhaustion from idleness by poll alone, but the
    // ride is still there to peek at.
    assert!(slot.peek_ride().is_some());
}

#[test]
fn advisory_waypoint_count_is_ignored_for_iteration() {
    let mut r = ride(
        "mislabelled",
        vec![
            wp("2024-06-01T08:00:00Z", Some(0), Some(0), Some(0)),
            wp("2024-06-01T08:10:00Z", Some(0), Some(100_000), Some(0)),
        ],
    );
    r.number_waypoints = 99;
    let mut sim = TelemetrySimulator::new(r);
    assert!(sim.next_update().is_some());
    assert!(sim.next_update().is_some());
    assert!(sim.next_update().is_none());
}

#[test]
fn error_messages_are_descriptive() {
    assert_eq!(SimError::InvalidRideType.message(), "Invalid ride type");
    assert_ne!(SimError::IOError.message(), SimError::ParseError.message());
    assert_ne!(SimError::LockError.message(), SimError::IOError.message());
}
