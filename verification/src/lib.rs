//! A telemetry-replay simulator: given a recorded ride (an ordered sequence of
//! geotagged, timestamped waypoints), it produces one synthetic telemetry frame
//! per poll — position, elevation, instantaneous speed, cumulative distance and
//! battery charge — suitable for driving a live-looking dashboard from static
//! recorded data.
//!
//! All quantities are fixed-point integers in micro-units (millionths):
//! coordinates in micro-degrees, elevation in micro-feet, distance in
//! micro-miles, speed in micro-miles-per-hour, battery charge in micro-percent.
//! The boundary layer that feeds the library converts to and from whatever
//! representation its transport uses.

pub mod geo;
pub mod models;
pub mod simulator;
pub mod slot;
pub mod timestamp;
