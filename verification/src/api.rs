//! The snapshot data model: one polled observation of the vehicle's status
//! and of its route.
//!
//! Distances are in metres, timestamps in milliseconds since the Unix epoch,
//! speeds in metres per hour and coordinates in millionths of a degree, so
//! that every quantity the dashboard computes with is an integer.

use vstd::prelude::*;

verus! {

/// State of the on-board internet uplink and its announced next change.
#[derive(Debug, Clone, PartialEq, Eq, Default)]
pub struct Connectivity {
    pub current_state: String,
    pub next_state: Option<String>,
    pub remaining_time_seconds: Option<u64>,
}

/// Scalar vehicle state at the moment of the poll.
#[derive(Debug, Clone, PartialEq, Eq, Default)]
pub struct StatusInfo {
    pub connection: bool,
    pub service_level: String,
    pub gps_status: String,
    /// Connectivity quality as the source reports it.
    pub internet: String,
    /// Latitude in millionths of a degree, north positive.
    pub latitude: i64,
    /// Longitude in millionths of a degree, east positive.
    pub longitude: i64,
    pub tile_y: i64,
    pub tile_x: i64,
    pub series: String,
    /// Server clock at the poll, in milliseconds since the Unix epoch.
    pub server_time: u64,
    /// Current speed in metres per hour.
    pub speed: u32,
    pub train_type: String,
    /// Designation of the train set.
    pub tzn: String,
    pub wagon_class: String,
    pub connectivity: Connectivity,
    pub bap_installed: bool,
}

/// Station identifiers that place the vehicle on its route.
#[derive(Debug, Clone, PartialEq, Eq, Default)]
pub struct TripStopInfo {
    /// Identifier of the stop the schedule names as the next one.
    pub scheduled_next: String,
    pub actual_next: String,
    pub actual_last: String,
    pub actual_last_started: String,
    pub final_station_name: String,
    pub final_station_eva_nr: String,
}

/// A geographic position in millionths of a degree.
#[derive(Debug, Clone, Copy, PartialEq, Eq, Default)]
pub struct GeoCoordinates {
    pub latitude: i64,
    pub longitude: i64,
}

/// Identity of a station.
#[derive(Debug, Clone, PartialEq, Eq, Default)]
pub struct Station {
    /// The identifier by which stops are looked up.
    pub eva_nr: String,
    pub name: String,
    pub code: Option<String>,
    pub geocoordinates: GeoCoordinates,
}

/// Scheduled and actual times at one stop, in milliseconds since the Unix
/// epoch. The first stop of a route has no arrival, the last no departure.
#[derive(Debug, Clone, PartialEq, Eq, Default)]
pub struct Timetable {
    pub scheduled_arrival_time: Option<u64>,
    pub actual_arrival_time: Option<u64>,
    pub show_actual_arrival_time: Option<bool>,
    pub arrival_delay: Option<String>,
    pub scheduled_departure_time: Option<u64>,
    pub actual_departure_time: Option<u64>,
    pub show_actual_departure_time: Option<bool>,
    pub departure_delay: Option<String>,
}

/// Track assignment at one stop.
#[derive(Debug, Clone, PartialEq, Eq, Default)]
pub struct Track {
    pub scheduled: String,
    pub actual: String,
}

/// Position of one stop along the route.
#[derive(Debug, Clone, PartialEq, Eq, Default)]
pub struct StopInfo {
    pub status: u64,
    /// Whether the vehicle has already left this stop behind.
    pub passed: bool,
    pub position_status: String,
    pub distance: u64,
    /// Distance of the stop from the start of the route, in metres.
    pub distance_from_start: u64,
}

/// A reason the source gives for a delay. The source defines no fields yet.
#[derive(Debug, Clone, Copy, PartialEq, Eq, Default)]
pub struct DelayReason {
}

/// One station entry of a route.
#[derive(Debug, Clone, PartialEq, Eq, Default)]
pub struct Stop {
    pub station: Station,
    pub timetable: Timetable,
    pub track: Track,
    pub info: StopInfo,
    pub delay_reasons: Option<Vec<DelayReason>>,
}

/// A connecting service announced for the route.
#[derive(Debug, Clone, PartialEq, Eq, Default)]
pub struct Connection {
    pub train_type: Option<String>,
    pub vzn: Option<String>,
    pub train_number: Option<String>,
    pub station: Option<Station>,
    pub timetable: Option<Timetable>,
    pub track: Option<Track>,
    pub info: Option<TripStopInfo>,
    pub stops: Option<Vec<Stop>>,
    pub conflict: String,
}

/// The route: its stops in travel order and the vehicle's place on it.
#[derive(Debug, Clone, PartialEq, Eq, Default)]
pub struct Trip {
    pub trip_date: String,
    pub train_type: String,
    /// Identifier of the service.
    pub vzn: String,
    /// Distance the vehicle has covered from the start of the route, in
    /// metres.
    pub actual_position: u64,
    pub distance_from_last_stop: u64,
    /// Length of the whole route in metres.
    pub total_distance: u64,
    pub stop_info: TripStopInfo,
    pub stops: Vec<Stop>,
}

/// The route together with what the source says about connections.
#[derive(Debug, Clone, PartialEq, Eq, Default)]
pub struct TripInfo {
    pub trip: Trip,
    pub connection: Connection,
    pub active: Option<bool>,
}

/// A snapshot: everything one poll of the telemetry source returned.
#[derive(Debug, Clone, PartialEq, Eq, Default)]
pub struct Info {
    pub status: StatusInfo,
    pub trip: TripInfo,
}

impl Info {
    /// The stops of the snapshot's route, in travel order.
    pub open spec fn stops(&self) -> Seq<Stop> {
        self.trip.trip.stops@
    }

    /// Number of stops on the snapshot's route.
    pub fn stop_count(&self) -> (count: usize)
        ensures
            count == self.stops().len(),
    {
        self.trip.trip.stops.len()
    }
}

} // verus!
