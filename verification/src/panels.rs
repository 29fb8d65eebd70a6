//! The contents of the four dashboard panels, computed from the dashboard
//! state. Drawing them is left to the embedding program.

use vstd::prelude::*;
use crate::api::{Info, Stop, Track};
use crate::buffer::SnapshotBuffer;
use crate::metrics::{
    arrival_delay, arrival_delay_of, delay_mood, find_stop, has_no_match, has_several_matches,
    is_only_match, lemma_match_shapes_exclusive, mood_of, next_stop, progress, progress_of,
    staleness_of, staleness_seconds, ArrivalDelay, DelayMood, MetricsError, Progress,
};

verus! {

/// A ratio of two 32-bit numbers, the form in which a layout takes the
/// share of space a row is to get.
#[derive(Debug, Clone, Copy, PartialEq, Eq, Structural)]
pub struct Proportion {
    pub numerator: u32,
    pub denominator: u32,
}

/// The pair that stands for the ratio `numerator / denominator` in 32 bits:
/// the two numbers themselves where both fit, and else the pair got by
/// halving both until they do.
pub open spec fn fit_ratio(numerator: nat, denominator: nat) -> (nat, nat)
    decreases numerator + denominator,
{
    if numerator <= u32::MAX && denominator <= u32::MAX {
        (numerator, denominator)
    } else {
        fit_ratio(numerator / 2, denominator / 2)
    }
}

/// The share of the trip panel's height that a stop gets: the ratio of its
/// distance from the start of the route to the length of the route. On a
/// route of length zero the denominator is zero; what share that stands for
/// is up to the layout that takes the ratio.
pub fn stop_proportion(distance_from_start: u64, total_distance: u64) -> (proportion: Proportion)
    ensures
        (proportion.numerator as nat, proportion.denominator as nat) == fit_ratio(
            distance_from_start as nat,
            total_distance as nat,
        ),
{
    let mut numerator: u64 = distance_from_start;
    let mut denominator: u64 = total_distance;
    while numerator > u32::MAX as u64 || denominator > u32::MAX as u64
        invariant
            fit_ratio(numerator as nat, denominator as nat) == fit_ratio(
                distance_from_start as nat,
                total_distance as nat,
            ),
        decreases numerator + denominator,
    {
        numerator = numerator / 2;
        denominator = denominator / 2;
    }
    Proportion { numerator: numerator as u32, denominator: denominator as u32 }
}

/// How the arrival at a stop is annotated in the stop list.
#[derive(Debug, Clone, Copy, PartialEq, Eq, Structural)]
pub enum ArrivalNote {
    /// No arrival is scheduled at this stop.
    Unscheduled,
    /// An arrival is scheduled, but how late it is cannot be told.
    DelayUnknown { scheduled: u64 },
    /// The arrival is on schedule to the minute.
    OnSchedule { scheduled: u64 },
    /// The arrival is off schedule by `minutes`, negative when early.
    OffSchedule { scheduled: u64, minutes: i64, mood: DelayMood },
}

/// The annotation that belongs to a stop.
pub open spec fn arrival_note_of(stop: Stop) -> ArrivalNote {
    match arrival_delay_of(stop.timetable) {
        ArrivalDelay::Unscheduled => ArrivalNote::Unscheduled,
        ArrivalDelay::Unknown => ArrivalNote::DelayUnknown {
            scheduled: stop.timetable.scheduled_arrival_time.unwrap(),
        },
        ArrivalDelay::Minutes(minutes) => if minutes == 0 {
            ArrivalNote::OnSchedule { scheduled: stop.timetable.scheduled_arrival_time.unwrap() }
        } else {
            ArrivalNote::OffSchedule {
                scheduled: stop.timetable.scheduled_arrival_time.unwrap(),
                minutes,
                mood: mood_of(minutes as int),
            }
        },
    }
}

/// Derives the annotation of the arrival at a stop from its timetable.
pub fn arrival_note(stop: &Stop) -> (note: ArrivalNote)
    ensures
        note == arrival_note_of(*stop),
{
    match stop.timetable.scheduled_arrival_time {
        None => ArrivalNote::Unscheduled,
        Some(scheduled) => match arrival_delay(&stop.timetable) {
            ArrivalDelay::Minutes(minutes) => if minutes == 0 {
                ArrivalNote::OnSchedule { scheduled }
            } else {
                ArrivalNote::OffSchedule { scheduled, minutes, mood: delay_mood(minutes) }
            },
            _ => ArrivalNote::DelayUnknown { scheduled },
        },
    }
}

/// Track assignment shown in the detail view of a stop.
#[derive(Debug, Clone, Copy, PartialEq, Eq)]
pub struct TrackDetail<'a> {
    /// The track the vehicle actually uses.
    pub actual: &'a String,
    /// The track first scheduled, where the vehicle uses another one.
    pub moved_from: Option<&'a String>,
}

/// The detail view of a track assignment: the actual track, and the
/// scheduled one only where the two differ.
pub fn track_detail<'a>(track: &'a Track) -> (detail: TrackDetail<'a>)
    ensures
        *detail.actual == track.actual,
        detail.moved_from == if track.actual@ == track.scheduled@ {
            None
        } else {
            Some(&track.scheduled)
        },
{
    if track.actual == track.scheduled {
        TrackDetail { actual: &track.actual, moved_from: None }
    } else {
        TrackDetail { actual: &track.actual, moved_from: Some(&track.scheduled) }
    }
}

/// One entry of the stop list in the trip panel.
#[derive(Debug, Clone, Copy, PartialEq, Eq)]
pub struct TripRow<'a> {
    /// Name of the station.
    pub name: &'a String,
    /// Scheduled arrival and how far off it the vehicle is.
    pub arrival: ArrivalNote,
    /// Share of the panel's height the row is to get.
    pub proportion: Proportion,
    /// The expanded detail view, present on the selected stop only.
    pub detail: Option<TrackDetail<'a>>,
}

/// Whether `row` is the stop-list entry of `stop` on a route of length
/// `total_distance`, with the detail view present exactly if `detailed`.
pub open spec fn row_shows(row: TripRow, stop: Stop, total_distance: u64, detailed: bool) -> bool {
    &&& *row.name == stop.station.name
    &&& row.arrival == arrival_note_of(stop)
    &&& (row.proportion.numerator as nat, row.proportion.denominator as nat) == fit_ratio(
        stop.info.distance_from_start as nat,
        total_distance as nat,
    )
    &&& match row.detail {
        Some(detail) => {
            &&& detailed
            &&& *detail.actual == stop.track.actual
            &&& detail.moved_from == if stop.track.actual@ == stop.track.scheduled@ {
                None
            } else {
                Some(&stop.track.scheduled)
            }
        },
        None => !detailed,
    }
}

/// Builds the stop-list entry of one stop.
pub fn trip_row<'a>(stop: &'a Stop, total_distance: u64, detailed: bool) -> (row: TripRow<'a>)
    ensures
        row_shows(row, *stop, total_distance, detailed),
{
    TripRow {
        name: &stop.station.name,
        arrival: arrival_note(stop),
        proportion: stop_proportion(stop.info.distance_from_start, total_distance),
        detail: if detailed {
            Some(track_detail(&stop.track))
        } else {
            None
        },
    }
}

/// Contents of the trip panel: the stops of the route, spaced by their
/// distance along it.
#[derive(Debug, PartialEq, Eq)]
pub struct TripPanel<'a> {
    /// Whether the panel has keyboard focus.
    pub focused: bool,
    /// Server clock of the snapshot shown, in milliseconds since the Unix
    /// epoch.
    pub updated: u64,
    /// Age of the snapshot in whole seconds.
    pub staleness: i64,
    /// One entry per stop, in travel order.
    pub rows: Vec<TripRow<'a>>,
    /// Index of the stop the schedule names as the next one, or why the
    /// route does not show which stop that is.
    pub next_stop: Result<usize, MetricsError>,
}

/// Whether `found` is what looking for the scheduled next stop of `info`
/// yields: the index of the one stop that carries its identifier, or the
/// reason there is no such index.
pub open spec fn locates_next_stop(found: Result<usize, MetricsError>, info: Info) -> bool {
    match found {
        Ok(index) => is_only_match(
            info.stops(),
            index as int,
            info.trip.trip.stop_info.scheduled_next@,
        ),
        Err(MetricsError::StopMissing) => has_no_match(
            info.stops(),
            info.trip.trip.stop_info.scheduled_next@,
        ),
        Err(MetricsError::StopAmbiguous) => has_several_matches(
            info.stops(),
            info.trip.trip.stop_info.scheduled_next@,
        ),
        Err(_) => false,
    }
}

/// A snapshot leaves no choice in what the search for its scheduled next
/// stop yields.
pub proof fn lemma_located_stop_is_determined(
    first: Result<usize, MetricsError>,
    second: Result<usize, MetricsError>,
    info: Info,
)
    requires
        locates_next_stop(first, info),
        locates_next_stop(second, info),
    ensures
        first == second,
{
    let target = info.trip.trip.stop_info.scheduled_next@;
    match (first, second) {
        (Ok(a), Ok(b)) => {
            assert(is_only_match(info.stops(), a as int, target));
            assert(is_only_match(info.stops(), b as int, target));
        },
        (Ok(a), _) => {
            lemma_match_shapes_exclusive(info.stops(), target, a as int);
        },
        (_, Ok(b)) => {
            lemma_match_shapes_exclusive(info.stops(), target, b as int);
        },
        _ => {
            lemma_match_shapes_exclusive(info.stops(), target, 0);
        },
    }
}

/// Whether `panel` is the trip panel of the snapshot `info` at time `now`,
/// with the detail view on the stop `selected`, if any.
pub open spec fn trip_panel_shows(
    panel: TripPanel,
    info: Info,
    focused: bool,
    selected: Option<usize>,
    now: i64,
) -> bool {
    &&& panel.focused == focused
    &&& panel.updated == info.status.server_time
    &&& panel.staleness == staleness_of(now as int, info.status.server_time as int)
    &&& panel.rows@.len() == info.stops().len()
    &&& forall|i: int|
        0 <= i < info.stops().len() ==> row_shows(
            #[trigger] panel.rows@[i],
            info.stops()[i],
            info.trip.trip.total_distance,
            selected == Some(i as usize),
        )
    &&& locates_next_stop(panel.next_stop, info)
}

/// Computes the trip panel from a snapshot: one entry per stop with its
/// scheduled arrival, its delay and its share of the panel's height, the
/// detail view on the selected stop, the age of the data at time `now`
/// (milliseconds since the Unix epoch), and the scheduled next stop.
pub fn trip_panel<'a>(info: &'a Info, focused: bool, selected: Option<usize>, now: i64) -> (panel:
    TripPanel<'a>)
    ensures
        trip_panel_shows(panel, *info, focused, selected, now),
{
    let stops = &info.trip.trip.stops;
    let total_distance: u64 = info.trip.trip.total_distance;
    let mut rows: Vec<TripRow<'a>> = Vec::new();
    let mut i: usize = 0;
    while i < stops.len()
        invariant
            stops == &info.trip.trip.stops,
            total_distance == info.trip.trip.total_distance,
            i <= stops@.len(),
            rows@.len() == i,
            forall|j: int|
                0 <= j < i ==> row_shows(
                    #[trigger] rows@[j],
                    stops@[j],
                    total_distance,
                    selected == Some(j as usize),
                ),
        decreases stops@.len() - i,
    {
        let detailed: bool = match selected {
            Some(index) => index == i,
            None => false,
        };
        rows.push(trip_row(&stops[i], total_distance, detailed));
        i += 1;
    }
    TripPanel {
        focused,
        updated: info.status.server_time,
        staleness: staleness_seconds(now, info.status.server_time),
        rows,
        next_stop: find_stop(stops, &info.trip.trip.stop_info.scheduled_next),
    }
}

/// Contents of the basic panel: what the vehicle is and where it runs.
#[derive(Debug, Clone, Copy, PartialEq, Eq)]
pub struct BasicPanel<'a> {
    /// Whether the panel has keyboard focus.
    pub focused: bool,
    /// Type of the vehicle.
    pub train_type: &'a String,
    /// Designation of the train set.
    pub designation: &'a String,
    /// Class of the wagon the data was polled from.
    pub wagon_class: &'a String,
    /// Name of the first stop of the route, if the route has stops.
    pub origin: Option<&'a String>,
    /// Name of the last stop of the route, if the route has stops.
    pub destination: Option<&'a String>,
}

/// Whether `panel` is the basic panel of the snapshot `info`.
pub open spec fn basic_panel_shows(panel: BasicPanel, info: Info, focused: bool) -> bool {
    &&& panel.focused == focused
    &&& *panel.train_type == info.status.train_type
    &&& *panel.designation == info.status.tzn
    &&& *panel.wagon_class == info.status.wagon_class
    &&& panel.origin == if info.stops().len() == 0 {
        None
    } else {
        Some(&info.stops().first().station.name)
    }
    &&& panel.destination == if info.stops().len() == 0 {
        None
    } else {
        Some(&info.stops().last().station.name)
    }
}

/// Computes the basic panel from a snapshot. A route without stops has
/// neither origin nor destination.
pub fn basic_panel<'a>(info: &'a Info, focused: bool) -> (panel: BasicPanel<'a>)
    ensures
        basic_panel_shows(panel, *info, focused),
{
    let stops = &info.trip.trip.stops;
    let count: usize = stops.len();
    BasicPanel {
        focused,
        train_type: &info.status.train_type,
        designation: &info.status.tzn,
        wagon_class: &info.status.wagon_class,
        origin: if count == 0 {
            None
        } else {
            Some(&stops[0].station.name)
        },
        destination: if count == 0 {
            None
        } else {
            Some(&stops[count - 1].station.name)
        },
    }
}

/// The scheduled next stop as the status panel shows it.
#[derive(Debug, Clone, Copy, PartialEq, Eq)]
pub struct UpcomingStop<'a> {
    /// Name of the station.
    pub name: &'a String,
    /// Distance from the vehicle to the stop in metres.
    pub distance: u64,
}

/// Contents of the status panel: the current state of the vehicle.
#[derive(Debug, PartialEq, Eq)]
pub struct StatusPanel<'a> {
    /// Whether the panel has keyboard focus.
    pub focused: bool,
    /// Current speed in metres per hour.
    pub speed: u32,
    /// Moving average of the speed in metres per hour, if there is a
    /// history to average over.
    pub average_speed: Option<u32>,
    /// Connectivity quality as the source reports it.
    pub connectivity: &'a String,
    /// Distances covered and ahead, or why they cannot be given.
    pub progress: Result<Progress, MetricsError>,
    /// The scheduled next stop, or why it cannot be given.
    pub next_stop: Result<UpcomingStop<'a>, MetricsError>,
    /// Latitude in millionths of a degree.
    pub latitude: i64,
    /// Longitude in millionths of a degree.
    pub longitude: i64,
}

/// Whether `upcoming` is what looking for the scheduled next stop of
/// `info` and measuring the way to it yields.
pub open spec fn shows_next_stop(upcoming: Result<UpcomingStop, MetricsError>, info: Info) -> bool {
    let target = info.trip.trip.stop_info.scheduled_next@;
    match upcoming {
        Ok(stop) => exists|index: int|
            {
                &&& is_only_match(info.stops(), index, target)
                &&& *stop.name == info.stops()[index].station.name
                &&& stop.distance == info.stops()[index].info.distance_from_start
                    - info.trip.trip.actual_position
            },
        Err(MetricsError::StopMissing) => has_no_match(info.stops(), target),
        Err(MetricsError::StopAmbiguous) => has_several_matches(info.stops(), target),
        Err(MetricsError::StopBehind) => exists|index: int|
            is_only_match(info.stops(), index, target)
                && info.stops()[index].info.distance_from_start < info.trip.trip.actual_position,
        Err(_) => false,
    }
}

/// A snapshot leaves no choice in what the status panel shows of its
/// scheduled next stop.
pub proof fn lemma_shown_stop_is_determined(
    first: Result<UpcomingStop, MetricsError>,
    second: Result<UpcomingStop, MetricsError>,
    info: Info,
)
    requires
        shows_next_stop(first, info),
        shows_next_stop(second, info),
    ensures
        first == second,
{
    let target = info.trip.trip.stop_info.scheduled_next@;
    let stops = info.stops();
    if exists|index: int| is_only_match(stops, index, target) {
        let only = choose|index: int| is_only_match(stops, index, target);
        lemma_match_shapes_exclusive(stops, target, only);
        assert(forall|index: int| is_only_match(stops, index, target) ==> index == only);
    } else {
        lemma_match_shapes_exclusive(stops, target, 0);
    }
}

/// Whether `panel` is the status panel of the snapshot `info` with the
/// given moving average.
pub open spec fn status_panel_shows(
    panel: StatusPanel,
    info: Info,
    average_speed: Option<u32>,
    focused: bool,
) -> bool {
    &&& panel.focused == focused
    &&& panel.speed == info.status.speed
    &&& panel.average_speed == average_speed
    &&& *panel.connectivity == info.status.internet
    &&& panel.progress == progress_of(info.trip.trip.actual_position, info.trip.trip.total_distance)
    &&& shows_next_stop(panel.next_stop, info)
    &&& panel.latitude == info.status.latitude
    &&& panel.longitude == info.status.longitude
}

/// Computes the status panel from a snapshot and the moving average of the
/// speed. Progress or next stop that the snapshot's data cannot yield show
/// up as errors in their own fields and leave the rest of the panel intact.
pub fn status_panel<'a>(info: &'a Info, average_speed: Option<u32>, focused: bool) -> (panel:
    StatusPanel<'a>)
    ensures
        status_panel_shows(panel, *info, average_speed, focused),
{
    let trip = &info.trip.trip;
    let upcoming: Result<UpcomingStop<'a>, MetricsError> = match next_stop(trip) {
        Ok(next) => Ok(
            UpcomingStop { name: &trip.stops[next.index].station.name, distance: next.distance },
        ),
        Err(error) => Err(error),
    };
    StatusPanel {
        focused,
        speed: info.status.speed,
        average_speed,
        connectivity: &info.status.internet,
        progress: progress(trip.actual_position, trip.total_distance),
        next_stop: upcoming,
        latitude: info.status.latitude,
        longitude: info.status.longitude,
    }
}

/// Upper end of the speed axis of the speed panel, in metres per hour.
pub const SPEED_CEILING: u32 = 300_000;

/// One line of the speed plot, from one snapshot to the next.
#[derive(Debug, Clone, Copy, PartialEq, Eq, Structural)]
pub struct SpeedSegment {
    /// Position of the earlier snapshot in the history; the later one is at
    /// the next position.
    pub position: usize,
    /// Speed at the earlier snapshot in metres per hour.
    pub from: u32,
    /// Speed at the later snapshot in metres per hour.
    pub to: u32,
    /// Whether the speed drops along the segment.
    pub falling: bool,
}

/// Contents of the speed panel: the speed over the retained history.
#[derive(Debug, Clone, PartialEq, Eq)]
pub struct SpeedPanel {
    /// Whether the panel has keyboard focus.
    pub focused: bool,
    /// Width of the time axis: the capacity of the history.
    pub capacity: usize,
    /// Upper end of the speed axis in metres per hour.
    pub ceiling: u32,
    /// One segment per pair of neighbouring snapshots, oldest first.
    pub segments: Vec<SpeedSegment>,
}

/// The segment of the speed plot that starts at `position` of `history`.
pub open spec fn segment_of(history: Seq<Info>, position: int) -> SpeedSegment {
    SpeedSegment {
        position: position as usize,
        from: history[position].status.speed,
        to: history[position + 1].status.speed,
        falling: history[position].status.speed > history[position + 1].status.speed,
    }
}

/// Whether `panel` is the speed panel of the given history.
pub open spec fn speed_panel_shows(
    panel: SpeedPanel,
    history: Seq<Info>,
    capacity: nat,
    focused: bool,
) -> bool {
    &&& panel.focused == focused
    &&& panel.capacity == capacity
    &&& panel.ceiling == SPEED_CEILING
    &&& panel.segments@.len() == if history.len() == 0 {
        0
    } else {
        history.len() - 1
    }
    &&& forall|i: int|
        0 <= i < panel.segments@.len() ==> #[trigger] panel.segments@[i] == segment_of(history, i)
}

/// Computes the speed panel from the history: the series of speeds as
/// segments between neighbouring snapshots.
pub fn speed_panel(buffer: &SnapshotBuffer, focused: bool) -> (panel: SpeedPanel)
    ensures
        speed_panel_shows(panel, buffer@, buffer.capacity() as nat, focused),
{
    let mut segments: Vec<SpeedSegment> = Vec::new();
    let len: usize = buffer.len();
    let mut i: usize = 1;
    while i < len
        invariant
            len == buffer@.len(),
            1 <= i,
            i <= len || i == 1,
            segments@.len() == i - 1,
            forall|j: int|
                0 <= j < segments@.len() ==> #[trigger] segments@[j] == segment_of(buffer@, j),
        decreases len - i,
    {
        match (buffer.get(i - 1), buffer.get(i)) {
            (Some(earlier), Some(later)) => {
                segments.push(
                    SpeedSegment {
                        position: i - 1,
                        from: earlier.status.speed,
                        to: later.status.speed,
                        falling: earlier.status.speed > later.status.speed,
                    },
                );
            },
            _ => {},
        }
        i += 1;
    }
    SpeedPanel { focused, capacity: buffer.capacity(), ceiling: SPEED_CEILING, segments }
}

} // verus!
