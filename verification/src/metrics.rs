//! The values the panels display, derived from snapshots.
//!
//! Every function here is a pure computation on plain values. Quotients are
//! rounded to the nearest integer, a tie going away from zero.

use vstd::prelude::*;
use crate::api::{Info, Stop, Timetable, Trip};
use crate::buffer::SnapshotBuffer;

verus! {

/// Milliseconds in one minute.
pub const MILLIS_PER_MINUTE: u64 = 60_000;

/// Milliseconds in one second.
pub const MILLIS_PER_SECOND: u64 = 1_000;

/// Metres in one kilometre.
pub const METRES_PER_KILOMETRE: u64 = 1_000;

/// Hundredths of a percent that make up the whole.
pub const FULL_PERCENTAGE: u32 = 10_000;

/// The integer nearest to `numerator / denominator`, for a numerator that
/// is not negative and a positive denominator: the whole quotient, and one
/// more where the remainder is at least half the denominator.
pub open spec fn div_nearest(numerator: int, denominator: int) -> int {
    numerator / denominator + if 2 * (numerator % denominator) >= denominator {
        1int
    } else {
        0int
    }
}

/// `div_nearest` is off from the exact quotient by at most one half: twice
/// the numerator lies within one denominator of twice the product.
pub proof fn lemma_div_nearest_is_nearest(numerator: int, denominator: int)
    requires
        numerator >= 0,
        denominator > 0,
    ensures
        div_nearest(numerator, denominator) >= 0,
        2 * div_nearest(numerator, denominator) * denominator - denominator <= 2 * numerator,
        2 * numerator < 2 * div_nearest(numerator, denominator) * denominator + denominator,
{
    let whole = numerator / denominator;
    let rest = numerator % denominator;
    vstd::arithmetic::div_mod::lemma_fundamental_div_mod(numerator, denominator);
    vstd::arithmetic::div_mod::lemma_mod_bound(numerator, denominator);
    vstd::arithmetic::div_mod::lemma_div_pos_is_pos(numerator, denominator);
    assert(2 * (whole + 1) * denominator == 2 * (denominator * whole) + 2 * denominator)
        by (nonlinear_arith);
    assert(2 * whole * denominator == 2 * (denominator * whole)) by (nonlinear_arith);
}

/// A nearest quotient never exceeds a bound that the exact quotient meets.
pub proof fn lemma_div_nearest_bounded(numerator: int, denominator: int, bound: int)
    requires
        numerator >= 0,
        denominator > 0,
        numerator <= bound * denominator,
    ensures
        div_nearest(numerator, denominator) <= bound,
{
    lemma_div_nearest_is_nearest(numerator, denominator);
    let q = div_nearest(numerator, denominator);
    if q > bound {
        assert(2 * q * denominator >= 2 * (bound + 1) * denominator) by (nonlinear_arith)
            requires
                q >= bound + 1,
                denominator > 0,
        ;
        assert(2 * (bound + 1) * denominator == 2 * (bound * denominator) + 2 * denominator)
            by (nonlinear_arith);
    }
}

/// Divides and rounds to the nearest integer, a tie going up.
pub(crate) fn div_round(numerator: u128, denominator: u128) -> (quotient: u128)
    requires
        denominator > 0,
    ensures
        quotient == div_nearest(numerator as int, denominator as int),
{
    let whole: u128 = numerator / denominator;
    let rest: u128 = numerator % denominator;
    if rest >= denominator - rest {
        assert(whole < u128::MAX) by {
            vstd::arithmetic::div_mod::lemma_fundamental_div_mod(
                numerator as int,
                denominator as int,
            );
            assert(denominator * whole >= 2 * whole) by (nonlinear_arith)
                requires
                    denominator >= 2,
                    whole >= 0,
            ;
        }
        whole + 1
    } else {
        whole
    }
}

/// Whole kilometres in a distance given in metres.
pub fn whole_kilometres(metres: u64) -> (kilometres: u64)
    ensures
        kilometres == metres / METRES_PER_KILOMETRE,
{
    metres / METRES_PER_KILOMETRE
}

/// Delay of an arrival in minutes: the difference between the actual and
/// the scheduled time, both in milliseconds, rounded to the nearest minute.
/// It is negative for an early arrival.
pub open spec fn delay_minutes_of(scheduled: int, actual: int) -> int {
    if actual >= scheduled {
        div_nearest(actual - scheduled, MILLIS_PER_MINUTE as int)
    } else {
        -div_nearest(scheduled - actual, MILLIS_PER_MINUTE as int)
    }
}

/// Computes the delay of an arrival in minutes from its scheduled and its
/// actual time.
pub fn delay_minutes(scheduled: u64, actual: u64) -> (minutes: i64)
    ensures
        minutes == delay_minutes_of(scheduled as int, actual as int),
{
    if actual >= scheduled {
        let late: u64 = actual - scheduled;
        proof {
            lemma_div_nearest_is_nearest(late as int, MILLIS_PER_MINUTE as int);
            lemma_div_nearest_bounded(late as int, MILLIS_PER_MINUTE as int, 0x2_0000_0000_0000);
        }
        div_round(late as u128, MILLIS_PER_MINUTE as u128) as i64
    } else {
        let early: u64 = scheduled - actual;
        proof {
            lemma_div_nearest_is_nearest(early as int, MILLIS_PER_MINUTE as int);
            lemma_div_nearest_bounded(early as int, MILLIS_PER_MINUTE as int, 0x2_0000_0000_0000);
        }
        -(div_round(early as u128, MILLIS_PER_MINUTE as u128) as i64)
    }
}

/// What is known about the delay of the arrival at one stop.
#[derive(Debug, Clone, Copy, PartialEq, Eq, Structural)]
pub enum ArrivalDelay {
    /// The timetable schedules no arrival, as at the first stop of a route.
    Unscheduled,
    /// An arrival is scheduled but no actual time is on record.
    Unknown,
    /// The arrival is this many minutes late, or early when negative.
    Minutes(i64),
}

/// The arrival delay a timetable entry stands for.
pub open spec fn arrival_delay_of(timetable: Timetable) -> ArrivalDelay {
    match timetable.scheduled_arrival_time {
        None => ArrivalDelay::Unscheduled,
        Some(scheduled) => match timetable.actual_arrival_time {
            None => ArrivalDelay::Unknown,
            Some(actual) => ArrivalDelay::Minutes(
                delay_minutes_of(scheduled as int, actual as int) as i64,
            ),
        },
    }
}

/// Derives the arrival delay from a timetable entry. A scheduled arrival
/// without an actual time yields `Unknown`.
pub fn arrival_delay(timetable: &Timetable) -> (delay: ArrivalDelay)
    ensures
        delay == arrival_delay_of(*timetable),
{
    match timetable.scheduled_arrival_time {
        None => ArrivalDelay::Unscheduled,
        Some(scheduled) => match timetable.actual_arrival_time {
            None => ArrivalDelay::Unknown,
            Some(actual) => ArrivalDelay::Minutes(delay_minutes(scheduled, actual)),
        },
    }
}

/// First delay, in minutes, that counts as slight.
pub const SLIGHT_FROM: i64 = 1;

/// First delay, in minutes, that counts as moderate.
pub const MODERATE_FROM: i64 = 6;

/// First delay, in minutes, that counts as severe.
pub const SEVERE_FROM: i64 = 16;

/// First delay, in minutes, that counts as extreme.
pub const EXTREME_FROM: i64 = 60;

/// Qualitative category of a delay, from least to most severe.
///
/// | category   | delay in minutes |
/// |------------|------------------|
/// | `OnTime`   | 0 or less        |
/// | `Slight`   | 1 to 5           |
/// | `Moderate` | 6 to 15          |
/// | `Severe`   | 16 to 59         |
/// | `Extreme`  | 60 or more       |
#[derive(Debug, Clone, Copy, PartialEq, Eq, Structural)]
pub enum DelayMood {
    OnTime,
    Slight,
    Moderate,
    Severe,
    Extreme,
}

impl DelayMood {
    /// Rank of the category, 0 for the mildest and 4 for the worst.
    pub open spec fn severity(self) -> int {
        match self {
            DelayMood::OnTime => 0,
            DelayMood::Slight => 1,
            DelayMood::Moderate => 2,
            DelayMood::Severe => 3,
            DelayMood::Extreme => 4,
        }
    }

    /// Whether the category's range of the table holds `minutes`. The first
    /// range has no lower end and the last no upper end.
    pub open spec fn covers(self, minutes: int) -> bool {
        match self {
            DelayMood::OnTime => minutes < SLIGHT_FROM,
            DelayMood::Slight => SLIGHT_FROM <= minutes < MODERATE_FROM,
            DelayMood::Moderate => MODERATE_FROM <= minutes < SEVERE_FROM,
            DelayMood::Severe => SEVERE_FROM <= minutes < EXTREME_FROM,
            DelayMood::Extreme => EXTREME_FROM <= minutes,
        }
    }
}

/// The category of a delay: the one whose range holds it.
pub open spec fn mood_of(minutes: int) -> DelayMood {
    if minutes < SLIGHT_FROM {
        DelayMood::OnTime
    } else if minutes < MODERATE_FROM {
        DelayMood::Slight
    } else if minutes < SEVERE_FROM {
        DelayMood::Moderate
    } else if minutes < EXTREME_FROM {
        DelayMood::Severe
    } else {
        DelayMood::Extreme
    }
}

/// Looks the category of a delay up in the table.
pub fn delay_mood(minutes: i64) -> (mood: DelayMood)
    ensures
        mood == mood_of(minutes as int),
        mood.covers(minutes as int),
{
    if minutes < SLIGHT_FROM {
        DelayMood::OnTime
    } else if minutes < MODERATE_FROM {
        DelayMood::Slight
    } else if minutes < SEVERE_FROM {
        DelayMood::Moderate
    } else if minutes < EXTREME_FROM {
        DelayMood::Severe
    } else {
        DelayMood::Extreme
    }
}

/// The ranges of the table leave no gap and do not overlap: every delay is
/// covered by exactly one category, the one `mood_of` names.
pub proof fn lemma_moods_partition(minutes: int, mood: DelayMood)
    ensures
        mood.covers(minutes) <==> mood == mood_of(minutes),
{
}

/// The categories are ordered as the delays are: a longer delay never gets
/// a milder category.
pub proof fn lemma_mood_monotonic(shorter: int, longer: int)
    requires
        shorter <= longer,
    ensures
        mood_of(shorter).severity() <= mood_of(longer).severity(),
{
}

/// Age of a snapshot in whole seconds: the time from the server clock of
/// the snapshot to `now`, both in milliseconds, with a started second
/// dropped. It is negative when the server clock is ahead of `now`.
pub open spec fn staleness_of(now: int, server_time: int) -> int {
    if now >= server_time {
        (now - server_time) / (MILLIS_PER_SECOND as int)
    } else {
        -((server_time - now) / (MILLIS_PER_SECOND as int))
    }
}

/// Computes the age of a snapshot in whole seconds from the current time
/// and the snapshot's server time, both in milliseconds since the Unix
/// epoch.
pub fn staleness_seconds(now: i64, server_time: u64) -> (seconds: i64)
    ensures
        seconds == staleness_of(now as int, server_time as int),
{
    let now_wide: i128 = now as i128;
    let server_wide: i128 = server_time as i128;
    if now_wide >= server_wide {
        let age: i128 = now_wide - server_wide;
        (age / (MILLIS_PER_SECOND as i128)) as i64
    } else {
        let lead: i128 = server_wide - now_wide;
        -((lead / (MILLIS_PER_SECOND as i128)) as i64)
    }
}

/// Why a value cannot be displayed.
#[derive(Debug, Clone, Copy, PartialEq, Eq, Structural)]
pub enum MetricsError {
    /// The route has a total length of zero, so no share of it can be given.
    ZeroRouteLength,
    /// The vehicle is placed beyond the end of the route.
    PositionBeyondRoute,
    /// No stop carries the wanted station identifier.
    StopMissing,
    /// More than one stop carries the wanted station identifier.
    StopAmbiguous,
    /// The wanted stop lies behind the vehicle.
    StopBehind,
}

/// Sum of the speeds of all snapshots of a history.
pub open spec fn speed_sum(history: Seq<Info>) -> int
    decreases history.len(),
{
    if history.len() == 0 {
        0
    } else {
        speed_sum(history.drop_last()) + history.last().status.speed
    }
}

/// Arithmetic mean of the speeds of all snapshots of a history, rounded to
/// the nearest integer; `None` for an empty history.
pub open spec fn mean_speed(history: Seq<Info>) -> Option<int> {
    if history.len() == 0 {
        None
    } else {
        Some(div_nearest(speed_sum(history), history.len() as int))
    }
}

/// The sum of speeds is at most the largest speed times the number of
/// snapshots.
pub proof fn lemma_speed_sum_bounds(history: Seq<Info>)
    ensures
        0 <= speed_sum(history) <= history.len() * u32::MAX,
    decreases history.len(),
{
    if history.len() > 0 {
        lemma_speed_sum_bounds(history.drop_last());
        assert(history.len() * u32::MAX == history.drop_last().len() * u32::MAX + u32::MAX)
            by (nonlinear_arith)
            requires
                history.drop_last().len() == history.len() - 1,
        ;
    }
}

/// Moving average of the speed over every snapshot the buffer retains, in
/// the unit of the snapshots' speed. The window is the whole retained
/// history, so it grows with the buffer until the buffer is full. `None`
/// while the buffer is empty.
pub fn moving_average_speed(buffer: &SnapshotBuffer) -> (average: Option<u32>)
    ensures
        match average {
            Some(speed) => mean_speed(buffer@) == Some(speed as int),
            None => mean_speed(buffer@).is_none(),
        },
{
    let len: usize = buffer.len();
    if len == 0 {
        return None;
    }
    let mut sum: u128 = 0;
    let mut i: usize = 0;
    while i < len
        invariant
            len == buffer@.len(),
            i <= len,
            sum == speed_sum(buffer@.take(i as int)),
        decreases len - i,
    {
        proof {
            lemma_speed_sum_bounds(buffer@.take(i as int));
            assert(i * u32::MAX <= usize::MAX * u32::MAX) by (nonlinear_arith)
                requires
                    i <= usize::MAX,
            ;
            assert(buffer@.take(i + 1).drop_last() =~= buffer@.take(i as int));
        }
        match buffer.get(i) {
            Some(info) => {
                sum = sum + info.status.speed as u128;
            },
            None => {},
        }
        i += 1;
    }
    proof {
        assert(buffer@.take(len as int) =~= buffer@);
        lemma_speed_sum_bounds(buffer@);
        lemma_div_nearest_is_nearest(sum as int, len as int);
        lemma_div_nearest_bounded(sum as int, len as int, u32::MAX as int);
    }
    Some(div_round(sum, len as u128) as u32)
}

/// How far along its route the vehicle is.
#[derive(Debug, Clone, Copy, PartialEq, Eq, Structural)]
pub struct Progress {
    /// Length of the whole route in metres.
    pub total: u64,
    /// Distance covered so far in metres.
    pub traveled: u64,
    /// Distance still ahead in metres.
    pub remaining: u64,
    /// The covered part of the route in hundredths of a percent.
    pub traveled_share: u32,
    /// The part of the route still ahead in hundredths of a percent.
    pub remaining_share: u32,
}

/// The share that `part` has of `total`, in hundredths of a percent and
/// rounded to the nearest.
pub open spec fn share_of(part: int, total: int) -> int {
    div_nearest(part * FULL_PERCENTAGE, total)
}

/// The progress of a vehicle at `position` on a route of length `total`.
/// It is unavailable for a route of length zero, which has no shares, and
/// for a position past the end of the route.
pub open spec fn progress_of(position: u64, total: u64) -> Result<Progress, MetricsError> {
    if total == 0 {
        Err(MetricsError::ZeroRouteLength)
    } else if position > total {
        Err(MetricsError::PositionBeyondRoute)
    } else {
        Ok(
            Progress {
                total,
                traveled: position,
                remaining: (total - position) as u64,
                traveled_share: share_of(position as int, total as int) as u32,
                remaining_share: share_of(total - position, total as int) as u32,
            },
        )
    }
}

/// A part of a whole has a share between nothing and all of it.
pub proof fn lemma_share_bounds(part: int, total: int)
    requires
        0 <= part <= total,
        total > 0,
    ensures
        0 <= share_of(part, total) <= FULL_PERCENTAGE,
{
    assert(0 <= part * FULL_PERCENTAGE <= FULL_PERCENTAGE * total) by (nonlinear_arith)
        requires
            0 <= part <= total,
    ;
    lemma_div_nearest_is_nearest(part * FULL_PERCENTAGE, total);
    lemma_div_nearest_bounded(part * FULL_PERCENTAGE, total, FULL_PERCENTAGE as int);
}

/// Computes the distances covered and ahead, and their shares of the route.
pub fn progress(position: u64, total: u64) -> (result: Result<Progress, MetricsError>)
    ensures
        result == progress_of(position, total),
{
    if total == 0 {
        return Err(MetricsError::ZeroRouteLength);
    }
    if position > total {
        return Err(MetricsError::PositionBeyondRoute);
    }
    let remaining: u64 = total - position;
    proof {
        lemma_share_bounds(position as int, total as int);
        lemma_share_bounds(remaining as int, total as int);
    }
    let traveled_share: u128 = div_round(
        position as u128 * FULL_PERCENTAGE as u128,
        total as u128,
    );
    let remaining_share: u128 = div_round(
        remaining as u128 * FULL_PERCENTAGE as u128,
        total as u128,
    );
    Ok(
        Progress {
            total,
            traveled: position,
            remaining,
            traveled_share: traveled_share as u32,
            remaining_share: remaining_share as u32,
        },
    )
}

/// Whether `stops` has a stop at `index` whose station carries the
/// identifier `station`.
pub open spec fn stop_matches(stops: Seq<Stop>, index: int, station: Seq<char>) -> bool {
    0 <= index < stops.len() && stops[index].station.eva_nr@ == station
}

/// Whether the stop at `index` is the only one of `stops` whose station
/// carries the identifier `station`.
pub open spec fn is_only_match(stops: Seq<Stop>, index: int, station: Seq<char>) -> bool {
    &&& stop_matches(stops, index, station)
    &&& forall|other: int| stop_matches(stops, other, station) ==> other == index
}

/// Whether no stop of `stops` carries the identifier `station`.
pub open spec fn has_no_match(stops: Seq<Stop>, station: Seq<char>) -> bool {
    forall|index: int| !stop_matches(stops, index, station)
}

/// Whether at least two stops of `stops` carry the identifier `station`.
pub open spec fn has_several_matches(stops: Seq<Stop>, station: Seq<char>) -> bool {
    exists|first: int, second: int|
        first != second && stop_matches(stops, first, station) && stop_matches(
            stops,
            second,
            station,
        )
}

/// Finds the one stop whose station carries the identifier `station` and
/// returns its index. A list without such a stop, and a list with more than
/// one, is inconsistent data and reported as such; no stop is picked in its
/// place.
pub fn find_stop(stops: &Vec<Stop>, station: &String) -> (found: Result<usize, MetricsError>)
    ensures
        match found {
            Ok(index) => is_only_match(stops@, index as int, station@),
            Err(MetricsError::StopMissing) => has_no_match(stops@, station@),
            Err(MetricsError::StopAmbiguous) => has_several_matches(stops@, station@),
            Err(_) => false,
        },
{
    let mut first: Option<usize> = None;
    let mut i: usize = 0;
    while i < stops.len()
        invariant
            i <= stops@.len(),
            match first {
                Some(index) => index < i && stop_matches(stops@, index as int, station@)
                    && forall|other: int|
                    0 <= other < i && stop_matches(stops@, other, station@) ==> other == index,
                None => forall|other: int| 0 <= other < i ==> !stop_matches(stops@, other, station@),
            },
        decreases stops@.len() - i,
    {
        if stops[i].station.eva_nr == *station {
            match first {
                Some(index) => {
                    assert(stop_matches(stops@, index as int, station@));
                    assert(stop_matches(stops@, i as int, station@));
                    return Err(MetricsError::StopAmbiguous);
                },
                None => {
                    first = Some(i);
                },
            }
        }
        i += 1;
    }
    match first {
        Some(index) => Ok(index),
        None => Err(MetricsError::StopMissing),
    }
}

/// A list of stops has exactly one of three shapes with respect to an
/// identifier: one stop carries it, none does, or several do.
pub proof fn lemma_match_shapes_exclusive(stops: Seq<Stop>, station: Seq<char>, index: int)
    ensures
        !(is_only_match(stops, index, station) && has_no_match(stops, station)),
        !(is_only_match(stops, index, station) && has_several_matches(stops, station)),
        !(has_no_match(stops, station) && has_several_matches(stops, station)),
{
    if has_several_matches(stops, station) {
        let (first, second) = choose|first: int, second: int|
            first != second && stop_matches(stops, first, station) && stop_matches(
                stops,
                second,
                station,
            );
        assert(stop_matches(stops, first, station));
        assert(stop_matches(stops, second, station));
    }
}

/// The stop the schedule names as the next one, and how far ahead it lies.
#[derive(Debug, Clone, Copy, PartialEq, Eq, Structural)]
pub struct NextStop {
    /// Index of the stop in the route's list of stops.
    pub index: usize,
    /// Distance from the vehicle to the stop in metres.
    pub distance: u64,
}

/// Looks up the stop that the route names as the scheduled next one and
/// measures the distance from the vehicle to it.
pub fn next_stop(trip: &Trip) -> (result: Result<NextStop, MetricsError>)
    ensures
        match result {
            Ok(next) => {
                &&& is_only_match(trip.stops@, next.index as int, trip.stop_info.scheduled_next@)
                &&& next.distance == trip.stops@[next.index as int].info.distance_from_start
                    - trip.actual_position
            },
            Err(MetricsError::StopMissing) => has_no_match(
                trip.stops@,
                trip.stop_info.scheduled_next@,
            ),
            Err(MetricsError::StopAmbiguous) => has_several_matches(
                trip.stops@,
                trip.stop_info.scheduled_next@,
            ),
            Err(MetricsError::StopBehind) => exists|index: int|
                is_only_match(trip.stops@, index, trip.stop_info.scheduled_next@)
                    && trip.stops@[index].info.distance_from_start < trip.actual_position,
            Err(_) => false,
        },
{
    match find_stop(&trip.stops, &trip.stop_info.scheduled_next) {
        Err(error) => Err(error),
        Ok(index) => {
            let at: u64 = trip.stops[index].info.distance_from_start;
            if at < trip.actual_position {
                assert(is_only_match(
                    trip.stops@,
                    index as int,
                    trip.stop_info.scheduled_next@,
                ));
                Err(MetricsError::StopBehind)
            } else {
                Ok(NextStop { index, distance: at - trip.actual_position })
            }
        },
    }
}

} // verus!
