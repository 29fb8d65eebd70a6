//! Panel focus and the dashboard controller.

use vstd::prelude::*;
use crate::api::Info;
use crate::buffer::{history_after_push, lemma_retained_len, SnapshotBuffer};
use crate::cursor::{clamp_index, CursorView, RouteCursor};
use crate::metrics::{mean_speed, moving_average_speed};
use crate::panels::{
    basic_panel, basic_panel_shows, lemma_located_stop_is_determined,
    lemma_shown_stop_is_determined, row_shows, speed_panel, speed_panel_shows, status_panel,
    status_panel_shows, trip_panel, trip_panel_shows, BasicPanel, SpeedPanel, StatusPanel,
    TripPanel,
};

verus! {

/// The dashboard panel that currently has keyboard focus.
///
/// The four panels form a cycle: `next` walks it forwards, `prev` backwards,
/// and neither can fail.
#[derive(Debug, Clone, Copy, PartialEq, Eq, Structural)]
pub enum PanelSelection {
    BasicInformation,
    StatusInformation,
    SpeedInformation,
    TripInformation,
}

impl PanelSelection {
    /// Position of the panel in the focus cycle, counted from the basic panel.
    pub open spec fn position(self) -> int {
        match self {
            PanelSelection::BasicInformation => 0,
            PanelSelection::StatusInformation => 1,
            PanelSelection::SpeedInformation => 2,
            PanelSelection::TripInformation => 3,
        }
    }

    /// The panel at a position of the focus cycle, taken modulo four.
    pub open spec fn at(position: int) -> PanelSelection {
        let p = position % 4;
        if p == 0 {
            PanelSelection::BasicInformation
        } else if p == 1 {
            PanelSelection::StatusInformation
        } else if p == 2 {
            PanelSelection::SpeedInformation
        } else {
            PanelSelection::TripInformation
        }
    }

    /// The panel that follows `self` in the cycle.
    pub open spec fn successor(self) -> PanelSelection {
        Self::at(self.position() + 1)
    }

    /// The panel that precedes `self` in the cycle.
    pub open spec fn predecessor(self) -> PanelSelection {
        Self::at(self.position() - 1)
    }

    /// The panel focused when the dashboard starts.
    pub fn initial() -> (selection: PanelSelection)
        ensures
            selection == PanelSelection::BasicInformation,
    {
        PanelSelection::BasicInformation
    }

    /// Moves the focus one panel forwards, wrapping from the trip panel to
    /// the basic panel.
    pub fn next(&mut self)
        ensures
            *final(self) == old(self).successor(),
    {
        *self = match *self {
            PanelSelection::BasicInformation => PanelSelection::StatusInformation,
            PanelSelection::StatusInformation => PanelSelection::SpeedInformation,
            PanelSelection::SpeedInformation => PanelSelection::TripInformation,
            PanelSelection::TripInformation => PanelSelection::BasicInformation,
        }
    }

    /// Moves the focus one panel backwards, wrapping from the basic panel to
    /// the trip panel.
    pub fn prev(&mut self)
        ensures
            *final(self) == old(self).predecessor(),
    {
        *self = match *self {
            PanelSelection::BasicInformation => PanelSelection::TripInformation,
            PanelSelection::StatusInformation => PanelSelection::BasicInformation,
            PanelSelection::SpeedInformation => PanelSelection::StatusInformation,
            PanelSelection::TripInformation => PanelSelection::SpeedInformation,
        }
    }
}

/// Four steps forwards around the focus cycle lead back to the start.
pub proof fn lemma_next_four_times(selection: PanelSelection)
    ensures
        selection.successor().successor().successor().successor() == selection,
{
}

/// Four steps backwards around the focus cycle lead back to the start.
pub proof fn lemma_prev_four_times(selection: PanelSelection)
    ensures
        selection.predecessor().predecessor().predecessor().predecessor() == selection,
{
}

/// A step forwards and a step backwards undo each other.
pub proof fn lemma_next_prev_inverse(selection: PanelSelection)
    ensures
        selection.successor().predecessor() == selection,
        selection.predecessor().successor() == selection,
{
}

/// Number of snapshots the dashboard keeps unless told otherwise.
pub const DEFAULT_HISTORY_CAPACITY: usize = 50;

/// Time between two ticks unless told otherwise, in milliseconds.
pub const DEFAULT_TICK_RATE: u64 = 1_000;

/// Longest wait for a key before the loop turns again, in milliseconds.
pub const INPUT_POLL_TIMEOUT: u64 = 1_000;

/// The key that ends the session.
pub const QUIT_KEY: char = 'q';

/// The key that moves the selection towards the end of the route.
pub const UP_KEY: char = 'k';

/// The key that moves the selection towards the start of the route.
pub const DOWN_KEY: char = 'j';

/// A key of the keyboard, as far as the dashboard tells keys apart.
#[derive(Debug, Clone, Copy, PartialEq, Eq, Structural)]
pub enum Key {
    Char(char),
    Tab,
    BackTab,
    Enter,
    Other,
}

/// What happened to a key.
#[derive(Debug, Clone, Copy, PartialEq, Eq, Structural)]
pub enum KeyKind {
    Press,
    Repeat,
    Release,
}

/// Whether the session goes on after a key.
#[derive(Debug, Clone, Copy, PartialEq, Eq, Structural)]
pub enum Control {
    Continue,
    Quit,
}

/// What the main loop has to do next.
#[derive(Debug, Clone, Copy, PartialEq, Eq, Structural)]
pub enum LoopAction {
    /// End the session.
    Quit,
    /// Fetch a new snapshot and hand it to `ingest`.
    Tick,
    /// Nothing but to draw again and wait for input.
    Wait,
}

/// Why the dashboard cannot be drawn.
#[derive(Debug, Clone, Copy, PartialEq, Eq, Structural)]
pub enum RenderError {
    /// No snapshot has been ingested yet.
    NothingToDraw,
}

/// The contents of the four panels.
#[derive(Debug, PartialEq, Eq)]
pub struct Dashboard<'a> {
    pub basic: BasicPanel<'a>,
    pub status: StatusPanel<'a>,
    pub speed: SpeedPanel,
    pub trip: TripPanel<'a>,
}

/// Number of stops on the route of the newest snapshot of a history, and 0
/// for an empty history.
pub open spec fn latest_stop_count(history: Seq<Info>) -> nat {
    if history.len() == 0 {
        0
    } else {
        history.last().stops().len()
    }
}

/// The state of the dashboard as plain mathematical values.
pub struct FrontendView {
    /// The panel with keyboard focus.
    pub selection: PanelSelection,
    /// The retained snapshots, oldest first.
    pub history: Seq<Info>,
    /// Capacity of the history.
    pub capacity: nat,
    /// Selection state of the stop list.
    pub cursor: CursorView,
}

impl FrontendView {
    /// Whether the parts of the state fit together: the history is within
    /// its capacity, and the cursor is fitted to the route of the newest
    /// snapshot.
    pub open spec fn consistent(self) -> bool {
        &&& self.history.len() <= self.capacity
        &&& self.cursor.stops == latest_stop_count(self.history)
        &&& self.cursor.in_range()
    }

    /// The state after a snapshot is ingested: the snapshot is pushed onto
    /// the history and the cursor fitted to the route of the newest
    /// snapshot.
    pub open spec fn ingest(self, info: Info) -> FrontendView {
        let history = history_after_push(self.history, self.capacity, info);
        FrontendView {
            selection: self.selection,
            history,
            capacity: self.capacity,
            cursor: self.cursor.reclamp(latest_stop_count(history)),
        }
    }

    /// Whether a key event asks to end the session.
    pub open spec fn quits(key: Key, kind: KeyKind) -> bool {
        kind == KeyKind::Press && key == Key::Char(QUIT_KEY)
    }

    /// The state after a key event. Only presses count. Tab and back-tab
    /// cycle the focus, enter toggles the detail view while the trip panel
    /// has focus, and the up and down keys move the selection.
    pub open spec fn after_key(self, key: Key, kind: KeyKind) -> FrontendView {
        if kind != KeyKind::Press {
            self
        } else if key == Key::Tab {
            FrontendView {
                selection: self.selection.successor(),
                history: self.history,
                capacity: self.capacity,
                cursor: self.cursor,
            }
        } else if key == Key::BackTab {
            FrontendView {
                selection: self.selection.predecessor(),
                history: self.history,
                capacity: self.capacity,
                cursor: self.cursor,
            }
        } else if key == Key::Enter && self.selection == PanelSelection::TripInformation {
            FrontendView {
                selection: self.selection,
                history: self.history,
                capacity: self.capacity,
                cursor: self.cursor.toggle_detail(),
            }
        } else if key == Key::Char(UP_KEY) {
            FrontendView {
                selection: self.selection,
                history: self.history,
                capacity: self.capacity,
                cursor: self.cursor.move_up(),
            }
        } else if key == Key::Char(DOWN_KEY) {
            FrontendView {
                selection: self.selection,
                history: self.history,
                capacity: self.capacity,
                cursor: self.cursor.move_down(),
            }
        } else {
            self
        }
    }

    /// The stop whose detail view is drawn, if any.
    pub open spec fn selected_detail(self) -> Option<usize> {
        if self.cursor.detail_shown() {
            Some(clamp_index(self.cursor.index as int, self.cursor.stops) as usize)
        } else {
            None
        }
    }

    /// Whether `dashboard` holds the four panels of this state at time
    /// `now`: basic, status and trip panel of the newest snapshot, the
    /// speed panel and the moving average of the whole history, and the
    /// focus on the selected panel.
    pub open spec fn shown_by(self, dashboard: Dashboard, now: i64) -> bool {
        let latest = self.history.last();
        &&& self.history.len() > 0
        &&& basic_panel_shows(
            dashboard.basic,
            latest,
            self.selection == PanelSelection::BasicInformation,
        )
        &&& status_panel_shows(
            dashboard.status,
            latest,
            dashboard.status.average_speed,
            self.selection == PanelSelection::StatusInformation,
        )
        &&& match dashboard.status.average_speed {
            Some(speed) => mean_speed(self.history) == Some(speed as int),
            None => false,
        }
        &&& speed_panel_shows(
            dashboard.speed,
            self.history,
            self.capacity,
            self.selection == PanelSelection::SpeedInformation,
        )
        &&& trip_panel_shows(
            dashboard.trip,
            latest,
            self.selection == PanelSelection::TripInformation,
            self.selected_detail(),
            now,
        )
    }
}

/// Drawing is determined by the state and the time alone: two dashboards
/// that show the same state at the same time agree in everything they
/// hold, so that drawing twice without a change in between gives the same
/// picture.
pub proof fn lemma_render_is_determined(
    view: FrontendView,
    first: Dashboard,
    second: Dashboard,
    now: i64,
)
    requires
        view.shown_by(first, now),
        view.shown_by(second, now),
    ensures
        first.basic == second.basic,
        first.status == second.status,
        first.speed.focused == second.speed.focused,
        first.speed.capacity == second.speed.capacity,
        first.speed.ceiling == second.speed.ceiling,
        first.speed.segments@ == second.speed.segments@,
        first.trip.focused == second.trip.focused,
        first.trip.updated == second.trip.updated,
        first.trip.staleness == second.trip.staleness,
        first.trip.next_stop == second.trip.next_stop,
        first.trip.rows@ == second.trip.rows@,
{
    let latest = view.history.last();
    let stops = latest.stops();
    assert(first.speed.segments@ =~= second.speed.segments@);
    assert(first.trip.rows@ =~= second.trip.rows@) by {
        assert forall|i: int| 0 <= i < stops.len() implies first.trip.rows@[i]
            == second.trip.rows@[i] by {
            let detailed = view.selected_detail() == Some(i as usize);
            assert(row_shows(
                first.trip.rows@[i],
                stops[i],
                latest.trip.trip.total_distance,
                detailed,
            ));
            assert(row_shows(
                second.trip.rows@[i],
                stops[i],
                latest.trip.trip.total_distance,
                detailed,
            ));
        }
    }
    assert(first.trip.next_stop == second.trip.next_stop) by {
        lemma_located_stop_is_determined(first.trip.next_stop, second.trip.next_stop, latest);
    }
    assert(first.status.next_stop == second.status.next_stop) by {
        lemma_shown_stop_is_determined(first.status.next_stop, second.status.next_stop, latest);
    }
}

/// The dashboard controller: the history of snapshots, the focused panel
/// and the cursor over the stop list.
pub struct Frontend {
    selection: PanelSelection,
    data: SnapshotBuffer,
    cursor: RouteCursor,
}

impl View for Frontend {
    type V = FrontendView;

    closed spec fn view(&self) -> FrontendView {
        FrontendView {
            selection: self.selection,
            history: self.data@,
            capacity: self.data.capacity() as nat,
            cursor: self.cursor@,
        }
    }
}

impl Frontend {
    /// A dashboard with an empty history of capacity `bufsize`, the focus
    /// on the basic panel and the detail view collapsed.
    pub fn new(bufsize: usize) -> (frontend: Frontend)
        ensures
            frontend@.selection == PanelSelection::BasicInformation,
            frontend@.history == Seq::<Info>::empty(),
            frontend@.capacity == bufsize,
            frontend@.cursor == CursorView::initial(),
            frontend@.consistent(),
    {
        Frontend {
            selection: PanelSelection::initial(),
            data: SnapshotBuffer::new(bufsize),
            cursor: RouteCursor::new(),
        }
    }

    /// The panel with keyboard focus.
    pub fn selection(&self) -> (selection: PanelSelection)
        ensures
            selection == self@.selection,
    {
        self.selection
    }

    /// The history of snapshots.
    pub fn history(&self) -> (buffer: &SnapshotBuffer)
        ensures
            buffer@ == self@.history,
            buffer.capacity() == self@.capacity,
    {
        &self.data
    }

    /// The cursor over the stop list.
    pub fn cursor(&self) -> (cursor: &RouteCursor)
        ensures
            cursor@ == self@.cursor,
    {
        &self.cursor
    }

    /// Takes in a new snapshot: pushes it onto the history, dropping the
    /// oldest snapshot of a full history, and fits the cursor to the route
    /// of the newest snapshot, so that the selection never points past the
    /// last stop.
    pub fn ingest(&mut self, info: Info)
        ensures
            final(self)@ == old(self)@.ingest(info),
            final(self)@.consistent(),
    {
        self.data.push(info);
        let stop_count: usize = match self.data.latest() {
            Some(latest) => latest.stop_count(),
            None => 0,
        };
        proof {
            lemma_retained_len(old(self)@.history.push(info), old(self)@.capacity);
        }
        self.cursor.reclamp(stop_count);
    }

    /// Reacts to a key event and tells whether the session goes on.
    pub fn handle_input(&mut self, key: Key, kind: KeyKind) -> (control: Control)
        ensures
            final(self)@ == old(self)@.after_key(key, kind),
            control == if FrontendView::quits(key, kind) {
                Control::Quit
            } else {
                Control::Continue
            },
            old(self)@.consistent() ==> final(self)@.consistent(),
    {
        match kind {
            KeyKind::Press => {},
            _ => {
                return Control::Continue;
            },
        }
        match key {
            Key::Char(c) => {
                if c == QUIT_KEY {
                    return Control::Quit;
                } else if c == UP_KEY {
                    self.cursor.move_up();
                } else if c == DOWN_KEY {
                    self.cursor.move_down();
                }
            },
            Key::Tab => {
                self.selection.next();
            },
            Key::BackTab => {
                self.selection.prev();
            },
            Key::Enter => {
                match self.selection {
                    PanelSelection::TripInformation => {
                        self.cursor.toggle_detail();
                    },
                    _ => {},
                }
            },
            Key::Other => {},
        }
        Control::Continue
    }

    /// One turn of the main loop after the wait for input: reacts to the
    /// key event, if there was one, and decides what is due next. The quit
    /// key ends the session; otherwise a tick is due once the time since
    /// the last tick has reached the tick rate.
    pub fn advance(
        &mut self,
        input: Option<(Key, KeyKind)>,
        since_last_tick: u128,
        tick_rate: u128,
    ) -> (action: LoopAction)
        ensures
            final(self)@ == match input {
                Some((key, kind)) => old(self)@.after_key(key, kind),
                None => old(self)@,
            },
            action == if input matches Some((key, kind)) && FrontendView::quits(key, kind) {
                LoopAction::Quit
            } else if since_last_tick >= tick_rate {
                LoopAction::Tick
            } else {
                LoopAction::Wait
            },
            old(self)@.consistent() ==> final(self)@.consistent(),
    {
        match input {
            Some((key, kind)) => {
                match self.handle_input(key, kind) {
                    Control::Quit => {
                        return LoopAction::Quit;
                    },
                    Control::Continue => {},
                }
            },
            None => {},
        }
        if since_last_tick >= tick_rate {
            LoopAction::Tick
        } else {
            LoopAction::Wait
        }
    }

    /// Computes the contents of the four panels at time `now`, given in
    /// milliseconds since the Unix epoch. The state is left as it is.
    /// Before the first snapshot there is nothing to draw.
    pub fn render(&self, now: i64) -> (result: Result<Dashboard<'_>, RenderError>)
        ensures
            match result {
                Ok(dashboard) => self@.shown_by(dashboard, now),
                Err(_) => self@.history.len() == 0,
            },
    {
        match self.data.latest() {
            None => Err(RenderError::NothingToDraw),
            Some(latest) => {
                let basic = basic_panel(
                    latest,
                    match self.selection {
                        PanelSelection::BasicInformation => true,
                        _ => false,
                    },
                );
                let status = status_panel(
                    latest,
                    moving_average_speed(&self.data),
                    match self.selection {
                        PanelSelection::StatusInformation => true,
                        _ => false,
                    },
                );
                let speed = speed_panel(
                    &self.data,
                    match self.selection {
                        PanelSelection::SpeedInformation => true,
                        _ => false,
                    },
                );
                let trip = trip_panel(
                    latest,
                    match self.selection {
                        PanelSelection::TripInformation => true,
                        _ => false,
                    },
                    self.cursor.selected_detail(),
                    now,
                );
                Ok(Dashboard { basic, status, speed, trip })
            },
        }
    }
}

} // verus!
