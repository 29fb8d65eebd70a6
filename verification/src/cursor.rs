//! Navigation over the stops of the route shown in the trip panel.

use vstd::prelude::*;

verus! {

/// The state of a route cursor as plain mathematical values.
pub struct CursorView {
    /// Index of the selected stop.
    pub index: nat,
    /// Whether the user has asked for the detail view.
    pub expanded: bool,
    /// Number of stops of the route the cursor was last clamped to.
    pub stops: nat,
}

/// One user action on the cursor.
#[derive(Debug, Clone, Copy, PartialEq, Eq, Structural)]
pub enum CursorStep {
    ToggleDetail,
    MoveUp,
    MoveDown,
}

/// The index nearest to `index` that a list of `stops` entries has, and 0
/// for an empty list.
pub open spec fn clamp_index(index: int, stops: nat) -> nat {
    if stops == 0 || index < 0 {
        0
    } else if index < stops {
        index as nat
    } else {
        (stops - 1) as nat
    }
}

impl CursorView {
    /// The state of a new cursor: first stop, detail collapsed, no route yet.
    pub open spec fn initial() -> CursorView {
        CursorView { index: 0, expanded: false, stops: 0 }
    }

    /// Whether the selected index names a stop of the route, or is 0 on a
    /// route without stops.
    pub open spec fn in_range(self) -> bool {
        if self.stops == 0 {
            self.index == 0
        } else {
            self.index < self.stops
        }
    }

    /// Whether the detail view is to be drawn: the user has expanded it and
    /// there is a stop to show.
    pub open spec fn detail_shown(self) -> bool {
        self.expanded && self.stops > 0
    }

    /// The state after the detail flag is flipped.
    pub open spec fn toggle_detail(self) -> CursorView {
        CursorView {
            index: clamp_index(self.index as int, self.stops),
            expanded: !self.expanded,
            stops: self.stops,
        }
    }

    /// The state after the selection is moved one stop towards the end of
    /// the route. The move takes effect only while the detail view is
    /// expanded, and stops at the last stop.
    pub open spec fn move_up(self) -> CursorView {
        CursorView {
            index: if self.expanded {
                clamp_index((self.index + 1) as int, self.stops)
            } else {
                clamp_index(self.index as int, self.stops)
            },
            expanded: self.expanded,
            stops: self.stops,
        }
    }

    /// The state after the selection is moved one stop towards the start of
    /// the route. The move takes effect only while the detail view is
    /// expanded, and stops at the first stop.
    pub open spec fn move_down(self) -> CursorView {
        CursorView {
            index: if self.expanded {
                clamp_index(self.index - 1, self.stops)
            } else {
                clamp_index(self.index as int, self.stops)
            },
            expanded: self.expanded,
            stops: self.stops,
        }
    }

    /// The state after the cursor is fitted to a route of `stops` stops: a
    /// selection past the last stop moves to the last stop.
    pub open spec fn reclamp(self, stops: nat) -> CursorView {
        CursorView { index: clamp_index(self.index as int, stops), expanded: self.expanded, stops }
    }

    /// The state after one user action.
    pub open spec fn step(self, step: CursorStep) -> CursorView {
        match step {
            CursorStep::ToggleDetail => self.toggle_detail(),
            CursorStep::MoveUp => self.move_up(),
            CursorStep::MoveDown => self.move_down(),
        }
    }

    /// The state after a series of user actions, applied in order.
    pub open spec fn run(self, steps: Seq<CursorStep>) -> CursorView
        decreases steps.len(),
    {
        if steps.len() == 0 {
            self
        } else {
            self.run(steps.drop_last()).step(steps.last())
        }
    }
}

/// Selection state of the stop list: which stop is selected and whether its
/// detail view is expanded. The cursor remembers the number of stops of the
/// route it was last fitted to and keeps the selection inside that route.
#[derive(Debug, Clone, Copy, PartialEq, Eq)]
pub struct RouteCursor {
    selected_index: usize,
    detail_expanded: bool,
    stop_count: usize,
}

impl View for RouteCursor {
    type V = CursorView;

    closed spec fn view(&self) -> CursorView {
        CursorView {
            index: self.selected_index as nat,
            expanded: self.detail_expanded,
            stops: self.stop_count as nat,
        }
    }
}

impl RouteCursor {
    /// A cursor on the first stop with the detail view collapsed, not yet
    /// fitted to any route.
    pub fn new() -> (cursor: RouteCursor)
        ensures
            cursor@ == CursorView::initial(),
    {
        RouteCursor { selected_index: 0, detail_expanded: false, stop_count: 0 }
    }

    /// Index of the selected stop.
    pub fn selected_index(&self) -> (index: usize)
        ensures
            index == self@.index,
    {
        self.selected_index
    }

    /// Whether the user has expanded the detail view.
    pub fn detail_expanded(&self) -> (expanded: bool)
        ensures
            expanded == self@.expanded,
    {
        self.detail_expanded
    }

    /// Number of stops of the route the cursor was last fitted to.
    pub fn stop_count(&self) -> (stops: usize)
        ensures
            stops == self@.stops,
    {
        self.stop_count
    }

    /// The stop whose detail view is to be drawn, if any: the selected stop
    /// while the detail view is expanded and the route has stops.
    pub fn selected_detail(&self) -> (selected: Option<usize>)
        ensures
            selected == if self@.detail_shown() {
                Some(clamp_index(self@.index as int, self@.stops) as usize)
            } else {
                None
            },
    {
        if self.detail_expanded && self.stop_count > 0 {
            Some(Self::clamp(self.selected_index, self.stop_count))
        } else {
            None
        }
    }

    fn clamp(index: usize, stops: usize) -> (clamped: usize)
        ensures
            clamped == clamp_index(index as int, stops as nat),
    {
        if stops == 0 {
            0
        } else if index < stops {
            index
        } else {
            stops - 1
        }
    }

    /// Flips the detail flag. Whether the key that asks for it is honoured
    /// is the caller's decision.
    pub fn toggle_detail(&mut self)
        ensures
            final(self)@ == old(self)@.toggle_detail(),
            final(self)@.in_range(),
    {
        self.selected_index = Self::clamp(self.selected_index, self.stop_count);
        self.detail_expanded = !self.detail_expanded;
    }

    /// Moves the selection one stop towards the end of the route, staying
    /// on the last stop once it is reached. Without effect while the detail
    /// view is collapsed.
    pub fn move_up(&mut self)
        ensures
            final(self)@ == old(self)@.move_up(),
            final(self)@.in_range(),
    {
        if self.detail_expanded && self.selected_index < usize::MAX {
            self.selected_index = Self::clamp(self.selected_index + 1, self.stop_count);
        } else {
            self.selected_index = Self::clamp(self.selected_index, self.stop_count);
        }
    }

    /// Moves the selection one stop towards the start of the route, staying
    /// on the first stop once it is reached. Without effect while the
    /// detail view is collapsed.
    pub fn move_down(&mut self)
        ensures
            final(self)@ == old(self)@.move_down(),
            final(self)@.in_range(),
    {
        if self.detail_expanded && self.selected_index > 0 {
            self.selected_index = Self::clamp(self.selected_index - 1, self.stop_count);
        } else {
            self.selected_index = Self::clamp(self.selected_index, self.stop_count);
        }
    }

    /// Fits the cursor to a route of `stop_count` stops, as is due after
    /// every new snapshot: a selection past the last stop moves to the last
    /// stop, and on a route without stops to index 0, where no detail view
    /// is drawn.
    pub fn reclamp(&mut self, stop_count: usize)
        ensures
            final(self)@ == old(self)@.reclamp(stop_count as nat),
            final(self)@.in_range(),
    {
        self.selected_index = Self::clamp(self.selected_index, stop_count);
        self.stop_count = stop_count;
    }

    /// Performs one user action.
    pub fn step(&mut self, step: CursorStep)
        ensures
            final(self)@ == old(self)@.step(step),
            final(self)@.in_range(),
    {
        match step {
            CursorStep::ToggleDetail => self.toggle_detail(),
            CursorStep::MoveUp => self.move_up(),
            CursorStep::MoveDown => self.move_down(),
        }
    }
}

/// Every user action leaves the selection inside the route, whatever the
/// state before it.
pub proof fn lemma_step_in_range(cursor: CursorView, step: CursorStep)
    ensures
        cursor.step(step).in_range(),
        cursor.step(step).stops == cursor.stops,
{
}

/// On a route with stops, no series of user actions, however long and from
/// whatever index it starts, selects an index past the last stop.
pub proof fn lemma_moves_stay_on_route(cursor: CursorView, steps: Seq<CursorStep>)
    requires
        cursor.stops > 0,
        steps.len() > 0,
    ensures
        cursor.run(steps).stops == cursor.stops,
        0 <= cursor.run(steps).index < cursor.stops,
    decreases steps.len(),
{
    if steps.len() > 1 {
        lemma_moves_stay_on_route(cursor, steps.drop_last());
    } else {
        assert(steps.drop_last().len() == 0);
    }
    lemma_step_in_range(cursor.run(steps.drop_last()), steps.last());
}

/// Once the cursor is fitted to a route without stops, no series of user
/// actions moves the selection off index 0 or brings the detail view up.
pub proof fn lemma_empty_route_pins_cursor(cursor: CursorView, steps: Seq<CursorStep>)
    ensures
        cursor.reclamp(0).run(steps).index == 0,
        cursor.reclamp(0).run(steps).stops == 0,
        !cursor.reclamp(0).run(steps).detail_shown(),
    decreases steps.len(),
{
    if steps.len() > 0 {
        lemma_empty_route_pins_cursor(cursor, steps.drop_last());
    }
}

} // verus!
