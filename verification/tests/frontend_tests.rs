use train_dashboard::api::{Info, Stop};
use train_dashboard::frontend::{
    Control, Frontend, Key, KeyKind, LoopAction, PanelSelection, RenderError,
    DEFAULT_HISTORY_CAPACITY, DEFAULT_TICK_RATE, DOWN_KEY, INPUT_POLL_TIMEOUT, QUIT_KEY, UP_KEY,
};

fn snapshot(server_time: u64, speed: u32, stops: usize) -> Info {
    let mut info = Info::default();
    info.status.server_time = server_time;
    info.status.speed = speed;
    info.trip.trip.total_distance = 1_000;
    for i in 0..stops {
        let mut stop = Stop::default();
        stop.station.eva_nr = format!("id{}", i);
        stop.station.name = format!("Stop {}", i);
        stop.info.distance_from_start = 100 * i as u64;
        info.trip.trip.stops.push(stop);
    }
    info.trip.trip.stop_info.scheduled_next = String::from("id1");
    info
}

fn press(frontend: &mut Frontend, key: Key) -> Control {
    frontend.handle_input(key, KeyKind::Press)
}

#[test]
fn new_frontend_starts_on_the_basic_panel() {
    let frontend = Frontend::new(50);
    assert_eq!(frontend.selection(), PanelSelection::BasicInformation);
    assert_eq!(frontend.history().len(), 0);
    assert_eq!(frontend.history().capacity(), 50);
    assert_eq!(frontend.cursor().selected_index(), 0);
    assert!(!frontend.cursor().detail_expanded());
}

#[test]
fn render_before_first_snapshot_is_an_error() {
    let frontend = Frontend::new(50);
    assert_eq!(frontend.render(0).err(), Some(RenderError::NothingToDraw));
}

#[test]
fn render_with_zero_capacity_never_has_data() {
    let mut frontend = Frontend::new(0);
    frontend.ingest(snapshot(1, 1, 3));
    assert_eq!(frontend.render(0).err(), Some(RenderError::NothingToDraw));
    assert_eq!(frontend.cursor().stop_count(), 0);
}

#[test]
fn ingest_pushes_and_fits_the_cursor() {
    let mut frontend = Frontend::new(2);
    frontend.ingest(snapshot(1, 10, 5));
    assert_eq!(frontend.history().len(), 1);
    assert_eq!(frontend.cursor().stop_count(), 5);
    press(&mut frontend, Key::BackTab);
    press(&mut frontend, Key::Enter);
    for _ in 0..4 {
        press(&mut frontend, Key::Char(UP_KEY));
    }
    assert_eq!(frontend.cursor().selected_index(), 4);
    frontend.ingest(snapshot(2, 20, 3));
    assert_eq!(frontend.cursor().selected_index(), 2);
    assert_eq!(frontend.cursor().stop_count(), 3);
    frontend.ingest(snapshot(3, 30, 0));
    assert_eq!(frontend.cursor().selected_index(), 0);
    assert_eq!(frontend.cursor().selected_detail(), None);
    assert_eq!(frontend.history().len(), 2);
    assert_eq!(frontend.history().get(0).unwrap().status.server_time, 2);
    assert_eq!(frontend.history().latest().unwrap().status.server_time, 3);
}

#[test]
fn quit_key_ends_the_session() {
    let mut frontend = Frontend::new(5);
    assert_eq!(press(&mut frontend, Key::Char(QUIT_KEY)), Control::Quit);
    assert_eq!(press(&mut frontend, Key::Char('q')), Control::Quit);
    assert_eq!(press(&mut frontend, Key::Char('x')), Control::Continue);
    assert_eq!(press(&mut frontend, Key::Other), Control::Continue);
}

#[test]
fn only_presses_count() {
    let mut frontend = Frontend::new(5);
    assert_eq!(frontend.handle_input(Key::Char('q'), KeyKind::Release), Control::Continue);
    assert_eq!(frontend.handle_input(Key::Char('q'), KeyKind::Repeat), Control::Continue);
    assert_eq!(frontend.handle_input(Key::Tab, KeyKind::Release), Control::Continue);
    assert_eq!(frontend.selection(), PanelSelection::BasicInformation);
}

#[test]
fn tab_and_back_tab_cycle_the_focus() {
    let mut frontend = Frontend::new(5);
    press(&mut frontend, Key::Tab);
    assert_eq!(frontend.selection(), PanelSelection::StatusInformation);
    press(&mut frontend, Key::BackTab);
    press(&mut frontend, Key::BackTab);
    assert_eq!(frontend.selection(), PanelSelection::TripInformation);
    press(&mut frontend, Key::Tab);
    assert_eq!(frontend.selection(), PanelSelection::BasicInformation);
}

#[test]
fn enter_toggles_detail_only_on_the_trip_panel() {
    let mut frontend = Frontend::new(5);
    frontend.ingest(snapshot(1, 10, 3));
    press(&mut frontend, Key::Enter);
    assert!(!frontend.cursor().detail_expanded());
    press(&mut frontend, Key::BackTab);
    press(&mut frontend, Key::Enter);
    assert!(frontend.cursor().detail_expanded());
    press(&mut frontend, Key::Enter);
    assert!(!frontend.cursor().detail_expanded());
}

#[test]
fn selection_keys_move_only_while_detail_is_expanded() {
    let mut frontend = Frontend::new(5);
    frontend.ingest(snapshot(1, 10, 3));
    press(&mut frontend, Key::Char(UP_KEY));
    assert_eq!(frontend.cursor().selected_index(), 0);
    press(&mut frontend, Key::BackTab);
    press(&mut frontend, Key::Enter);
    press(&mut frontend, Key::Tab);
    press(&mut frontend, Key::Char('k'));
    assert_eq!(frontend.cursor().selected_index(), 1);
    press(&mut frontend, Key::Char(UP_KEY));
    press(&mut frontend, Key::Char(UP_KEY));
    assert_eq!(frontend.cursor().selected_index(), 2);
    press(&mut frontend, Key::Char(DOWN_KEY));
    assert_eq!(frontend.cursor().selected_index(), 1);
    press(&mut frontend, Key::Char('j'));
    press(&mut frontend, Key::Char('j'));
    assert_eq!(frontend.cursor().selected_index(), 0);
}

#[test]
fn advance_decides_between_quit_tick_and_wait() {
    let mut frontend = Frontend::new(5);
    assert_eq!(frontend.advance(None, 999, 1_000), LoopAction::Wait);
    assert_eq!(frontend.advance(None, 1_000, 1_000), LoopAction::Tick);
    assert_eq!(frontend.advance(None, 1_001, 1_000), LoopAction::Tick);
    assert_eq!(
        frontend.advance(Some((Key::Tab, KeyKind::Press)), 0, 1_000),
        LoopAction::Wait
    );
    assert_eq!(frontend.selection(), PanelSelection::StatusInformation);
    assert_eq!(
        frontend.advance(Some((Key::Char('q'), KeyKind::Press)), 5_000, 1_000),
        LoopAction::Quit
    );
    assert_eq!(
        frontend.advance(Some((Key::Char('q'), KeyKind::Release)), 5_000, 1_000),
        LoopAction::Tick
    );
}

#[test]
fn render_shows_the_newest_snapshot_and_the_whole_history() {
    let mut frontend = Frontend::new(3);
    frontend.ingest(snapshot(1_000, 80_000, 2));
    frontend.ingest(snapshot(2_000, 100_000, 2));
    frontend.ingest(snapshot(3_000, 120_000, 4));
    let dashboard = frontend.render(8_000).unwrap();
    assert!(dashboard.basic.focused);
    assert!(!dashboard.status.focused);
    assert!(!dashboard.speed.focused);
    assert!(!dashboard.trip.focused);
    assert_eq!(dashboard.status.speed, 120_000);
    assert_eq!(dashboard.status.average_speed, Some(100_000));
    assert_eq!(dashboard.speed.capacity, 3);
    assert_eq!(dashboard.speed.segments.len(), 2);
    assert_eq!(dashboard.trip.rows.len(), 4);
    assert_eq!(dashboard.trip.updated, 3_000);
    assert_eq!(dashboard.trip.staleness, 5);
    assert_eq!(dashboard.trip.next_stop, Ok(1));
    assert_eq!(dashboard.basic.origin, Some(&String::from("Stop 0")));
    assert_eq!(dashboard.basic.destination, Some(&String::from("Stop 3")));
}

#[test]
fn render_moves_the_focus_mark_with_the_selection() {
    let mut frontend = Frontend::new(3);
    frontend.ingest(snapshot(1_000, 80_000, 2));
    press(&mut frontend, Key::Tab);
    {
        let dashboard = frontend.render(0).unwrap();
        assert!(!dashboard.basic.focused && dashboard.status.focused);
    }
    press(&mut frontend, Key::Tab);
    {
        let dashboard = frontend.render(0).unwrap();
        assert!(dashboard.speed.focused && !dashboard.trip.focused);
    }
    press(&mut frontend, Key::Tab);
    let dashboard = frontend.render(0).unwrap();
    assert!(dashboard.trip.focused && !dashboard.speed.focused);
}

#[test]
fn render_expands_the_selected_stop() {
    let mut frontend = Frontend::new(3);
    frontend.ingest(snapshot(1_000, 80_000, 3));
    press(&mut frontend, Key::BackTab);
    press(&mut frontend, Key::Enter);
    press(&mut frontend, Key::Char(UP_KEY));
    {
        let dashboard = frontend.render(0).unwrap();
        for (i, row) in dashboard.trip.rows.iter().enumerate() {
            assert_eq!(row.detail.is_some(), i == 1);
        }
    }
    frontend.ingest(snapshot(2_000, 80_000, 1));
    let dashboard = frontend.render(0).unwrap();
    assert_eq!(dashboard.trip.rows.len(), 1);
    assert!(dashboard.trip.rows[0].detail.is_some());
}

#[test]
fn render_leaves_the_state_as_it_is() {
    let mut frontend = Frontend::new(3);
    frontend.ingest(snapshot(1_000, 80_000, 3));
    let first = format!("{:?}", frontend.render(5_000));
    let second = format!("{:?}", frontend.render(5_000));
    assert_eq!(first, second);
    assert_eq!(frontend.history().len(), 1);
    assert_eq!(frontend.selection(), PanelSelection::BasicInformation);
}

#[test]
fn defaults_of_the_main_loop() {
    assert_eq!(DEFAULT_HISTORY_CAPACITY, 50);
    assert_eq!(DEFAULT_TICK_RATE, 1_000);
    assert_eq!(INPUT_POLL_TIMEOUT, 1_000);
    let frontend = Frontend::new(DEFAULT_HISTORY_CAPACITY);
    assert_eq!(frontend.history().capacity(), 50);
}
