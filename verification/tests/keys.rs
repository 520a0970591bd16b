use ssh_config_tui::app::App;
use ssh_config_tui::event::{Event, KeyCode, KeyEvent, KeyEventKind};

fn key(code: KeyCode, kind: KeyEventKind) -> KeyEvent {
    KeyEvent { code, kind }
}

fn press(c: char) -> Event {
    Event::Key(key(KeyCode::Char(c), KeyEventKind::Press))
}

fn press_code(code: KeyCode) -> Event {
    Event::Key(key(code, KeyEventKind::Press))
}

fn started() -> App<'static> {
    let mut app = App::default();
    app.start();
    app
}

#[test]
fn default_app_is_empty_and_running() {
    let app = App::default();
    assert_eq!(app.counter(), 0);
    assert_eq!(app.selected(), None);
    assert!(app.hosts().is_empty());
    assert!(!app.exited());
}

#[test]
fn start_loads_nine_hosts_and_selects_first() {
    let app = started();
    assert_eq!(app.hosts().len(), 9);
    assert_eq!(app.hosts()[0].name(), "Github");
    assert_eq!(app.hosts()[1].name(), "DevCloud");
    assert_eq!(app.hosts()[4].name(), "TestBM");
    assert_eq!(app.selected(), Some(0));
    assert_eq!(app.counter(), 0);
    assert!(!app.exited());
}

#[test]
fn start_again_appends_the_hosts_again_and_selects_first() {
    let mut app = started();
    app.go_bottom();
    app.start();
    assert_eq!(app.hosts().len(), 18);
    assert_eq!(app.hosts()[9].name(), "Github");
    assert_eq!(app.hosts()[10].name(), "DevCloud");
    assert_eq!(app.selected(), Some(0));
}

#[test]
fn j_advances_and_k_retreats() {
    let mut app = started();
    app.handler_events(press('j'));
    assert_eq!(app.selected(), Some(1));
    app.handler_events(press('j'));
    assert_eq!(app.selected(), Some(2));
    app.handler_events(press('k'));
    assert_eq!(app.selected(), Some(1));
}

#[test]
fn lower_g_jumps_to_top_and_upper_g_to_bottom() {
    let mut app = started();
    app.handler_events(press('G'));
    assert_eq!(app.selected(), Some(8));
    app.handler_events(press('g'));
    assert_eq!(app.selected(), Some(0));
}

#[test]
fn three_advances_then_jump_to_first_selects_row_zero() {
    let mut app = App::default();
    let events = vec![press('j'), press('j'), press('j'), press('g')];
    let read = app.run(&events);
    assert_eq!(read, 4);
    assert_eq!(app.hosts().len(), 9);
    assert_eq!(app.selected(), Some(0));
    assert!(!app.exited());
}

#[test]
fn three_advances_reach_row_three() {
    let mut app = App::default();
    let events = vec![press('j'), press('j'), press('j')];
    app.run(&events);
    assert_eq!(app.selected(), Some(3));
}

#[test]
fn retreat_from_first_of_nine_selects_row_eight() {
    let mut app = App::default();
    let events = vec![press('k')];
    app.run(&events);
    assert_eq!(app.hosts().len(), 9);
    assert_eq!(app.selected(), Some(8));
}

#[test]
fn q_ends_the_run() {
    let mut app = App::default();
    let events = vec![press('q')];
    let read = app.run(&events);
    assert_eq!(read, 1);
    assert!(app.exited());
}

#[test]
fn q_ends_the_run_from_any_state() {
    let mut app = started();
    app.handler_events(press('j'));
    app.handler_events(press_code(KeyCode::Right));
    app.handler_events(press('q'));
    assert!(app.exited());
    assert_eq!(app.selected(), Some(1));
    assert_eq!(app.counter(), 1);
}

#[test]
fn run_reads_nothing_after_q() {
    let mut app = App::default();
    let events = vec![press('j'), press('q'), press('j'), press('j'), press_code(KeyCode::Right)];
    let read = app.run(&events);
    assert_eq!(read, 2);
    assert!(app.exited());
    assert_eq!(app.selected(), Some(1));
    assert_eq!(app.counter(), 0);
}

#[test]
fn run_without_q_reads_every_event_and_keeps_running() {
    let mut app = App::default();
    let events = vec![press('G'), Event::Other, press('k'), press_code(KeyCode::Right)];
    let read = app.run(&events);
    assert_eq!(read, 4);
    assert!(!app.exited());
    assert_eq!(app.selected(), Some(7));
    assert_eq!(app.counter(), 1);
}

#[test]
fn run_of_no_events_only_starts() {
    let mut app = App::default();
    let read = app.run(&Vec::new());
    assert_eq!(read, 0);
    assert_eq!(app.hosts().len(), 9);
    assert_eq!(app.selected(), Some(0));
    assert!(!app.exited());
}

#[test]
fn run_of_an_exited_app_starts_and_reads_nothing() {
    let mut app = App::default();
    app.exit();
    let read = app.run(&vec![press('j')]);
    assert_eq!(read, 0);
    assert!(app.exited());
    assert_eq!(app.hosts().len(), 9);
    assert_eq!(app.selected(), Some(0));
}

#[test]
fn exit_flag_is_false_until_q_and_true_ever_after() {
    let mut app = started();
    let before = [
        press('j'),
        press('k'),
        press('g'),
        press('G'),
        press('x'),
        press('Q'),
        press_code(KeyCode::Left),
        press_code(KeyCode::Right),
        press_code(KeyCode::Other),
        Event::Other,
        Event::Key(key(KeyCode::Char('q'), KeyEventKind::Release)),
        Event::Key(key(KeyCode::Char('q'), KeyEventKind::Repeat)),
    ];
    for event in before {
        app.handler_events(event);
        assert!(!app.exited());
    }
    app.handler_events(press('q'));
    assert!(app.exited());
    for event in before {
        app.handler_events(event);
        assert!(app.exited());
    }
    app.handler_events(press('q'));
    assert!(app.exited());
}

#[test]
fn exit_sets_the_flag_and_nothing_else() {
    let mut app = started();
    app.next();
    app.increment_counter();
    app.exit();
    assert!(app.exited());
    assert_eq!(app.selected(), Some(1));
    assert_eq!(app.counter(), 1);
    assert_eq!(app.hosts().len(), 9);
}

#[test]
fn release_and_repeat_events_are_passed_over() {
    let mut app = started();
    app.handler_events(Event::Key(key(KeyCode::Char('j'), KeyEventKind::Release)));
    app.handler_events(Event::Key(key(KeyCode::Char('j'), KeyEventKind::Repeat)));
    app.handler_events(Event::Key(key(KeyCode::Right, KeyEventKind::Release)));
    app.handler_events(Event::Key(key(KeyCode::Right, KeyEventKind::Repeat)));
    assert_eq!(app.selected(), Some(0));
    assert_eq!(app.counter(), 0);
    assert!(!app.exited());
}

#[test]
fn events_that_are_no_key_are_passed_over() {
    let mut app = started();
    app.next();
    app.handler_events(Event::Other);
    assert_eq!(app.selected(), Some(1));
    assert_eq!(app.counter(), 0);
    assert!(!app.exited());
}

#[test]
fn other_keys_do_nothing() {
    let mut app = started();
    app.next();
    for event in [press('x'), press('J'), press('K'), press('Q'), press('h'), press('l'), press_code(KeyCode::Other)] {
        app.handler_events(event);
        assert_eq!(app.selected(), Some(1));
        assert_eq!(app.counter(), 0);
        assert!(!app.exited());
    }
}

#[test]
fn handle_key_event_acts_on_the_key_whatever_the_kind() {
    let mut app = started();
    app.handle_key_event(key(KeyCode::Char('j'), KeyEventKind::Release));
    assert_eq!(app.selected(), Some(1));
    app.handle_key_event(key(KeyCode::Char('G'), KeyEventKind::Repeat));
    assert_eq!(app.selected(), Some(8));
    app.handle_key_event(key(KeyCode::Right, KeyEventKind::Press));
    assert_eq!(app.counter(), 1);
    app.handle_key_event(key(KeyCode::Char('q'), KeyEventKind::Press));
    assert!(app.exited());
}

#[test]
fn right_arrow_adds_one_and_left_arrow_takes_one() {
    let mut app = started();
    app.handler_events(press_code(KeyCode::Right));
    app.handler_events(press_code(KeyCode::Right));
    app.handler_events(press_code(KeyCode::Right));
    assert_eq!(app.counter(), 3);
    app.handler_events(press_code(KeyCode::Left));
    assert_eq!(app.counter(), 2);
    assert_eq!(app.selected(), Some(0));
}

#[test]
fn counter_stays_at_zero_when_decremented() {
    let mut app = App::default();
    app.decrement_counter();
    assert_eq!(app.counter(), 0);
    app.handler_events(press_code(KeyCode::Left));
    assert_eq!(app.counter(), 0);
    app.increment_counter();
    assert_eq!(app.counter(), 1);
}

#[test]
fn counter_stays_at_255_when_incremented() {
    let mut app = App::default();
    for expected in 1..=255u8 {
        app.increment_counter();
        assert_eq!(app.counter(), expected);
    }
    app.increment_counter();
    assert_eq!(app.counter(), 255);
    app.handler_events(press_code(KeyCode::Right));
    assert_eq!(app.counter(), 255);
    app.decrement_counter();
    assert_eq!(app.counter(), 254);
}

#[test]
fn keys_on_an_app_without_hosts_select_nothing() {
    let mut app = App::default();
    for c in ['j', 'k', 'g', 'G'] {
        app.handler_events(press(c));
        assert_eq!(app.selected(), None);
    }
}
