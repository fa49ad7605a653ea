use tui_window_manager::{
    tick_step, Delivery, Dispatcher, Event, EventResult, SetupError, Step, TerminalAction,
    TickStep, WindowManagerSettings, DEFAULT_TICK_RATE_MS,
};

/// A small window for driving the dispatcher: it records what it was asked
/// to do and answers with prepared results.
#[derive(Debug, Clone, PartialEq)]
struct TestWindow {
    name: &'static str,
    close: bool,
    renders: u32,
    events: u32,
}

fn win(name: &'static str) -> TestWindow {
    TestWindow { name, close: false, renders: 0, events: 0 }
}

fn running(first: TestWindow) -> Dispatcher<TestWindow> {
    match Dispatcher::start(Ok(()), WindowManagerSettings::default(), first) {
        Ok(d) => d,
        Err(_) => panic!("setup succeeded"),
    }
}

fn top_name(d: &Dispatcher<TestWindow>) -> Option<&'static str> {
    d.top().map(|w| w.name)
}

/// Runs the start of one iteration as a caller would: ask the top window
/// whether it closes, and render it when told to.
fn iterate(d: &mut Dispatcher<TestWindow>) -> Step {
    let close = d.top().map(|w| w.close).unwrap_or(false);
    let step = d.begin_iteration(close);
    if step == Step::Render {
        d.top_mut().unwrap().renders += 1;
    }
    step
}

#[test]
fn event_result_new_changes_nothing() {
    let r: EventResult<TestWindow> = EventResult::new();
    assert!(!r.remove);
    assert!(r.child.is_none());
    let mut d = running(win("a"));
    d.apply_event_result(r);
    assert_eq!(d.len(), 1);
    assert_eq!(top_name(&d), Some("a"));
}

#[test]
fn child_from_tick_is_rendered_next() {
    let mut d = running(win("a"));
    assert_eq!(iterate(&mut d), Step::Render);
    match d.route_event::<u32>(Some(Event::Tick)) {
        Delivery::Tick(ms) => assert_eq!(ms, 250),
        _ => panic!("a tick goes to the tick handler"),
    }
    d.top_mut().unwrap().events += 1;
    d.apply_event_result(EventResult { remove: false, child: Some(win("b")) });
    assert_eq!(iterate(&mut d), Step::Render);
    assert_eq!(top_name(&d), Some("b"));
    assert_eq!(d.top().unwrap().renders, 1);
    assert_eq!(d.len(), 2);
}

#[test]
fn removed_child_hands_back_to_parent() {
    let mut d = running(win("a"));
    d.apply_event_result(EventResult { remove: false, child: Some(win("b")) });
    assert_eq!(iterate(&mut d), Step::Render);
    match d.route_event(Some(Event::Input('q'))) {
        Delivery::Input(c) => assert_eq!(c, 'q'),
        _ => panic!("an input goes to the input handler"),
    }
    d.apply_event_result(EventResult { remove: true, child: None });
    assert_eq!(d.len(), 1);
    assert_eq!(iterate(&mut d), Step::Render);
    assert_eq!(top_name(&d), Some("a"));
    assert_eq!(d.top().unwrap().renders, 1);
}

#[test]
fn closing_window_is_popped_without_render() {
    let mut d = running(win("a"));
    d.top_mut().unwrap().close = true;
    assert_eq!(iterate(&mut d), Step::Closed);
    assert!(d.is_empty());
    assert_eq!(d.len(), 0);
    assert_eq!(iterate(&mut d), Step::Terminate);
    assert!(d.top().is_none());
}

#[test]
fn cascading_closures_unwind_without_render() {
    let mut d = running(win("a"));
    d.push_window(win("b"));
    d.push_window(win("c"));
    d.top_mut().unwrap().close = true;
    assert_eq!(iterate(&mut d), Step::Closed);
    assert_eq!(top_name(&d), Some("b"));
    d.top_mut().unwrap().close = true;
    assert_eq!(iterate(&mut d), Step::Closed);
    assert_eq!(iterate(&mut d), Step::Render);
    assert_eq!(top_name(&d), Some("a"));
    assert_eq!(d.top().unwrap().renders, 1);
}

#[test]
fn setup_failure_runs_no_window() {
    let failed = SetupError { action: TerminalAction::EnableRawMode };
    let r = Dispatcher::start(Err(failed), WindowManagerSettings::default(), win("a"));
    match r {
        Err(e) => assert_eq!(e, failed),
        Ok(_) => panic!("setup failed"),
    }
}

#[test]
fn start_places_initial_window() {
    let d = running(win("a"));
    assert_eq!(d.len(), 1);
    assert_eq!(top_name(&d), Some("a"));
    assert_eq!(d.tick_rate(), DEFAULT_TICK_RATE_MS);
    assert_eq!(d.settings(), WindowManagerSettings::default());
}

#[test]
fn replace_pops_old_top_and_pushes_child() {
    let mut d = running(win("a"));
    d.push_window(win("b"));
    d.apply_event_result(EventResult { remove: true, child: Some(win("c")) });
    assert_eq!(d.len(), 2);
    assert_eq!(top_name(&d), Some("c"));
    d.apply_event_result(EventResult { remove: true, child: None });
    assert_eq!(top_name(&d), Some("a"));
}

#[test]
fn remove_and_push_on_empty_stack() {
    let mut d: Dispatcher<TestWindow> = Dispatcher::new(WindowManagerSettings::default());
    d.apply_event_result(EventResult { remove: true, child: None });
    assert!(d.is_empty());
    d.apply_event_result(EventResult { remove: true, child: Some(win("x")) });
    assert_eq!(d.len(), 1);
    assert_eq!(top_name(&d), Some("x"));
}

#[test]
fn stack_is_served_last_in_first_out() {
    let mut d = running(win("a"));
    d.apply_event_result(EventResult { remove: false, child: Some(win("b")) });
    d.apply_event_result(EventResult { remove: false, child: Some(win("c")) });
    assert_eq!(top_name(&d), Some("c"));
    d.apply_event_result(EventResult { remove: true, child: None });
    assert_eq!(top_name(&d), Some("b"));
    d.apply_event_result(EventResult { remove: false, child: Some(win("d")) });
    assert_eq!(top_name(&d), Some("d"));
    d.apply_event_result(EventResult { remove: true, child: None });
    assert_eq!(top_name(&d), Some("b"));
    d.apply_event_result(EventResult { remove: true, child: None });
    assert_eq!(top_name(&d), Some("a"));
    d.apply_event_result(EventResult { remove: true, child: None });
    assert!(d.is_empty());
}

#[test]
fn empty_stack_routes_no_event() {
    let d: Dispatcher<TestWindow> = Dispatcher::new(WindowManagerSettings::default());
    assert!(matches!(d.route_event(Some(Event::Input(7u8))), Delivery::Terminate));
    assert!(matches!(d.route_event::<u8>(Some(Event::Tick)), Delivery::Terminate));
}

#[test]
fn closed_channel_ends_the_loop() {
    let d = running(win("a"));
    assert!(matches!(d.route_event::<u8>(None), Delivery::Terminate));
}

#[test]
fn tick_carries_current_rate() {
    let mut d = running(win("a"));
    d.set_tick_rate(40);
    assert_eq!(d.tick_rate(), 40);
    assert!(matches!(d.route_event::<u8>(Some(Event::Tick)), Delivery::Tick(40)));
    assert_eq!(d.len(), 1);
}

#[test]
fn tick_source_stops_only_on_failed_publish() {
    assert_eq!(tick_step(true, 250), TickStep::Sleep(250));
    assert_eq!(tick_step(true, 10), TickStep::Sleep(10));
    assert_eq!(tick_step(false, 250), TickStep::Stop);
}

#[test]
fn default_settings() {
    let s = WindowManagerSettings::default();
    assert!(s.show_cursor);
    assert!(!s.raw_mode);
    assert!(!s.alternate_screen);
    assert!(s.setup_actions().is_empty());
    assert!(s.teardown_actions().is_empty());
}

#[test]
fn setup_and_teardown_orders() {
    let s = WindowManagerSettings { show_cursor: false, raw_mode: true, alternate_screen: true };
    assert_eq!(
        s.setup_actions(),
        vec![
            TerminalAction::EnableRawMode,
            TerminalAction::EnterAlternateScreen,
            TerminalAction::HideCursor
        ]
    );
    assert_eq!(
        s.teardown_actions(),
        vec![
            TerminalAction::DisableRawMode,
            TerminalAction::LeaveAlternateScreen,
            TerminalAction::ShowCursor
        ]
    );
    let only_screen =
        WindowManagerSettings { show_cursor: true, raw_mode: false, alternate_screen: true };
    assert_eq!(only_screen.setup_actions(), vec![TerminalAction::EnterAlternateScreen]);
    assert_eq!(only_screen.teardown_actions(), vec![TerminalAction::LeaveAlternateScreen]);
}
