use cli_shell::counter;
use cli_shell::event::{
    classify, poll_timeout, EventQueue, EventType, Key, KeyInput, KeyKind, Pointer, RawEvent,
    Refused,
};
use cli_shell::json;
use cli_shell::timer;

fn press(key: Key) -> KeyInput {
    KeyInput { key, kind: KeyKind::Press }
}

#[test]
fn queue_delivers_key_presses_in_arrival_order() {
    let mut q = EventQueue::new(64);
    let keys = [press(Key::Char('a')), press(Key::Char('b')), press(Key::Char('c'))];
    for k in keys {
        assert_eq!(q.push(EventType::Key(k)), Ok(()));
    }
    assert_eq!(q.len(), 3);
    for k in keys {
        assert_eq!(q.pop(), Some(EventType::Key(k)));
    }
    assert_eq!(q.pop(), None);
}

#[test]
fn queue_refuses_when_full_or_closed() {
    let mut q = EventQueue::new(1);
    assert_eq!(q.push(EventType::Tick), Ok(()));
    assert_eq!(q.push(EventType::Resize(3, 4)), Err(Refused::Full));
    q.close();
    assert!(q.is_closed());
    assert_eq!(q.pop(), Some(EventType::Tick));
    assert_eq!(q.push(EventType::Tick), Err(Refused::Closed));
    assert_eq!(q.len(), 0);
}

#[test]
fn raw_events_are_classified() {
    let k = press(Key::Enter);
    assert_eq!(classify(&RawEvent::Key(k)), Some(EventType::Key(k)));
    let p = Pointer { column: 2, row: 7 };
    assert_eq!(classify(&RawEvent::Mouse(p)), Some(EventType::Mouse(p)));
    assert_eq!(classify(&RawEvent::Resize(80, 24)), Some(EventType::Resize(80, 24)));
    assert_eq!(classify(&RawEvent::FocusGained), None);
    assert_eq!(classify(&RawEvent::Paste("x".to_string())), None);
}

#[test]
fn poll_waits_for_the_rest_of_the_tick() {
    assert_eq!(poll_timeout(250, 100), 150);
    assert_eq!(poll_timeout(250, 250), 0);
    assert_eq!(poll_timeout(250, 400), 250);
}

#[test]
fn counter_moves_with_arrows_and_stops_on_q() {
    let mut app = counter::App::new();
    counter::handle_key_event(&mut app, press(Key::Right));
    counter::handle_key_event(&mut app, press(Key::Right));
    counter::handle_key_event(&mut app, press(Key::Left));
    assert_eq!(app.counter, 1);
    assert!(app.running);
    counter::handle_key_event(&mut app, press(Key::Char('q')));
    assert!(!app.running);
    let mut top = counter::App { counter: i8::MAX, running: true };
    counter::handle_key_event(&mut top, press(Key::Right));
    assert_eq!(top.counter, i8::MAX);
    let mut bottom = counter::App { counter: i8::MIN, running: true };
    counter::handle_key_event(&mut bottom, press(Key::Left));
    assert_eq!(bottom.counter, i8::MIN);
}

fn type_text(app: &mut timer::App, text: &str) {
    for c in text.chars() {
        timer::handle_key_event(app, press(Key::Char(c)));
    }
}

#[test]
fn timer_form_adds_and_selects_a_timer() {
    let mut app = timer::App::new();
    timer::handle_key_event(&mut app, press(Key::Char('+')));
    assert_eq!(app.current_screen, timer::CurrentScreen::Editing);
    type_text(&mut app, "teaa");
    timer::handle_key_event(&mut app, press(Key::Backspace));
    timer::handle_key_event(&mut app, press(Key::Enter));
    type_text(&mut app, "1");
    timer::handle_key_event(&mut app, press(Key::Down));
    type_text(&mut app, "30");
    timer::handle_key_event(&mut app, press(Key::Enter));
    assert_eq!(app.currently_editing, Some(timer::CurrentlyEditing::Second));
    type_text(&mut app, "5");
    timer::handle_key_event(&mut app, press(Key::Enter));
    assert_eq!(app.current_screen, timer::CurrentScreen::Main);
    assert_eq!(app.currently_editing, None);
    let items = app.timers.items();
    assert_eq!(items.len(), 1);
    assert_eq!(items[0], timer::Timer { name: "tea".to_string(), hour: 1, minute: 30, second: 5 });
    assert_eq!(app.timers.get_selected_index(), Some(0));
    assert_eq!(app.name_input, "");
    assert_eq!(items[0].label(), format!("{: <25}", "tea"));
}

#[test]
fn timer_form_keeps_editing_on_unreadable_numbers() {
    let mut app = timer::App::new();
    timer::handle_key_event(&mut app, press(Key::Char('+')));
    type_text(&mut app, "x");
    for _ in 0..3 {
        timer::handle_key_event(&mut app, press(Key::Enter));
    }
    type_text(&mut app, "9");
    timer::handle_key_event(&mut app, press(Key::Enter));
    assert_eq!(app.current_screen, timer::CurrentScreen::Editing);
    assert_eq!(app.timers.items().len(), 0);
    assert_eq!(app.second_input, "9");
}

#[test]
fn timer_list_selection_wraps() {
    let mut list = timer::StatefulList::new();
    list.next();
    assert_eq!(list.get_selected_index(), None);
    for name in ["a", "b", "c"] {
        list.add(timer::Timer { name: name.to_string(), hour: 0, minute: 0, second: 1 });
    }
    list.next();
    assert_eq!(list.get_selected_index(), Some(0));
    list.previous();
    assert_eq!(list.get_selected_index(), Some(2));
    list.next();
    assert_eq!(list.get_selected_index(), Some(0));
    list.set_last();
    assert_eq!(list.get_selected_index(), Some(2));
}

#[test]
fn timer_quit_screen() {
    let mut app = timer::App::new();
    timer::handle_key_event(&mut app, press(Key::Char('q')));
    assert_eq!(app.current_screen, timer::CurrentScreen::Exiting);
    timer::handle_key_event(&mut app, KeyInput { key: Key::Char('n'), kind: KeyKind::Release });
    assert_eq!(app.current_screen, timer::CurrentScreen::Exiting);
    timer::handle_key_event(&mut app, press(Key::Char('n')));
    assert_eq!(app.current_screen, timer::CurrentScreen::Main);
    timer::handle_key_event(&mut app, press(Key::Char('q')));
    timer::handle_key_event(&mut app, press(Key::Enter));
    assert!(!app.running);
}

fn json_type(app: &mut json::App, text: &str) {
    for c in text.chars() {
        assert_eq!(app.on_key(press(Key::Char(c))), None);
    }
}

#[test]
fn json_editor_collects_pairs_and_prints_them() {
    let mut app = json::App::new();
    assert_eq!(app.on_key(press(Key::Char('e'))), None);
    json_type(&mut app, "b");
    app.on_key(press(Key::Enter));
    json_type(&mut app, "22");
    app.on_key(press(Key::Backspace));
    app.on_key(press(Key::Enter));
    assert_eq!(app.current_screen, json::CurrentScreen::Main);
    app.on_key(press(Key::Char('e')));
    json_type(&mut app, "a");
    app.on_key(press(Key::Tab));
    json_type(&mut app, "x\"y");
    app.on_key(press(Key::Enter));
    app.on_key(press(Key::Char('e')));
    json_type(&mut app, "b");
    app.on_key(press(Key::Tab));
    json_type(&mut app, "3");
    app.on_key(press(Key::Enter));
    assert_eq!(app.pairs().len(), 2);
    assert_eq!(app.to_json(), Ok("{\"a\":\"x\\\"y\",\"b\":\"3\"}".to_string()));
    assert_eq!(app.on_key(press(Key::Char('q'))), None);
    assert_eq!(app.on_key(press(Key::Char('y'))), Some(true));
}

#[test]
fn json_editor_quits_without_printing() {
    let mut app = json::App::new();
    assert_eq!(app.to_json(), Ok("{}".to_string()));
    app.on_key(press(Key::Char('q')));
    assert_eq!(app.on_key(press(Key::Char('n'))), Some(false));
    let mut other = json::App::new();
    other.toggle_editing();
    assert_eq!(other.currently_editing, Some(json::CurrentlyEditing::Key));
    other.toggle_editing();
    assert_eq!(other.currently_editing, Some(json::CurrentlyEditing::Value));
}
