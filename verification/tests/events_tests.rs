use ollama_tui::events::tick::TickEvent;
use ollama_tui::events::{Event, EventHandler, KeyCode, KeyEvent, MouseEvent};
use std::time::Duration;

#[test]
fn a_tick_event_holds_its_interval() {
    assert_eq!(TickEvent::new(1000).interval, Duration::from_millis(1000));
    assert_eq!(TickEvent::new(0).interval, Duration::from_millis(0));
    assert_eq!(TickEvent::default().interval, Duration::from_millis(250));
    assert_ne!(TickEvent::new(1).interval, Duration::from_millis(2));
}

#[test]
fn the_source_waits_for_what_is_left_of_the_interval() {
    let handler = EventHandler::new(250, 1000);
    assert_eq!(handler.poll_timeout(1000), 250);
    assert_eq!(handler.poll_timeout(1100), 150);
    assert_eq!(handler.poll_timeout(1249), 1);
    assert_eq!(handler.poll_timeout(1250), 0);
    assert_eq!(handler.poll_timeout(9000), 0);
    assert_eq!(handler.poll_timeout(900), 250);
    assert_eq!(EventHandler::new(0, 5).poll_timeout(5), 0);
    assert_eq!(EventHandler::new(u64::MAX, 0).poll_timeout(u64::MAX), 0);
}

#[test]
fn a_tick_is_due_when_the_interval_has_passed() {
    let mut handler = EventHandler::new(250, 1000);
    assert!(!handler.take_tick(1000));
    assert!(!handler.take_tick(1249));
    assert!(handler.take_tick(1250));
    assert!(!handler.take_tick(1251));
    assert_eq!(handler.poll_timeout(1251), 249);
    assert!(!handler.take_tick(1499));
    assert!(handler.take_tick(1700));
    assert!(!handler.take_tick(0));
    assert!(handler.take_tick(1950));
}

#[test]
fn events_are_plain_values() {
    let key = KeyEvent { code: KeyCode::Char('q'), control: false };
    assert_eq!(Event::Key(key), Event::Key(KeyEvent { code: KeyCode::Char('q'), control: false }));
    assert_ne!(Event::Key(key), Event::Tick);
    assert_ne!(Event::Resize(80, 24), Event::Resize(80, 25));
    assert_eq!(
        Event::Mouse(MouseEvent { column: 1, row: 2 }),
        Event::Mouse(MouseEvent { column: 1, row: 2 })
    );
}
