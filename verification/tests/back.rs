use std::sync::mpsc;
use std::sync::Arc;

use game_session::api::back::{Event, EventHandler, Message};
use game_session::game::Session;
use parking_lot::Mutex;

fn game() -> Arc<Mutex<Session>> {
    Arc::new(Mutex::new(Session::new("KEY".to_string())))
}

#[test]
fn message_keeps_its_parts() {
    let m = Message::new(&"alice".to_string(), &"hi".to_string());
    assert_eq!(m.username(), "alice");
    assert_eq!(m.msg(), "hi");
}

#[test]
fn message_frame_names_the_author() {
    let m = Message::new(&"alice".to_string(), &"hi".to_string());
    assert_eq!(m.respond(), "0\nCHAT\nalice\nhi");
    assert_eq!(Event::Msg(m).respond(), "0\nCHAT\nalice\nhi");
    let empty = Message::new(&String::new(), &String::new());
    assert_eq!(empty.respond(), "0\nCHAT\n\n");
}

#[test]
fn handler_takes_events_off_its_channel() {
    let (tx, rx) = mpsc::channel();
    let session = game();
    let mut handler = EventHandler::new(5, rx, session.clone());
    assert_eq!(handler.ws_id(), 5);
    assert!(Arc::ptr_eq(handler.game(), &session));
    assert!(!handler.is_kill());
    let first = Event::Msg(Message::new(&"alice".to_string(), &"one".to_string()));
    let second = Event::Msg(Message::new(&"bob".to_string(), &"two".to_string()));
    tx.send(first.clone()).unwrap();
    tx.send(second.clone()).unwrap();
    assert_eq!(handler.pump_event(), Some(first));
    assert_eq!(handler.pump_event(), Some(second));
    assert!(!handler.is_kill());
}

#[test]
fn handler_stops_when_the_channel_is_gone() {
    let (tx, rx) = mpsc::channel();
    let mut handler = EventHandler::new(5, rx, game());
    tx.send(Event::Msg(Message::new(&"alice".to_string(), &"last".to_string()))).unwrap();
    drop(tx);
    assert!(handler.pump_event().is_some());
    assert!(!handler.is_kill());
    assert_eq!(handler.pump_event(), None);
    assert!(handler.is_kill());
}

#[test]
fn accept_follows_what_came() {
    let (_tx, rx) = mpsc::channel();
    let mut handler = EventHandler::new(5, rx, game());
    let event = Event::Msg(Message::new(&"alice".to_string(), &"hi".to_string()));
    assert_eq!(handler.accept(Some(event.clone())), Some(event.clone()));
    assert!(!handler.is_kill());
    assert_eq!(handler.accept(None), None);
    assert!(handler.is_kill());
    assert_eq!(handler.accept(Some(event.clone())), Some(event));
    assert!(handler.is_kill());
}

#[test]
fn execute_event_gives_the_frame() {
    let (_tx, rx) = mpsc::channel();
    let mut handler = EventHandler::new(5, rx, game());
    let event = Event::Msg(Message::new(&"bob".to_string(), &"hello".to_string()));
    assert_eq!(handler.execute_event(event), "0\nCHAT\nbob\nhello");
    assert!(!handler.is_kill());
}
