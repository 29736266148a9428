use std::sync::Arc;

use async_std::os::unix::net::UnixStream;
use game_session::api::command::ErrorCode;
use game_session::game::Session;
use game_session::net::SafeSender;
use parking_lot::Mutex;
use soketto::connection::{Builder, Mode};

fn handle() -> SafeSender {
    let (near, _far) = UnixStream::pair().unwrap();
    let (send, _recv) = Builder::new(near, Mode::Server).finish();
    Arc::new(Mutex::new(send))
}

fn names(game: &Session) -> Vec<(usize, String)> {
    game.players().iter().map(|p| (p.id(), p.username().clone())).collect()
}

#[test]
fn new_session_is_empty() {
    let game = Session::new("KEY".to_string());
    assert!(game.players().is_empty());
    assert!(game.chat().is_empty());
    assert_eq!(game.host(), &None);
}

#[test]
fn players_get_ids_in_join_order() {
    let mut game = Session::new("KEY".to_string());
    for (i, name) in ["alice", "bob", "carol", "dave"].iter().enumerate() {
        assert_eq!(game.add_player(&name.to_string(), &None), Ok(i));
    }
    assert_eq!(
        names(&game),
        vec![
            (0, "alice".to_string()),
            (1, "bob".to_string()),
            (2, "carol".to_string()),
            (3, "dave".to_string())
        ]
    );
    assert!(game.players().iter().all(|p| p.sock().is_none()));
}

#[test]
fn duplicate_username_is_rejected_whatever_the_credential() {
    let mut game = Session::new("KEY".to_string());
    assert_eq!(game.add_player(&"alice".to_string(), &None), Ok(0));
    assert_eq!(game.add_player(&"alice".to_string(), &None), Err(ErrorCode::DuplicateUsername));
    assert_eq!(
        game.add_player(&"alice".to_string(), &Some("KEY".to_string())),
        Err(ErrorCode::DuplicateUsername)
    );
    assert_eq!(
        game.add_player(&"alice".to_string(), &Some("WRONG".to_string())),
        Err(ErrorCode::DuplicateUsername)
    );
    assert_eq!(names(&game), vec![(0, "alice".to_string())]);
    assert_eq!(game.host(), &None);
}

#[test]
fn right_credential_makes_the_host() {
    let mut game = Session::new("KEY".to_string());
    assert_eq!(game.add_player(&"alice".to_string(), &None), Ok(0));
    assert_eq!(game.add_player(&"bob".to_string(), &Some("KEY".to_string())), Ok(1));
    assert_eq!(game.host(), &Some("bob".to_string()));
}

#[test]
fn wrong_credential_makes_a_plain_player() {
    let mut game = Session::new("KEY".to_string());
    assert_eq!(game.add_player(&"alice".to_string(), &Some("key".to_string())), Ok(0));
    assert_eq!(game.host(), &None);
    assert_eq!(game.add_player(&"bob".to_string(), &Some("KEY".to_string())), Ok(1));
    assert_eq!(game.host(), &Some("bob".to_string()));
}

#[test]
fn host_is_set_once() {
    let mut game = Session::new("KEY".to_string());
    assert_eq!(game.add_player(&"alice".to_string(), &Some("KEY".to_string())), Ok(0));
    assert_eq!(
        game.add_player(&"bob".to_string(), &Some("KEY".to_string())),
        Err(ErrorCode::HostAlreadySet)
    );
    assert_eq!(
        game.add_player(&"bob".to_string(), &Some("WRONG".to_string())),
        Err(ErrorCode::HostAlreadySet)
    );
    assert_eq!(game.host(), &Some("alice".to_string()));
    assert_eq!(names(&game), vec![(0, "alice".to_string())]);
    assert_eq!(game.add_player(&"bob".to_string(), &None), Ok(1));
    assert_eq!(game.host(), &Some("alice".to_string()));
}

#[test]
fn lookups_find_players() {
    let mut game = Session::new("KEY".to_string());
    game.add_player(&"alice".to_string(), &None).unwrap();
    game.add_player(&"bob".to_string(), &None).unwrap();
    assert_eq!(game.player_id_by_username("alice"), Some(0));
    assert_eq!(game.player_id_by_username("bob"), Some(1));
    assert_eq!(game.player_id_by_username("carol"), None);
    assert_eq!(game.player_id_by_username("Alice"), None);
    assert_eq!(game.player_username_by_id(0), Some("alice".to_string()));
    assert_eq!(game.player_username_by_id(1), Some("bob".to_string()));
    assert_eq!(game.player_username_by_id(2), None);
}

#[test]
fn messages_are_numbered_in_order() {
    let mut game = Session::new("KEY".to_string());
    game.add_player(&"alice".to_string(), &None).unwrap();
    game.add_player(&"bob".to_string(), &None).unwrap();
    assert_eq!(game.add_message("bob", "hi"), 0);
    assert_eq!(game.add_message("alice", "hello"), 1);
    assert_eq!(game.add_message("bob", "bye"), 2);
    let log: Vec<(usize, usize, String)> =
        game.chat().iter().map(|c| (c.user_id(), c.msg_id(), c.content().clone())).collect();
    assert_eq!(
        log,
        vec![(1, 0, "hi".to_string()), (0, 1, "hello".to_string()), (1, 2, "bye".to_string())]
    );
}

#[test]
fn last_connection_wins() {
    let mut game = Session::new("KEY".to_string());
    game.add_player(&"alice".to_string(), &None).unwrap();
    game.add_player(&"bob".to_string(), &None).unwrap();
    let first = handle();
    let second = handle();
    game.assoc_sock(1, first.clone());
    assert!(game.players()[0].sock().is_none());
    assert!(Arc::ptr_eq(game.players()[1].sock().as_ref().unwrap(), &first));
    game.assoc_sock(1, second.clone());
    assert!(Arc::ptr_eq(game.players()[1].sock().as_ref().unwrap(), &second));
    assert_eq!(names(&game), vec![(0, "alice".to_string()), (1, "bob".to_string())]);
}

#[test]
fn peers_are_the_other_connections() {
    let mut game = Session::new("KEY".to_string());
    for name in ["alice", "bob", "carol", "dave"] {
        game.add_player(&name.to_string(), &None).unwrap();
    }
    let a = handle();
    let c = handle();
    let d = handle();
    game.assoc_sock(0, a.clone());
    game.assoc_sock(2, c.clone());
    game.assoc_sock(3, d.clone());
    let peers = game.peers(2);
    assert_eq!(peers.len(), 2);
    assert!(Arc::ptr_eq(&peers[0], &a));
    assert!(Arc::ptr_eq(&peers[1], &d));
    let peers = game.peers(1);
    assert_eq!(peers.len(), 3);
    assert!(Arc::ptr_eq(&peers[0], &a));
    assert!(Arc::ptr_eq(&peers[1], &c));
    assert!(Arc::ptr_eq(&peers[2], &d));
}
