use game_session::liveness::{beat, Beat, KEEPALIVE_INTERVAL};
use game_session::lobby::{
    created, game_code, game_path, host_key, random_letters, GAME_CODE_LEN, HOST_KEY_LEN,
};

fn upper(s: &str) -> bool {
    s.bytes().all(|b| b.is_ascii_uppercase())
}

#[test]
fn game_code_is_eight_capital_letters() {
    assert_eq!(GAME_CODE_LEN, 8);
    for _ in 0..50 {
        let code = game_code();
        assert_eq!(code.len(), 8);
        assert!(upper(&code), "{}", code);
    }
}

#[test]
fn host_key_is_128_capital_letters() {
    assert_eq!(HOST_KEY_LEN, 128);
    let key = host_key();
    assert_eq!(key.len(), 128);
    assert!(upper(&key), "{}", key);
}

#[test]
fn random_letters_has_the_length_asked_for() {
    assert_eq!(random_letters(0), "");
    let s = random_letters(1000);
    assert_eq!(s.chars().count(), 1000);
    assert!(upper(&s));
    let first = s.as_bytes()[0];
    assert!(s.bytes().any(|b| b != first));
}

#[test]
fn game_path_lies_under_the_socket_directory() {
    assert_eq!(game_path("ABCDEFGH"), "/monopoly_socks/ABCDEFGH");
    assert_eq!(game_path(""), "/monopoly_socks/");
}

#[test]
fn created_answers_code_and_key() {
    assert_eq!(created("ABCDEFGH", "KEYKEY"), "ABCDEFGH\nKEYKEY");
}

#[test]
fn reporter_pings_until_the_loop_is_done() {
    assert_eq!(KEEPALIVE_INTERVAL, 10);
    assert_eq!(beat(false), Beat::Ping);
    assert_eq!(beat(true), Beat::Stop);
}
