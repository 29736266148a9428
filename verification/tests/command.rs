use game_session::api::command::{Chat, Command, Echo, Error, ErrorCode, Init, MAX_CHAT_LEN};

fn error(nonce: &str, code: ErrorCode) -> Command {
    Command::Error(Error { nonce: nonce.to_string(), code })
}

fn lines(items: &[&str]) -> Vec<String> {
    items.iter().map(|s| s.to_string()).collect()
}

#[test]
fn frame_without_lines_is_kill() {
    assert_eq!(Command::new(""), Command::Kill);
}

#[test]
fn frame_with_an_empty_line_is_no_kill() {
    assert_eq!(Command::new("\n"), error("", ErrorCode::NoCommand));
}

#[test]
fn nonce_alone_is_no_command() {
    assert_eq!(Command::new("n1"), error("n1", ErrorCode::NoCommand));
    assert_eq!(Command::new("n1\n"), error("n1", ErrorCode::NoCommand));
}

#[test]
fn unknown_keyword_is_rejected() {
    assert_eq!(Command::new("n1\nJUMP\nhigh"), error("n1", ErrorCode::UnknownCommand));
    assert_eq!(Command::new("n1\ninit\nalice"), error("n1", ErrorCode::UnknownCommand));
    assert_eq!(Command::new("n1\nINIT \nalice"), error("n1", ErrorCode::UnknownCommand));
    assert_eq!(Command::new("n1\n\nalice"), error("n1", ErrorCode::UnknownCommand));
}

#[test]
fn init_takes_a_username() {
    assert_eq!(
        Command::new("n1\nINIT\nalice"),
        Command::Init(Init {
            nonce: "n1".to_string(),
            username: "alice".to_string(),
            host_key: None,
            player_id: None,
        })
    );
}

#[test]
fn init_takes_a_host_credential() {
    assert_eq!(
        Command::new("n1\nINIT\nalice\nSECRET\nmore"),
        Command::Init(Init {
            nonce: "n1".to_string(),
            username: "alice".to_string(),
            host_key: Some("SECRET".to_string()),
            player_id: None,
        })
    );
}

#[test]
fn init_without_username_is_rejected() {
    assert_eq!(Command::new("n1\nINIT"), error("n1", ErrorCode::MissingUsername));
    assert_eq!(Command::new("n1\nINIT\n"), error("n1", ErrorCode::MissingUsername));
}

#[test]
fn echo_takes_a_payload() {
    assert_eq!(
        Command::new("n2\r\nECHO\r\nhello\r\n"),
        Command::Echo(Echo { nonce: "n2".to_string(), msg: "hello".to_string(), resp: String::new() })
    );
}

#[test]
fn echo_without_payload_is_rejected() {
    assert_eq!(Command::new("n2\nECHO"), error("n2", ErrorCode::MissingPayload));
}

#[test]
fn chat_joins_the_remaining_lines() {
    assert_eq!(
        Command::new("n3\nCHAT\nhi "),
        Command::Chat(Chat { nonce: "n3".to_string(), text: "hi ".to_string() })
    );
    assert_eq!(
        Command::new("n3\nCHAT\nhel\nlo\n\nyou"),
        Command::Chat(Chat { nonce: "n3".to_string(), text: "helloyou".to_string() })
    );
}

#[test]
fn chat_without_text_is_rejected() {
    assert_eq!(Command::new("n3\nCHAT"), error("n3", ErrorCode::EmptyChat));
    assert_eq!(Command::new("n3\nCHAT\n"), error("n3", ErrorCode::EmptyChat));
    assert_eq!(Command::new("n3\nCHAT\n\n\n"), error("n3", ErrorCode::EmptyChat));
}

#[test]
fn chat_of_twelve_characters_is_accepted() {
    assert_eq!(MAX_CHAT_LEN, 12);
    assert_eq!(
        Command::new("n3\nCHAT\n123456789012"),
        Command::Chat(Chat { nonce: "n3".to_string(), text: "123456789012".to_string() })
    );
}

#[test]
fn chat_of_thirteen_characters_is_too_long() {
    assert_eq!(Command::new("n3\nCHAT\n1234567890123"), error("n3", ErrorCode::ChatTooLong));
    assert_eq!(Command::new("n3\nCHAT\n1234567\n890123"), error("n3", ErrorCode::ChatTooLong));
}

#[test]
fn chat_length_counts_characters_not_bytes() {
    let text = "\u{e9}\u{e9}\u{e9}\u{e9}\u{e9}\u{e9}\u{e9}\u{e9}\u{e9}\u{e9}\u{e9}\u{e9}";
    assert_eq!(text.len(), 24);
    assert_eq!(
        Command::new(&format!("n3\nCHAT\n{}", text)),
        Command::Chat(Chat { nonce: "n3".to_string(), text: text.to_string() })
    );
}

#[test]
fn variant_constructors_read_their_arguments() {
    let nonce = "n".to_string();
    assert_eq!(Init::new(&nonce, &lines(&["n", "INIT"])), error("n", ErrorCode::MissingUsername));
    assert_eq!(Echo::new(&nonce, &lines(&["n", "ECHO"])), error("n", ErrorCode::MissingPayload));
    assert_eq!(Chat::new(&nonce, &lines(&["n", "CHAT"])), error("n", ErrorCode::EmptyChat));
    assert_eq!(
        Echo::new(&nonce, &lines(&["n", "ECHO", "x", "y"])),
        Command::Echo(Echo { nonce: "n".to_string(), msg: "x".to_string(), resp: String::new() })
    );
    assert_eq!(Error::new(&nonce, ErrorCode::ReadFailed), error("n", ErrorCode::ReadFailed));
}

#[test]
fn error_codes_have_their_numbers() {
    let codes = [
        ErrorCode::NoCommand,
        ErrorCode::MissingUsername,
        ErrorCode::DuplicateUsername,
        ErrorCode::MissingPayload,
        ErrorCode::ConnectFailed,
        ErrorCode::WriteFailed,
        ErrorCode::ReadFailed,
        ErrorCode::HostAlreadySet,
        ErrorCode::NotInitialized,
        ErrorCode::AlreadyInitialized,
        ErrorCode::UnknownCommand,
        ErrorCode::EmptyChat,
        ErrorCode::ChatTooLong,
    ];
    for (i, code) in codes.iter().enumerate() {
        assert_eq!(code.number(), i);
    }
}

#[test]
fn success_frames_bear_the_nonce() {
    let init = Command::Init(Init {
        nonce: "n1".to_string(),
        username: "alice".to_string(),
        host_key: None,
        player_id: Some(0),
    });
    assert_eq!(init.respond(), "n1\nSUCCESS");
    let echo = Command::Echo(Echo {
        nonce: "n2".to_string(),
        msg: "hello".to_string(),
        resp: "hello".to_string(),
    });
    assert_eq!(echo.respond(), "n2\nhello");
    let chat = Command::Chat(Chat { nonce: "n3".to_string(), text: "hi".to_string() });
    assert_eq!(chat.respond(), "n3\nSUCCESS");
}

#[test]
fn failure_frames_bear_a_minus_and_the_code() {
    assert_eq!(error("n1", ErrorCode::DuplicateUsername).respond(), "-n1\n2");
    assert_eq!(error("n1", ErrorCode::ChatTooLong).respond(), "-n1\n12");
    assert_eq!(error("", ErrorCode::NoCommand).respond(), "-\n0");
}

#[test]
fn kill_frame_is_the_last_notice() {
    assert_eq!(Command::Kill.respond(), "0\nEMPTY\n0");
}

#[test]
fn commands_tell_what_they_are() {
    let init = Command::new("n1\nINIT\nalice");
    assert!(init.is_init() && !init.is_error() && !init.is_kill());
    assert_eq!(init.nonce(), Some(&"n1".to_string()));
    assert_eq!(init.error_code(), None);
    let bad = Command::new("n2\nINIT");
    assert!(!bad.is_init() && bad.is_error() && !bad.is_kill());
    assert_eq!(bad.nonce(), Some(&"n2".to_string()));
    assert_eq!(bad.error_code(), Some(ErrorCode::MissingUsername));
    let kill = Command::new("");
    assert!(!kill.is_init() && !kill.is_error() && kill.is_kill());
    assert_eq!(kill.nonce(), None);
    assert_eq!(kill.error_code(), None);
    let echo = Command::new("n3\nECHO\nx");
    assert!(!echo.is_init() && !echo.is_error() && !echo.is_kill());
    assert_eq!(echo.nonce(), Some(&"n3".to_string()));
}
