use game_session::text::{
    chars_of, concat_from, decimal_string, decode, push_decimal, split_lines, string_of,
};

fn std_lines(s: &str) -> Vec<String> {
    s.lines().map(str::to_string).collect()
}

#[test]
fn chars_of_gives_every_character() {
    assert_eq!(chars_of("a\u{e9}\n\u{1f600}"), vec!['a', '\u{e9}', '\n', '\u{1f600}']);
    assert_eq!(chars_of(""), Vec::<char>::new());
}

#[test]
fn string_of_takes_the_range() {
    let chars = vec!['h', 'e', 'l', 'l', 'o'];
    assert_eq!(string_of(&chars, 1, 4), "ell");
    assert_eq!(string_of(&chars, 0, 5), "hello");
    assert_eq!(string_of(&chars, 2, 2), "");
}

#[test]
fn split_lines_of_nothing_is_empty() {
    assert_eq!(split_lines(""), Vec::<String>::new());
}

#[test]
fn split_lines_splits_at_line_feeds() {
    assert_eq!(split_lines("n1\nINIT\nalice"), vec!["n1", "INIT", "alice"]);
}

#[test]
fn split_lines_drops_one_final_terminator() {
    assert_eq!(split_lines("a\n"), vec!["a"]);
    assert_eq!(split_lines("a\n\n"), vec!["a", ""]);
    assert_eq!(split_lines("\n"), vec![""]);
}

#[test]
fn split_lines_drops_a_carriage_return_before_a_line_feed() {
    assert_eq!(split_lines("a\r\nb"), vec!["a", "b"]);
    assert_eq!(split_lines("a\r\r\nb"), vec!["a\r", "b"]);
    assert_eq!(split_lines("\r\n"), vec![""]);
}

#[test]
fn split_lines_keeps_a_carriage_return_without_line_feed() {
    assert_eq!(split_lines("a\rb"), vec!["a\rb"]);
    assert_eq!(split_lines("a\nbaz\r"), vec!["a", "baz\r"]);
}

#[test]
fn split_lines_agrees_with_std() {
    let samples = [
        "",
        "\n",
        "\r",
        "\r\n",
        "\n\n",
        "\n\r\n",
        "a",
        "a\n",
        "a\r\n",
        "a\r",
        "a\nb",
        "a\n\nb\n",
        "foo\nbar\n\r\nbaz\r",
        "n1\nCHAT\nhello\nworld",
        "\r\r\n\r",
        "x\r\ny\r\nz\r\n",
        "h\u{e9}llo\nw\u{f6}rld\n",
    ];
    for s in samples {
        assert_eq!(split_lines(s), std_lines(s), "lines of {:?}", s);
    }
}

#[test]
fn concat_from_joins_with_nothing_between() {
    let parts = vec!["n".to_string(), "CHAT".to_string(), "he".to_string(), "llo".to_string()];
    assert_eq!(concat_from(&parts, 2), "hello");
    assert_eq!(concat_from(&parts, 0), "nCHAThello");
    assert_eq!(concat_from(&parts, 4), "");
    assert_eq!(concat_from(&parts, 9), "");
}

#[test]
fn decimal_string_writes_numbers() {
    assert_eq!(decimal_string(0), "0");
    assert_eq!(decimal_string(7), "7");
    assert_eq!(decimal_string(10), "10");
    assert_eq!(decimal_string(12), "12");
    assert_eq!(decimal_string(1905), "1905");
    assert_eq!(decimal_string(usize::MAX), usize::MAX.to_string());
}

#[test]
fn push_decimal_appends() {
    let mut s = String::from("Content-Length: ");
    push_decimal(&mut s, 42);
    assert_eq!(s, "Content-Length: 42");
}

#[test]
fn decode_reads_utf8() {
    assert_eq!(decode(b"hello"), Some("hello".to_string()));
    assert_eq!(decode(b""), Some(String::new()));
    let text = "h\u{e9}\u{20ac}\u{1f600}";
    assert_eq!(decode(text.as_bytes()), Some(text.to_string()));
}

#[test]
fn decode_turns_down_what_is_no_utf8() {
    assert_eq!(decode(&[0x80]), None);
    assert_eq!(decode(&[b'a', 0xff]), None);
    assert_eq!(decode(&[0xc0, 0xaf]), None);
    assert_eq!(decode(&[0xe0, 0x80, 0xaf]), None);
    assert_eq!(decode(&[0xed, 0xa0, 0x80]), None);
    assert_eq!(decode(&[0xf4, 0x90, 0x80, 0x80]), None);
    assert_eq!(decode(&[0xf0, 0x9f, 0x98]), None);
}
