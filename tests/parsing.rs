use pop3_client::command::{decimal_bytes, Command};
use pop3_client::line::LineBuffer;
use pop3_client::response::{
    parse_message_number, parse_multiline, parse_status, parse_uidl_entry, terminates_block,
    unstuff, Pop3Error,
};

fn lines(ls: &[&str]) -> Vec<Vec<u8>> {
    ls.iter().map(|l| l.as_bytes().to_vec()).collect()
}

#[test]
fn positive_status_drops_one_space() {
    let s = parse_status(b"+OK  2 messages").unwrap();
    assert!(s.positive);
    assert_eq!(s.message, b" 2 messages".to_vec());
}

#[test]
fn positive_status_without_text() {
    let s = parse_status(b"+OK").unwrap();
    assert!(s.positive);
    assert!(s.message.is_empty());
}

#[test]
fn negative_status_is_negative() {
    let s = parse_status(b"-ERR no such message").unwrap();
    assert!(!s.positive);
    assert_eq!(s.message, b"no such message".to_vec());
}

#[test]
fn status_tags_are_case_sensitive() {
    assert_eq!(parse_status(b"+ok fine").unwrap_err(), Pop3Error::MalformedResponse);
    assert_eq!(parse_status(b"-err bad").unwrap_err(), Pop3Error::MalformedResponse);
    assert_eq!(parse_status(b"").unwrap_err(), Pop3Error::MalformedResponse);
    assert_eq!(parse_status(b"+O").unwrap_err(), Pop3Error::MalformedResponse);
}

#[test]
fn stuffed_line_loses_one_dot() {
    let block = parse_multiline(&lines(&["..text", "...", "plain", "."])).unwrap();
    assert_eq!(block, lines(&[".text", "..", "plain"]));
}

#[test]
fn double_dot_decodes_to_dot() {
    assert_eq!(unstuff(b".."), b".".to_vec());
    assert_eq!(unstuff(b"."), b".".to_vec());
    assert!(terminates_block(b"."));
    assert!(!terminates_block(b".."));
}

#[test]
fn empty_block_is_empty() {
    let block = parse_multiline(&lines(&["."])).unwrap();
    assert!(block.is_empty());
}

#[test]
fn block_stops_at_first_terminator() {
    let block = parse_multiline(&lines(&["a", ".", "b", "."])).unwrap();
    assert_eq!(block, lines(&["a"]));
}

#[test]
fn unterminated_block_is_eof() {
    assert_eq!(parse_multiline(&lines(&["a", "b"])).unwrap_err(), Pop3Error::UnexpectedEof);
    assert_eq!(parse_multiline(&Vec::new()).unwrap_err(), Pop3Error::UnexpectedEof);
}

#[test]
fn message_numbers() {
    assert_eq!(parse_message_number(b"42"), Some(42));
    assert_eq!(parse_message_number(b"18446744073709551615"), Some(u64::MAX));
    assert_eq!(parse_message_number(b"18446744073709551616"), None);
    assert_eq!(parse_message_number(b"0"), None);
    assert_eq!(parse_message_number(b""), None);
    assert_eq!(parse_message_number(b"1a"), None);
}

#[test]
fn listing_rows() {
    let e = parse_uidl_entry(b"1 abc").unwrap();
    assert_eq!(e.message_id, 1);
    assert_eq!(e.unique_id, b"abc".to_vec());
    let e = parse_uidl_entry(b"7 x y").unwrap();
    assert_eq!(e.message_id, 7);
    assert_eq!(e.unique_id, b"x y".to_vec());
    assert_eq!(parse_uidl_entry(b"abc").unwrap_err(), Pop3Error::MalformedResponse);
    assert_eq!(parse_uidl_entry(b"1 ").unwrap_err(), Pop3Error::MalformedResponse);
    assert_eq!(parse_uidl_entry(b"x abc").unwrap_err(), Pop3Error::MalformedResponse);
    assert_eq!(parse_uidl_entry(b" abc").unwrap_err(), Pop3Error::MalformedResponse);
}

#[test]
fn commands_encode_with_crlf() {
    assert_eq!(Command::User(b"alice".to_vec()).encode().unwrap(), b"USER alice\r\n".to_vec());
    assert_eq!(Command::Pass(b"pw".to_vec()).encode().unwrap(), b"PASS pw\r\n".to_vec());
    assert_eq!(Command::Uidl(None).encode().unwrap(), b"UIDL\r\n".to_vec());
    assert_eq!(Command::Uidl(Some(12)).encode().unwrap(), b"UIDL 12\r\n".to_vec());
    assert_eq!(Command::Retr(5).encode().unwrap(), b"RETR 5\r\n".to_vec());
    assert_eq!(Command::Quit.encode().unwrap(), b"QUIT\r\n".to_vec());
}

#[test]
fn line_breaks_in_arguments_are_refused() {
    let e = Command::User(b"alice\r\nDELE 1".to_vec()).encode().unwrap_err();
    assert_eq!(e, Pop3Error::InvalidArgument);
    let e = Command::Pass(b"a\nb".to_vec()).encode().unwrap_err();
    assert_eq!(e, Pop3Error::InvalidArgument);
}

#[test]
fn overlong_commands_are_refused() {
    let fits = vec![b'a'; 250];
    assert!(Command::User(fits).encode().is_ok());
    let too_long = vec![b'a'; 251];
    assert_eq!(Command::User(too_long).encode().unwrap_err(), Pop3Error::InvalidArgument);
}

#[test]
fn decimal_digits() {
    assert_eq!(decimal_bytes(0), b"0".to_vec());
    assert_eq!(decimal_bytes(1234567890), b"1234567890".to_vec());
    assert_eq!(decimal_bytes(u64::MAX), b"18446744073709551615".to_vec());
}

#[test]
fn lines_split_on_crlf_and_bare_lf() {
    let mut buf = LineBuffer::new();
    buf.push_bytes(b"+OK hi\r\nsecond\nthi");
    assert_eq!(buf.next_line(), Some(b"+OK hi".to_vec()));
    assert_eq!(buf.next_line(), Some(b"second".to_vec()));
    assert_eq!(buf.next_line(), None);
    buf.push_bytes(b"rd\r\n\r\n");
    assert_eq!(buf.next_line(), Some(b"third".to_vec()));
    assert_eq!(buf.next_line(), Some(Vec::new()));
    assert_eq!(buf.next_line(), None);
}

#[test]
fn lone_cr_stays_in_line() {
    let mut buf = LineBuffer::new();
    buf.push_bytes(b"a\rb\r\n");
    assert_eq!(buf.next_line(), Some(b"a\rb".to_vec()));
}
