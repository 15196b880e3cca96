use pop3_client::response::{MailboxEntry, Pop3Error};
use pop3_client::session::{Action, Awaiting, Event, Session, SessionResult, SessionState};

fn line(s: &str) -> Event {
    Event::Line(s.as_bytes().to_vec())
}

/// Plays `replies` to the session, one per read, and returns the outcome
/// with every byte the session asked to write. A read past the replies
/// sees the end of the stream.
fn drive(
    session: &mut Session,
    first: Action,
    replies: Vec<Event>,
    written: &mut Vec<u8>,
) -> Result<SessionResult, Pop3Error> {
    let mut replies = replies.into_iter();
    let mut action = first;
    loop {
        match action {
            Action::Send(bytes) => {
                written.extend_from_slice(&bytes);
                action = session.on_event(replies.next().unwrap_or(Event::Eof));
            },
            Action::Receive => {
                action = session.on_event(replies.next().unwrap_or(Event::Eof));
            },
            Action::Finished(r) => return r,
        }
    }
}

fn connected() -> Session {
    let mut s = Session::connect();
    let r = s.on_event(line("+OK POP3 ready"));
    assert!(matches!(r, Action::Finished(Ok(SessionResult::Acknowledged(_)))));
    s
}

fn logged_in() -> Session {
    let mut s = connected();
    let first = s.login("alice", "secret");
    let mut w = Vec::new();
    let r = drive(&mut s, first, vec![line("+OK"), line("+OK welcome")], &mut w);
    assert!(r.is_ok());
    assert_eq!(w, b"USER alice\r\nPASS secret\r\n".to_vec());
    s
}

fn entries(v: &[MailboxEntry]) -> Vec<(u64, Vec<u8>)> {
    v.iter().map(|e| (e.message_id, e.unique_id.clone())).collect()
}

#[test]
fn greeting_enters_authorization() {
    let mut s = Session::connect();
    assert_eq!(s.state(), SessionState::Greeting);
    assert_eq!(s.awaiting(), Awaiting::Banner);
    match s.on_event(line("+OK ready <1@x>")) {
        Action::Finished(Ok(SessionResult::Acknowledged(t))) => {
            assert_eq!(t, b"ready <1@x>".to_vec())
        },
        other => panic!("unexpected {:?}", other),
    }
    assert_eq!(s.state(), SessionState::Authorization);
    let b = s.banner().unwrap();
    assert!(b.positive);
    assert_eq!(b.message, b"ready <1@x>".to_vec());
}

#[test]
fn negative_greeting_is_kept() {
    let mut s = Session::connect();
    let r = s.on_event(line("-ERR busy"));
    assert!(matches!(r, Action::Finished(Ok(_))));
    assert_eq!(s.state(), SessionState::Authorization);
    assert!(!s.banner().unwrap().positive);
}

#[test]
fn garbled_greeting_closes() {
    let mut s = Session::connect();
    let r = s.on_event(line("hello"));
    assert!(matches!(r, Action::Finished(Err(Pop3Error::MalformedResponse))));
    assert_eq!(s.state(), SessionState::Closed);
}

#[test]
fn retr_before_login_sends_nothing() {
    let mut s = connected();
    let r = s.retr(1);
    assert!(matches!(r, Action::Finished(Err(Pop3Error::InvalidState))));
    assert_eq!(s.state(), SessionState::Authorization);
    assert_eq!(s.awaiting(), Awaiting::Nothing);
    let r = s.uidl(None);
    assert!(matches!(r, Action::Finished(Err(Pop3Error::InvalidState))));
}

#[test]
fn wrong_password_keeps_authorization() {
    let mut s = connected();
    let mut w = Vec::new();
    let first = s.login("alice", "wrong");
    let r = drive(&mut s, first, vec![line("+OK"), line("-ERR invalid password")], &mut w);
    assert_eq!(r.unwrap_err(), Pop3Error::AuthenticationFailed);
    assert_eq!(s.state(), SessionState::Authorization);
    let mut w2 = Vec::new();
    let first = s.login("alice", "right");
    let r = drive(&mut s, first, vec![line("+OK"), line("+OK in")], &mut w2);
    assert!(r.is_ok());
    assert_eq!(s.state(), SessionState::Transaction);
    assert_eq!(w2, b"USER alice\r\nPASS right\r\n".to_vec());
}

#[test]
fn rejected_user_skips_pass() {
    let mut s = connected();
    let mut w = Vec::new();
    let first = s.login("nobody", "pw");
    let r = drive(&mut s, first, vec![line("-ERR unknown user")], &mut w);
    assert_eq!(r.unwrap_err(), Pop3Error::AuthenticationFailed);
    assert_eq!(w, b"USER nobody\r\n".to_vec());
    assert_eq!(s.state(), SessionState::Authorization);
}

#[test]
fn login_with_line_break_sends_nothing() {
    let mut s = connected();
    let r = s.login("alice", "pw\r\nDELE 1");
    assert!(matches!(r, Action::Finished(Err(Pop3Error::InvalidArgument))));
    assert_eq!(s.awaiting(), Awaiting::Nothing);
}

#[test]
fn uidl_lists_in_order() {
    let mut s = logged_in();
    let mut w = Vec::new();
    let first = s.uidl(None);
    let replies = vec![line("+OK"), line("1 abc"), line("2 def"), line(".")];
    match drive(&mut s, first, replies, &mut w) {
        Ok(SessionResult::Uidl(v)) => {
            assert_eq!(entries(&v), vec![(1, b"abc".to_vec()), (2, b"def".to_vec())])
        },
        other => panic!("unexpected {:?}", other),
    }
    assert_eq!(w, b"UIDL\r\n".to_vec());
    assert_eq!(s.state(), SessionState::Transaction);
}

#[test]
fn uidl_of_one_message() {
    let mut s = logged_in();
    let mut w = Vec::new();
    let first = s.uidl(Some(2));
    match drive(&mut s, first, vec![line("+OK 2 QhdPYR:00WBw1Ph7x7")], &mut w) {
        Ok(SessionResult::Uidl(v)) => {
            assert_eq!(entries(&v), vec![(2, b"QhdPYR:00WBw1Ph7x7".to_vec())])
        },
        other => panic!("unexpected {:?}", other),
    }
    assert_eq!(w, b"UIDL 2\r\n".to_vec());
}

#[test]
fn uidl_bad_row_closes() {
    let mut s = logged_in();
    let mut w = Vec::new();
    let first = s.uidl(None);
    let r = drive(&mut s, first, vec![line("+OK"), line("one abc"), line(".")], &mut w);
    assert_eq!(r.unwrap_err(), Pop3Error::MalformedResponse);
    assert_eq!(s.state(), SessionState::Closed);
}

#[test]
fn empty_listing() {
    let mut s = logged_in();
    let mut w = Vec::new();
    let first = s.uidl(None);
    match drive(&mut s, first, vec![line("+OK 0 messages"), line(".")], &mut w) {
        Ok(SessionResult::Uidl(v)) => assert!(v.is_empty()),
        other => panic!("unexpected {:?}", other),
    }
}

#[test]
fn retr_returns_unstuffed_lines() {
    let mut s = logged_in();
    let mut w = Vec::new();
    let first = s.retr(3);
    let replies = vec![
        line("+OK 120 octets"),
        line("Subject: hi"),
        line(""),
        line("..text"),
        line("."),
    ];
    match drive(&mut s, first, replies, &mut w) {
        Ok(SessionResult::Message(ls)) => assert_eq!(
            ls,
            vec![b"Subject: hi".to_vec(), Vec::new(), b".text".to_vec()]
        ),
        other => panic!("unexpected {:?}", other),
    }
    assert_eq!(w, b"RETR 3\r\n".to_vec());
    assert_eq!(s.state(), SessionState::Transaction);
}

#[test]
fn retr_missing_message() {
    let mut s = logged_in();
    let mut w = Vec::new();
    let first = s.retr(5);
    let r = drive(&mut s, first, vec![line("-ERR no such message")], &mut w);
    assert_eq!(r.unwrap_err(), Pop3Error::NoSuchMessage);
    assert_eq!(w, b"RETR 5\r\n".to_vec());
    assert_eq!(s.state(), SessionState::Transaction);
}

#[test]
fn retr_cut_short_is_eof() {
    let mut s = logged_in();
    let mut w = Vec::new();
    let first = s.retr(1);
    let r = drive(&mut s, first, vec![line("+OK"), line("partial")], &mut w);
    assert_eq!(r.unwrap_err(), Pop3Error::UnexpectedEof);
    assert_eq!(s.state(), SessionState::Closed);
}

#[test]
fn timeout_in_body_closes() {
    let mut s = logged_in();
    let mut w = Vec::new();
    let first = s.retr(1);
    let r = drive(&mut s, first, vec![line("+OK"), line("a"), Event::Timeout], &mut w);
    assert_eq!(r.unwrap_err(), Pop3Error::TransportTimeout);
    assert_eq!(s.state(), SessionState::Closed);
    assert!(matches!(s.retr(1), Action::Finished(Err(Pop3Error::SessionClosed))));
    assert!(matches!(s.quit(), Action::Finished(Err(Pop3Error::SessionClosed))));
}

#[test]
fn timeout_on_greeting_closes() {
    let mut s = Session::connect();
    let r = s.on_event(Event::Timeout);
    assert!(matches!(r, Action::Finished(Err(Pop3Error::TransportTimeout))));
    assert!(matches!(s.login("a", "b"), Action::Finished(Err(Pop3Error::SessionClosed))));
}

#[test]
fn quit_then_everything_fails() {
    let mut s = logged_in();
    let mut w = Vec::new();
    let first = s.quit();
    match drive(&mut s, first, vec![line("+OK bye")], &mut w) {
        Ok(SessionResult::Acknowledged(t)) => assert_eq!(t, b"bye".to_vec()),
        other => panic!("unexpected {:?}", other),
    }
    assert_eq!(w, b"QUIT\r\n".to_vec());
    assert_eq!(s.state(), SessionState::Closed);
    assert!(matches!(s.uidl(None), Action::Finished(Err(Pop3Error::SessionClosed))));
    assert!(matches!(s.retr(1), Action::Finished(Err(Pop3Error::SessionClosed))));
    assert!(matches!(s.login("a", "b"), Action::Finished(Err(Pop3Error::SessionClosed))));
    assert!(matches!(s.quit(), Action::Finished(Err(Pop3Error::SessionClosed))));
    assert!(matches!(s.on_event(line("+OK")), Action::Finished(Err(Pop3Error::SessionClosed))));
}

#[test]
fn quit_accepts_closed_stream() {
    let mut s = connected();
    let mut w = Vec::new();
    let first = s.quit();
    let r = drive(&mut s, first, Vec::new(), &mut w);
    assert!(matches!(r, Ok(SessionResult::Acknowledged(_))));
    assert_eq!(s.state(), SessionState::Closed);
}

#[test]
fn busy_session_refuses_new_command() {
    let mut s = logged_in();
    let r = s.retr(1);
    assert!(matches!(r, Action::Send(_)));
    assert!(matches!(s.uidl(None), Action::Finished(Err(Pop3Error::InvalidState))));
    assert!(matches!(s.on_event(line("-ERR gone")), Action::Finished(Err(Pop3Error::NoSuchMessage))));
}

#[test]
fn event_without_command_is_refused() {
    let mut s = connected();
    assert!(matches!(s.on_event(line("+OK")), Action::Finished(Err(Pop3Error::InvalidState))));
    assert_eq!(s.state(), SessionState::Authorization);
}
