//! The session state machine and its mailbox operations.
//!
//! An operation checks the session state, then either fails at once (no
//! bytes to write) or returns `Action::Send` with the command's bytes. The
//! caller writes them, reads one line and passes it to `on_event`, and goes
//! on as each returned action says until it gets `Action::Finished`.
use vstd::prelude::*;
use vstd::string::StringSliceAdditionalSpecFns;

use crate::bytes::copy_bytes;
use crate::command::{command_text, crlf, is_sendable, pass_line, quit_line, retr_line, uidl_line, user_line, Command};
use crate::response::{
    entry_of, is_terminator, lines_view, parse_status, parse_uidl_entry, status_of, terminates_block,
    unstuff, unstuffed, MailboxEntry, Pop3Error, StatusLine,
};

verus! {

/// The protocol state of a session.
#[derive(Clone, Copy, Debug, PartialEq, Eq, Structural)]
pub enum SessionState {
    Greeting,
    Authorization,
    Transaction,
    Closed,
}

/// The reply a session waits for.
#[derive(Clone, Copy, Debug, PartialEq, Eq, Structural)]
pub enum Awaiting {
    Nothing,
    Banner,
    UserReply,
    PassReply,
    UidlReply,
    ListingReply,
    ListingBody,
    RetrReply,
    MessageBody,
    QuitReply,
}

/// What the caller observed on the stream.
#[derive(Clone, Debug)]
pub enum Event {
    /// One line, its terminator removed.
    Line(Vec<u8>),
    /// No line arrived within the read timeout.
    Timeout,
    /// The stream closed before a line was complete.
    Eof,
}

/// A successful outcome of an operation.
#[derive(Clone, Debug)]
pub enum SessionResult {
    Acknowledged(Vec<u8>),
    Uidl(Vec<MailboxEntry>),
    Message(Vec<Vec<u8>>),
}

/// What the caller must do next.
#[derive(Debug)]
pub enum Action {
    /// Write these bytes, then read one line.
    Send(Vec<u8>),
    /// Read one line.
    Receive,
    /// The operation is over.
    Finished(Result<SessionResult, Pop3Error>),
}

/// The content of an `Event`.
pub enum Input {
    Line(Seq<u8>),
    Timeout,
    Eof,
}

/// The content of a `SessionResult`: listing rows as number and unique id.
pub enum Outcome {
    Acknowledged(Seq<u8>),
    Listing(Seq<(u64, Seq<u8>)>),
    Message(Seq<Seq<u8>>),
}

/// The content of an `Action`.
pub enum Step {
    Send(Seq<u8>),
    Receive,
    Finished(Result<Outcome, Pop3Error>),
}

/// Each listing row as its number and unique id.
pub open spec fn entries_view(v: Seq<MailboxEntry>) -> Seq<(u64, Seq<u8>)> {
    v.map_values(|e: MailboxEntry| e@)
}

impl View for Event {
    type V = Input;

    open spec fn view(&self) -> Input {
        match self {
            Event::Line(l) => Input::Line(l@),
            Event::Timeout => Input::Timeout,
            Event::Eof => Input::Eof,
        }
    }
}

impl View for SessionResult {
    type V = Outcome;

    open spec fn view(&self) -> Outcome {
        match self {
            SessionResult::Acknowledged(t) => Outcome::Acknowledged(t@),
            SessionResult::Uidl(es) => Outcome::Listing(entries_view(es@)),
            SessionResult::Message(ls) => Outcome::Message(lines_view(ls@)),
        }
    }
}

impl View for Action {
    type V = Step;

    open spec fn view(&self) -> Step {
        match self {
            Action::Send(b) => Step::Send(b@),
            Action::Receive => Step::Receive,
            Action::Finished(Ok(o)) => Step::Finished(Ok(o@)),
            Action::Finished(Err(e)) => Step::Finished(Err(*e)),
        }
    }
}

/// The abstract content of a session.
pub struct SessionModel {
    pub state: SessionState,
    pub awaiting: Awaiting,
    /// The greeting's polarity and text, once read.
    pub banner: Option<(bool, Seq<u8>)>,
    /// The encoded `PASS` command of a login in progress.
    pub pass_command: Seq<u8>,
    /// The rows of a listing read so far.
    pub entries: Seq<(u64, Seq<u8>)>,
    /// The lines of a message read so far.
    pub body: Seq<Seq<u8>>,
}

impl SessionModel {
    /// Each awaited reply belongs to the state its command is valid in.
    pub open spec fn wf(self) -> bool {
        &&& (self.state == SessionState::Greeting <==> self.awaiting == Awaiting::Banner)
        &&& (self.awaiting == Awaiting::UserReply || self.awaiting == Awaiting::PassReply)
            ==> self.state == SessionState::Authorization
        &&& (self.awaiting == Awaiting::UidlReply || self.awaiting == Awaiting::ListingReply
            || self.awaiting == Awaiting::ListingBody || self.awaiting == Awaiting::RetrReply
            || self.awaiting == Awaiting::MessageBody) ==> self.state == SessionState::Transaction
        &&& self.state == SessionState::Closed ==> self.awaiting == Awaiting::Nothing
    }
}

pub open spec fn with_awaiting(m: SessionModel, a: Awaiting) -> SessionModel {
    SessionModel { awaiting: a, ..m }
}

/// No reply pending, in state `s`.
pub open spec fn settled(m: SessionModel, s: SessionState) -> SessionModel {
    SessionModel { state: s, awaiting: Awaiting::Nothing, ..m }
}

pub open spec fn closed(m: SessionModel) -> SessionModel {
    settled(m, SessionState::Closed)
}

pub open spec fn fails(e: Pop3Error) -> Step {
    Step::Finished(Err(e))
}

pub open spec fn succeeds(o: Outcome) -> Step {
    Step::Finished(Ok(o))
}

/// Why a command cannot be issued now, if it cannot: a closed session
/// refuses everything; otherwise the command must be valid in the current
/// state and no other reply may be pending.
pub open spec fn refusal(m: SessionModel, valid: bool) -> Option<Pop3Error> {
    if m.state == SessionState::Closed {
        Some(Pop3Error::SessionClosed)
    } else if m.awaiting != Awaiting::Nothing || !valid {
        Some(Pop3Error::InvalidState)
    } else {
        None
    }
}

/// Issuing a one-line command that is valid when `valid` holds and whose
/// reply is `next`.
pub open spec fn issue(m: SessionModel, valid: bool, line: Seq<u8>, next: Awaiting) -> (
    SessionModel,
    Step,
) {
    match refusal(m, valid) {
        Some(e) => (m, fails(e)),
        None => if is_sendable(line) {
            (with_awaiting(m, next), Step::Send(line + crlf()))
        } else {
            (m, fails(Pop3Error::InvalidArgument))
        },
    }
}

pub open spec fn login_step(m: SessionModel, user: Seq<u8>, pass: Seq<u8>) -> (SessionModel, Step) {
    match refusal(m, m.state == SessionState::Authorization) {
        Some(e) => (m, fails(e)),
        None => if is_sendable(user_line(user)) && is_sendable(pass_line(pass)) {
            (
                SessionModel {
                    awaiting: Awaiting::UserReply,
                    pass_command: pass_line(pass) + crlf(),
                    ..m
                },
                Step::Send(user_line(user) + crlf()),
            )
        } else {
            (m, fails(Pop3Error::InvalidArgument))
        },
    }
}

pub open spec fn uidl_step(m: SessionModel, selector: Option<u64>) -> (SessionModel, Step) {
    issue(
        m,
        m.state == SessionState::Transaction,
        uidl_line(selector),
        if selector is None {
            Awaiting::ListingReply
        } else {
            Awaiting::UidlReply
        },
    )
}

pub open spec fn retr_step(m: SessionModel, message_id: u64) -> (SessionModel, Step) {
    issue(m, m.state == SessionState::Transaction, retr_line(message_id), Awaiting::RetrReply)
}

pub open spec fn quit_step(m: SessionModel) -> (SessionModel, Step) {
    issue(
        m,
        m.state == SessionState::Authorization || m.state == SessionState::Transaction,
        quit_line(),
        Awaiting::QuitReply,
    )
}

/// A reply that breaks the grammar: the stream's framing is lost.
pub open spec fn malformed(m: SessionModel) -> (SessionModel, Step) {
    (closed(m), fails(Pop3Error::MalformedResponse))
}

/// The transition on one line of reply.
pub open spec fn line_step(m: SessionModel, l: Seq<u8>) -> (SessionModel, Step) {
    let idle = settled(m, m.state);
    match m.awaiting {
        Awaiting::Banner => match status_of(l) {
            Some((p, t)) => (
                SessionModel {
                    state: SessionState::Authorization,
                    awaiting: Awaiting::Nothing,
                    banner: Some((p, t)),
                    ..m
                },
                succeeds(Outcome::Acknowledged(t)),
            ),
            None => malformed(m),
        },
        Awaiting::UserReply => match status_of(l) {
            Some((true, _)) => (
                SessionModel { awaiting: Awaiting::PassReply, pass_command: seq![], ..m },
                Step::Send(m.pass_command),
            ),
            Some((false, _)) => (
                SessionModel { pass_command: seq![], ..idle },
                fails(Pop3Error::AuthenticationFailed),
            ),
            None => malformed(m),
        },
        Awaiting::PassReply => match status_of(l) {
            Some((true, t)) => (
                settled(m, SessionState::Transaction),
                succeeds(Outcome::Acknowledged(t)),
            ),
            Some((false, _)) => (idle, fails(Pop3Error::AuthenticationFailed)),
            None => malformed(m),
        },
        Awaiting::UidlReply => match status_of(l) {
            Some((true, t)) => match entry_of(t) {
                Some(e) => (idle, succeeds(Outcome::Listing(seq![e]))),
                None => malformed(m),
            },
            Some((false, _)) => (idle, fails(Pop3Error::NoSuchMessage)),
            None => malformed(m),
        },
        Awaiting::ListingReply => match status_of(l) {
            Some((true, _)) => (
                SessionModel { awaiting: Awaiting::ListingBody, entries: seq![], ..m },
                Step::Receive,
            ),
            Some((false, _)) => (idle, fails(Pop3Error::NoSuchMessage)),
            None => malformed(m),
        },
        Awaiting::ListingBody => if is_terminator(l) {
            (SessionModel { entries: seq![], ..idle }, succeeds(Outcome::Listing(m.entries)))
        } else {
            match entry_of(unstuffed(l)) {
                Some(e) => (SessionModel { entries: m.entries.push(e), ..m }, Step::Receive),
                None => malformed(m),
            }
        },
        Awaiting::RetrReply => match status_of(l) {
            Some((true, _)) => (
                SessionModel { awaiting: Awaiting::MessageBody, body: seq![], ..m },
                Step::Receive,
            ),
            Some((false, _)) => (idle, fails(Pop3Error::NoSuchMessage)),
            None => malformed(m),
        },
        Awaiting::MessageBody => if is_terminator(l) {
            (SessionModel { body: seq![], ..idle }, succeeds(Outcome::Message(m.body)))
        } else {
            (SessionModel { body: m.body.push(unstuffed(l)), ..m }, Step::Receive)
        },
        Awaiting::QuitReply => (
            closed(m),
            succeeds(
                Outcome::Acknowledged(
                    match status_of(l) {
                        Some((_, t)) => t,
                        None => l,
                    },
                ),
            ),
        ),
        Awaiting::Nothing => (m, fails(Pop3Error::InvalidState)),
    }
}

/// The transition on what the caller observed. A closed session takes
/// nothing more; one that waits for no reply takes no event. A timeout or an early end
/// of stream closes the session, except that the server may close the
/// stream in reply to `QUIT`.
pub open spec fn event_step(m: SessionModel, ev: Input) -> (SessionModel, Step) {
    if m.state == SessionState::Closed {
        (m, fails(Pop3Error::SessionClosed))
    } else if m.awaiting == Awaiting::Nothing {
        (m, fails(Pop3Error::InvalidState))
    } else {
        match ev {
            Input::Timeout => (closed(m), fails(Pop3Error::TransportTimeout)),
            Input::Eof => if m.awaiting == Awaiting::QuitReply {
                (closed(m), succeeds(Outcome::Acknowledged(seq![])))
            } else {
                (closed(m), fails(Pop3Error::UnexpectedEof))
            },
            Input::Line(l) => line_step(m, l),
        }
    }
}

/// A POP3 session over a stream that the caller drives.
pub struct Session {
    state: SessionState,
    awaiting: Awaiting,
    banner: Option<StatusLine>,
    pass_command: Vec<u8>,
    entries: Vec<MailboxEntry>,
    body: Vec<Vec<u8>>,
}

impl View for Session {
    type V = SessionModel;

    closed spec fn view(&self) -> SessionModel {
        SessionModel {
            state: self.state,
            awaiting: self.awaiting,
            banner: match self.banner {
                Some(s) => Some((s.positive, s.message@)),
                None => None,
            },
            pass_command: self.pass_command@,
            entries: entries_view(self.entries@),
            body: lines_view(self.body@),
        }
    }
}

fn failure(e: Pop3Error) -> (r: Action)
    ensures
        r@ == fails(e),
{
    Action::Finished(Err(e))
}

fn acknowledgement(text: Vec<u8>) -> (r: Action)
    ensures
        r@ == succeeds(Outcome::Acknowledged(text@)),
{
    Action::Finished(Ok(SessionResult::Acknowledged(text)))
}

impl Session {
    /// A session on a freshly acquired stream: its first line is the
    /// server's greeting, to be passed to `on_event`.
    pub fn connect() -> (r: Session)
        ensures
            r@.wf(),
            r@.state == SessionState::Greeting,
            r@.awaiting == Awaiting::Banner,
            r@.banner is None,
    {
        Session {
            state: SessionState::Greeting,
            awaiting: Awaiting::Banner,
            banner: None,
            pass_command: Vec::new(),
            entries: Vec::new(),
            body: Vec::new(),
        }
    }

    pub fn state(&self) -> (r: SessionState)
        ensures
            r == self@.state,
    {
        self.state
    }

    /// The reply the session waits for.
    pub fn awaiting(&self) -> (r: Awaiting)
        ensures
            r == self@.awaiting,
    {
        self.awaiting
    }

    /// The greeting, once it has been read.
    pub fn banner(&self) -> (r: Option<&StatusLine>)
        ensures
            match r {
                Some(s) => self@.banner == Some((s.positive, s.message@)),
                None => self@.banner is None,
            },
    {
        match &self.banner {
            Some(s) => Some(s),
            None => None,
        }
    }

    fn refusal(&self, valid: bool) -> (r: Option<Pop3Error>)
        ensures
            r == refusal(self@, valid),
    {
        if self.state == SessionState::Closed {
            Some(Pop3Error::SessionClosed)
        } else if self.awaiting != Awaiting::Nothing || !valid {
            Some(Pop3Error::InvalidState)
        } else {
            None
        }
    }

    fn issue(&mut self, valid: bool, command: Command, next: Awaiting) -> (r: Action)
        ensures
            (final(self)@, r@) == issue(old(self)@, valid, command_text(command), next),
    {
        if let Some(e) = self.refusal(valid) {
            return failure(e);
        }
        match command.encode() {
            Ok(bytes) => {
                self.awaiting = next;
                Action::Send(bytes)
            },
            Err(e) => failure(e),
        }
    }

    /// Starts a login: `USER`, then `PASS` once the user is accepted.
    /// Valid in the Authorization state; both commands are checked before
    /// anything is sent.
    pub fn login(&mut self, user: &str, pass: &str) -> (r: Action)
        requires
            old(self)@.wf(),
        ensures
            final(self)@.wf(),
            (final(self)@, r@) == login_step(old(self)@, user.spec_bytes(), pass.spec_bytes()),
    {
        let valid = self.state == SessionState::Authorization;
        if let Some(e) = self.refusal(valid) {
            return failure(e);
        }
        let user_bytes = copy_bytes(user.as_bytes());
        let pass_bytes = copy_bytes(pass.as_bytes());
        let user_command = Command::User(user_bytes);
        let pass_command = Command::Pass(pass_bytes);
        match (user_command.encode(), pass_command.encode()) {
            (Ok(user_bytes), Ok(pass_bytes)) => {
                self.awaiting = Awaiting::UserReply;
                self.pass_command = pass_bytes;
                Action::Send(user_bytes)
            },
            _ => failure(Pop3Error::InvalidArgument),
        }
    }

    /// Starts a unique-id listing: of every message without a selector, of
    /// one message with it. Valid in the Transaction state.
    pub fn uidl(&mut self, selector: Option<u64>) -> (r: Action)
        requires
            old(self)@.wf(),
        ensures
            final(self)@.wf(),
            (final(self)@, r@) == uidl_step(old(self)@, selector),
    {
        let valid = self.state == SessionState::Transaction;
        let next = if selector.is_none() {
            Awaiting::ListingReply
        } else {
            Awaiting::UidlReply
        };
        self.issue(valid, Command::Uidl(selector), next)
    }

    /// Starts the retrieval of a message. Valid in the Transaction state.
    pub fn retr(&mut self, message_id: u64) -> (r: Action)
        requires
            old(self)@.wf(),
        ensures
            final(self)@.wf(),
            (final(self)@, r@) == retr_step(old(self)@, message_id),
    {
        let valid = self.state == SessionState::Transaction;
        self.issue(valid, Command::Retr(message_id), Awaiting::RetrReply)
    }

    /// Ends the session. Valid in the Authorization and Transaction states.
    pub fn quit(&mut self) -> (r: Action)
        requires
            old(self)@.wf(),
        ensures
            final(self)@.wf(),
            (final(self)@, r@) == quit_step(old(self)@),
    {
        let valid = self.state == SessionState::Authorization || self.state
            == SessionState::Transaction;
        self.issue(valid, Command::Quit, Awaiting::QuitReply)
    }

    fn close(&mut self)
        ensures
            final(self)@ == closed(old(self)@),
    {
        self.state = SessionState::Closed;
        self.awaiting = Awaiting::Nothing;
    }

    fn malformed(&mut self) -> (r: Action)
        ensures
            (final(self)@, r@) == malformed(old(self)@),
    {
        self.close();
        failure(Pop3Error::MalformedResponse)
    }

    /// Hands the session what was read from the stream and returns what to
    /// do next.
    pub fn on_event(&mut self, ev: Event) -> (r: Action)
        requires
            old(self)@.wf(),
        ensures
            final(self)@.wf(),
            (final(self)@, r@) == event_step(old(self)@, ev@),
    {
        if self.state == SessionState::Closed {
            return failure(Pop3Error::SessionClosed);
        }
        if self.awaiting == Awaiting::Nothing {
            return failure(Pop3Error::InvalidState);
        }
        match ev {
            Event::Timeout => {
                self.close();
                failure(Pop3Error::TransportTimeout)
            },
            Event::Eof => {
                let quitting = self.awaiting == Awaiting::QuitReply;
                self.close();
                if quitting {
                    acknowledgement(Vec::new())
                } else {
                    failure(Pop3Error::UnexpectedEof)
                }
            },
            Event::Line(l) => self.on_line(l),
        }
    }

    fn on_line(&mut self, l: Vec<u8>) -> (r: Action)
        requires
            old(self)@.wf(),
            old(self)@.awaiting != Awaiting::Nothing,
        ensures
            (final(self)@, r@) == line_step(old(self)@, l@),
    {
        match self.awaiting {
            Awaiting::Banner => match parse_status(l.as_slice()) {
                Ok(s) => {
                    let text = copy_bytes(s.message.as_slice());
                    self.state = SessionState::Authorization;
                    self.awaiting = Awaiting::Nothing;
                    self.banner = Some(s);
                    acknowledgement(text)
                },
                Err(_) => self.malformed(),
            },
            Awaiting::UserReply => match parse_status(l.as_slice()) {
                Ok(s) => {
                    let command = self.pass_command.split_off(0);
                    assert(self.pass_command@ =~= seq![]);
                    assert(command@ =~= old(self)@.pass_command);
                    if s.positive {
                        self.awaiting = Awaiting::PassReply;
                        Action::Send(command)
                    } else {
                        self.awaiting = Awaiting::Nothing;
                        failure(Pop3Error::AuthenticationFailed)
                    }
                },
                Err(_) => self.malformed(),
            },
            Awaiting::PassReply => match parse_status(l.as_slice()) {
                Ok(s) => {
                    self.awaiting = Awaiting::Nothing;
                    if s.positive {
                        self.state = SessionState::Transaction;
                        acknowledgement(s.message)
                    } else {
                        failure(Pop3Error::AuthenticationFailed)
                    }
                },
                Err(_) => self.malformed(),
            },
            Awaiting::UidlReply => match parse_status(l.as_slice()) {
                Ok(s) => {
                    if s.positive {
                        match parse_uidl_entry(s.message.as_slice()) {
                            Ok(e) => {
                                self.awaiting = Awaiting::Nothing;
                                let ghost ev = e@;
                                let listing = vec![e];
                                assert(entries_view(listing@) =~= seq![ev]);
                                Action::Finished(Ok(SessionResult::Uidl(listing)))
                            },
                            Err(_) => self.malformed(),
                        }
                    } else {
                        self.awaiting = Awaiting::Nothing;
                        failure(Pop3Error::NoSuchMessage)
                    }
                },
                Err(_) => self.malformed(),
            },
            Awaiting::ListingReply => match parse_status(l.as_slice()) {
                Ok(s) => {
                    if s.positive {
                        self.awaiting = Awaiting::ListingBody;
                        self.entries = Vec::new();
                        assert(entries_view(self.entries@) =~= seq![]);
                        Action::Receive
                    } else {
                        self.awaiting = Awaiting::Nothing;
                        failure(Pop3Error::NoSuchMessage)
                    }
                },
                Err(_) => self.malformed(),
            },
            Awaiting::ListingBody => {
                if terminates_block(l.as_slice()) {
                    self.awaiting = Awaiting::Nothing;
                    let listing = self.entries.split_off(0);
                    assert(entries_view(self.entries@) =~= seq![]);
                    assert(entries_view(listing@) =~= old(self)@.entries);
                    Action::Finished(Ok(SessionResult::Uidl(listing)))
                } else {
                    let content = unstuff(l.as_slice());
                    match parse_uidl_entry(content.as_slice()) {
                        Ok(e) => {
                            let ghost ev = e@;
                            self.entries.push(e);
                            assert(entries_view(self.entries@) =~= old(self)@.entries.push(ev));
                            Action::Receive
                        },
                        Err(_) => self.malformed(),
                    }
                }
            },
            Awaiting::RetrReply => match parse_status(l.as_slice()) {
                Ok(s) => {
                    if s.positive {
                        self.awaiting = Awaiting::MessageBody;
                        self.body = Vec::new();
                        assert(lines_view(self.body@) =~= seq![]);
                        Action::Receive
                    } else {
                        self.awaiting = Awaiting::Nothing;
                        failure(Pop3Error::NoSuchMessage)
                    }
                },
                Err(_) => self.malformed(),
            },
            Awaiting::MessageBody => {
                if terminates_block(l.as_slice()) {
                    self.awaiting = Awaiting::Nothing;
                    let lines = self.body.split_off(0);
                    assert(lines_view(self.body@) =~= seq![]);
                    assert(lines_view(lines@) =~= old(self)@.body);
                    Action::Finished(Ok(SessionResult::Message(lines)))
                } else {
                    let content = unstuff(l.as_slice());
                    let ghost cv = content@;
                    self.body.push(content);
                    assert(lines_view(self.body@) =~= old(self)@.body.push(cv));
                    Action::Receive
                }
            },
            Awaiting::QuitReply => {
                self.close();
                match parse_status(l.as_slice()) {
                    Ok(s) => acknowledgement(s.message),
                    Err(_) => acknowledgement(l),
                }
            },
            Awaiting::Nothing => failure(Pop3Error::InvalidState),
        }
    }
}

} // verus!
