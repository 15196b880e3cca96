//! Properties that hold across the parser and the session operations.
use vstd::prelude::*;

use crate::bytes::DOT;
use crate::command::{crlf, is_sendable, pass_line, quit_line, user_line};
use crate::response::{
    block_content, block_ends_at, drop_one_space, err_tag, is_terminator, ok_tag, status_of,
    Pop3Error,
};
use crate::session::{
    event_step, fails, login_step, quit_step, retr_step, uidl_step, Awaiting, Input, SessionModel,
    SessionState, Step,
};

verus! {

/// A line that starts with `+OK` is a positive status whose text is the
/// rest of the line, without one leading space.
pub proof fn positive_status_keeps_text(l: Seq<u8>)
    requires
        ok_tag().is_prefix_of(l),
    ensures
        status_of(l) == Some((true, drop_one_space(l.skip(3)))),
{
}

/// A line that starts with `-ERR` is a negative status.
pub proof fn negative_status_is_negative(l: Seq<u8>)
    requires
        err_tag().is_prefix_of(l),
    ensures
        status_of(l) matches Some((p, _)) && !p,
{
    if ok_tag().is_prefix_of(l) {
        assert(l[0] == 43u8);
        assert(l[0] == 45u8);
    }
}

/// A negative status in reply to a command never finishes the command
/// with success: it fails or, for `QUIT`, closes the session anyway.
pub proof fn negative_reply_is_failure(m: SessionModel, l: Seq<u8>)
    requires
        m.wf(),
        err_tag().is_prefix_of(l),
        m.awaiting == Awaiting::UserReply || m.awaiting == Awaiting::PassReply || m.awaiting
            == Awaiting::UidlReply || m.awaiting == Awaiting::ListingReply || m.awaiting
            == Awaiting::RetrReply,
    ensures
        event_step(m, Input::Line(l)).1 matches Step::Finished(Err(_)),
{
    negative_status_is_negative(l);
}

/// A content line that starts with a dot loses exactly that one dot.
pub proof fn stuffing_dot_removed(lines: Seq<Seq<u8>>, n: int, i: int)
    requires
        block_ends_at(lines, n),
        0 <= i < n,
        lines[i].len() > 0,
        lines[i][0] == DOT,
    ensures
        block_content(lines, n).len() == n,
        block_content(lines, n)[i] == lines[i].skip(1),
{
    if lines[i].len() == 1 {
        assert(lines[i] =~= seq![DOT]);
        assert(!is_terminator(lines[i]));
    }
}

/// A block that starts with its terminator is empty.
pub proof fn empty_block(lines: Seq<Seq<u8>>)
    requires
        lines.len() > 0,
        is_terminator(lines[0]),
    ensures
        block_ends_at(lines, 0),
        block_content(lines, 0) == Seq::<Seq<u8>>::empty(),
{
    assert(block_content(lines, 0) =~= Seq::<Seq<u8>>::empty());
}

/// `RETR` before login fails locally: nothing is sent and the session is
/// unchanged.
pub proof fn retr_refused_before_login(m: SessionModel, message_id: u64)
    requires
        m.state == SessionState::Authorization,
    ensures
        retr_step(m, message_id) == (m, fails(Pop3Error::InvalidState)),
{
}

/// A rejected password fails the login and leaves the session in the
/// Authorization state, where a new login may be started.
pub proof fn rejected_password_allows_retry(
    m: SessionModel,
    l: Seq<u8>,
    user: Seq<u8>,
    pass: Seq<u8>,
)
    requires
        m.wf(),
        m.awaiting == Awaiting::PassReply,
        err_tag().is_prefix_of(l),
    ensures
        event_step(m, Input::Line(l)).1 == fails(Pop3Error::AuthenticationFailed),
        event_step(m, Input::Line(l)).0.state == SessionState::Authorization,
        is_sendable(user_line(user)) && is_sendable(pass_line(pass)) ==> login_step(
            event_step(m, Input::Line(l)).0,
            user,
            pass,
        ).1 == Step::Send(user_line(user) + crlf()),
{
    negative_status_is_negative(l);
}

/// A negative reply to `RETR` means that the message does not exist; the
/// session stays in the Transaction state.
pub proof fn missing_message(m: SessionModel, l: Seq<u8>)
    requires
        m.wf(),
        m.awaiting == Awaiting::RetrReply,
        err_tag().is_prefix_of(l),
    ensures
        event_step(m, Input::Line(l)).1 == fails(Pop3Error::NoSuchMessage),
        event_step(m, Input::Line(l)).0.state == SessionState::Transaction,
{
    negative_status_is_negative(l);
}

/// Every operation on a closed session fails with `SessionClosed`.
pub proof fn closed_refuses_all(
    m: SessionModel,
    user: Seq<u8>,
    pass: Seq<u8>,
    selector: Option<u64>,
    message_id: u64,
    ev: Input,
)
    requires
        m.state == SessionState::Closed,
    ensures
        closed_for_good(m, user, pass, selector, message_id, ev),
{
}

/// A read timeout while a reply is awaited fails the operation with
/// `TransportTimeout`; every later operation fails with `SessionClosed`.
pub proof fn timeout_closes(
    m: SessionModel,
    user: Seq<u8>,
    pass: Seq<u8>,
    selector: Option<u64>,
    message_id: u64,
    ev: Input,
)
    requires
        m.state != SessionState::Closed,
        m.awaiting != Awaiting::Nothing,
    ensures
        event_step(m, Input::Timeout).1 == fails(Pop3Error::TransportTimeout),
        closed_for_good(event_step(m, Input::Timeout).0, user, pass, selector, message_id, ev),
{
}

/// Each operation on `m` fails with `SessionClosed` and changes nothing.
pub open spec fn closed_for_good(
    m: SessionModel,
    user: Seq<u8>,
    pass: Seq<u8>,
    selector: Option<u64>,
    message_id: u64,
    ev: Input,
) -> bool {
    &&& m.state == SessionState::Closed
    &&& login_step(m, user, pass) == (m, fails(Pop3Error::SessionClosed))
    &&& uidl_step(m, selector) == (m, fails(Pop3Error::SessionClosed))
    &&& retr_step(m, message_id) == (m, fails(Pop3Error::SessionClosed))
    &&& quit_step(m) == (m, fails(Pop3Error::SessionClosed))
    &&& event_step(m, ev) == (m, fails(Pop3Error::SessionClosed))
}

/// Once `QUIT` has been sent, whatever comes back closes the session, and
/// every later operation fails with `SessionClosed`.
pub proof fn quit_closes(
    m: SessionModel,
    reply: Input,
    user: Seq<u8>,
    pass: Seq<u8>,
    selector: Option<u64>,
    message_id: u64,
    ev: Input,
)
    requires
        m.state == SessionState::Authorization || m.state == SessionState::Transaction,
        m.awaiting == Awaiting::Nothing,
    ensures
        quit_step(m).1 == Step::Send(quit_line() + crlf()),
        closed_for_good(event_step(quit_step(m).0, reply).0, user, pass, selector, message_id, ev),
{
    assert(is_sendable(quit_line()));
}

} // verus!
