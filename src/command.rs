//! The commands a client sends and their wire encoding.
use vstd::prelude::*;

use crate::bytes::{append_bytes, CR, LF, SPACE};
use crate::response::Pop3Error;

verus! {

/// Longest command line accepted, verb and arguments, without the CRLF.
pub const MAX_COMMAND_LEN: usize = 255;

/// A command of the client, with its arguments.
#[derive(Clone, Debug)]
pub enum Command {
    User(Vec<u8>),
    Pass(Vec<u8>),
    Uidl(Option<u64>),
    Retr(u64),
    Quit,
}

pub open spec fn crlf() -> Seq<u8> {
    seq![CR, LF]
}

/// The decimal digits of `n`, most significant first.
pub open spec fn decimal_text(n: nat) -> Seq<u8>
    decreases n,
{
    if n < 10 {
        seq![(48 + n) as u8]
    } else {
        decimal_text(n / 10).push((48 + n % 10) as u8)
    }
}

pub open spec fn user_line(user: Seq<u8>) -> Seq<u8> {
    seq![85u8, 83u8, 69u8, 82u8, SPACE] + user
}

pub open spec fn pass_line(pass: Seq<u8>) -> Seq<u8> {
    seq![80u8, 65u8, 83u8, 83u8, SPACE] + pass
}

pub open spec fn uidl_line(selector: Option<u64>) -> Seq<u8> {
    match selector {
        None => seq![85u8, 73u8, 68u8, 76u8],
        Some(n) => seq![85u8, 73u8, 68u8, 76u8, SPACE] + decimal_text(n as nat),
    }
}

pub open spec fn retr_line(n: u64) -> Seq<u8> {
    seq![82u8, 69u8, 84u8, 82u8, SPACE] + decimal_text(n as nat)
}

pub open spec fn quit_line() -> Seq<u8> {
    seq![81u8, 85u8, 73u8, 84u8]
}

/// The command line without its terminator: the verb, then the argument
/// after one space.
pub open spec fn command_text(c: Command) -> Seq<u8> {
    match c {
        Command::User(u) => user_line(u@),
        Command::Pass(p) => pass_line(p@),
        Command::Uidl(selector) => uidl_line(selector),
        Command::Retr(n) => retr_line(n),
        Command::Quit => quit_line(),
    }
}

pub open spec fn is_line_break(b: u8) -> bool {
    b == CR || b == LF
}

/// A command line that can go on the wire: short enough and free of CR
/// and LF, so that it cannot end early or smuggle a second command.
pub open spec fn is_sendable(t: Seq<u8>) -> bool {
    &&& t.len() <= MAX_COMMAND_LEN
    &&& forall|i: int| 0 <= i < t.len() ==> !is_line_break(#[trigger] t[i])
}

/// The decimal digits of `n`.
pub fn decimal_bytes(n: u64) -> (r: Vec<u8>)
    ensures
        r@ == decimal_text(n as nat),
    decreases n,
{
    if n < 10 {
        vec![(48 + n) as u8]
    } else {
        let mut r = decimal_bytes(n / 10);
        r.push((48 + n % 10) as u8);
        r
    }
}

impl Command {
    /// The bytes to write for this command: its line followed by CRLF.
    pub fn encode(&self) -> (r: Result<Vec<u8>, Pop3Error>)
        ensures
            match r {
                Ok(b) => is_sendable(command_text(*self)) && b@ == command_text(*self) + crlf(),
                Err(e) => e == Pop3Error::InvalidArgument && !is_sendable(command_text(*self)),
            },
    {
        let mut out: Vec<u8>;
        match self {
            Command::User(u) => {
                out = vec![85u8, 83u8, 69u8, 82u8, SPACE];
                append_bytes(&mut out, u.as_slice());
            },
            Command::Pass(p) => {
                out = vec![80u8, 65u8, 83u8, 83u8, SPACE];
                append_bytes(&mut out, p.as_slice());
            },
            Command::Uidl(None) => {
                out = vec![85u8, 73u8, 68u8, 76u8];
            },
            Command::Uidl(Some(n)) => {
                out = vec![85u8, 73u8, 68u8, 76u8, SPACE];
                let digits = decimal_bytes(*n);
                append_bytes(&mut out, digits.as_slice());
            },
            Command::Retr(n) => {
                out = vec![82u8, 69u8, 84u8, 82u8, SPACE];
                let digits = decimal_bytes(*n);
                append_bytes(&mut out, digits.as_slice());
            },
            Command::Quit => {
                out = vec![81u8, 85u8, 73u8, 84u8];
            },
        }
        assert(out@ =~= command_text(*self));
        if out.len() > MAX_COMMAND_LEN {
            return Err(Pop3Error::InvalidArgument);
        }
        let mut i: usize = 0;
        while i < out.len()
            invariant
                i <= out@.len(),
                out@ == command_text(*self),
                out@.len() <= MAX_COMMAND_LEN,
                forall|j: int| 0 <= j < i ==> !is_line_break(#[trigger] out@[j]),
            decreases out@.len() - i,
        {
            if out[i] == CR || out[i] == LF {
                assert(is_line_break(out@[i as int]));
                return Err(Pop3Error::InvalidArgument);
            }
            i = i + 1;
        }
        out.push(CR);
        out.push(LF);
        assert(out@ =~= command_text(*self) + crlf());
        Ok(out)
    }
}

} // verus!
