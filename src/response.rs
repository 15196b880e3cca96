//! Parsing of server replies: status lines, dot-terminated blocks and
//! unique-id listing rows.
use vstd::prelude::*;

use crate::bytes::{copy_from, DOT, SPACE};

verus! {

/// Every failure a session operation can report.
#[derive(Clone, Copy, Debug, PartialEq, Eq, Structural)]
pub enum Pop3Error {
    TransportTimeout,
    UnexpectedEof,
    MalformedResponse,
    InvalidArgument,
    InvalidState,
    AuthenticationFailed,
    NoSuchMessage,
    SessionClosed,
}

/// The first line of any reply: its polarity and the text after the tag.
#[derive(Clone, Debug)]
pub struct StatusLine {
    pub positive: bool,
    pub message: Vec<u8>,
}

/// One row of a unique-id listing.
#[derive(Clone, Debug)]
pub struct MailboxEntry {
    pub message_id: u64,
    pub unique_id: Vec<u8>,
}

impl View for MailboxEntry {
    type V = (u64, Seq<u8>);

    open spec fn view(&self) -> (u64, Seq<u8>) {
        (self.message_id, self.unique_id@)
    }
}

/// `+OK`
pub open spec fn ok_tag() -> Seq<u8> {
    seq![43u8, 79u8, 75u8]
}

/// `-ERR`
pub open spec fn err_tag() -> Seq<u8> {
    seq![45u8, 69u8, 82u8, 82u8]
}

pub open spec fn drop_one_space(s: Seq<u8>) -> Seq<u8> {
    if s.len() > 0 && s[0] == SPACE {
        s.skip(1)
    } else {
        s
    }
}

/// The polarity and text of a status line, or `None` when the line carries
/// neither tag.
pub open spec fn status_of(l: Seq<u8>) -> Option<(bool, Seq<u8>)> {
    if ok_tag().is_prefix_of(l) {
        Some((true, drop_one_space(l.skip(3))))
    } else if err_tag().is_prefix_of(l) {
        Some((false, drop_one_space(l.skip(4))))
    } else {
        None
    }
}

/// The line that ends a multi-line block: a single dot.
pub open spec fn is_terminator(l: Seq<u8>) -> bool {
    l == seq![DOT]
}

/// A content line with its stuffing dot removed.
pub open spec fn unstuffed(l: Seq<u8>) -> Seq<u8> {
    if l.len() >= 2 && l[0] == DOT {
        l.skip(1)
    } else {
        l
    }
}

/// The byte content of each line.
pub open spec fn lines_view(v: Seq<Vec<u8>>) -> Seq<Seq<u8>> {
    v.map_values(|l: Vec<u8>| l@)
}

/// `n` is the index of the first terminator among `lines`.
pub open spec fn block_ends_at(lines: Seq<Seq<u8>>, n: int) -> bool {
    &&& 0 <= n < lines.len()
    &&& is_terminator(lines[n])
    &&& forall|j: int| 0 <= j < n ==> !is_terminator(#[trigger] lines[j])
}

/// The content of a block whose terminator stands at index `n`.
pub open spec fn block_content(lines: Seq<Seq<u8>>, n: int) -> Seq<Seq<u8>> {
    lines.take(n).map_values(|l: Seq<u8>| unstuffed(l))
}

pub open spec fn is_digit(b: u8) -> bool {
    48 <= b <= 57
}

pub open spec fn all_digits(s: Seq<u8>) -> bool {
    forall|i: int| 0 <= i < s.len() ==> is_digit(#[trigger] s[i])
}

/// The value of a string of decimal digits.
pub open spec fn decimal_value(s: Seq<u8>) -> nat
    decreases s.len(),
{
    if s.len() == 0 {
        0
    } else {
        decimal_value(s.drop_last()) * 10 + (s.last() - 48) as nat
    }
}

/// `s` is a decimal number from 1 to `u64::MAX`.
pub open spec fn is_message_number(s: Seq<u8>) -> bool {
    &&& s.len() > 0
    &&& all_digits(s)
    &&& 1 <= decimal_value(s) <= u64::MAX
}

/// The listing row `l` splits at its first space `k` into a message number
/// and a non-empty unique id.
pub open spec fn entry_splits_at(l: Seq<u8>, k: int) -> bool {
    &&& 0 <= k < l.len() - 1
    &&& l[k] == SPACE
    &&& forall|j: int| 0 <= j < k ==> #[trigger] l[j] != SPACE
    &&& is_message_number(l.take(k))
}

/// The entry that a listing row reads as, if it is well formed.
pub open spec fn entry_of(l: Seq<u8>) -> Option<(u64, Seq<u8>)> {
    if exists|k: int| entry_splits_at(l, k) {
        let k = choose|k: int| entry_splits_at(l, k);
        Some((decimal_value(l.take(k)) as u64, l.skip(k + 1)))
    } else {
        None
    }
}

proof fn lemma_split_unique(l: Seq<u8>, k1: int, k2: int)
    requires
        entry_splits_at(l, k1),
        entry_splits_at(l, k2),
    ensures
        k1 == k2,
{
    if k1 < k2 {
        assert(l[k1] != SPACE);
    } else if k2 < k1 {
        assert(l[k2] != SPACE);
    }
}

/// Classifies a reply line as positive or negative and extracts its text.
pub fn parse_status(line: &[u8]) -> (r: Result<StatusLine, Pop3Error>)
    ensures
        match r {
            Ok(s) => status_of(line@) == Some((s.positive, s.message@)),
            Err(e) => e == Pop3Error::MalformedResponse && status_of(line@) is None,
        },
{
    let n = line.len();
    let is_ok = n >= 3 && line[0] == 43 && line[1] == 79 && line[2] == 75;
    let is_err = n >= 4 && line[0] == 45 && line[1] == 69 && line[2] == 82 && line[3] == 82;
    proof {
        if n >= 3 {
            assert(ok_tag().is_prefix_of(line@) <==> line@.take(3) =~= ok_tag());
        }
        if n >= 4 {
            assert(err_tag().is_prefix_of(line@) <==> line@.take(4) =~= err_tag());
        }
    }
    if is_ok || is_err {
        let mut start: usize = if is_ok { 3 } else { 4 };
        if start < n && line[start] == SPACE {
            start = start + 1;
        }
        let message = copy_from(line, start);
        proof {
            let tag: int = if is_ok { 3 } else { 4 };
            let rest = line@.skip(tag);
            if rest.len() > 0 && rest[0] == SPACE {
                assert(rest.skip(1) =~= line@.skip(tag + 1));
            }
        }
        Ok(StatusLine { positive: is_ok, message })
    } else {
        Err(Pop3Error::MalformedResponse)
    }
}

/// Removes the stuffing dot from a content line of a block.
pub fn unstuff(line: &[u8]) -> (r: Vec<u8>)
    ensures
        r@ == unstuffed(line@),
{
    if line.len() >= 2 && line[0] == DOT {
        copy_from(line, 1)
    } else {
        copy_from(line, 0)
    }
}

/// Whether `line` ends a block.
pub fn terminates_block(line: &[u8]) -> (r: bool)
    ensures
        r == is_terminator(line@),
{
    let r = line.len() == 1 && line[0] == DOT;
    proof {
        if line@.len() == 1 {
            assert(r ==> line@ =~= seq![DOT]);
        }
    }
    r
}

/// Assembles the block that `lines` begins with: the content lines up to
/// the first lone dot, each with its stuffing dot removed.
pub fn parse_multiline(lines: &Vec<Vec<u8>>) -> (r: Result<Vec<Vec<u8>>, Pop3Error>)
    ensures
        match r {
            Ok(b) => exists|n: int|
                block_ends_at(lines_view(lines@), n) && lines_view(b@) == block_content(
                    lines_view(lines@),
                    n,
                ),
            Err(e) => e == Pop3Error::UnexpectedEof && forall|i: int|
                0 <= i < lines@.len() ==> !is_terminator(#[trigger] lines_view(lines@)[i]),
        },
{
    let ghost ls = lines_view(lines@);
    let mut out: Vec<Vec<u8>> = Vec::new();
    let mut i: usize = 0;
    while i < lines.len()
        invariant
            ls == lines_view(lines@),
            i <= lines@.len(),
            forall|j: int| 0 <= j < i ==> !is_terminator(#[trigger] ls[j]),
            lines_view(out@) == block_content(ls, i as int),
        decreases lines@.len() - i,
    {
        assert(ls[i as int] == lines@[i as int]@);
        if terminates_block(lines[i].as_slice()) {
            assert(block_ends_at(ls, i as int));
            return Ok(out);
        }
        let content = unstuff(lines[i].as_slice());
        let ghost prev = lines_view(out@);
        out.push(content);
        proof {
            assert(lines_view(out@) =~= prev.push(unstuffed(ls[i as int])));
            assert(block_content(ls, i + 1) =~= block_content(ls, i as int).push(
                unstuffed(ls[i as int]),
            ));
        }
        i = i + 1;
    }
    Err(Pop3Error::UnexpectedEof)
}

proof fn lemma_decimal_push(s: Seq<u8>, d: u8)
    ensures
        decimal_value(s.push(d)) == decimal_value(s) * 10 + (d - 48) as nat,
{
    assert(s.push(d).drop_last() =~= s);
}

/// Reads a message number: decimal digits whose value is from 1 to
/// `u64::MAX`.
pub fn parse_message_number(s: &[u8]) -> (r: Option<u64>)
    ensures
        match r {
            Some(n) => is_message_number(s@) && n == decimal_value(s@),
            None => !is_message_number(s@),
        },
{
    if s.len() == 0 {
        return None;
    }
    let mut v: u64 = 0;
    let mut i: usize = 0;
    while i < s.len()
        invariant
            i <= s@.len(),
            all_digits(s@.take(i as int)),
            v == decimal_value(s@.take(i as int)),
        decreases s@.len() - i,
    {
        let d = s[i];
        proof {
            lemma_decimal_push(s@.take(i as int), d);
            assert(s@.take(i as int).push(d) =~= s@.take(i + 1));
        }
        if d < 48 || d > 57 {
            assert(!is_digit(s@[i as int]));
            return None;
        }
        if v > (u64::MAX - (d - 48) as u64) / 10 {
            proof {
                let dd = (d - 48) as u64;
                assert(v * 10 + dd > u64::MAX) by (nonlinear_arith)
                    requires
                        v > (u64::MAX - dd) / 10,
                        dd <= 9,
                ;
                if all_digits(s@) {
                    lemma_decimal_prefix_bound(s@, i as int + 1);
                }
            }
            return None;
        }
        v = v * 10 + (d - 48) as u64;
        i = i + 1;
    }
    assert(s@.take(s@.len() as int) =~= s@);
    if v == 0 {
        return None;
    }
    Some(v)
}

/// The value of a digit string is at least that of any prefix.
proof fn lemma_decimal_prefix_bound(s: Seq<u8>, k: int)
    requires
        0 <= k <= s.len(),
        all_digits(s),
    ensures
        decimal_value(s.take(k)) <= decimal_value(s),
    decreases s.len() - k,
{
    if k < s.len() {
        lemma_decimal_prefix_bound(s, k + 1);
        let p = s.take(k);
        assert(s.take(k + 1) =~= p.push(s[k]));
        lemma_decimal_push(p, s[k]);
    } else {
        assert(s.take(k) =~= s);
    }
}

/// Reads one row of a unique-id listing: a message number, one space, and
/// the unique id that fills the rest of the line.
pub fn parse_uidl_entry(line: &[u8]) -> (r: Result<MailboxEntry, Pop3Error>)
    ensures
        match r {
            Ok(e) => entry_of(line@) == Some(e@),
            Err(e) => e == Pop3Error::MalformedResponse && entry_of(line@) is None,
        },
{
    let mut k: usize = 0;
    while k < line.len() && line[k] != SPACE
        invariant
            k <= line@.len(),
            forall|j: int| 0 <= j < k ==> #[trigger] line@[j] != SPACE,
        decreases line@.len() - k,
    {
        k = k + 1;
    }
    if line.len() == 0 || k >= line.len() - 1 {
        proof {
            if exists|k2: int| entry_splits_at(line@, k2) {
                let k2 = choose|k2: int| entry_splits_at(line@, k2);
                assert(line@[k2] == SPACE);
            }
        }
        return Err(Pop3Error::MalformedResponse);
    }
    let id_part = copy_prefix(line, k);
    match parse_message_number(id_part.as_slice()) {
        Some(id) => {
            let unique_id = copy_from(line, k + 1);
            assert(entry_splits_at(line@, k as int));
            proof {
                let k2 = choose|k2: int| entry_splits_at(line@, k2);
                lemma_split_unique(line@, k as int, k2);
            }
            Ok(MailboxEntry { message_id: id, unique_id })
        },
        None => {
            proof {
                if exists|k2: int| entry_splits_at(line@, k2) {
                    let k2 = choose|k2: int| entry_splits_at(line@, k2);
                    assert(line@[k as int] == SPACE);
                    lemma_split_unique(line@, k as int, k2);
                }
            }
            Err(Pop3Error::MalformedResponse)
        },
    }
}

/// The first `k` bytes of `s`.
fn copy_prefix(s: &[u8], k: usize) -> (r: Vec<u8>)
    requires
        k <= s@.len(),
    ensures
        r@ == s@.take(k as int),
{
    let mut r: Vec<u8> = Vec::new();
    let mut i: usize = 0;
    while i < k
        invariant
            i <= k <= s@.len(),
            r@ == s@.take(i as int),
        decreases k - i,
    {
        r.push(s[i]);
        i = i + 1;
        assert(r@ =~= s@.take(i as int));
    }
    r
}

} // verus!
