//! Splitting the incoming byte stream into lines.
use vstd::prelude::*;

use crate::bytes::{append_bytes, CR, LF};

verus! {

/// Bytes received from the server that do not yet form a whole line.
pub struct LineBuffer {
    pending: Vec<u8>,
}

impl View for LineBuffer {
    type V = Seq<u8>;

    closed spec fn view(&self) -> Seq<u8> {
        self.pending@
    }
}

/// `k` is the position of the first LF in `s`.
pub open spec fn first_lf_at(s: Seq<u8>, k: int) -> bool {
    &&& 0 <= k < s.len()
    &&& s[k] == LF
    &&& forall|j: int| 0 <= j < k ==> #[trigger] s[j] != LF
}

pub open spec fn has_lf(s: Seq<u8>) -> bool {
    exists|k: int| 0 <= k < s.len() && #[trigger] s[k] == LF
}

/// A line without its terminator: one CR before the LF is dropped too.
pub open spec fn strip_cr(s: Seq<u8>) -> Seq<u8> {
    if s.len() > 0 && s.last() == CR {
        s.drop_last()
    } else {
        s
    }
}

impl LineBuffer {
    /// An empty buffer.
    pub fn new() -> (r: LineBuffer)
        ensures
            r@ == Seq::<u8>::empty(),
    {
        LineBuffer { pending: Vec::new() }
    }

    /// Adds bytes read from the stream.
    pub fn push_bytes(&mut self, data: &[u8])
        ensures
            final(self)@ == old(self)@ + data@,
    {
        append_bytes(&mut self.pending, data);
    }

    /// Takes the next whole line out of the buffer, without its CRLF or bare
    /// LF; `None`, with the buffer untouched, while no LF has arrived.
    pub fn next_line(&mut self) -> (r: Option<Vec<u8>>)
        ensures
            match r {
                None => final(self)@ == old(self)@ && !has_lf(old(self)@),
                Some(l) => exists|k: int|
                    first_lf_at(old(self)@, k) && l@ == strip_cr(old(self)@.take(k))
                        && final(self)@ == old(self)@.skip(k + 1),
            },
    {
        let mut k: usize = 0;
        while k < self.pending.len() && self.pending[k] != LF
            invariant
                k <= self.pending@.len(),
                forall|j: int| 0 <= j < k ==> #[trigger] self.pending@[j] != LF,
            decreases self.pending@.len() - k,
        {
            k = k + 1;
        }
        if k == self.pending.len() {
            assert(!has_lf(self.pending@));
            return None;
        }
        let ghost before = self.pending@;
        assert(first_lf_at(before, k as int));
        let rest = self.pending.split_off(k + 1);
        let mut line = self.pending.split_off(0);
        self.pending = rest;
        assert(self.pending@ =~= before.skip(k + 1));
        line.pop();
        if line.len() > 0 && line[line.len() - 1] == CR {
            line.pop();
        }
        assert(line@ =~= strip_cr(before.take(k as int)));
        assert(first_lf_at(old(self)@, k as int) && self@ == old(self)@.skip(k + 1));
        Some(line)
    }
}

} // verus!
