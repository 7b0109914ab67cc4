//! The budget writer: an accumulating byte sink with a fixed capacity.
//!
//! Every byte of the final artifact passes through [`Out`]. Its invariant —
//! the buffer never grows past the capacity — is what makes the
//! whole-document byte ceiling hold, and each append either commits in full
//! or fails without committing anything.

use vstd::prelude::*;

verus! {

/// The tagged outcome used when an append would overflow the budget.
///
/// Running out of budget is an expected terminal condition of the render
/// loop, not a failure: callers convert it into a truncation footer.
#[derive(Clone, Copy, Debug, PartialEq, Eq, Structural)]
pub enum PrintError {
    TotalLimitReached,
}

/// What one append attempt does to a buffer of capacity `max`: the bytes are
/// committed in full when they fit, and nothing changes when they do not.
pub open spec fn spec_push(buf: Seq<u8>, max: nat, s: Seq<u8>) -> (Seq<u8>, bool) {
    if buf.len() + s.len() <= max {
        (buf + s, true)
    } else {
        (buf, false)
    }
}

/// Appending a line is appending the text and then a newline, each step
/// independently subject to the budget.
pub open spec fn spec_push_line(buf: Seq<u8>, max: nat, s: Seq<u8>) -> (Seq<u8>, bool) {
    let (b1, ok1) = spec_push(buf, max, s);
    if ok1 {
        spec_push(b1, max, seq![10u8])
    } else {
        (b1, false)
    }
}

pub struct Out {
    buf: Vec<u8>,
    max: usize,
}

impl Out {
    /// The bytes committed so far.
    pub closed spec fn buf_spec(self) -> Seq<u8> {
        self.buf@
    }

    /// The capacity the writer was created with.
    pub closed spec fn max_spec(self) -> nat {
        self.max as nat
    }

    /// The budget invariant: the buffer never exceeds the capacity.
    pub open spec fn wf(self) -> bool {
        self.buf_spec().len() <= self.max_spec()
    }

    pub fn new(max: usize) -> (r: Out)
        ensures
            r.wf(),
            r.buf_spec() == Seq::<u8>::empty(),
            r.max_spec() == max as nat,
    {
        Out { buf: Vec::new(), max }
    }

    pub fn into_inner(self) -> (r: Vec<u8>)
        ensures
            r@ == self.buf_spec(),
    {
        self.buf
    }

    /// How many more bytes fit before the capacity is reached.
    pub fn remaining(&self) -> (r: usize)
        requires
            self.wf(),
        ensures
            r as nat == self.max_spec() - self.buf_spec().len(),
    {
        self.max - self.buf.len()
    }

    /// Appends `s` in full if it fits, and otherwise reports
    /// `TotalLimitReached` leaving the buffer unchanged.
    pub fn push_str(&mut self, s: &[u8]) -> (r: Result<(), PrintError>)
        requires
            old(self).wf(),
        ensures
            final(self).wf(),
            final(self).max_spec() == old(self).max_spec(),
            ({
                let (b, ok) = spec_push(old(self).buf_spec(), old(self).max_spec(), s@);
                final(self).buf_spec() == b && (r is Ok <==> ok)
            }),
    {
        if s.len() == 0 {
            return Ok(());
        }
        if self.max - self.buf.len() < s.len() {
            return Err(PrintError::TotalLimitReached);
        }
        let mut i: usize = 0;
        let ghost start = self.buf@;
        while i < s.len()
            invariant
                i <= s@.len(),
                self.buf@ == start + s@.take(i as int),
                self.max == old(self).max,
                start.len() + s@.len() <= self.max,
            decreases s@.len() - i,
        {
            self.buf.push(s[i]);
            i += 1;
            proof {
                assert(self.buf@ =~= start + s@.take(i as int));
            }
        }
        proof {
            assert(self.buf@ =~= start + s@);
        }
        Ok(())
    }

    /// Appends `s` and then a newline, each append atomic under the budget.
    pub fn push_line(&mut self, s: &[u8]) -> (r: Result<(), PrintError>)
        requires
            old(self).wf(),
        ensures
            final(self).wf(),
            final(self).max_spec() == old(self).max_spec(),
            ({
                let (b, ok) = spec_push_line(old(self).buf_spec(), old(self).max_spec(), s@);
                final(self).buf_spec() == b && (r is Ok <==> ok)
            }),
    {
        self.push_str(s)?;
        let nl: [u8; 1] = [10u8];
        let r = self.push_str(nl.as_slice());
        proof {
            assert(nl@ =~= seq![10u8]);
        }
        r
    }
}

} // verus!
