//! Bounded text sink: a fixed-capacity byte buffer holding one
//! null-terminated text.
//!
//! The write cursor is not stored; it is the position of the first
//! zero byte, exactly as the diagnostic paths that share such a
//! buffer find it. A write that would overflow is silently truncated
//! so that one byte always remains for the terminator: diagnostic
//! output must degrade gracefully rather than fail.

use vstd::prelude::*;
use vstd::pervasive::VecAdditionalExecFns;
use vstd::slice::slice_index_get;

verus! {

/// Index of the first zero byte of `s`, or `s.len()` if none.
pub open spec fn first_zero(s: Seq<u8>) -> int
    decreases s.len(),
{
    if s.len() == 0 {
        0
    } else if s[0] == 0 {
        0
    } else {
        1 + first_zero(s.skip(1))
    }
}

/// `s` holds a zero byte somewhere.
pub open spec fn terminated(s: Seq<u8>) -> bool {
    exists|i: int| 0 <= i < s.len() && s[i] == 0
}

/// The text a buffer holds: its bytes before the first zero.
pub open spec fn content(s: Seq<u8>) -> Seq<u8> {
    s.take(first_zero(s))
}

/// How many bytes of a fragment of length `frag_len` fit behind text
/// of length `start` in a buffer of `cap` bytes, one byte being
/// reserved for the terminator.
pub open spec fn write_len(cap: int, start: int, frag_len: int) -> int {
    if frag_len <= cap - 1 - start {
        frag_len
    } else {
        cap - 1 - start
    }
}

/// In a terminated sequence, the first zero lies within the sequence,
/// is a zero, and everything before it is nonzero.
pub proof fn lemma_first_zero_bounds(s: Seq<u8>)
    requires
        terminated(s),
    ensures
        0 <= first_zero(s) < s.len(),
        s[first_zero(s)] == 0,
        forall|i: int| 0 <= i < first_zero(s) ==> s[i] != 0,
    decreases s.len(),
{
    if s[0] == 0 {
    } else {
        let j = choose|j: int| 0 <= j < s.len() && s[j] == 0;
        assert(s.skip(1)[j - 1] == 0);
        lemma_first_zero_bounds(s.skip(1));
        assert forall|i: int| 0 <= i < first_zero(s) implies s[i] != 0 by {
            if i >= 1 {
                assert(s.skip(1)[i - 1] != 0);
            }
        }
    }
}

/// A position that is zero and has only nonzero bytes before it is
/// the first zero.
pub proof fn lemma_first_zero_at(s: Seq<u8>, n: int)
    requires
        0 <= n < s.len(),
        s[n] == 0,
        forall|i: int| 0 <= i < n ==> s[i] != 0,
    ensures
        first_zero(s) == n,
    decreases n,
{
    if n == 0 {
    } else {
        assert(s.skip(1)[n - 1] == 0);
        assert forall|i: int| 0 <= i < n - 1 implies s.skip(1)[i] != 0 by {
            assert(s[i + 1] != 0);
        }
        lemma_first_zero_at(s.skip(1), n - 1);
    }
}

/// A fixed-capacity byte buffer that always holds a null-terminated
/// text, truncating writes that would not fit.
pub struct BoundedSink {
    buf: Vec<u8>,
}

impl View for BoundedSink {
    type V = Seq<u8>;

    closed spec fn view(&self) -> Seq<u8> {
        self.buf@
    }
}

impl BoundedSink {
    /// Well-formed: room for at least the terminator, and a
    /// terminator present somewhere.
    pub open spec fn wf(&self) -> bool {
        &&& self@.len() >= 1
        &&& terminated(self@)
    }

    /// Capacity in bytes, the terminator byte included.
    pub open spec fn spec_capacity(&self) -> nat {
        self@.len()
    }

    /// The text currently held.
    pub open spec fn text(&self) -> Seq<u8> {
        content(self@)
    }

    /// A fresh all-zero buffer of `cap` bytes holding the empty text.
    pub fn new(cap: usize) -> (s: BoundedSink)
        requires
            1 <= cap,
        ensures
            s.wf(),
            s.spec_capacity() == cap,
            forall|i: int| 0 <= i < cap ==> s@[i] == 0,
            first_zero(s@) == 0,
            s.text() == Seq::<u8>::empty(),
    {
        let mut buf: Vec<u8> = Vec::new();
        let mut i: usize = 0;
        while i < cap
            invariant
                i <= cap,
                buf@.len() == i,
                forall|j: int| 0 <= j < i ==> buf@[j] == 0,
            decreases cap - i,
        {
            buf.push(0);
            i = i + 1;
        }
        proof {
            lemma_first_zero_at(buf@, 0);
            assert(content(buf@) =~= Seq::<u8>::empty());
        }
        BoundedSink { buf }
    }

    /// Capacity in bytes.
    pub fn capacity(&self) -> (c: usize)
        ensures
            c == self.spec_capacity(),
    {
        self.buf.len()
    }

    /// Scan for the write cursor: the position of the first zero byte.
    fn text_end(&self) -> (n: usize)
        requires
            self.wf(),
        ensures
            n == first_zero(self@),
            n < self@.len(),
            self@[n as int] == 0,
            forall|i: int| 0 <= i < n ==> self@[i] != 0,
    {
        let mut i: usize = 0;
        while i < self.buf.len() && self.buf[i] != 0
            invariant
                self.wf(),
                i <= self.buf@.len(),
                forall|j: int| 0 <= j < i ==> self@[j] != 0,
            decreases self.buf@.len() - i,
        {
            i = i + 1;
        }
        proof {
            lemma_first_zero_bounds(self@);
            if i == self@.len() {
                assert(self@[first_zero(self@)] == 0);
                assert(false);
            }
            lemma_first_zero_at(self@, i as int);
        }
        i
    }

    /// Reset to the empty text by zeroing the first byte; the bytes
    /// behind it are left as they are.
    pub fn reset(&mut self)
        requires
            old(self).wf(),
        ensures
            final(self).wf(),
            final(self)@ == old(self)@.update(0, 0u8),
            final(self).spec_capacity() == old(self).spec_capacity(),
            first_zero(final(self)@) == 0,
            final(self).text() == Seq::<u8>::empty(),
    {
        self.buf.set(0, 0);
        proof {
            lemma_first_zero_at(self.buf@, 0);
            assert(content(self.buf@) =~= Seq::<u8>::empty());
        }
    }

    /// Append a fragment at the current cursor, truncated to what
    /// fits before the reserved terminator byte, and terminate the
    /// buffer again. Truncation is silent: the sink never fails.
    pub fn append(&mut self, frag: &[u8])
        requires
            old(self).wf(),
        ensures
            final(self).wf(),
            final(self).spec_capacity() == old(self).spec_capacity(),
            ({
                let start = first_zero(old(self)@);
                let w = write_len(old(self)@.len() as int, start, frag@.len() as int);
                &&& final(self)@ == old(self)@.take(start) + frag@.take(w) + seq![0u8]
                    + old(self)@.skip(start + w + 1)
                &&& (forall|i: int| 0 <= i < w ==> frag@[i] != 0) ==> first_zero(final(self)@)
                    == start + w && final(self).text() == old(self).text() + frag@.take(w)
            }),
    {
        proof {
            lemma_first_zero_bounds(old(self)@);
        }
        let start = self.text_end();
        let cap = self.buf.len();
        let avail = cap - 1 - start;
        let w = if frag.len() <= avail {
            frag.len()
        } else {
            avail
        };
        let mut i: usize = 0;
        while i < w
            invariant
                self.buf@.len() == old(self)@.len(),
                self.buf@.len() == cap,
                start + w < cap,
                i <= w,
                w <= frag@.len(),
                w == write_len(old(self)@.len() as int, start as int, frag@.len() as int),
                forall|j: int| 0 <= j < start ==> self.buf@[j] == old(self)@[j],
                forall|j: int| 0 <= j < i ==> self.buf@[start + j] == frag@[j],
                forall|j: int| start + i <= j < self.buf@.len() ==> self.buf@[j] == old(
                    self,
                )@[j],
            decreases w - i,
        {
            self.buf.set(start + i, *slice_index_get(frag, i));
            i = i + 1;
        }
        self.buf.set(start + w, 0);
        proof {
            let s0 = old(self)@;
            let s1 = self.buf@;
            let st = start as int;
            let wi = w as int;
            assert(s1[st + wi] == 0);
            assert(terminated(s1));
            assert(s1 =~= s0.take(st) + frag@.take(wi) + seq![0u8] + s0.skip(st + wi + 1));
            if forall|i: int| 0 <= i < wi ==> frag@[i] != 0 {
                assert forall|j: int| 0 <= j < st + wi implies s1[j] != 0 by {
                    if j < st {
                        assert(s0[j] != 0);
                    } else {
                        assert(s1[j] == frag@[j - st]);
                    }
                }
                lemma_first_zero_at(s1, st + wi);
                assert(content(s1) =~= content(s0) + frag@.take(wi));
            }
        }
    }

    /// Overwrite the whole text: reset to empty, then append the
    /// fragment, truncated to what fits.
    pub fn set_text(&mut self, frag: &[u8])
        requires
            old(self).wf(),
        ensures
            final(self).wf(),
            final(self).spec_capacity() == old(self).spec_capacity(),
            ({
                let w = write_len(old(self)@.len() as int, 0, frag@.len() as int);
                &&& final(self)@ == frag@.take(w) + seq![0u8] + old(self)@.skip(w + 1)
                &&& (forall|i: int| 0 <= i < w ==> frag@[i] != 0) ==> first_zero(final(self)@)
                    == w && final(self).text() == frag@.take(w)
            }),
    {
        self.reset();
        let ghost mid = self@;
        self.append(frag);
        proof {
            let w = write_len(old(self)@.len() as int, 0, frag@.len() as int);
            assert(first_zero(mid) == 0);
            assert(self@ =~= frag@.take(w) + seq![0u8] + old(self)@.skip(w + 1));
            if forall|i: int| 0 <= i < w ==> frag@[i] != 0 {
                assert(self.text() =~= frag@.take(w));
            }
        }
    }

    /// Copy out the text currently held.
    pub fn text_bytes(&self) -> (v: Vec<u8>)
        requires
            self.wf(),
        ensures
            v@ == self.text(),
    {
        let n = self.text_end();
        let mut v: Vec<u8> = Vec::new();
        let mut i: usize = 0;
        while i < n
            invariant
                i <= n,
                n < self.buf@.len(),
                n == first_zero(self@),
                v@.len() == i,
                forall|j: int| 0 <= j < i ==> v@[j] == self@[j],
            decreases n - i,
        {
            v.push(self.buf[i]);
            i = i + 1;
        }
        proof {
            assert(v@ =~= self.text());
        }
        v
    }
}

/// The sink never holds text past `capacity - 1` and is always
/// null-terminated: the text stops short of the last byte, a zero
/// byte stands right behind it, and no zero byte stands inside it.
pub proof fn lemma_sink_bounded(s: &BoundedSink)
    requires
        s.wf(),
    ensures
        s.text().len() < s.spec_capacity(),
        s@[s.text().len() as int] == 0,
        forall|i: int| 0 <= i < s.text().len() ==> s@[i] != 0,
{
    lemma_first_zero_bounds(s@);
}

} // verus!
