//! Logger: severity state and the bounded log line handed to the
//! external log sink.
//!
//! A log write runs under the caller's exclusion lock: it records the
//! severity into process-wide state, renders the text into the
//! bounded log buffer (overwriting the previous line, truncating what
//! does not fit), and the rendered line together with the recorded
//! severity is then forwarded to the sink. Because the whole sequence
//! runs under the lock, the severity a write forwards is always the
//! one recorded for that same write, and lines from concurrent
//! callers are never interleaved byte for byte.
//!
//! Five severity tiers are exposed as convenience entry points; they
//! differ only in the numeric level they record: debug `0`, info `1`,
//! error `2`, warn `3`, trace `4`.

use vstd::prelude::*;
use crate::sink::BoundedSink;
use crate::sink::write_len;

verus! {

/// Severity state plus the bounded buffer the next log line is
/// rendered into.
pub struct Logger {
    level: i32,
    sink: BoundedSink,
}

impl Logger {
    /// The severity recorded for the current line.
    pub closed spec fn spec_level(&self) -> i32 {
        self.level
    }

    /// The buffer holding the rendered line.
    pub closed spec fn spec_sink(&self) -> BoundedSink {
        self.sink
    }

    /// Well-formed: the line buffer is a well-formed bounded sink.
    pub open spec fn wf(&self) -> bool {
        self.spec_sink().wf()
    }

    /// The rendered line.
    pub open spec fn line(&self) -> Seq<u8> {
        self.spec_sink().text()
    }

    /// The line buffer's capacity in bytes.
    pub open spec fn spec_capacity(&self) -> nat {
        self.spec_sink().spec_capacity()
    }

    /// A fresh logger with an empty line buffer of `cap` bytes,
    /// starting at the informational severity.
    pub fn new(cap: usize) -> (l: Logger)
        requires
            1 <= cap,
        ensures
            l.wf(),
            l.spec_level() == 1,
            l.spec_capacity() == cap,
            l.line() == Seq::<u8>::empty(),
    {
        Logger { level: 1, sink: BoundedSink::new(cap) }
    }

    /// One log write under the caller's lock: record the severity,
    /// then render the text into the line buffer, truncated to what
    /// fits. The severity forwarded with the line is exactly the one
    /// recorded here.
    pub fn render(&mut self, level: i32, frag: &[u8])
        requires
            old(self).wf(),
        ensures
            final(self).wf(),
            final(self).spec_level() == level,
            final(self).spec_capacity() == old(self).spec_capacity(),
            ({
                let w = write_len(old(self).spec_capacity() as int, 0, frag@.len() as int);
                (forall|i: int| 0 <= i < w ==> frag@[i] != 0) ==> final(self).line()
                    == frag@.take(w)
            }),
    {
        self.level = level;
        self.sink.set_text(frag);
    }

    /// Log at the debug severity (`0`).
    pub fn debug(&mut self, frag: &[u8])
        requires
            old(self).wf(),
        ensures
            final(self).wf(),
            final(self).spec_level() == 0,
            final(self).spec_capacity() == old(self).spec_capacity(),
            ({
                let w = write_len(old(self).spec_capacity() as int, 0, frag@.len() as int);
                (forall|i: int| 0 <= i < w ==> frag@[i] != 0) ==> final(self).line()
                    == frag@.take(w)
            }),
    {
        self.render(0, frag);
    }

    /// Log at the informational severity (`1`).
    pub fn info(&mut self, frag: &[u8])
        requires
            old(self).wf(),
        ensures
            final(self).wf(),
            final(self).spec_level() == 1,
            final(self).spec_capacity() == old(self).spec_capacity(),
            ({
                let w = write_len(old(self).spec_capacity() as int, 0, frag@.len() as int);
                (forall|i: int| 0 <= i < w ==> frag@[i] != 0) ==> final(self).line()
                    == frag@.take(w)
            }),
    {
        self.render(1, frag);
    }

    /// Log at the error severity (`2`).
    pub fn error(&mut self, frag: &[u8])
        requires
            old(self).wf(),
        ensures
            final(self).wf(),
            final(self).spec_level() == 2,
            final(self).spec_capacity() == old(self).spec_capacity(),
            ({
                let w = write_len(old(self).spec_capacity() as int, 0, frag@.len() as int);
                (forall|i: int| 0 <= i < w ==> frag@[i] != 0) ==> final(self).line()
                    == frag@.take(w)
            }),
    {
        self.render(2, frag);
    }

    /// Log at the warning severity (`3`).
    pub fn warn(&mut self, frag: &[u8])
        requires
            old(self).wf(),
        ensures
            final(self).wf(),
            final(self).spec_level() == 3,
            final(self).spec_capacity() == old(self).spec_capacity(),
            ({
                let w = write_len(old(self).spec_capacity() as int, 0, frag@.len() as int);
                (forall|i: int| 0 <= i < w ==> frag@[i] != 0) ==> final(self).line()
                    == frag@.take(w)
            }),
    {
        self.render(3, frag);
    }

    /// Log at the trace severity (`4`).
    pub fn trace(&mut self, frag: &[u8])
        requires
            old(self).wf(),
        ensures
            final(self).wf(),
            final(self).spec_level() == 4,
            final(self).spec_capacity() == old(self).spec_capacity(),
            ({
                let w = write_len(old(self).spec_capacity() as int, 0, frag@.len() as int);
                (forall|i: int| 0 <= i < w ==> frag@[i] != 0) ==> final(self).line()
                    == frag@.take(w)
            }),
    {
        self.render(4, frag);
    }

    /// The severity recorded for the current line.
    pub fn current_level(&self) -> (l: i32)
        ensures
            l == self.spec_level(),
    {
        self.level
    }

    /// Copy out the rendered line, to be forwarded to the sink with
    /// the recorded severity.
    pub fn line_bytes(&self) -> (v: Vec<u8>)
        requires
            self.wf(),
        ensures
            v@ == self.line(),
    {
        self.sink.text_bytes()
    }
}

} // verus!
