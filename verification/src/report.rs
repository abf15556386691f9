//! Panic reporter: rendering of the terminal diagnostic text.
//!
//! On an unrecoverable fault the process formats a fixed prefix plus
//! the fault's description into a bounded buffer and hands the
//! null-terminated result to the fatal abort entry point, which never
//! returns. The path must not be able to fault itself: the buffer is
//! fixed-capacity, writes truncate silently, and nothing here
//! allocates on the fault path's behalf.

use vstd::prelude::*;
use crate::sink::BoundedSink;
use crate::sink::first_zero;
use crate::sink::lemma_first_zero_at;
use crate::sink::lemma_first_zero_bounds;
use crate::sink::write_len;

verus! {

/// Render the diagnostic text for one fault: reset the buffer, then
/// write the fixed prefix followed by the fault's description,
/// truncating the tail that does not fit. The buffer always ends up
/// null-terminated with the truncated message as its text.
pub fn format_report(sink: &mut BoundedSink, prefix: &[u8], details: &[u8])
    requires
        old(sink).wf(),
    ensures
        final(sink).wf(),
        final(sink).spec_capacity() == old(sink).spec_capacity(),
        final(sink).text().len() < final(sink).spec_capacity(),
        ({
            let msg = prefix@ + details@;
            let w = write_len(old(sink).spec_capacity() as int, 0, msg.len() as int);
            (forall|i: int| 0 <= i < w ==> msg[i] != 0) ==> final(sink).text() == msg.take(w)
        }),
{
    sink.reset();
    let ghost s1 = *sink;
    sink.append(prefix);
    let ghost s2 = *sink;
    sink.append(details);
    proof {
        let cap = old(sink).spec_capacity() as int;
        let msg = prefix@ + details@;
        let w = write_len(cap, 0, msg.len() as int);
        lemma_first_zero_bounds(sink@);
        if forall|i: int| 0 <= i < w ==> msg[i] != 0 {
            let p = prefix@.len() as int;
            let w1 = write_len(cap, 0, p);
            assert(s1@[0] == 0);
            lemma_first_zero_at(s1@, 0);
            assert forall|i: int| 0 <= i < w1 implies prefix@[i] != 0 by {
                assert(msg[i] == prefix@[i]);
            }
            assert(s2.text() =~= prefix@.take(w1));
            lemma_first_zero_bounds(s2@);
            assert(first_zero(s2@) == w1);
            let w2 = write_len(cap, w1, details@.len() as int);
            assert forall|i: int| 0 <= i < w2 implies details@[i] != 0 by {
                assert(0 <= p + i < w);
                assert(msg[p + i] == details@[i]);
            }
            assert(sink.text() == s2.text() + details@.take(w2));
            assert(w1 + w2 == w);
            assert forall|j: int| 0 <= j < w implies sink.text()[j] == msg[j] by {
                if j < w1 {
                    assert(msg[j] == prefix@[j]);
                } else {
                    assert(w1 == p);
                    assert(msg[j] == details@[j - p]);
                }
            }
            assert(sink.text() =~= msg.take(w));
        }
    }
}

} // verus!
