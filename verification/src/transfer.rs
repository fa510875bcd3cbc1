//! Resumable segment transfer: the decisions and the destination model.
//!
//! One fetch of a segment works in three steps: decide whether to ask for a
//! byte range (resume from what the destination already holds), react to the
//! server's answer (keep the prefix only when the server honoured the range
//! with a partial-content status; otherwise restart from zero rather than
//! append mismatched data), and stream the body chunk by chunk.  The outer
//! retry loop around a whole fetch lives with the I/O; because the decision
//! here re-reads the destination length, a retried fetch resumes from the
//! last durable byte instead of starting over.

use vstd::prelude::*;

verus! {

/// The byte offset a resumed request asks the server to start from:
/// `Some(existing_len)` when resuming a non-empty destination, else `None`
/// for a plain request.
pub open spec fn request_range_spec(resume: bool, existing_len: u64) -> Option<u64> {
    if resume && existing_len > 0 {
        Some(existing_len)
    } else {
        None
    }
}

/// Decides the range header of the request (step one of a fetch).
pub fn plan_request(resume: bool, existing_len: u64) -> (r: Option<u64>)
    ensures
        r == request_range_spec(resume, existing_len),
{
    if resume && existing_len > 0 {
        Some(existing_len)
    } else {
        None
    }
}

/// Whether the destination's existing bytes are kept: only when a range was
/// requested and the server answered with a partial-content status.
pub open spec fn keeps_existing(resume: bool, existing_len: nat, status_partial: bool) -> bool {
    resume && existing_len > 0 && status_partial
}

/// The destination's bytes after a fetch that received `body`, given what
/// the destination held before and how the server answered.
pub open spec fn transfer_result(
    existing: Seq<u8>,
    resume: bool,
    status_partial: bool,
    body: Seq<u8>,
) -> Seq<u8> {
    if keeps_existing(resume, existing.len(), status_partial) {
        existing + body
    } else {
        body
    }
}

/// The concatenation of a sequence of body chunks.
pub open spec fn concat_chunks(chunks: Seq<Seq<u8>>) -> Seq<u8>
    decreases chunks.len(),
{
    if chunks.len() == 0 {
        Seq::empty()
    } else {
        chunks[0] + concat_chunks(chunks.skip(1))
    }
}

/// One segment transfer in flight: the model of the destination and the
/// counters the progress callback reports.
pub struct SegmentTransfer {
    /// The destination's bytes, as this transfer leaves them.
    pub dest: Vec<u8>,
    /// Bytes expected in total: the kept prefix plus the announced body
    /// length (zero when the server announced none).  Progress reporting
    /// only; no decision depends on it.
    pub total_expected: u64,
}

impl SegmentTransfer {
    /// Reacts to the server's answer (step two of a fetch): truncates the
    /// destination unless the range was requested and honoured.
    pub fn begin(
        existing: Vec<u8>,
        resume: bool,
        status_partial: bool,
        content_length: u64,
    ) -> (t: SegmentTransfer)
        requires
            existing@.len() <= u64::MAX - content_length,
        ensures
            keeps_existing(resume, existing@.len(), status_partial) ==> t.dest@ == existing@
                && t.total_expected == existing@.len() + content_length,
            !keeps_existing(resume, existing@.len(), status_partial) ==> t.dest@
                == Seq::<u8>::empty() && t.total_expected == content_length,
    {
        let existing_len = existing.len() as u64;
        match plan_request(resume, existing_len) {
            Some(_) if status_partial => SegmentTransfer {
                dest: existing,
                total_expected: existing_len + content_length,
            },
            _ => SegmentTransfer { dest: Vec::new(), total_expected: content_length },
        }
    }

    /// Appends one received chunk to the destination (step three of a
    /// fetch, repeated until the body ends).
    pub fn on_chunk(&mut self, chunk: &Vec<u8>)
        ensures
            final(self).dest@ == old(self).dest@ + chunk@,
            final(self).total_expected == old(self).total_expected,
    {
        let ghost before = self.dest@;
        let mut i: usize = 0;
        while i < chunk.len()
            invariant
                i <= chunk@.len(),
                self.dest@ == before + chunk@.take(i as int),
                self.total_expected == old(self).total_expected,
            decreases chunk@.len() - i,
        {
            self.dest.push(chunk[i]);
            proof {
                assert(before + chunk@.take(i as int) + seq![chunk@[i as int]] =~= before
                    + chunk@.take(i as int + 1));
            }
            i = i + 1;
        }
        proof {
            assert(chunk@.take(chunk@.len() as int) =~= chunk@);
        }
    }

    /// Bytes written so far, for the progress callback.
    pub fn downloaded(&self) -> (n: usize)
        ensures
            n == self.dest@.len(),
    {
        self.dest.len()
    }
}

/// Runs the destination model of one whole fetch: the server answered with
/// `status_partial` and then sent `chunks`; the result is the destination's
/// final bytes.
pub fn run_transfer(
    existing: Vec<u8>,
    resume: bool,
    status_partial: bool,
    content_length: u64,
    chunks: &Vec<Vec<u8>>,
) -> (r: Vec<u8>)
    requires
        existing@.len() <= u64::MAX - content_length,
    ensures
        r@ == transfer_result(existing@, resume, status_partial, concat_chunks(
            chunks.deep_view(),
        )),
{
    let ghost ex = existing@;
    let mut t = SegmentTransfer::begin(existing, resume, status_partial, content_length);
    let ghost all = chunks.deep_view();
    let ghost init = t.dest@;
    proof {
        assert(all.skip(0) =~= all);
    }
    let mut i: usize = 0;
    while i < chunks.len()
        invariant
            all == chunks.deep_view(),
            all.len() == chunks@.len(),
            i <= chunks@.len(),
            t.dest@ + concat_chunks(all.skip(i as int)) == init + concat_chunks(all),
        decreases chunks@.len() - i,
    {
        proof {
            assert(chunks@[i as int].deep_view() =~= chunks@[i as int]@);
            assert(all[i as int] == chunks@[i as int].deep_view());
            assert(all.skip(i as int).skip(1) =~= all.skip(i as int + 1));
            assert(concat_chunks(all.skip(i as int)) == all[i as int] + concat_chunks(
                all.skip(i as int + 1),
            ));
        }
        t.on_chunk(&chunks[i]);
        proof {
            assert(t.dest@ + concat_chunks(all.skip(i as int + 1)) =~= init + concat_chunks(all));
        }
        i = i + 1;
    }
    proof {
        assert(all.skip(chunks@.len() as int) =~= Seq::<Seq<u8>>::empty());
        assert(t.dest@ + concat_chunks(all.skip(chunks@.len() as int)) =~= t.dest@);
        assert(t.dest@ =~= init + concat_chunks(all));
        assert(t.dest@ =~= transfer_result(ex, resume, status_partial, concat_chunks(all)));
    }
    t.dest
}

/// Resume correctness, honoured range: a destination already holding `L`
/// bytes, resumed against a server that honours the range and serves the
/// remaining `tail`, ends with exactly `L + tail.len()` bytes — the first
/// `L` unchanged, the rest exactly the served tail.
pub proof fn lemma_resume_extends_exactly(existing: Seq<u8>, tail: Seq<u8>)
    requires
        existing.len() > 0,
    ensures
        transfer_result(existing, true, true, tail).len() == existing.len() + tail.len(),
        transfer_result(existing, true, true, tail).take(existing.len() as int) == existing,
        transfer_result(existing, true, true, tail).skip(existing.len() as int) == tail,
{
    let r = transfer_result(existing, true, true, tail);
    assert(r.take(existing.len() as int) =~= existing);
    assert(r.skip(existing.len() as int) =~= tail);
}

/// Resume correctness, ignored range: when the server answers a range
/// request without a partial-content status, the transfer restarts from
/// zero and the destination ends as exactly the served body — never the
/// existing prefix with mismatched data appended.
pub proof fn lemma_ignored_range_restarts(existing: Seq<u8>, body: Seq<u8>)
    ensures
        transfer_result(existing, true, false, body) == body,
        transfer_result(existing, true, false, body).len() == body.len(),
{
}

} // verus!
