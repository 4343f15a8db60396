use vstd::prelude::*;

verus! {

/// Progress of writing a buffer of `total` bytes through repeated partial
/// writes: each write is handed the bytes from `sent` on.
#[derive(Clone, Copy, Debug, PartialEq, Eq)]
pub struct WriteCursor {
    pub total: usize,
    pub sent: usize,
}

/// The sum of the counts that successive writes accepted.
pub open spec fn accepted_sum(ks: Seq<nat>) -> nat
    decreases ks.len(),
{
    if ks.len() == 0 {
        0
    } else {
        ks[0] + accepted_sum(ks.drop_first())
    }
}

/// The bytes that reach the destination when writes starting at `start`
/// accept the counts `ks` in turn, each one resubmitting what is left.
pub open spec fn delivered(data: Seq<u8>, start: nat, ks: Seq<nat>) -> Seq<u8>
    decreases ks.len(),
{
    if ks.len() == 0 {
        Seq::empty()
    } else {
        data.subrange(start as int, (start + ks[0]) as int) + delivered(
            data,
            start + ks[0],
            ks.drop_first(),
        )
    }
}

/// Resubmitting the unwritten remainder after each partial write delivers
/// the data in order, without gap or repetition: what arrived is exactly
/// the run of bytes from the starting point whose length is the sum of the
/// accepted counts.
pub proof fn lemma_resubmission_in_order(data: Seq<u8>, start: nat, ks: Seq<nat>)
    requires
        start + accepted_sum(ks) <= data.len(),
    ensures
        delivered(data, start, ks) == data.subrange(start as int, (start + accepted_sum(ks)) as int),
    decreases ks.len(),
{
    if ks.len() > 0 {
        let next = start + ks[0];
        lemma_resubmission_in_order(data, next, ks.drop_first());
        assert(delivered(data, start, ks) =~= data.subrange(
            start as int,
            (start + accepted_sum(ks)) as int,
        ));
    } else {
        assert(delivered(data, start, ks) =~= data.subrange(start as int, start as int));
    }
}

/// Writing all N bytes: once the accepted counts of the repeated writes add
/// up to N, the destination has received exactly the N bytes, in order.
pub proof fn lemma_all_bytes_transferred(data: Seq<u8>, ks: Seq<nat>)
    requires
        accepted_sum(ks) == data.len(),
    ensures
        delivered(data, 0, ks) == data,
        delivered(data, 0, ks).len() == data.len(),
{
    lemma_resubmission_in_order(data, 0, ks);
    assert(data.subrange(0, data.len() as int) =~= data);
}

/// When every write accepts at least one byte, the number of writes needed
/// is at most the number of bytes: resubmission always finishes.
pub proof fn lemma_progress_bounds_rounds(ks: Seq<nat>)
    requires
        forall|i: int| 0 <= i < ks.len() ==> ks[i] > 0,
    ensures
        ks.len() <= accepted_sum(ks),
    decreases ks.len(),
{
    if ks.len() > 0 {
        let rest = ks.drop_first();
        assert forall|i: int| 0 <= i < rest.len() implies rest[i] > 0 by {
            assert(rest[i] == ks[i + 1]);
        }
        lemma_progress_bounds_rounds(rest);
    }
}

impl WriteCursor {
    /// The cursor never runs past the end of the buffer.
    pub open spec fn wf(&self) -> bool {
        self.sent <= self.total
    }

    /// A cursor at the start of a buffer of `total` bytes.
    pub fn new(total: usize) -> (r: WriteCursor)
        ensures
            r.wf(),
            r.total == total,
            r.sent == 0,
    {
        WriteCursor { total, sent: 0 }
    }

    /// How many bytes are still to be handed to a write.
    pub fn remaining(&self) -> (r: usize)
        requires
            self.wf(),
        ensures
            r == self.total - self.sent,
    {
        self.total - self.sent
    }

    /// Whether every byte has been accepted.
    pub fn is_done(&self) -> (r: bool)
        requires
            self.wf(),
        ensures
            r == (self.sent == self.total),
    {
        self.sent == self.total
    }

    /// Records that a write accepted `accepted` of the remaining bytes.
    pub fn advance(&mut self, accepted: usize)
        requires
            old(self).wf(),
            accepted <= old(self).total - old(self).sent,
        ensures
            final(self).wf(),
            final(self).total == old(self).total,
            final(self).sent == old(self).sent + accepted,
    {
        self.sent = self.sent + accepted;
    }
}

} // verus!
