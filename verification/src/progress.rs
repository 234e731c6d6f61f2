//! Progress accounting for a chunked artifact download.
//!
//! The downloaded-byte counter is an explicit owned value rather than
//! closure-captured shared state: the embedding program reports each chunk
//! as it arrives, and reports completion once, after the last chunk.

use vstd::prelude::*;

verus! {

/// The total number of bytes in a sequence of chunk lengths.
pub open spec fn sum_chunks(chunks: Seq<u64>) -> int
    decreases chunks.len(),
{
    if chunks.len() == 0 {
        0
    } else {
        sum_chunks(chunks.drop_last()) + chunks.last()
    }
}

/// Running state of one artifact download: how many bytes have arrived,
/// the advertised total length (when the transfer announces one), and
/// whether the completion report has fired.
pub struct Progress {
    /// Bytes received so far, summed over all chunks.
    pub downloaded: u64,
    /// Content length announced by the transfer, if any.
    pub total: Option<u64>,
    /// Whether the download has been reported complete.
    pub complete: bool,
}

impl Progress {
    /// A fresh counter for a transfer that announced `total` bytes.
    pub fn new(total: Option<u64>) -> (p: Progress)
        ensures
            p == (Progress { downloaded: 0, total, complete: false }),
    {
        Progress { downloaded: 0, total, complete: false }
    }

    /// Records one received chunk and returns the running total, so the
    /// caller can report it.
    pub fn on_chunk(&mut self, chunk_len: u64) -> (running: u64)
        requires
            !old(self).complete,
            old(self).downloaded + chunk_len <= u64::MAX,
        ensures
            final(self).downloaded == old(self).downloaded + chunk_len,
            final(self).total == old(self).total,
            !final(self).complete,
            running == final(self).downloaded,
    {
        self.downloaded = self.downloaded + chunk_len;
        self.downloaded
    }

    /// Marks the download complete; allowed once, after the last chunk.
    pub fn mark_complete(&mut self)
        requires
            !old(self).complete,
        ensures
            final(self).downloaded == old(self).downloaded,
            final(self).total == old(self).total,
            final(self).complete,
    {
        self.complete = true;
    }

    /// Records a whole transfer: every chunk in order, then completion.
    /// Afterwards the counter holds exactly the sum of the chunk lengths.
    pub fn record_transfer(&mut self, chunks: &Vec<u64>)
        requires
            !old(self).complete,
            old(self).downloaded + sum_chunks(chunks@) <= u64::MAX,
        ensures
            final(self).downloaded == old(self).downloaded + sum_chunks(chunks@),
            final(self).total == old(self).total,
            final(self).complete,
    {
        let mut i: usize = 0;
        while i < chunks.len()
            invariant
                i <= chunks.len(),
                !self.complete,
                self.total == old(self).total,
                self.downloaded == old(self).downloaded + sum_chunks(chunks@.take(i as int)),
                old(self).downloaded + sum_chunks(chunks@) <= u64::MAX,
            decreases chunks.len() - i,
        {
            proof {
                lemma_sum_chunks_take_step(chunks@, i as int);
                lemma_sum_chunks_take_bound(chunks@, i + 1);
            }
            self.on_chunk(chunks[i]);
            i = i + 1;
        }
        proof {
            assert(chunks@.take(chunks@.len() as int) =~= chunks@);
        }
        self.mark_complete();
    }
}

/// Taking one more chunk adds exactly that chunk's length to the sum.
pub proof fn lemma_sum_chunks_take_step(chunks: Seq<u64>, i: int)
    requires
        0 <= i < chunks.len(),
    ensures
        sum_chunks(chunks.take(i + 1)) == sum_chunks(chunks.take(i)) + chunks[i],
{
    assert(chunks.take(i + 1).drop_last() =~= chunks.take(i));
    assert(chunks.take(i + 1).last() == chunks[i]);
}

/// The sum of a prefix never exceeds the sum of the whole sequence.
pub proof fn lemma_sum_chunks_take_bound(chunks: Seq<u64>, i: int)
    requires
        0 <= i <= chunks.len(),
    ensures
        sum_chunks(chunks.take(i)) <= sum_chunks(chunks),
    decreases chunks.len() - i,
{
    if i < chunks.len() {
        lemma_sum_chunks_take_step(chunks, i);
        lemma_sum_chunks_take_bound(chunks, i + 1);
    } else {
        assert(chunks.take(i) =~= chunks);
    }
}

} // verus!
