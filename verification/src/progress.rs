use vstd::prelude::*;

verus! {

/// One progress notification: after each chunk the pair
/// `(bytes_transferred, total_bytes)` is published, tagged with the
/// caller-supplied job identifier that correlates events from one upload.
#[derive(Clone, Copy, Debug, PartialEq, Eq, Structural)]
pub struct ProgressPayload {
    /// Caller-supplied job identifier.
    pub id: u32,
    /// Cumulative bytes produced so far, including the chunk just produced.
    pub progress: u64,
    /// Total size of the file, fixed when the stream was constructed.
    pub total: u64,
}

/// The sum of a sequence of chunk lengths.
pub open spec fn sum_of(chunks: Seq<u64>) -> int
    decreases chunks.len(),
{
    if chunks.len() == 0 {
        0
    } else {
        sum_of(chunks.drop_last()) + chunks.last()
    }
}

/// The cumulative byte counts over a chunking: element `i` is the number of
/// bytes transferred once chunks `0..=i` have been produced.
pub open spec fn cumulative(chunks: Seq<u64>) -> Seq<int> {
    Seq::new(chunks.len(), |i: int| sum_of(chunks.take(i + 1)))
}

/// The full sequence of payloads that a job with identifier `id` and total
/// size `total` publishes over a chunking: one payload per chunk, in chunk
/// order, carrying the cumulative byte count.
pub open spec fn samples_of(id: u32, total: u64, chunks: Seq<u64>) -> Seq<ProgressPayload> {
    Seq::new(
        chunks.len(),
        |i: int| (ProgressPayload { id, progress: sum_of(chunks.take(i + 1)) as u64, total }),
    )
}

/// The progress accounting that decorates the chunk source: a running byte
/// counter plus the fixed total, with the ghost record of every chunk length
/// seen so far tying the counter to the chunking.
pub struct ProgressTracker {
    /// Caller-supplied job identifier, bound into every payload.
    pub id: u32,
    /// Total size of the file, fixed at construction and never changed.
    pub total: u64,
    /// Running count of bytes produced so far.
    pub transferred: u64,
    /// The lengths of the chunks recorded so far, in order.
    pub history: Ghost<Seq<u64>>,
}

impl ProgressTracker {
    /// The counter equals the sum of all recorded chunk lengths.
    pub open spec fn wf(self) -> bool {
        self.transferred == sum_of(self.history@)
    }

    /// Constructs the accounting for one job: counter at zero, total fixed.
    pub fn new(id: u32, total: u64) -> (t: ProgressTracker)
        ensures
            t.wf(),
            t.id == id,
            t.total == total,
            t.transferred == 0,
            t.history@ == Seq::<u64>::empty(),
    {
        ProgressTracker { id, total, transferred: 0, history: Ghost(Seq::empty()) }
    }

    /// Records one successfully produced chunk: the counter grows by the
    /// chunk's length and the payload for this chunk — and no other — is
    /// returned, to be published before the chunk is handed on.  The bytes of
    /// the chunk itself pass through unaltered; only their count enters here.
    pub fn record_chunk(&mut self, len: u64) -> (p: ProgressPayload)
        requires
            old(self).wf(),
            old(self).transferred + len <= u64::MAX,
        ensures
            final(self).wf(),
            final(self).id == old(self).id,
            final(self).total == old(self).total,
            final(self).transferred == old(self).transferred + len,
            final(self).history@ == old(self).history@.push(len),
            p == (ProgressPayload {
                id: old(self).id,
                progress: (old(self).transferred + len) as u64,
                total: old(self).total,
            }),
            p == samples_of(old(self).id, old(self).total, final(self).history@).last(),
    {
        self.transferred = self.transferred + len;
        self.history = Ghost(self.history@.push(len));
        let p = ProgressPayload { id: self.id, progress: self.transferred, total: self.total };
        proof {
            let h = self.history@;
            assert(h.take(h.len() as int) =~= h);
            assert(h.drop_last() =~= old(self).history@);
        }
        p
    }
}

/// Taking one more chunk adds exactly that chunk's length to the sum.
proof fn lemma_sum_take_succ(chunks: Seq<u64>, k: int)
    requires
        0 <= k < chunks.len(),
    ensures
        sum_of(chunks.take(k + 1)) == sum_of(chunks.take(k)) + chunks[k],
{
    assert(chunks.take(k + 1).drop_last() =~= chunks.take(k));
}

/// Over nonempty chunks, taking strictly more chunks gives a strictly
/// larger sum.
proof fn lemma_sum_take_increases(chunks: Seq<u64>, i: int, j: int)
    requires
        forall|k: int| 0 <= k < chunks.len() ==> chunks[k] > 0,
        0 <= i < j <= chunks.len(),
    ensures
        sum_of(chunks.take(i)) < sum_of(chunks.take(j)),
    decreases j - i,
{
    lemma_sum_take_succ(chunks, j - 1);
    if i < j - 1 {
        lemma_sum_take_increases(chunks, i, j - 1);
    }
}

/// Taking more chunks never lowers the sum.
proof fn lemma_sum_take_nondecreasing(chunks: Seq<u64>, i: int, j: int)
    requires
        0 <= i <= j <= chunks.len(),
    ensures
        sum_of(chunks.take(i)) <= sum_of(chunks.take(j)),
    decreases j - i,
{
    if i < j {
        lemma_sum_take_succ(chunks, j - 1);
        lemma_sum_take_nondecreasing(chunks, i, j - 1);
    }
}

/// Within one job the cumulative byte count never decreases, whatever the
/// chunk lengths: progress is monotone from the first event to the last.
pub proof fn lemma_progress_monotone(chunks: Seq<u64>, i: int, j: int)
    requires
        0 <= i <= j < chunks.len(),
    ensures
        cumulative(chunks)[i] <= cumulative(chunks)[j],
{
    lemma_sum_take_nondecreasing(chunks, i + 1, j + 1);
}

/// For every file of size `n` split into any valid chunking — every chunk
/// nonempty, the lengths summing to `n` — the sequence of `bytes_transferred`
/// values is strictly increasing, and its last value equals `n`.  (A file
/// whose size changes during the read breaks the summing premise; no
/// correction is attempted in that case.)
pub proof fn lemma_progress_strictly_increasing_to_total(chunks: Seq<u64>, n: int)
    requires
        forall|k: int| 0 <= k < chunks.len() ==> chunks[k] > 0,
        sum_of(chunks) == n,
    ensures
        forall|i: int, j: int| 0 <= i < j < chunks.len()
            ==> cumulative(chunks)[i] < cumulative(chunks)[j],
        chunks.len() > 0 ==> cumulative(chunks).last() == n,
{
    assert forall|i: int, j: int| 0 <= i < j < chunks.len()
        implies cumulative(chunks)[i] < cumulative(chunks)[j] by {
        lemma_sum_take_increases(chunks, i + 1, j + 1);
    }
    if chunks.len() > 0 {
        assert(chunks.take(chunks.len() as int) =~= chunks);
    }
}

/// Producing one more chunk appends exactly one payload to the published
/// sequence: the samples over `h.push(len)` are the samples over `h`
/// followed by a single payload carrying the new cumulative count.
pub proof fn lemma_samples_push(id: u32, total: u64, h: Seq<u64>, len: u64)
    ensures
        samples_of(id, total, h.push(len)) == samples_of(id, total, h).push(
            (ProgressPayload { id, progress: sum_of(h.push(len)) as u64, total }),
        ),
{
    let extended = h.push(len);
    assert forall|i: int| 0 <= i < h.len() implies samples_of(id, total, extended)[i]
        == samples_of(id, total, h)[i] by {
        assert(extended.take(i + 1) =~= h.take(i + 1));
    }
    assert(extended.take(extended.len() as int) =~= extended);
    assert(samples_of(id, total, extended) =~= samples_of(id, total, h).push(
        (ProgressPayload { id, progress: sum_of(extended) as u64, total }),
    ));
}

/// Exactly one progress event is published per produced chunk, in chunk
/// order, each carrying the job's identifier, the cumulative byte count and
/// the fixed total; none is produced for any other reason.
pub proof fn lemma_one_event_per_chunk(id: u32, total: u64, chunks: Seq<u64>)
    ensures
        samples_of(id, total, chunks).len() == chunks.len(),
        forall|i: int| 0 <= i < chunks.len() ==> samples_of(id, total, chunks)[i]
            == (ProgressPayload { id, progress: sum_of(chunks.take(i + 1)) as u64, total }),
{
}

} // verus!
