use vstd::prelude::*;
use crate::error::Error;
use crate::progress::{lemma_samples_push, samples_of, ProgressPayload, ProgressTracker};
use crate::response::{decode_response, json_parse_ok};

verus! {

/// The states one upload job steps through:
/// `Created -> Streaming -> Sent -> { Completed | Failed }`, with `Failed`
/// reachable from every non-terminal state.  `Streaming` is the only state
/// from which progress events emit; there is no cancelled state, and both
/// `Completed` and `Failed` are terminal.
pub enum UploadState {
    /// The job exists; the file has not been opened yet.
    Created,
    /// The file is open, its size snapshotted, and chunks are flowing.
    Streaming(ProgressTracker),
    /// The chunk source is exhausted; the response is awaited.
    Sent(ProgressTracker),
    /// The response decoded; the job finished with this value.
    Completed(serde_json::Value),
    /// The job failed; the failure aborts it outright.
    Failed(Error),
}

/// What the host's I/O observed, fed into the machine one event at a time.
/// The host performs the file and socket operations; the machine decides
/// what each outcome means for the job.
pub enum UploadEvent {
    /// The file opened; `total` is its size, snapshotted at open time.
    Opened { total: u64 },
    /// The file could not be opened (missing, unreadable, a directory).
    OpenFailed { message: String },
    /// One chunk of `len` bytes was produced and handed to the transport.
    Chunk { len: u64 },
    /// The file could not be read further.
    ReadFailed { message: String },
    /// The chunk source is exhausted; every byte has been produced.
    EndOfStream,
    /// The transport failed: DNS, connect, TLS, timeout, or a body that
    /// could not be streamed.
    TransportFailed { message: String },
    /// The full response body arrived from the transport.
    Response { body: Vec<u8> },
}

/// One upload job: the caller-supplied identifier and the state it is in.
pub struct UploadMachine {
    /// Caller-supplied identifier, bound into every emitted payload.
    pub id: u32,
    /// Where in its life the job stands.
    pub state: UploadState,
    /// Every progress payload handed out so far, in publication order.
    pub published: Ghost<Seq<ProgressPayload>>,
}

/// The transition relation of one upload job: how `post` and the emitted
/// payload follow from `pre` and the event.  A progress payload is emitted
/// exactly on a chunk produced while streaming; every failure moves the job
/// to `Failed` with the matching error kind; an event that does not belong
/// to the current state leaves the job unchanged, so a terminal job emits
/// nothing ever after.
pub open spec fn step_spec(
    pre: UploadMachine,
    event: UploadEvent,
    post: UploadMachine,
    emitted: Option<ProgressPayload>,
) -> bool {
    &&& post.id == pre.id
    &&& match (pre.state, event) {
        (UploadState::Created, UploadEvent::Opened { total }) => {
            &&& (post.state matches UploadState::Streaming(t)
                && t.id == pre.id
                && t.total == total
                && t.transferred == 0
                && t.history@ == Seq::<u64>::empty())
            &&& emitted is None
        },
        (UploadState::Created, UploadEvent::OpenFailed { message }) => {
            &&& post.state == UploadState::Failed(Error::Io(message))
            &&& emitted is None
        },
        (UploadState::Streaming(t), UploadEvent::Chunk { len }) => {
            &&& (post.state matches UploadState::Streaming(t2)
                && t2.id == t.id
                && t2.total == t.total
                && t2.transferred == t.transferred + len
                && t2.history@ == t.history@.push(len))
            &&& emitted == Some(ProgressPayload {
                id: t.id,
                progress: (t.transferred + len) as u64,
                total: t.total,
            })
        },
        (UploadState::Streaming(t), UploadEvent::ReadFailed { message }) => {
            &&& post.state == UploadState::Failed(Error::Io(message))
            &&& emitted is None
        },
        (UploadState::Streaming(t), UploadEvent::TransportFailed { message }) => {
            &&& post.state == UploadState::Failed(Error::Request(message))
            &&& emitted is None
        },
        (UploadState::Streaming(t), UploadEvent::EndOfStream) => {
            &&& post.state == UploadState::Sent(t)
            &&& emitted is None
        },
        (UploadState::Sent(t), UploadEvent::Response { body }) => {
            &&& if json_parse_ok(body@) {
                post.state is Completed
            } else {
                (post.state matches UploadState::Failed(e) && e is Request)
            }
            &&& emitted is None
        },
        (UploadState::Sent(t), UploadEvent::TransportFailed { message }) => {
            &&& post.state == UploadState::Failed(Error::Request(message))
            &&& emitted is None
        },
        _ => {
            &&& post == pre
            &&& emitted is None
        },
    }
}

impl UploadMachine {
    /// While chunks flow or the response is awaited, the byte counter equals
    /// the sum of the recorded chunk lengths, the tracker carries this job's
    /// identifier and snapshotted total, and what has been published is
    /// exactly one payload per recorded chunk, in chunk order, with the
    /// cumulative counts.  Before the file opens nothing has been published.
    pub open spec fn inv(self) -> bool {
        match self.state {
            UploadState::Created => self.published@ == Seq::<ProgressPayload>::empty(),
            UploadState::Streaming(t) => t.wf() && t.id == self.id
                && self.published@ == samples_of(t.id, t.total, t.history@),
            UploadState::Sent(t) => t.wf() && t.id == self.id
                && self.published@ == samples_of(t.id, t.total, t.history@),
            _ => true,
        }
    }

    /// A chunk recorded while streaming must not push the byte counter past
    /// the largest representable count; every other event is unconstrained.
    pub open spec fn event_fits(self, event: UploadEvent) -> bool {
        match (self.state, event) {
            (UploadState::Streaming(t), UploadEvent::Chunk { len }) =>
                t.transferred + len <= u64::MAX,
            _ => true,
        }
    }

    /// A fresh job for one invocation: nothing opened, nothing sent.
    pub fn new(id: u32) -> (m: UploadMachine)
        ensures
            m.inv(),
            m.id == id,
            m.state is Created,
            m.published@ == Seq::<ProgressPayload>::empty(),
    {
        UploadMachine { id, state: UploadState::Created, published: Ghost(Seq::empty()) }
    }

    /// Advances the job by one observed event and returns the progress
    /// payload to publish, if this event produced one.  The whole behaviour
    /// is `step_spec`: a payload is returned exactly for a chunk produced
    /// while streaming, failures carry their kind, and terminal states
    /// absorb every further event unchanged.
    pub fn step(&mut self, event: UploadEvent) -> (emitted: Option<ProgressPayload>)
        requires
            old(self).inv(),
            old(self).event_fits(event),
        ensures
            final(self).inv(),
            step_spec(*old(self), event, *final(self), emitted),
            emitted matches Some(p) ==> final(self).published@ == old(self).published@.push(p),
            emitted is None ==> final(self).published@ == old(self).published@,
    {
        let mut prev = UploadState::Created;
        core::mem::swap(&mut prev, &mut self.state);
        match (prev, event) {
            (UploadState::Created, UploadEvent::Opened { total }) => {
                self.state = UploadState::Streaming(ProgressTracker::new(self.id, total));
                proof {
                    assert(samples_of(self.id, total, Seq::<u64>::empty())
                        =~= Seq::<ProgressPayload>::empty());
                }
                None
            },
            (UploadState::Created, UploadEvent::OpenFailed { message }) => {
                self.state = UploadState::Failed(Error::Io(message));
                None
            },
            (UploadState::Streaming(mut t), UploadEvent::Chunk { len }) => {
                let ghost pre_history = t.history@;
                let p = t.record_chunk(len);
                self.state = UploadState::Streaming(t);
                self.published = Ghost(self.published@.push(p));
                proof {
                    lemma_samples_push(t.id, t.total, pre_history, len);
                }
                Some(p)
            },
            (UploadState::Streaming(_), UploadEvent::ReadFailed { message }) => {
                self.state = UploadState::Failed(Error::Io(message));
                None
            },
            (UploadState::Streaming(_), UploadEvent::TransportFailed { message }) => {
                self.state = UploadState::Failed(Error::Request(message));
                None
            },
            (UploadState::Streaming(t), UploadEvent::EndOfStream) => {
                self.state = UploadState::Sent(t);
                None
            },
            (UploadState::Sent(_), UploadEvent::Response { body }) => {
                match decode_response(&body) {
                    Ok(value) => {
                        self.state = UploadState::Completed(value);
                    },
                    Err(e) => {
                        self.state = UploadState::Failed(e);
                    },
                }
                None
            },
            (UploadState::Sent(_), UploadEvent::TransportFailed { message }) => {
                self.state = UploadState::Failed(Error::Request(message));
                None
            },
            (other, _) => {
                self.state = other;
                None
            },
        }
    }
}

/// For every job, the number of progress events published equals the number
/// of chunks produced: while chunks flow, and still once the chunk source
/// is exhausted, the published payloads are exactly one per recorded chunk,
/// in chunk order, with the cumulative byte counts.
pub proof fn lemma_published_matches_chunks(m: UploadMachine)
    requires
        m.inv(),
    ensures
        m.state matches UploadState::Streaming(t) ==> m.published@ == samples_of(
            t.id,
            t.total,
            t.history@,
        ) && m.published@.len() == t.history@.len(),
        m.state matches UploadState::Sent(t) ==> m.published@ == samples_of(
            t.id,
            t.total,
            t.history@,
        ) && m.published@.len() == t.history@.len(),
{
}

/// A progress event is emitted only for a chunk produced while streaming:
/// in particular none is emitted once the chunk source reports its end, and
/// none accompanies any failure.
pub proof fn lemma_no_event_outside_streaming(
    pre: UploadMachine,
    event: UploadEvent,
    post: UploadMachine,
    emitted: Option<ProgressPayload>,
)
    requires
        step_spec(pre, event, post, emitted),
        !(pre.state is Streaming && event is Chunk),
    ensures
        emitted is None,
{
}

/// A finished job is inert: from a completed or failed state every further
/// event leaves the job unchanged and emits no progress event.
pub proof fn lemma_terminal_states_absorb(
    pre: UploadMachine,
    event: UploadEvent,
    post: UploadMachine,
    emitted: Option<ProgressPayload>,
)
    requires
        step_spec(pre, event, post, emitted),
        pre.state is Completed || pre.state is Failed,
    ensures
        post == pre,
        emitted is None,
{
}

} // verus!
