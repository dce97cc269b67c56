//! The sequential decoding engine: ring-buffer refill bookkeeping, exactly-
//! once trimming of consumed bytes, classification of the codec's report,
//! and the retry policy of the frame-extraction loop.
//!
//! The external codec and the byte source stay outside: the caller reads
//! bytes and runs the codec, and hands the results to [`DecoderCore`] and
//! [`next_step`], which decide everything else.

use vstd::prelude::*;

use slice_ring_buffer::SliceRingBuffer;

use crate::error::Error;
use crate::ring::{ring_as_slice, ring_bytes, ring_extend, ring_len, ring_new, ring_truncate_front};
use crate::{Frame, FrameInfo, BUFFER_SIZE, REFILL_TRIGGER};

verus! {

/// The byte-buffering core of the sequential decoder: the ring buffer, with
/// an account of every byte that ever entered or left it.
pub struct DecoderCore {
    ring: SliceRingBuffer<u8>,
    total_in: Ghost<nat>,
    total_out: Ghost<nat>,
}

impl View for DecoderCore {
    type V = Seq<u8>;

    /// The bytes currently buffered, oldest first.
    closed spec fn view(&self) -> Seq<u8> {
        ring_bytes(self.ring)
    }
}

impl DecoderCore {
    /// Total bytes ever appended by refills.
    pub closed spec fn appended(self) -> nat {
        self.total_in@
    }

    /// Total bytes ever trimmed from the head after decode calls.
    pub closed spec fn consumed(self) -> nat {
        self.total_out@
    }

    /// Every byte read from the source is either still buffered or was
    /// consumed: the buffer neither loses nor invents bytes.
    pub open spec fn wf(self) -> bool {
        self.consumed() + self@.len() == self.appended()
    }

    /// An empty core, with room reserved for the refill policy.
    pub fn new() -> (r: Self)
        ensures
            r.wf(),
            r@ == Seq::<u8>::empty(),
            r.appended() == 0,
            r.consumed() == 0,
    {
        DecoderCore {
            ring: ring_new(BUFFER_SIZE),
            total_in: Ghost(0nat),
            total_out: Ghost(0nat),
        }
    }

    /// Number of bytes currently buffered.
    pub fn len(&self) -> (n: usize)
        ensures
            n == self@.len(),
    {
        ring_len(&self.ring)
    }

    /// Whether the buffer is below the low-water mark, so that the next
    /// decode attempt must be preceded by one refill.
    pub fn needs_refill(&self) -> (r: bool)
        ensures
            r <==> self@.len() < REFILL_TRIGGER,
    {
        let n: usize = ring_len(&self.ring);
        n < REFILL_TRIGGER
    }

    /// The buffered bytes, oldest first: what a decode call is offered.
    pub fn contents(&self) -> (s: &[u8])
        ensures
            s@ == self@,
    {
        ring_as_slice(&self.ring)
    }

    /// Append the bytes one refill actually read at the tail of the buffer.
    /// A short read (any `chunk` length, down to a single byte) is normal
    /// and accumulates without loss.
    pub fn push_bytes(&mut self, chunk: &[u8])
        requires
            old(self).wf(),
            old(self)@.len() + chunk@.len() <= isize::MAX as usize,
        ensures
            final(self).wf(),
            final(self)@ == old(self)@ + chunk@,
            final(self).appended() == old(self).appended() + chunk@.len(),
            final(self).consumed() == old(self).consumed(),
    {
        ring_extend(&mut self.ring, chunk);
        self.total_in = Ghost(self.total_in@ + chunk@.len());
    }

    /// Remove exactly `n` bytes from the head of the buffer: the bytes the
    /// codec reported consuming.
    pub fn consume(&mut self, n: usize)
        requires
            old(self).wf(),
            n <= old(self)@.len(),
        ensures
            final(self).wf(),
            final(self)@ == old(self)@.skip(n as int),
            final(self).appended() == old(self).appended(),
            final(self).consumed() == old(self).consumed() + n,
    {
        let len: usize = ring_len(&self.ring);
        let keep: usize = len - n;
        ring_truncate_front(&mut self.ring, keep);
        self.total_out = Ghost(self.total_out@ + n as nat);
    }

    /// Settle one decode call: trim the buffer by exactly the number of
    /// bytes the codec consumed, and classify its report.  The caller must
    /// already have rejected a report of more bytes than were offered —
    /// that is a fatal consistency violation, not an error value.
    pub fn apply_decode(&mut self, samples: usize, info: &FrameInfo, pcm: Vec<i16>) -> (r: Result<
        Frame,
        Error,
    >)
        requires
            old(self).wf(),
            0 <= info.frame_bytes,
            info.frame_bytes as int <= old(self)@.len(),
            0 <= info.channels,
            0 <= info.layer,
        ensures
            final(self).wf(),
            final(self)@ == old(self)@.skip(info.frame_bytes as int),
            final(self).appended() == old(self).appended(),
            final(self).consumed() == old(self).consumed() + info.frame_bytes as int,
            samples > 0 ==> r == Ok::<Frame, Error>(frame_of(samples, *info, pcm)),
            samples == 0 && info.frame_bytes > 0 ==> r == Err::<Frame, Error>(Error::SkippedData),
            samples == 0 && info.frame_bytes <= 0 ==> r == Err::<Frame, Error>(
                Error::InsufficientData,
            ),
    {
        let n: usize = info.frame_bytes as usize;
        self.consume(n);
        finish_frame(samples, info, pcm)
    }
}

/// The frame a successful decode call yields, assembled from the codec's
/// report and the decoded samples.
pub open spec fn frame_of(samples: usize, info: FrameInfo, pcm: Vec<i16>) -> Frame {
    Frame {
        data: pcm,
        sample_rate: info.hz,
        channels: info.channels as usize,
        layer: info.layer as usize,
        bitrate: info.bitrate_kbps,
    }
}

/// Classify one decode call's report: samples mean a frame; consumed bytes
/// without samples mean foreign data was skipped; neither means the buffer
/// held too little to decide.
pub fn finish_frame(samples: usize, info: &FrameInfo, pcm: Vec<i16>) -> (r: Result<Frame, Error>)
    requires
        0 <= info.channels,
        0 <= info.layer,
    ensures
        samples > 0 ==> r == Ok::<Frame, Error>(frame_of(samples, *info, pcm)),
        samples == 0 && info.frame_bytes > 0 ==> r == Err::<Frame, Error>(Error::SkippedData),
        samples == 0 && info.frame_bytes <= 0 ==> r == Err::<Frame, Error>(Error::InsufficientData),
{
    let frame = Frame {
        data: pcm,
        sample_rate: info.hz,
        channels: info.channels as usize,
        layer: info.layer as usize,
        bitrate: info.bitrate_kbps,
    };
    if samples == 0 {
        if info.frame_bytes > 0 {
            Err(Error::SkippedData)
        } else {
            Err(Error::InsufficientData)
        }
    } else {
        Ok(frame)
    }
}

/// What one turn of the frame-extraction loop does next.
pub enum Step {
    /// A frame was decoded: hand it to the caller.
    Deliver(Frame),
    /// The run is over: hand the caller this terminal error.
    Terminate(Error),
    /// An internal-only signal was absorbed: refill and try again.
    Retry,
}

/// The two decode outcomes that the loop absorbs instead of surfacing.
pub open spec fn retryable(e: Error) -> bool {
    e is InsufficientData || e is SkippedData
}

/// A decode outcome that made no progress for the caller.
pub open spec fn no_progress(outcome: Result<Frame, Error>) -> bool {
    outcome matches Err(e) && retryable(e)
}

/// The loop policy of `next_frame`: given how many bytes the refill before
/// the decode call read (`None` when the buffer was full enough to skip the
/// refill) and the decode outcome, decide the loop's next move.
pub open spec fn next_step_spec(bytes_read: Option<usize>, outcome: Result<Frame, Error>) -> Step {
    match outcome {
        Ok(frame) => Step::Deliver(frame),
        Err(e) => if retryable(e) {
            if bytes_read == Some(0usize) {
                Step::Terminate(Error::Eof)
            } else {
                Step::Retry
            }
        } else {
            Step::Terminate(e)
        },
    }
}

/// One turn of the frame-extraction loop, as [`next_step_spec`] says: a
/// frame is delivered; an absorbed signal retries, or terminates with `Eof`
/// when the most recent refill read nothing; any other error terminates at
/// once.
pub fn next_step(bytes_read: Option<usize>, outcome: Result<Frame, Error>) -> (s: Step)
    ensures
        s == next_step_spec(bytes_read, outcome),
{
    match outcome {
        Ok(frame) => Step::Deliver(frame),
        Err(Error::InsufficientData) | Err(Error::SkippedData) => {
            if let Some(0) = bytes_read {
                Step::Terminate(Error::Eof)
            } else {
                Step::Retry
            }
        },
        Err(e) => Step::Terminate(e),
    }
}

/// Frame accounting: every byte the refills ever read from the source is
/// accounted for — it was either consumed by a decode call or still sits in
/// the buffer as the undecoded remainder.
pub proof fn lemma_frame_accounting(core: DecoderCore)
    requires
        core.wf(),
    ensures
        core.appended() == core.consumed() + core@.len(),
{
}

/// EOF comes exactly from a drained source: the loop terminates with
/// [`Error::Eof`] if and only if the decode call made no progress and the
/// refill just before it read zero bytes.  (A decode call itself never
/// reports `Eof`, which the precondition records.)
pub proof fn lemma_eof_exactly_at_drain(bytes_read: Option<usize>, outcome: Result<Frame, Error>)
    requires
        outcome != Err::<Frame, Error>(Error::Eof),
    ensures
        next_step_spec(bytes_read, outcome) == Step::Terminate(Error::Eof) <==> (bytes_read
            == Some(0usize) && no_progress(outcome)),
{
}

/// EOF is a terminal, idempotent state: with the source still exhausted
/// (the refill reads zero bytes again) and the codec again making no
/// progress on the unchanged buffer, the loop returns `Eof` again.
pub proof fn lemma_eof_terminal(outcome: Result<Frame, Error>)
    requires
        no_progress(outcome),
    ensures
        next_step_spec(Some(0usize), outcome) == Step::Terminate(Error::Eof),
{
}

/// A fatal decode outcome terminates the loop at once with that same
/// error, whatever the refill read: no retry follows it, so nothing is
/// read from — or re-offered to — the source after the failing bytes.
pub proof fn lemma_fatal_stops(bytes_read: Option<usize>, outcome: Result<Frame, Error>)
    requires
        outcome matches Err(e) && !retryable(e),
    ensures
        outcome matches Err(e) && next_step_spec(bytes_read, outcome) == Step::Terminate(e),
{
}

/// The two internal-only signals are classification states of the loop,
/// not results: no turn ever hands the caller `InsufficientData` or
/// `SkippedData` — they are absorbed into a retry or folded into `Eof`.
pub proof fn lemma_internal_signals_absorbed(
    bytes_read: Option<usize>,
    outcome: Result<Frame, Error>,
)
    ensures
        next_step_spec(bytes_read, outcome) != Step::Terminate(Error::InsufficientData),
        next_step_spec(bytes_read, outcome) != Step::Terminate(Error::SkippedData),
{
}

/// A whole run of the loop, as a fold of [`next_step_spec`] over the
/// refill/decode events of its successive turns: the first event that does
/// not retry decides the run.
pub open spec fn pump(events: Seq<(Option<usize>, Result<Frame, Error>)>) -> Step
    decreases events.len(),
{
    if events.len() == 0 {
        Step::Retry
    } else if next_step_spec(events[0].0, events[0].1) is Retry {
        pump(events.drop_first())
    } else {
        next_step_spec(events[0].0, events[0].1)
    }
}

/// Skip absorption: a run whose turns first absorb any stretch of
/// non-frame data (skipped or still-insufficient, with the source not yet
/// drained) and then decode a frame delivers exactly that frame from the
/// one call — the filler never surfaces to the caller.
pub proof fn lemma_skip_absorption(
    events: Seq<(Option<usize>, Result<Frame, Error>)>,
    frame: Frame,
)
    requires
        events.len() >= 1,
        forall|i: int|
            0 <= i < events.len() - 1 ==> no_progress((#[trigger] events[i]).1) && events[i].0
                != Some(0usize),
        events[events.len() - 1].1 == Ok::<Frame, Error>(frame),
    ensures
        pump(events) == Step::Deliver(frame),
    decreases events.len(),
{
    if events.len() == 1 {
    } else {
        assert(no_progress(events[0].1) && events[0].0 != Some(0usize));
        let rest = events.drop_first();
        assert forall|i: int| 0 <= i < rest.len() - 1 implies no_progress(
            (#[trigger] rest[i]).1,
        ) && rest[i].0 != Some(0usize) by {
            assert(rest[i] == events[i + 1]);
        }
        assert(rest[rest.len() - 1] == events[events.len() - 1]);
        lemma_skip_absorption(rest, frame);
    }
}

/// A fatal first event decides the whole run immediately: no later event —
/// no further refill, no further decode call — is consulted.
pub proof fn lemma_fatal_run(events: Seq<(Option<usize>, Result<Frame, Error>)>)
    requires
        events.len() >= 1,
        events[0].1 matches Err(e) && !retryable(e),
    ensures
        events[0].1 matches Err(e) && pump(events) == Step::Terminate(e),
{
}

} // verus!
