//! Decision logic of the seekable decoder's callback bridge and of its
//! sample-read path.
//!
//! In seekable mode the codec owns the buffering and pulls bytes through a
//! demand-read callback, repositions the source through a seek callback,
//! and reports sample reads with a trailing error field.  The callbacks
//! themselves perform I/O and so live with the caller; every decision they
//! make — when to keep reading, what count or sentinel to return, how to
//! classify a short sample read — is taken here, with contracts.

use vstd::prelude::*;

use crate::error::{from_mini_error, mini_error, Error};

verus! {

/// What the demand-read loop does after one read against the source.
pub enum BridgeStep {
    /// The demand is not yet satisfied: read again, with this many bytes
    /// placed so far.
    More(usize),
    /// Stop and hand this count (or the error sentinel) back to the codec.
    Done(u64),
}

/// The demand-read policy after one read: a failed read stops with the
/// sentinel `u64::MAX` (distinct from every legitimate count); a read of
/// zero bytes means the source is exhausted and stops with the bytes placed
/// so far; otherwise the loop continues until exactly `size` bytes are
/// placed.
pub open spec fn demand_read_spec(
    filled: usize,
    size: usize,
    read: Result<usize, std::io::Error>,
) -> BridgeStep {
    match read {
        Err(_) => BridgeStep::Done(u64::MAX),
        Ok(n) => if n == 0 {
            BridgeStep::Done(filled as u64)
        } else if filled + n >= size {
            BridgeStep::Done(size as u64)
        } else {
            BridgeStep::More((filled + n) as usize)
        },
    }
}

/// One turn of the demand-read loop: `filled` bytes are already placed, the
/// codec demanded `size`, and the source's read just returned `read`.
/// A read never returns more than it was asked for, which is what the last
/// precondition records.
pub fn demand_read_step(filled: usize, size: usize, read: Result<usize, std::io::Error>) -> (s:
    BridgeStep)
    requires
        filled < size,
        read matches Ok(n) ==> n <= size - filled,
    ensures
        s == demand_read_spec(filled, size, read),
{
    match read {
        Err(_) => BridgeStep::Done(u64::MAX),
        Ok(n) => if n == 0 {
            BridgeStep::Done(filled as u64)
        } else if filled + n >= size {
            BridgeStep::Done(size as u64)
        } else {
            BridgeStep::More(filled + n)
        },
    }
}

/// The error sentinel is distinguishable: as long as the source's reads
/// stay within what was demanded (and a demand is no longer than a buffer
/// can be), no successful turn of the loop ever returns `u64::MAX`.
pub proof fn lemma_sentinel_distinct(filled: usize, size: usize, read: Result<
    usize,
    std::io::Error,
>)
    requires
        filled < size,
        size <= isize::MAX as usize,
        read is Ok,
    ensures
        demand_read_spec(filled, size, read) != BridgeStep::Done(u64::MAX),
{
}

/// A whole demand-read call, as a fold of [`demand_read_spec`] over the
/// results of its successive reads against the source.  `None` means the
/// reads given have not yet settled the call (the loop would read again).
pub open spec fn demand_run(
    filled: usize,
    size: usize,
    reads: Seq<Result<usize, std::io::Error>>,
) -> Option<u64>
    decreases reads.len(),
{
    if filled >= size {
        Some(size as u64)
    } else if reads.len() == 0 {
        None
    } else {
        match demand_read_spec(filled, size, reads[0]) {
            BridgeStep::Done(v) => Some(v),
            BridgeStep::More(p) => demand_run(p, size, reads.drop_first()),
        }
    }
}

/// Whatever the source does, a settled demand-read call returns either a
/// legitimate count — never more than the codec demanded — or the error
/// sentinel, and nothing in between.
pub proof fn lemma_demand_run_bounded(
    filled: usize,
    size: usize,
    reads: Seq<Result<usize, std::io::Error>>,
)
    requires
        filled <= size,
    ensures
        demand_run(filled, size, reads) matches Some(v) ==> v <= size || v == u64::MAX,
    decreases reads.len(),
{
    if filled < size && reads.len() > 0 {
        match demand_read_spec(filled, size, reads[0]) {
            BridgeStep::Done(_) => {},
            BridgeStep::More(p) => {
                lemma_demand_run_bounded(p, size, reads.drop_first());
            },
        }
    }
}

/// As long as every read against the source succeeds, a settled
/// demand-read call never returns the error sentinel: it reports the full
/// demand, or the shorter count at which the source was exhausted.
pub proof fn lemma_demand_run_sentinel_only_on_failure(
    filled: usize,
    size: usize,
    reads: Seq<Result<usize, std::io::Error>>,
)
    requires
        filled <= size,
        size <= isize::MAX as usize,
        forall|i: int| 0 <= i < reads.len() ==> (#[trigger] reads[i]) is Ok,
    ensures
        demand_run(filled, size, reads) matches Some(v) ==> v <= size,
    decreases reads.len(),
{
    if filled < size && reads.len() > 0 {
        match demand_read_spec(filled, size, reads[0]) {
            BridgeStep::Done(_) => {},
            BridgeStep::More(p) => {
                lemma_demand_run_sentinel_only_on_failure(p, size, reads.drop_first());
            },
        }
    }
}

/// A failed read settles the call at once with the sentinel: no further
/// read is issued against the source.
pub proof fn lemma_demand_failure_aborts(
    filled: usize,
    size: usize,
    reads: Seq<Result<usize, std::io::Error>>,
)
    requires
        filled < size,
        reads.len() >= 1,
        reads[0] is Err,
    ensures
        demand_run(filled, size, reads) == Some(u64::MAX),
{
}

/// The seek callback's status mapping: a successful reposition reports 0 to
/// the codec, a failed one reports -1.
pub fn seek_result(outcome: Result<u64, std::io::Error>) -> (code: i32)
    ensures
        outcome is Ok ==> code == 0,
        outcome is Err ==> code == -1,
{
    match outcome {
        Ok(_) => 0,
        Err(_) => -1,
    }
}

/// Classify a sample read in seekable mode: `filled` of `requested` samples
/// were placed.  A full read succeeds outright; a short read succeeds with
/// the short count (possibly 0, the end of the stream) only when the
/// codec's trailing error field is clear, and otherwise translates that
/// field.  A report of more samples than were requested is a fatal
/// consistency violation that the caller must not classify.
pub fn classify_read(filled: usize, requested: usize, last_error: i32) -> (r: Result<usize, Error>)
    requires
        filled <= requested,
    ensures
        filled == requested ==> r == Ok::<usize, Error>(filled),
        filled < requested && last_error == 0 ==> r == Ok::<usize, Error>(filled),
        filled < requested && last_error != 0 ==> r == Err::<usize, Error>(
            mini_error(last_error as int),
        ),
{
    if filled == requested {
        Ok(filled)
    } else {
        match from_mini_error(last_error) {
            Ok(()) => Ok(filled),
            Err(e) => Err(e),
        }
    }
}

} // verus!
