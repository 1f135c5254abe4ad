//! The decisions of the loop that waits for the next GPS reading.
//!
//! The loop reads the byte source and the clock, so it runs in the
//! application; each of its choices is made here. One round of the loop:
//! give up when the wait has expired; handle a block that is still buffered
//! (`after_drain`); warn when the receiver has been silent for long; read
//! (`after_read`); decode what was read (`after_decode`).
use vstd::prelude::*;

use crate::gps::GpsReading;
use crate::sbf::FeedOutcome;

verus! {

/// How long the loop waits for a usable fix, in nanoseconds.
pub const MAX_WAIT_FOR_FIX_NANOS: u128 = 1_500_000_000;

/// How long the receiver may stay silent, in nanoseconds, before the loop
/// warns, and how long it waits between two such warnings.
pub const SILENCE_WARNING_NANOS: u128 = 1_500_000_000;

/// Size of the buffer the byte source is read into.
pub const READ_BUFFER_SIZE: usize = 8192;

/// Whether the loop gives up, `elapsed_nanos` after it started.
pub fn fix_wait_expired(elapsed_nanos: u128) -> (expired: bool)
    ensures
        expired == (elapsed_nanos > MAX_WAIT_FOR_FIX_NANOS),
{
    elapsed_nanos > MAX_WAIT_FOR_FIX_NANOS
}

/// Whether the loop warns that the receiver is silent, given the time since
/// bytes last arrived and the time since the last such warning.
pub fn silence_warning_due(since_data_nanos: u128, since_warning_nanos: u128) -> (due: bool)
    ensures
        due == (since_data_nanos > SILENCE_WARNING_NANOS && since_warning_nanos > SILENCE_WARNING_NANOS),
{
    since_data_nanos > SILENCE_WARNING_NANOS && since_warning_nanos > SILENCE_WARNING_NANOS
}

/// What a read of the byte source gave.
#[derive(Clone, Copy, Debug, PartialEq, Eq, Structural)]
pub enum ReadOutcome {
    /// This many bytes; zero at the end of the stream.
    Read(usize),
    /// No bytes yet: the read timed out or would block.
    NoDataYet,
    /// Any other read error.
    Failed,
}

/// The next move of the loop.
#[derive(Clone, Copy, Debug)]
pub enum FetchStep {
    /// Stop and hand out this reading.
    Return(GpsReading),
    /// Stop without a reading.
    GiveUp,
    /// Start the next round.
    Restart,
    /// Go on to read the byte source.
    ReadMore,
    /// Decode this many bytes just read.
    Decode(usize),
}

/// The move after handling a block still buffered in the parser: hand out a
/// reading, start a new round after a block without one, and read when no
/// block was buffered.
pub fn after_drain(out: FeedOutcome) -> (step: FetchStep)
    ensures
        match out {
            FeedOutcome::NoMessage => step is ReadMore,
            FeedOutcome::Handled => step is Restart,
            FeedOutcome::Reading(r) => step == FetchStep::Return(r),
        },
{
    match out {
        FeedOutcome::NoMessage => FetchStep::ReadMore,
        FeedOutcome::Handled => FetchStep::Restart,
        FeedOutcome::Reading(r) => FetchStep::Return(r),
    }
}

/// The move after a read: give up at the end of the stream and on a read
/// error, try again when no bytes were ready, decode the bytes otherwise.
pub fn after_read(outcome: ReadOutcome) -> (step: FetchStep)
    ensures
        match outcome {
            ReadOutcome::Read(n) => if n == 0 {
                step is GiveUp
            } else {
                step == FetchStep::Decode(n)
            },
            ReadOutcome::NoDataYet => step is Restart,
            ReadOutcome::Failed => step is GiveUp,
        },
{
    match outcome {
        ReadOutcome::Read(n) => if n == 0 {
            FetchStep::GiveUp
        } else {
            FetchStep::Decode(n)
        },
        ReadOutcome::NoDataYet => FetchStep::Restart,
        ReadOutcome::Failed => FetchStep::GiveUp,
    }
}

/// The move after decoding fresh bytes: hand out a reading, or start a new
/// round.
pub fn after_decode(out: FeedOutcome) -> (step: FetchStep)
    ensures
        match out {
            FeedOutcome::Reading(r) => step == FetchStep::Return(r),
            _ => step is Restart,
        },
{
    match out {
        FeedOutcome::Reading(r) => FetchStep::Return(r),
        _ => FetchStep::Restart,
    }
}

} // verus!
