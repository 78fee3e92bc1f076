//! Getting the bytes of one step onto a stream that may take them in parts.

use vstd::prelude::*;

verus! {

/// How one call for the stream to take bytes has ended.
#[derive(Debug, Clone, Copy, PartialEq, Eq, Structural)]
pub enum Attempt {
    /// The stream took this many of the bytes that it was offered.
    Took(usize),
    /// The call was interrupted before the stream took anything.
    Interrupted,
    /// The stream refused the bytes.
    Refused,
}

/// Where a step stands.
#[derive(Debug, Clone, Copy, PartialEq, Eq, Structural)]
pub enum Progress {
    /// The bytes from this position on are to be offered to the stream.
    Offer(usize),
    /// All bytes of the step are on the stream.
    Done,
    /// The step has failed with this many of its bytes on the stream.
    Failed(usize),
}

/// Where a step of `len` bytes stands before the first attempt: a step
/// without bytes is done without the stream being called.
pub open spec fn spec_begin(len: usize) -> Progress {
    if len == 0 {
        Progress::Done
    } else {
        Progress::Offer(0)
    }
}

/// Where a step of `len` bytes stands after an attempt to get on with it
/// from position `written`. A stream that takes nothing has failed; an
/// interrupted call is made again; bytes that were taken are not offered
/// again.
pub open spec fn spec_advance(len: usize, written: usize, attempt: Attempt) -> Progress {
    if written >= len {
        Progress::Done
    } else {
        match attempt {
            Attempt::Took(taken) => if taken == 0 {
                Progress::Failed(written)
            } else if written + taken >= len {
                Progress::Done
            } else {
                Progress::Offer((written + taken) as usize)
            },
            Attempt::Interrupted => Progress::Offer(written),
            Attempt::Refused => Progress::Failed(written),
        }
    }
}

impl Progress {
    pub fn begin(len: usize) -> (progress: Progress)
        ensures
            progress == spec_begin(len),
    {
        if len == 0 {
            Progress::Done
        } else {
            Progress::Offer(0)
        }
    }

    pub fn advance(len: usize, written: usize, attempt: Attempt) -> (progress: Progress)
        ensures
            progress == spec_advance(len, written, attempt),
            progress matches Progress::Offer(from) ==> written <= from < len,
            progress matches Progress::Failed(reached) ==> reached == written && written < len,
    {
        if written >= len {
            return Progress::Done;
        }
        match attempt {
            Attempt::Took(taken) => {
                if taken == 0 {
                    Progress::Failed(written)
                } else if taken >= len - written {
                    Progress::Done
                } else {
                    Progress::Offer(written + taken)
                }
            },
            Attempt::Interrupted => Progress::Offer(written),
            Attempt::Refused => Progress::Failed(written),
        }
    }
}

} // verus!
