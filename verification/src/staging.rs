//! The buffering discipline: which bytes wait in the buffer, and which have
//! to go out before others can come in.

use crate::transfer::IoStepView;
use vstd::prelude::*;

verus! {

/// Every drained run among the steps fits a buffer of the given capacity.
pub open spec fn drains_fit(steps: Seq<IoStepView>, capacity: nat) -> bool {
    forall|i: int|
        0 <= i < steps.len() ==> (#[trigger] steps[i] matches IoStepView::Drain(bytes)
            ==> bytes.len() <= capacity)
}

/// The steps that empty a buffer: none where nothing waits in it.
pub open spec fn drain_steps(buffered: Seq<u8>) -> Seq<IoStepView> {
    if buffered.len() == 0 {
        Seq::empty()
    } else {
        seq![IoStepView::Drain(buffered)]
    }
}

/// Where a payload ends up: the steps it causes and what waits in the buffer
/// after them.
pub struct Staged {
    pub steps: Seq<IoStepView>,
    pub buffered: Seq<u8>,
}

/// The buffering discipline. A payload that would fill a whole buffer by
/// itself goes straight to the stream, behind whatever was waiting. A smaller
/// one joins the buffer if there is room for it; if not, the buffer is
/// drained first and the payload starts it anew.
pub open spec fn stage(buffered: Seq<u8>, capacity: nat, payload: Seq<u8>, index: nat) -> Staged {
    if payload.len() >= capacity {
        Staged {
            steps: drain_steps(buffered).push(IoStepView::Payload(index)),
            buffered: Seq::empty(),
        }
    } else if buffered.len() + payload.len() <= capacity {
        Staged { steps: Seq::empty(), buffered: buffered + payload }
    } else {
        Staged { steps: seq![IoStepView::Drain(buffered)], buffered: payload }
    }
}

/// The bypass: the buffer is drained and the stream flushed, then the payload
/// follows without passing through the buffer.
pub open spec fn stage_bypass(buffered: Seq<u8>, index: nat) -> Staged {
    Staged {
        steps: drain_steps(buffered).push(IoStepView::Sync).push(IoStepView::Payload(index)),
        buffered: Seq::empty(),
    }
}

} // verus!
