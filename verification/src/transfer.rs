//! What a writer asks of the driver that owns the stream, and what the
//! driver reports back.

use crate::status::FileWriterError;
use vstd::prelude::*;

verus! {

/// One piece of work on the stream.
#[derive(Debug, PartialEq, Eq)]
pub enum IoStep {
    /// Put these bytes, which were waiting in the buffer, on the stream.
    Drain(Vec<u8>),
    /// Put the payload with this number on the stream, straight from the
    /// caller's memory. A single write has one payload, number 0; a batch
    /// numbers its descriptors from 0.
    Payload(usize),
    /// Flush the stream.
    Sync,
}

pub enum IoStepView {
    Drain(Seq<u8>),
    Payload(nat),
    Sync,
}

impl View for IoStep {
    type V = IoStepView;

    open spec fn view(&self) -> IoStepView {
        match self {
            IoStep::Drain(bytes) => IoStepView::Drain(bytes@),
            IoStep::Payload(index) => IoStepView::Payload(*index as nat),
            IoStep::Sync => IoStepView::Sync,
        }
    }
}

/// The operation that a transfer belongs to. It decides what a failed step
/// means for the writer and which status reports it.
#[derive(Debug, Clone, Copy, PartialEq, Eq, Structural)]
pub enum Operation {
    Write,
    Flush,
    Resize,
    Close,
}

/// The steps that an operation leaves to the driver, in the order in which
/// they have to be carried out, and the status that the operation ends with
/// once all of them have been.
#[derive(Debug, PartialEq, Eq)]
pub struct Transfer {
    pub steps: Vec<IoStep>,
    pub operation: Operation,
    pub verdict: FileWriterError,
}

pub struct TransferView {
    pub steps: Seq<IoStepView>,
    pub operation: Operation,
    pub verdict: FileWriterError,
}

/// How far the driver got with a transfer.
#[derive(Debug, Clone, Copy, PartialEq, Eq, Structural)]
pub enum Outcome {
    /// Every step was carried out.
    Completed,
    /// The step with this number failed after `written` of its bytes had
    /// reached the stream; no later step was tried.
    Failed { step: usize, written: usize },
}

pub open spec fn steps_view(steps: Seq<IoStep>) -> Seq<IoStepView> {
    steps.map_values(|step: IoStep| step@)
}

impl View for Transfer {
    type V = TransferView;

    open spec fn view(&self) -> TransferView {
        TransferView {
            steps: steps_view(self.steps@),
            operation: self.operation,
            verdict: self.verdict,
        }
    }
}

/// The transfer of an operation that is over before any work on the stream.
pub open spec fn at_once(operation: Operation, verdict: FileWriterError) -> TransferView {
    TransferView { steps: Seq::empty(), operation, verdict }
}

/// The bytes that one step puts on the stream, given the payloads of the
/// request that it serves.
pub open spec fn step_bytes(step: IoStepView, payloads: Seq<Seq<u8>>) -> Seq<u8> {
    match step {
        IoStepView::Drain(bytes) => bytes,
        IoStepView::Payload(index) => payloads[index as int],
        IoStepView::Sync => Seq::empty(),
    }
}

/// The bytes that reach the stream, in order, when all steps are carried out.
pub open spec fn emitted(steps: Seq<IoStepView>, payloads: Seq<Seq<u8>>) -> Seq<u8>
    decreases steps.len(),
{
    if steps.len() == 0 {
        Seq::empty()
    } else {
        emitted(steps.drop_last(), payloads) + step_bytes(steps.last(), payloads)
    }
}

/// The first `count` of some bytes, or all of them where there are fewer.
pub open spec fn first_of(bytes: Seq<u8>, count: nat) -> Seq<u8> {
    if count <= bytes.len() {
        bytes.take(count as int)
    } else {
        bytes
    }
}

/// The bytes that have reached the stream when the driver reports: all that
/// the steps emit after a completed transfer; after a failed step, what the
/// steps before it emit and the part of its own bytes that got through.
pub open spec fn delivered(
    steps: Seq<IoStepView>,
    payloads: Seq<Seq<u8>>,
    outcome: Outcome,
) -> Seq<u8> {
    match outcome {
        Outcome::Completed => emitted(steps, payloads),
        Outcome::Failed { step, written } => emitted(steps.take(step as int), payloads)
            + first_of(step_bytes(steps[step as int], payloads), written as nat),
    }
}

/// The part of a drained run that a failed step left behind. A payload that
/// failed on its way to the stream leaves nothing with the writer, and
/// neither does a report that names no step of the transfer or more bytes
/// than the step holds.
pub open spec fn unwritten(steps: Seq<IoStepView>, step: nat, written: nat) -> Seq<u8> {
    if step < steps.len() {
        match steps[step as int] {
            IoStepView::Drain(bytes) => if written <= bytes.len() {
                bytes.skip(written as int)
            } else {
                Seq::empty()
            },
            _ => Seq::empty(),
        }
    } else {
        Seq::empty()
    }
}

/// The status that tells of a failed step.
pub open spec fn failure_status(operation: Operation) -> FileWriterError {
    match operation {
        Operation::Write | Operation::Flush => FileWriterError::FileWriteError,
        Operation::Resize | Operation::Close => FileWriterError::FileCloseError,
    }
}

impl Transfer {
    /// A transfer without steps.
    pub fn at_once(operation: Operation, verdict: FileWriterError) -> (transfer: Transfer)
        ensures
            transfer@ == at_once(operation, verdict),
    {
        let transfer = Transfer { steps: Vec::new(), operation, verdict };
        assert(transfer@.steps =~= Seq::empty());
        transfer
    }
}

} // verus!
