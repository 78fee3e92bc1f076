//! The end of an operation: the driver reports how far it got with the
//! transfer, and the writer is set to what that means for it.

use crate::handle::get_writer_mut;
use crate::staging::drains_fit;
use crate::status::FileWriterError;
use crate::transfer::{
    failure_status, steps_view, unwritten, IoStep, IoStepView, Operation, Outcome, Transfer,
    TransferView,
};
use crate::writer::{FileWriter, WriterView};
use vstd::prelude::*;

verus! {

/// What a writer is left with when a step of its transfer has failed. After
/// a write or a flush it holds the bytes that did not reach the stream and
/// stays usable; after a resize it is given up.
pub open spec fn after_failure(
    writer: WriterView,
    transfer: TransferView,
    step: nat,
    written: nat,
) -> WriterView {
    if writer.state is Invalid {
        writer
    } else {
        match transfer.operation {
            Operation::Write | Operation::Flush => writer.holding(
                unwritten(transfer.steps, step, written),
            ),
            Operation::Resize => writer.invalidated(),
            Operation::Close => writer,
        }
    }
}

/// The writer after the driver's report on a transfer.
pub open spec fn settled_writer(
    writer: WriterView,
    transfer: TransferView,
    outcome: Outcome,
) -> WriterView {
    match outcome {
        Outcome::Completed => writer,
        Outcome::Failed { step, written } => after_failure(
            writer,
            transfer,
            step as nat,
            written as nat,
        ),
    }
}

/// The status of an operation after the driver's report on its transfer.
pub open spec fn settled_status(transfer: TransferView, outcome: Outcome) -> FileWriterError {
    match outcome {
        Outcome::Completed => transfer.verdict,
        Outcome::Failed { .. } => failure_status(transfer.operation),
    }
}

/// A report speaks of a transfer if the step it names is one of the
/// transfer's and no more bytes are reported written than the step holds.
pub open spec fn reports_on(outcome: Outcome, transfer: TransferView) -> bool {
    outcome matches Outcome::Failed { step, written } ==> step < transfer.steps.len() && (
    transfer.steps[step as int] matches IoStepView::Drain(bytes) ==> written <= bytes.len())
}

/// A writer can take back what a transfer has drained from it. That is
/// asked of it where a step of a write or of a flush fails, so the drained
/// runs of such a transfer must fit the buffer.
pub open spec fn takes_back(writer: WriterView, transfer: TransferView) -> bool {
    (transfer.operation is Write || transfer.operation is Flush) ==> drains_fit(
        transfer.steps,
        writer.capacity,
    )
}

/// The bytes that the failed step of a transfer did not get to the stream.
fn left_behind(steps: Vec<IoStep>, step: usize, written: usize) -> (rest: Vec<u8>)
    ensures
        rest@ == unwritten(steps_view(steps@), step as nat, written as nat),
{
    let mut steps = steps;
    if step >= steps.len() {
        return Vec::new();
    }
    match steps.swap_remove(step) {
        IoStep::Drain(bytes) => {
            let mut bytes = bytes;
            if written <= bytes.len() {
                bytes.split_off(written)
            } else {
                Vec::new()
            }
        },
        _ => Vec::new(),
    }
}

/// Takes the driver's report on a transfer and gives the status of the
/// operation. After a completed transfer the writer stays as the operation
/// left it. After a failed step it is set to what the failure means for it.
/// A writer that was well formed, and is handed the transfer that it issued,
/// stays well formed.
pub fn file_writer_settle(
    handle: Option<&mut FileWriter>,
    transfer: Transfer,
    outcome: Outcome,
) -> (status: FileWriterError)
    ensures
        status == settled_status(transfer@, outcome),
        handle matches Some(w) ==> final(w)@ == settled_writer(w@, transfer@, outcome),
        handle matches Some(w) ==> (w@.wf() && takes_back(w@, transfer@) ==> final(w)@.wf()),
{
    match outcome {
        Outcome::Completed => transfer.verdict,
        Outcome::Failed { step, written } => {
            let operation = transfer.operation;
            match get_writer_mut(handle) {
                Ok(writer) => {
                    match operation {
                        Operation::Write | Operation::Flush => {
                            writer.restore(left_behind(transfer.steps, step, written));
                        },
                        Operation::Resize => {
                            writer.invalidate();
                        },
                        Operation::Close => {},
                    }
                },
                Err(_) => {},
            }
            match operation {
                Operation::Write | Operation::Flush => FileWriterError::FileWriteError,
                Operation::Resize | Operation::Close => FileWriterError::FileCloseError,
            }
        },
    }
}

} // verus!
