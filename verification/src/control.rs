//! Flushing, resizing and closing.

use crate::handle::{answered, get_writer_mut, usable, Issued};
use crate::settle::takes_back;
use crate::staging::drain_steps;
use crate::status::FileWriterError;
use crate::transfer::{at_once, IoStep, IoStepView, Operation, Transfer, TransferView};
use crate::writer::{FileWriter, WriterView};
use vstd::prelude::*;

verus! {

/// A flush: whatever waits in the buffer goes out, and the stream is flushed
/// behind it.
pub open spec fn spec_flush(writer: Option<WriterView>) -> Issued {
    if !usable(writer) {
        answered(writer, Operation::Flush, FileWriterError::InvalidHandle)
    } else {
        let w = writer->0;
        Issued {
            writer: Some(w.holding(Seq::empty())),
            transfer: TransferView {
                steps: drain_steps(w.buffered).push(IoStepView::Sync),
                operation: Operation::Flush,
                verdict: FileWriterError::Success,
            },
        }
    }
}

/// A resize: the buffer is drained and replaced by an empty one of `size`
/// bytes. A buffer without room is refused before the handle is looked at.
pub open spec fn spec_set_buffer_size(writer: Option<WriterView>, size: nat) -> Issued {
    if size == 0 {
        answered(writer, Operation::Resize, FileWriterError::InvalidData)
    } else if !usable(writer) {
        answered(writer, Operation::Resize, FileWriterError::InvalidHandle)
    } else {
        let w = writer->0;
        Issued {
            writer: Some(w.resized(size)),
            transfer: TransferView {
                steps: drain_steps(w.buffered),
                operation: Operation::Resize,
                verdict: FileWriterError::Success,
            },
        }
    }
}

/// A close: an open writer drains its buffer a last time; an unset handle
/// and a writer that was given up are reported as invalid.
pub open spec fn spec_close(writer: Option<WriterView>) -> TransferView {
    if !usable(writer) {
        at_once(Operation::Close, FileWriterError::InvalidHandle)
    } else {
        TransferView {
            steps: drain_steps(writer->0.buffered),
            operation: Operation::Close,
            verdict: FileWriterError::Success,
        }
    }
}

/// Sends what waits in the buffer to the stream without closing it.
pub fn file_writer_flush(handle: Option<&mut FileWriter>) -> (transfer: Transfer)
    ensures
        handle is None ==> (Issued { writer: None, transfer: transfer@ }) == spec_flush(None),
        handle matches Some(w) ==> (Issued { writer: Some(final(w)@), transfer: transfer@ })
            == spec_flush(Some(w@)),
        handle matches Some(w) ==> (w@.wf() ==> final(w)@.wf() && takes_back(
            final(w)@,
            transfer@,
        )),
{
    let writer = match get_writer_mut(handle) {
        Ok(writer) => writer,
        Err(status) => {
            return Transfer::at_once(Operation::Flush, status);
        },
    };
    let mut steps: Vec<IoStep> = Vec::new();
    writer.flush(&mut steps);
    Transfer { steps, operation: Operation::Flush, verdict: FileWriterError::Success }
}

/// Drains the buffer and replaces it by an empty one of `size` bytes.
pub fn file_writer_set_buffer_size(handle: Option<&mut FileWriter>, size: usize) -> (transfer:
    Transfer)
    ensures
        handle is None ==> (Issued { writer: None, transfer: transfer@ }) == spec_set_buffer_size(
            None,
            size as nat,
        ),
        handle matches Some(w) ==> (Issued { writer: Some(final(w)@), transfer: transfer@ })
            == spec_set_buffer_size(Some(w@), size as nat),
        handle matches Some(w) ==> (w@.wf() ==> final(w)@.wf() && takes_back(
            final(w)@,
            transfer@,
        )),
{
    if size == 0 {
        return Transfer::at_once(Operation::Resize, FileWriterError::InvalidData);
    }
    let writer = match get_writer_mut(handle) {
        Ok(writer) => writer,
        Err(status) => {
            return Transfer::at_once(Operation::Resize, status);
        },
    };
    let mut steps: Vec<IoStep> = Vec::new();
    writer.resize(size, &mut steps);
    Transfer { steps, operation: Operation::Resize, verdict: FileWriterError::Success }
}

/// Ends a writer. The handle is given up whatever the status: an open writer
/// leaves a last drain of its buffer to the driver, which then releases the
/// stream.
pub fn file_writer_close(handle: Option<FileWriter>) -> (transfer: Transfer)
    ensures
        transfer@ == spec_close(
            match handle {
                Some(w) => Some(w@),
                None => None,
            },
        ),
{
    match handle {
        Some(writer) => {
            if writer.is_valid() {
                let steps = writer.close();
                Transfer { steps, operation: Operation::Close, verdict: FileWriterError::Success }
            } else {
                Transfer::at_once(Operation::Close, FileWriterError::InvalidHandle)
            }
        },
        None => Transfer::at_once(Operation::Close, FileWriterError::InvalidHandle),
    }
}

} // verus!
