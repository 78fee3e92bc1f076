//! Writes of a single payload: raw bytes, a terminated text, and the large
//! write that bypasses the buffer.

use crate::handle::{answered, bytes_of, get_writer_mut, holds, usable, Issued};
use crate::settle::takes_back;
use crate::staging::{stage, stage_bypass, Staged};
use crate::status::FileWriterError;
use crate::text::{terminated_text, text_of};
use crate::transfer::{IoStep, Operation, Transfer, TransferView};
use crate::writer::{FileWriter, WriterView, LARGE_WRITE_THRESHOLD};
use vstd::prelude::*;
use vstd::slice::slice_subrange;

verus! {

/// A write that was accepted: the writer holds what the staging left in the
/// buffer, and the transfer carries the steps of the staging.
pub open spec fn accepted(writer: WriterView, staged: Staged) -> Issued {
    Issued {
        writer: Some(writer.holding(staged.buffered)),
        transfer: TransferView {
            steps: staged.steps,
            operation: Operation::Write,
            verdict: FileWriterError::Success,
        },
    }
}

/// A raw write of the first `size` bytes of `data`. A write of no bytes is
/// over before anything is looked at; data that is not there is refused
/// before the handle is.
pub open spec fn spec_write_raw(
    writer: Option<WriterView>,
    data: Option<Seq<u8>>,
    size: nat,
) -> Issued {
    if size == 0 {
        answered(writer, Operation::Write, FileWriterError::Success)
    } else if !holds(data, size) {
        answered(writer, Operation::Write, FileWriterError::InvalidData)
    } else if !usable(writer) {
        answered(writer, Operation::Write, FileWriterError::InvalidHandle)
    } else {
        let w = writer->0;
        accepted(w, stage(w.buffered, w.capacity, data->0.take(size as int), 0))
    }
}

/// A write of the text that `text` starts with. An unset text is refused; a
/// text without bytes is over before the handle is looked at.
pub open spec fn spec_write_string(writer: Option<WriterView>, text: Option<Seq<u8>>) -> Issued {
    if text is None {
        answered(writer, Operation::Write, FileWriterError::InvalidData)
    } else if text_of(text->0).len() == 0 {
        answered(writer, Operation::Write, FileWriterError::Success)
    } else if !usable(writer) {
        answered(writer, Operation::Write, FileWriterError::InvalidHandle)
    } else {
        let w = writer->0;
        accepted(w, stage(w.buffered, w.capacity, text_of(text->0), 0))
    }
}

/// A large write of the first `size` bytes of `data`: past the threshold
/// the payload bypasses the buffer, up to it the write is a raw write.
pub open spec fn spec_write_large(
    writer: Option<WriterView>,
    data: Option<Seq<u8>>,
    size: nat,
) -> Issued {
    if size > LARGE_WRITE_THRESHOLD && holds(data, size) && usable(writer) {
        accepted(writer->0, stage_bypass(writer->0.buffered, 0))
    } else {
        spec_write_raw(writer, data, size)
    }
}

/// Appends the first `size` bytes of `data` to what the writer has taken.
pub fn file_writer_write_raw(
    handle: Option<&mut FileWriter>,
    data: Option<&[u8]>,
    size: usize,
) -> (transfer: Transfer)
    ensures
        handle is None ==> (Issued { writer: None, transfer: transfer@ }) == spec_write_raw(
            None,
            bytes_of(data),
            size as nat,
        ),
        handle matches Some(w) ==> (Issued { writer: Some(final(w)@), transfer: transfer@ })
            == spec_write_raw(Some(w@), bytes_of(data), size as nat),
        handle matches Some(w) ==> (w@.wf() ==> final(w)@.wf() && takes_back(
            final(w)@,
            transfer@,
        )),
{
    if size == 0 {
        return Transfer::at_once(Operation::Write, FileWriterError::Success);
    }
    let bytes = match data {
        Some(bytes) => bytes,
        None => {
            return Transfer::at_once(Operation::Write, FileWriterError::InvalidData);
        },
    };
    if size > bytes.len() {
        return Transfer::at_once(Operation::Write, FileWriterError::InvalidData);
    }
    let writer = match get_writer_mut(handle) {
        Ok(writer) => writer,
        Err(status) => {
            return Transfer::at_once(Operation::Write, status);
        },
    };
    let mut steps: Vec<IoStep> = Vec::new();
    writer.stage(slice_subrange(bytes, 0, size), 0, &mut steps);
    Transfer { steps, operation: Operation::Write, verdict: FileWriterError::Success }
}

/// Appends the text that `text` starts with: its bytes up to the first zero
/// byte, or all of them where none is zero. Where a step sends the payload
/// straight to the stream, the payload is that text.
pub fn file_writer_write_string(handle: Option<&mut FileWriter>, text: Option<&[u8]>) -> (transfer:
    Transfer)
    ensures
        handle is None ==> (Issued { writer: None, transfer: transfer@ }) == spec_write_string(
            None,
            bytes_of(text),
        ),
        handle matches Some(w) ==> (Issued { writer: Some(final(w)@), transfer: transfer@ })
            == spec_write_string(Some(w@), bytes_of(text)),
        handle matches Some(w) ==> (w@.wf() ==> final(w)@.wf() && takes_back(
            final(w)@,
            transfer@,
        )),
{
    let bytes = match text {
        Some(bytes) => bytes,
        None => {
            return Transfer::at_once(Operation::Write, FileWriterError::InvalidData);
        },
    };
    let payload = terminated_text(bytes);
    if payload.len() == 0 {
        return Transfer::at_once(Operation::Write, FileWriterError::Success);
    }
    let writer = match get_writer_mut(handle) {
        Ok(writer) => writer,
        Err(status) => {
            return Transfer::at_once(Operation::Write, status);
        },
    };
    let mut steps: Vec<IoStep> = Vec::new();
    writer.stage(payload, 0, &mut steps);
    Transfer { steps, operation: Operation::Write, verdict: FileWriterError::Success }
}

/// Writes the first `size` bytes of `data`; a payload past the threshold
/// goes to the stream without being copied into the buffer.
pub fn file_writer_write_large(
    handle: Option<&mut FileWriter>,
    data: Option<&[u8]>,
    size: usize,
) -> (transfer: Transfer)
    ensures
        handle is None ==> (Issued { writer: None, transfer: transfer@ }) == spec_write_large(
            None,
            bytes_of(data),
            size as nat,
        ),
        handle matches Some(w) ==> (Issued { writer: Some(final(w)@), transfer: transfer@ })
            == spec_write_large(Some(w@), bytes_of(data), size as nat),
        handle matches Some(w) ==> (w@.wf() ==> final(w)@.wf() && takes_back(
            final(w)@,
            transfer@,
        )),
{
    if size == 0 {
        return Transfer::at_once(Operation::Write, FileWriterError::Success);
    }
    let bytes = match data {
        Some(bytes) => bytes,
        None => {
            return Transfer::at_once(Operation::Write, FileWriterError::InvalidData);
        },
    };
    if size > bytes.len() {
        return Transfer::at_once(Operation::Write, FileWriterError::InvalidData);
    }
    let writer = match get_writer_mut(handle) {
        Ok(writer) => writer,
        Err(status) => {
            return Transfer::at_once(Operation::Write, status);
        },
    };
    let mut steps: Vec<IoStep> = Vec::new();
    if size > LARGE_WRITE_THRESHOLD {
        writer.bypass(0, &mut steps);
    } else {
        writer.stage(slice_subrange(bytes, 0, size), 0, &mut steps);
    }
    Transfer { steps, operation: Operation::Write, verdict: FileWriterError::Success }
}

} // verus!
