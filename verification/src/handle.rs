//! What the operations share: how a handle and a data reference are read,
//! and the answer of an operation that leaves nothing to the driver.

use crate::status::FileWriterError;
use crate::transfer::{at_once, Operation, TransferView};
use crate::writer::{FileWriter, WriterView};
use vstd::prelude::*;

verus! {

/// A writer, where there is one, and the transfer that an operation on it
/// has issued.
pub struct Issued {
    pub writer: Option<WriterView>,
    pub transfer: TransferView,
}

/// The bytes behind a data reference that may be unset.
pub open spec fn bytes_of(data: Option<&[u8]>) -> Option<Seq<u8>> {
    match data {
        Some(bytes) => Some(bytes@),
        None => None,
    }
}

/// A data reference holds the `size` bytes that are asked of it if it is set
/// and has at least that many.
pub open spec fn holds(data: Option<Seq<u8>>, size: nat) -> bool {
    data matches Some(bytes) && size <= bytes.len()
}

/// A handle can be written to if it is set and its writer is open.
pub open spec fn usable(writer: Option<WriterView>) -> bool {
    writer matches Some(w) && w.state is Open
}

/// An operation that ends at once and leaves the writer as it was.
pub open spec fn answered(
    writer: Option<WriterView>,
    operation: Operation,
    verdict: FileWriterError,
) -> Issued {
    Issued { writer, transfer: at_once(operation, verdict) }
}

/// The writer behind a handle, if the handle is set and its writer open.
pub(crate) fn get_writer_mut(handle: Option<&mut FileWriter>) -> (found: Result<
    &mut FileWriter,
    FileWriterError,
>)
    ensures
        match handle {
            Some(w) => if w@.state is Open {
                found matches Ok(writer) && *writer == *w && *final(writer) == *final(w)
            } else {
                found matches Err(status) && status == FileWriterError::InvalidHandle && *final(w)
                    == *w
            },
            None => found matches Err(status) && status == FileWriterError::InvalidHandle,
        },
{
    match handle {
        Some(writer) => {
            if writer.is_valid() {
                Ok(writer)
            } else {
                Err(FileWriterError::InvalidHandle)
            }
        },
        None => Err(FileWriterError::InvalidHandle),
    }
}

} // verus!
