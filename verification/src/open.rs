//! Opening a writer: the path is checked here, the file is opened by the
//! driver, and the writer is made once the driver has said that it is open.

use crate::handle::bytes_of;
use crate::status::{FileWriterError, FileWriterMode};
use crate::text::{decode_utf8_text, terminated_text, text_of};
use crate::writer::{FileWriter, WriterView};
use vstd::prelude::*;
use vstd::utf8::{encode_utf8, valid_utf8};

verus! {

/// What the driver is asked to open.
#[derive(Debug, PartialEq, Eq)]
pub struct OpenRequest {
    pub path: String,
    /// The directories above the file are made first where they are missing.
    pub create_parents: bool,
    /// The file is made where it is missing.
    pub create: bool,
    /// Writes continue at the end of what the file holds.
    pub append: bool,
    /// What the file holds is discarded.
    pub truncate: bool,
}

/// The text of a path that can be opened: not empty, and well-formed UTF-8.
pub open spec fn path_text(path: Option<Seq<u8>>) -> Option<Seq<u8>> {
    match path {
        Some(bytes) => {
            let text = text_of(bytes);
            if text.len() > 0 && valid_utf8(text) {
                Some(text)
            } else {
                None
            }
        },
        None => None,
    }
}

/// What an opening comes to before the driver is asked for anything: the
/// text of the path to open, or the status that refuses the call. An unset
/// path is refused first, then a missing slot, then a path that cannot be
/// opened.
pub open spec fn open_answer(path: Option<Seq<u8>>, slot: bool) -> Result<
    Seq<u8>,
    FileWriterError,
> {
    if path is None {
        Err(FileWriterError::InvalidPath)
    } else if !slot {
        Err(FileWriterError::InvalidHandle)
    } else {
        match path_text(path) {
            Some(text) => Ok(text),
            None => Err(FileWriterError::InvalidPath),
        }
    }
}

/// The request names the path that `text` encodes and treats an existing
/// file as the mode says.
pub open spec fn asks_for(request: OpenRequest, text: Seq<u8>, mode: FileWriterMode) -> bool {
    &&& encode_utf8(request.path@) == text
    &&& request.create_parents
    &&& request.create
    &&& request.append == (mode is Append)
    &&& request.truncate == (mode is Write)
}

/// Starts the opening of a writer. The slot, where there is one, is cleared
/// before anything else; it is filled by `file_writer_attach` once the
/// driver has opened the file. Without a slot nothing is asked of the driver.
pub fn file_writer_new(
    path: Option<&[u8]>,
    handle: Option<&mut Option<FileWriter>>,
    mode: FileWriterMode,
) -> (request: Result<OpenRequest, FileWriterError>)
    ensures
        handle matches Some(slot) ==> *final(slot) is None,
        match open_answer(bytes_of(path), handle is Some) {
            Ok(text) => request matches Ok(r) && asks_for(r, text, mode),
            Err(refusal) => request matches Err(status) && status == refusal,
        },
{
    let slot = match handle {
        Some(slot) => {
            *slot = None;
            true
        },
        None => false,
    };
    let bytes = match path {
        Some(bytes) => bytes,
        None => {
            return Err(FileWriterError::InvalidPath);
        },
    };
    if !slot {
        return Err(FileWriterError::InvalidHandle);
    }
    let text = terminated_text(bytes);
    if text.len() == 0 {
        return Err(FileWriterError::InvalidPath);
    }
    match decode_utf8_text(text) {
        Some(name) => {
            let (append, truncate) = match mode {
                FileWriterMode::Append => (true, false),
                FileWriterMode::Write => (false, true),
            };
            Ok(
                OpenRequest {
                    path: name.to_owned(),
                    create_parents: true,
                    create: true,
                    append,
                    truncate,
                },
            )
        },
        None => Err(FileWriterError::InvalidPath),
    }
}

/// Ends the opening of a writer. Where the driver has opened the file, the
/// slot receives a writer with an empty buffer of the default capacity.
pub fn file_writer_attach(handle: &mut Option<FileWriter>, opened: bool) -> (status:
    FileWriterError)
    ensures
        opened ==> status == FileWriterError::Success && (*final(handle) matches Some(w) && w@
            == WriterView::fresh()),
        !opened ==> status == FileWriterError::FileOpenError && *final(handle) is None,
{
    if opened {
        *handle = Some(FileWriter::fresh());
        FileWriterError::Success
    } else {
        *handle = None;
        FileWriterError::FileOpenError
    }
}

} // verus!
