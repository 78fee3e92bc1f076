//! A buffered file writer without the file.
//!
//! A [`FileWriter`] keeps the bytes that wait in memory and decides what has
//! to reach the stream, and when. The stream itself belongs to a driver
//! outside this crate.
//!
//! Every operation on a handle answers with a [`Transfer`]: the steps to be
//! carried out on the stream, in their order, and the status that the
//! operation ends with once all of them have been. The writer is then
//! already as it will be if the stream takes everything. The driver carries
//! the steps out, stops at the first that fails, and hands its [`Outcome`]
//! to [`file_writer_settle`], which gives the status of the operation and,
//! after a failure, leaves the writer with the bytes that did not get out.
//!
//! Opening has two halves of its own: [`file_writer_new`] checks the path and
//! says what is to be opened, [`file_writer_attach`] makes the writer once
//! the driver has opened it.

pub mod batch;
pub mod control;
pub mod handle;
pub mod laws;
pub mod open;
pub mod progress;
pub mod settle;
pub mod staging;
pub mod status;
pub mod text;
pub mod transfer;
pub mod write;
pub mod writer;

pub use crate::batch::{file_writer_write_batch, BufferDescriptor};
pub use crate::control::{file_writer_close, file_writer_flush, file_writer_set_buffer_size};
pub use crate::open::{file_writer_attach, file_writer_new, OpenRequest};
pub use crate::progress::{Attempt, Progress};
pub use crate::settle::file_writer_settle;
pub use crate::status::{FileWriterError, FileWriterMode, IoFailure};
pub use crate::transfer::{IoStep, Operation, Outcome, Transfer};
pub use crate::write::{file_writer_write_large, file_writer_write_raw, file_writer_write_string};
pub use crate::writer::{
    FileWriter, FileWriterHandle, HandleState, DEFAULT_BUFFER_CAPACITY, LARGE_WRITE_THRESHOLD,
};
