//! Writes of a batch: an ordered list of buffers, each staged as a payload
//! of its own.

use crate::handle::{answered, bytes_of, get_writer_mut, holds, usable, Issued};
use crate::settle::takes_back;
use crate::staging::{drains_fit, stage, Staged};
use crate::status::FileWriterError;
use crate::transfer::{steps_view, IoStep, Operation, Transfer};
use crate::write::accepted;
use crate::writer::{FileWriter, WriterView};
use vstd::prelude::*;
use vstd::slice::slice_subrange;

verus! {

/// One buffer of a batch: a data reference, which may be unset, and the
/// number of bytes to take from its start.
#[derive(Debug, Clone, Copy)]
pub struct BufferDescriptor<'a> {
    pub data: Option<&'a [u8]>,
    pub size: usize,
}

pub struct DescriptorView {
    pub data: Option<Seq<u8>>,
    pub size: nat,
}

impl<'a> View for BufferDescriptor<'a> {
    type V = DescriptorView;

    open spec fn view(&self) -> DescriptorView {
        DescriptorView { data: bytes_of(self.data), size: self.size as nat }
    }
}

impl DescriptorView {
    /// The data reference holds the bytes that the descriptor speaks of.
    pub open spec fn covered(self) -> bool {
        holds(self.data, self.size)
    }

    /// The descriptor can be written: it speaks of no bytes, or its data
    /// reference holds the bytes that it speaks of.
    pub open spec fn writable(self) -> bool {
        self.size == 0 || self.covered()
    }

    /// The bytes that the descriptor speaks of.
    pub open spec fn payload(self) -> Seq<u8> {
        self.data->0.take(self.size as int)
    }
}

/// The descriptors behind a reference that may be unset.
pub open spec fn descriptors_of(buffers: Option<&[BufferDescriptor<'_>]>) -> Option<
    Seq<DescriptorView>,
> {
    match buffers {
        Some(list) => Some(list@.map_values(|d: BufferDescriptor<'_>| d@)),
        None => None,
    }
}

/// The payloads of a batch, by descriptor.
pub open spec fn payloads_of(buffers: Seq<DescriptorView>) -> Seq<Seq<u8>> {
    buffers.map_values(|d: DescriptorView| d.payload())
}

/// A list of buffers holds the `count` buffers that are asked of it if it
/// is set and has at least that many.
pub open spec fn lists(buffers: Option<Seq<DescriptorView>>, count: nat) -> bool {
    buffers matches Some(list) && count <= list.len()
}

/// Every one of the first `count` buffers can be written.
pub open spec fn all_writable(buffers: Seq<DescriptorView>, count: nat) -> bool {
    forall|i: int| 0 <= i < count ==> (#[trigger] buffers[i]).writable()
}

/// The buffers of a batch are staged one after the other, each numbered by
/// its place. An empty one is passed over.
pub open spec fn stage_batch(
    buffered: Seq<u8>,
    capacity: nat,
    buffers: Seq<DescriptorView>,
    count: nat,
) -> Staged
    decreases count,
{
    if count == 0 {
        Staged { steps: Seq::empty(), buffered }
    } else {
        let before = stage_batch(buffered, capacity, buffers, (count - 1) as nat);
        let next = buffers[count - 1];
        if next.size == 0 {
            before
        } else {
            let staged = stage(before.buffered, capacity, next.payload(), (count - 1) as nat);
            Staged { steps: before.steps + staged.steps, buffered: staged.buffered }
        }
    }
}

/// A batch write of the first `count` buffers. A batch of no buffers is over
/// before anything is looked at; a list that is not there is refused before
/// the handle is. A batch with a buffer whose data is not there is refused
/// as a whole: none of its buffers is staged.
pub open spec fn spec_write_batch(
    writer: Option<WriterView>,
    buffers: Option<Seq<DescriptorView>>,
    count: nat,
) -> Issued {
    if count == 0 {
        answered(writer, Operation::Write, FileWriterError::Success)
    } else if !lists(buffers, count) {
        answered(writer, Operation::Write, FileWriterError::InvalidData)
    } else if !usable(writer) {
        answered(writer, Operation::Write, FileWriterError::InvalidHandle)
    } else if !all_writable(buffers->0, count) {
        answered(writer, Operation::Write, FileWriterError::InvalidData)
    } else {
        let w = writer->0;
        accepted(w, stage_batch(w.buffered, w.capacity, buffers->0, count))
    }
}

/// Whether a buffer can be written.
fn is_writable(buffer: &BufferDescriptor<'_>) -> (writable: bool)
    ensures
        writable == buffer@.writable(),
{
    if buffer.size == 0 {
        return true;
    }
    match buffer.data {
        Some(bytes) => buffer.size <= bytes.len(),
        None => false,
    }
}

/// Whether every one of the first `count` buffers can be written.
fn are_writable(list: &[BufferDescriptor<'_>], count: usize) -> (writable: bool)
    requires
        count <= list@.len(),
    ensures
        writable == all_writable(descriptors_of(Some(list))->0, count as nat),
{
    let ghost views = descriptors_of(Some(list))->0;
    let mut seen: usize = 0;
    while seen < count
        invariant
            seen <= count <= list@.len(),
            views == descriptors_of(Some(list))->0,
            all_writable(views, seen as nat),
        decreases count - seen,
    {
        if !is_writable(&list[seen]) {
            assert(!views[seen as int].writable());
            return false;
        }
        seen = seen + 1;
    }
    true
}

/// The bytes that a buffer speaks of.
fn payload_at<'a>(buffer: &BufferDescriptor<'a>) -> (payload: &'a [u8])
    requires
        buffer@.covered(),
    ensures
        payload@ == buffer@.payload(),
{
    slice_subrange(buffer.data.unwrap(), 0, buffer.size)
}

/// Writes the first `count` buffers of a batch, in their order. The buffers
/// are looked at before any of them is staged: a batch with a buffer whose
/// data is not there leaves the writer as it was.
#[verifier::loop_isolation(false)]
pub fn file_writer_write_batch(
    handle: Option<&mut FileWriter>,
    buffers: Option<&[BufferDescriptor<'_>]>,
    count: usize,
) -> (transfer: Transfer)
    ensures
        handle is None ==> (Issued { writer: None, transfer: transfer@ }) == spec_write_batch(
            None,
            descriptors_of(buffers),
            count as nat,
        ),
        handle matches Some(w) ==> (Issued { writer: Some(final(w)@), transfer: transfer@ })
            == spec_write_batch(Some(w@), descriptors_of(buffers), count as nat),
        handle matches Some(w) ==> (w@.wf() ==> final(w)@.wf() && takes_back(
            final(w)@,
            transfer@,
        )),
{
    if count == 0 {
        return Transfer::at_once(Operation::Write, FileWriterError::Success);
    }
    let list = match buffers {
        Some(list) => list,
        None => {
            return Transfer::at_once(Operation::Write, FileWriterError::InvalidData);
        },
    };
    if count > list.len() {
        return Transfer::at_once(Operation::Write, FileWriterError::InvalidData);
    }
    let writer = match get_writer_mut(handle) {
        Ok(writer) => writer,
        Err(status) => {
            return Transfer::at_once(Operation::Write, status);
        },
    };
    if !are_writable(list, count) {
        return Transfer::at_once(Operation::Write, FileWriterError::InvalidData);
    }
    let ghost start = writer@;
    let ghost views = descriptors_of(buffers)->0;
    let mut steps: Vec<IoStep> = Vec::new();
    let mut done: usize = 0;
    while done < count
        invariant
            done <= count,
            start.wf() ==> writer@.wf() && drains_fit(steps_view(steps@), start.capacity),
            writer@ == start.holding(
                stage_batch(start.buffered, start.capacity, views, done as nat).buffered,
            ),
            steps_view(steps@) == stage_batch(
                start.buffered,
                start.capacity,
                views,
                done as nat,
            ).steps,
        decreases count - done,
    {
        let buffer = &list[done];
        assert(views[done as int].writable());
        if buffer.size > 0 {
            writer.stage(payload_at(buffer), done, &mut steps);
        }
        done = done + 1;
    }
    Transfer { steps, operation: Operation::Write, verdict: FileWriterError::Success }
}

} // verus!
