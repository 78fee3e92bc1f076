//! What holds of the operations, whatever the writer and the payloads.
//!
//! The laws speak of transfers that the driver completes: of the bytes that
//! then reach the stream, and of the writer that remains.

use crate::batch::{
    all_writable, lists, payloads_of, spec_write_batch, stage_batch, DescriptorView,
};
use crate::control::{spec_close, spec_flush, spec_set_buffer_size};
use crate::handle::{answered, holds, usable};
use crate::open::open_answer;
use crate::settle::{reports_on, settled_status, settled_writer, takes_back};
use crate::staging::{drain_steps, drains_fit, stage, stage_bypass};
use crate::status::FileWriterError;
use crate::text::text_of;
use crate::transfer::{
    at_once, delivered, emitted, step_bytes, IoStepView, Operation, Outcome, TransferView,
};
use crate::write::{spec_write_large, spec_write_raw, spec_write_string};
use crate::writer::{WriterView, LARGE_WRITE_THRESHOLD};
use vstd::prelude::*;

verus! {

/// One more step puts its bytes behind those of the steps before it.
pub proof fn lemma_emitted_push(
    steps: Seq<IoStepView>,
    step: IoStepView,
    payloads: Seq<Seq<u8>>,
)
    ensures
        emitted(steps.push(step), payloads) == emitted(steps, payloads) + step_bytes(
            step,
            payloads,
        ),
{
    assert(steps.push(step).drop_last() =~= steps);
}

/// Steps carried out one run after another emit what the runs emit, in
/// that order.
pub proof fn lemma_emitted_concat(
    first: Seq<IoStepView>,
    second: Seq<IoStepView>,
    payloads: Seq<Seq<u8>>,
)
    ensures
        emitted(first + second, payloads) == emitted(first, payloads) + emitted(second, payloads),
    decreases second.len(),
{
    if second.len() > 0 {
        lemma_emitted_concat(first, second.drop_last(), payloads);
        assert((first + second).drop_last() =~= first + second.drop_last());
    }
}

/// Draining a buffer emits exactly what waited in it.
pub proof fn lemma_drain_emits_buffer(buffered: Seq<u8>, payloads: Seq<Seq<u8>>)
    ensures
        emitted(drain_steps(buffered), payloads) == buffered,
{
    if buffered.len() > 0 {
        lemma_emitted_push(Seq::empty(), IoStepView::Drain(buffered), payloads);
    }
}

/// Staging loses nothing and keeps the order: what the steps emit, followed
/// by what then waits in the buffer, is what waited before, followed by the
/// payload.
pub proof fn lemma_stage_keeps_bytes(
    buffered: Seq<u8>,
    capacity: nat,
    payloads: Seq<Seq<u8>>,
    index: nat,
)
    requires
        index < payloads.len(),
    ensures
        ({
            let staged = stage(buffered, capacity, payloads[index as int], index);
            emitted(staged.steps, payloads) + staged.buffered == buffered + payloads[index as int]
        }),
{
    lemma_drain_emits_buffer(buffered, payloads);
    if payloads[index as int].len() >= capacity {
        lemma_emitted_push(drain_steps(buffered), IoStepView::Payload(index), payloads);
    }
}

/// The bypass keeps the order too: what waited in the buffer reaches the
/// stream before the payload, and nothing stays behind.
pub proof fn lemma_bypass_keeps_order(buffered: Seq<u8>, payloads: Seq<Seq<u8>>, index: nat)
    requires
        index < payloads.len(),
    ensures
        emitted(stage_bypass(buffered, index).steps, payloads) == buffered + payloads[index as int],
        stage_bypass(buffered, index).buffered == Seq::<u8>::empty(),
{
    let drained = drain_steps(buffered);
    lemma_drain_emits_buffer(buffered, payloads);
    lemma_emitted_push(drained, IoStepView::Sync, payloads);
    lemma_emitted_push(drained.push(IoStepView::Sync), IoStepView::Payload(index), payloads);
}

/// Staging keeps within the room of the buffer: what it leaves waiting
/// fits, and so does the run that it drains.
pub proof fn lemma_stage_fits(buffered: Seq<u8>, capacity: nat, payload: Seq<u8>, index: nat)
    requires
        buffered.len() <= capacity,
    ensures
        stage(buffered, capacity, payload, index).buffered.len() <= capacity,
        drains_fit(stage(buffered, capacity, payload, index).steps, capacity),
{
}

/// What a run of raw writes leaves behind, when every transfer is completed:
/// the bytes on the stream and the writer.
pub struct Written {
    pub stream: Seq<u8>,
    pub writer: WriterView,
}

/// The payloads are written whole, one raw write each, in their order.
pub open spec fn write_each(writer: WriterView, payloads: Seq<Seq<u8>>) -> Written
    decreases payloads.len(),
{
    if payloads.len() == 0 {
        Written { stream: Seq::empty(), writer }
    } else {
        let before = write_each(writer, payloads.drop_last());
        let payload = payloads.last();
        let issued = spec_write_raw(Some(before.writer), Some(payload), payload.len());
        Written {
            stream: before.stream + emitted(issued.transfer.steps, seq![payload]),
            writer: issued.writer->0,
        }
    }
}

/// The stream once the writer has been closed behind the writes.
pub open spec fn closed_behind(written: Written) -> Seq<u8> {
    written.stream + emitted(spec_close(Some(written.writer)).steps, Seq::empty())
}

/// Raw writes leave the writer open, and well formed if it was, and between
/// the stream and the buffer every byte is accounted for, in the order of
/// the calls.
pub proof fn lemma_write_each(writer: WriterView, payloads: Seq<Seq<u8>>)
    requires
        writer.state is Open,
    ensures
        ({
            let written = write_each(writer, payloads);
            &&& writer.wf() ==> written.writer.wf()
            &&& written.writer.state is Open
            &&& written.writer.capacity == writer.capacity
            &&& written.stream + written.writer.buffered == writer.buffered + payloads.flatten()
        }),
    decreases payloads.len(),
{
    if payloads.len() > 0 {
        let earlier = payloads.drop_last();
        let payload = payloads.last();
        let before = write_each(writer, earlier);
        let issued = spec_write_raw(Some(before.writer), Some(payload), payload.len());
        let sent = emitted(issued.transfer.steps, seq![payload]);
        let kept = write_each(writer, payloads).writer.buffered;
        lemma_write_each(writer, earlier);
        assert(payloads =~= earlier.push(payload));
        earlier.lemma_flatten_push(payload);
        assert(sent + kept == before.writer.buffered + payload) by {
            if payload.len() > 0 {
                lemma_stage_keeps_bytes(
                    before.writer.buffered,
                    before.writer.capacity,
                    seq![payload],
                    0,
                );
            }
        }
        assert(before.stream + (before.writer.buffered + payload) =~= (before.stream
            + before.writer.buffered) + payload);
    }
}

/// Payloads written one after the other by raw writes are on the stream once
/// the writer is closed: each of them whole, once, and in the order of the
/// calls, behind whatever was waiting when the first one came. A writer that
/// has just been opened has nothing waiting: the stream then holds exactly
/// the payloads, one after the other.
pub proof fn lemma_writes_arrive_in_call_order(writer: WriterView, payloads: Seq<Seq<u8>>)
    requires
        writer.state is Open,
    ensures
        closed_behind(write_each(writer, payloads)) == writer.buffered + payloads.flatten(),
        spec_close(Some(write_each(writer, payloads).writer)).verdict == FileWriterError::Success,
        writer == WriterView::fresh() ==> closed_behind(write_each(writer, payloads))
            == payloads.flatten(),
{
    let written = write_each(writer, payloads);
    lemma_write_each(writer, payloads);
    lemma_drain_emits_buffer(written.writer.buffered, Seq::empty());
}

/// A batch whose buffers can all be written takes every one of them:
/// between the stream and the buffer the payloads are accounted for in the
/// order of the descriptors.
pub proof fn lemma_batch_keeps_bytes(
    buffered: Seq<u8>,
    capacity: nat,
    buffers: Seq<DescriptorView>,
    count: nat,
)
    requires
        count <= buffers.len(),
        all_writable(buffers, count),
    ensures
        ({
            let batch = stage_batch(buffered, capacity, buffers, count);
            emitted(batch.steps, payloads_of(buffers)) + batch.buffered == buffered + payloads_of(
                buffers,
            ).take(count as int).flatten()
        }),
    decreases count,
{
    let payloads = payloads_of(buffers);
    if count > 0 {
        let before = stage_batch(buffered, capacity, buffers, (count - 1) as nat);
        let next = buffers[count - 1];
        lemma_batch_keeps_bytes(buffered, capacity, buffers, (count - 1) as nat);
        assert(payloads.take(count as int) =~= payloads.take(count - 1).push(next.payload()));
        payloads.take(count - 1).lemma_flatten_push(next.payload());
        if next.size > 0 {
            let staged = stage(before.buffered, capacity, next.payload(), (count - 1) as nat);
            lemma_stage_keeps_bytes(before.buffered, capacity, payloads, (count - 1) as nat);
            lemma_emitted_concat(before.steps, staged.steps, payloads);
            assert(emitted(before.steps, payloads) + (before.buffered + next.payload()) =~= (
            emitted(before.steps, payloads) + before.buffered) + next.payload());
        }
    }
}

/// A write of no bytes and a batch of no buffers succeed at once, whatever
/// the handle and the data reference: no step is left to the driver and the
/// writer stays as it was.
pub proof fn lemma_empty_write_changes_nothing(
    writer: Option<WriterView>,
    data: Option<Seq<u8>>,
    buffers: Option<Seq<DescriptorView>>,
)
    ensures
        spec_write_raw(writer, data, 0) == answered(
            writer,
            Operation::Write,
            FileWriterError::Success,
        ),
        spec_write_large(writer, data, 0) == answered(
            writer,
            Operation::Write,
            FileWriterError::Success,
        ),
        spec_write_batch(writer, buffers, 0) == answered(
            writer,
            Operation::Write,
            FileWriterError::Success,
        ),
{
}

/// A write of a text without bytes succeeds at once, whatever the handle:
/// no step is left to the driver and the writer stays as it was.
pub proof fn lemma_empty_text_changes_nothing(writer: Option<WriterView>, text: Seq<u8>)
    requires
        text_of(text).len() == 0,
    ensures
        spec_write_string(writer, Some(text)) == answered(
            writer,
            Operation::Write,
            FileWriterError::Success,
        ),
{
}

/// An unset data reference with a size, and an unset list of buffers with a
/// count, are refused as invalid data before the handle is looked at: no
/// step is left to the driver and the writer stays as it was.
pub proof fn lemma_unset_data_is_refused(writer: Option<WriterView>, size: nat, count: nat)
    requires
        size > 0,
        count > 0,
    ensures
        spec_write_raw(writer, None, size) == answered(
            writer,
            Operation::Write,
            FileWriterError::InvalidData,
        ),
        spec_write_large(writer, None, size) == answered(
            writer,
            Operation::Write,
            FileWriterError::InvalidData,
        ),
        spec_write_batch(writer, None, count) == answered(
            writer,
            Operation::Write,
            FileWriterError::InvalidData,
        ),
        spec_write_string(writer, None) == answered(
            writer,
            Operation::Write,
            FileWriterError::InvalidData,
        ),
{
}

/// A data reference that holds fewer bytes than the size asks for, and a list
/// with fewer buffers than the count asks for, are refused like unset ones.
pub proof fn lemma_short_data_is_refused(
    writer: Option<WriterView>,
    data: Option<Seq<u8>>,
    size: nat,
    buffers: Option<Seq<DescriptorView>>,
    count: nat,
)
    requires
        size > 0,
        count > 0,
        !holds(data, size),
        !lists(buffers, count),
    ensures
        spec_write_raw(writer, data, size) == answered(
            writer,
            Operation::Write,
            FileWriterError::InvalidData,
        ),
        spec_write_large(writer, data, size) == answered(
            writer,
            Operation::Write,
            FileWriterError::InvalidData,
        ),
        spec_write_batch(writer, buffers, count) == answered(
            writer,
            Operation::Write,
            FileWriterError::InvalidData,
        ),
{
}

/// An opening without a slot for the writer is refused as an invalid handle,
/// whatever the path holds, and nothing is asked of the driver; only an
/// unset path is refused before that.
pub proof fn lemma_missing_slot_is_refused(path: Seq<u8>)
    ensures
        open_answer(Some(path), false) == Err::<Seq<u8>, FileWriterError>(
            FileWriterError::InvalidHandle,
        ),
        open_answer(None, false) == Err::<Seq<u8>, FileWriterError>(FileWriterError::InvalidPath),
{
}

/// A resize to no room at all is refused as invalid data: the buffer and the
/// state of the writer stay as they were.
pub proof fn lemma_resize_to_nothing_is_refused(writer: Option<WriterView>)
    ensures
        spec_set_buffer_size(writer, 0) == answered(
            writer,
            Operation::Resize,
            FileWriterError::InvalidData,
        ),
{
}

/// An operation that was answered at once has left nothing that could fail:
/// the only report on its transfer is that it is complete, and settling it
/// gives the answer and leaves the writer alone.
pub proof fn lemma_answer_stands(
    writer: WriterView,
    operation: Operation,
    verdict: FileWriterError,
    outcome: Outcome,
)
    requires
        reports_on(outcome, at_once(operation, verdict)),
    ensures
        outcome == Outcome::Completed,
        settled_status(at_once(operation, verdict), outcome) == verdict,
        settled_writer(writer, at_once(operation, verdict), outcome) == writer,
{
}

/// A large write past the threshold does not pass through the buffer: what
/// waited there is drained and the stream flushed, then the payload follows
/// as one step. On the stream the earlier bytes stand before the payload.
pub proof fn lemma_large_write_bypasses(writer: WriterView, data: Seq<u8>, size: nat)
    requires
        writer.state is Open,
        size > LARGE_WRITE_THRESHOLD,
        size <= data.len(),
    ensures
        ({
            let issued = spec_write_large(Some(writer), Some(data), size);
            &&& issued.transfer.steps == drain_steps(writer.buffered).push(IoStepView::Sync).push(
                IoStepView::Payload(0),
            )
            &&& issued.transfer.verdict == FileWriterError::Success
            &&& issued.writer == Some(writer.holding(Seq::empty()))
            &&& emitted(issued.transfer.steps, seq![data.take(size as int)]) == writer.buffered
                + data.take(size as int)
        }),
{
    lemma_bypass_keeps_order(writer.buffered, seq![data.take(size as int)], 0);
}

/// Up to the threshold a large write is a raw write.
pub proof fn lemma_small_large_write_is_raw(
    writer: Option<WriterView>,
    data: Option<Seq<u8>>,
    size: nat,
)
    requires
        size <= LARGE_WRITE_THRESHOLD,
    ensures
        spec_write_large(writer, data, size) == spec_write_raw(writer, data, size),
{
}

/// A handle that is unset, or whose writer was given up, accepts nothing:
/// every write that brings bytes, a flush and a resize are refused as an
/// invalid handle, leave no step to the driver and change nothing, and a
/// close reports an invalid handle too.
pub proof fn lemma_unusable_handle_refuses(
    writer: Option<WriterView>,
    data: Seq<u8>,
    size: nat,
    text: Seq<u8>,
    buffers: Seq<DescriptorView>,
    count: nat,
)
    requires
        !usable(writer),
        0 < size <= data.len(),
        0 < text_of(text).len(),
        0 < count <= buffers.len(),
    ensures
        spec_write_raw(writer, Some(data), size) == answered(
            writer,
            Operation::Write,
            FileWriterError::InvalidHandle,
        ),
        spec_write_string(writer, Some(text)) == answered(
            writer,
            Operation::Write,
            FileWriterError::InvalidHandle,
        ),
        spec_write_large(writer, Some(data), size) == answered(
            writer,
            Operation::Write,
            FileWriterError::InvalidHandle,
        ),
        spec_write_batch(writer, Some(buffers), count) == answered(
            writer,
            Operation::Write,
            FileWriterError::InvalidHandle,
        ),
        spec_flush(writer) == answered(writer, Operation::Flush, FileWriterError::InvalidHandle),
        spec_set_buffer_size(writer, size) == answered(
            writer,
            Operation::Resize,
            FileWriterError::InvalidHandle,
        ),
        spec_close(writer) == at_once(Operation::Close, FileWriterError::InvalidHandle),
{
}

/// A step of a write or a flush that fails is reported as a failure to
/// write. The writer stays open, with the room it had, for another try.
pub proof fn lemma_failed_write_leaves_writer_open(
    writer: WriterView,
    transfer: TransferView,
    outcome: Outcome,
)
    requires
        writer.wf(),
        writer.state is Open,
        transfer.operation is Write || transfer.operation is Flush,
        takes_back(writer, transfer),
        reports_on(outcome, transfer),
        outcome is Failed,
    ensures
        settled_status(transfer, outcome) == FileWriterError::FileWriteError,
        settled_writer(writer, transfer, outcome).state is Open,
        settled_writer(writer, transfer, outcome).capacity == writer.capacity,
        settled_writer(writer, transfer, outcome).wf(),
{
}

/// A last drain that fails is reported as a failure to close.
pub proof fn lemma_failed_close_is_reported(writer: WriterView, outcome: Outcome)
    requires
        outcome is Failed,
    ensures
        settled_status(spec_close(Some(writer)), outcome) == FileWriterError::FileCloseError,
{
}

/// A resize whose drain fails gives the writer up for good, and reports a
/// failure to close.
pub proof fn lemma_failed_resize_invalidates(writer: WriterView, size: nat, outcome: Outcome)
    requires
        writer.state is Open,
        size > 0,
        outcome is Failed,
    ensures
        ({
            let issued = spec_set_buffer_size(Some(writer), size);
            &&& settled_status(issued.transfer, outcome) == FileWriterError::FileCloseError
            &&& settled_writer(issued.writer->0, issued.transfer, outcome).state is Invalid
        }),
{
}

/// A flush that failed can be tried again. The writer stays open, and it
/// holds exactly the bytes that did not reach the stream: what was delivered,
/// followed by what the writer holds, is what waited in the buffer.
pub proof fn lemma_failed_flush_can_be_retried(writer: WriterView, outcome: Outcome)
    requires
        writer.wf(),
        writer.state is Open,
        outcome is Failed,
        reports_on(outcome, spec_flush(Some(writer)).transfer),
    ensures
        ({
            let issued = spec_flush(Some(writer));
            let after = settled_writer(issued.writer->0, issued.transfer, outcome);
            &&& settled_status(issued.transfer, outcome) == FileWriterError::FileWriteError
            &&& after.state is Open
            &&& after.wf()
            &&& delivered(issued.transfer.steps, Seq::empty(), outcome) + after.buffered
                == writer.buffered
        }),
{
    let steps = spec_flush(Some(writer)).transfer.steps;
    let step = outcome->step as int;
    if writer.buffered.len() == 0 || step > 0 {
        // The drain, if there was one, went through: it is the flush of the stream that failed.
        assert(steps.take(step) =~= drain_steps(writer.buffered));
        lemma_drain_emits_buffer(writer.buffered, Seq::empty());
    }
}

/// A batch with a buffer that has a size and whose data is not there is
/// refused as invalid data, wherever in the batch that buffer stands: no
/// step is left to the driver and the writer stays as it was, so that no
/// byte of the buffers before it is written.
pub proof fn lemma_batch_with_missing_data_is_refused(
    writer: Option<WriterView>,
    buffers: Seq<DescriptorView>,
    count: nat,
    at: nat,
)
    requires
        usable(writer),
        at < count <= buffers.len(),
        buffers[at as int].size > 0,
        !buffers[at as int].covered(),
    ensures
        spec_write_batch(writer, Some(buffers), count) == answered(
            writer,
            Operation::Write,
            FileWriterError::InvalidData,
        ),
{
    assert(!buffers[at as int].writable());
}

} // verus!
