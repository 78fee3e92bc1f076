//! The writer: the bytes that wait in memory, the room they may take, and
//! whether the handle can still be used.

use crate::staging::{drain_steps, stage, stage_bypass};
use crate::transfer::{steps_view, IoStep, IoStepView};
use vstd::prelude::*;

verus! {

/// The room that the buffer of a newly opened writer has, in bytes.
pub const DEFAULT_BUFFER_CAPACITY: usize = 65536;

/// A large write whose payload is longer than this bypasses the buffer.
pub const LARGE_WRITE_THRESHOLD: usize = 1048576;

/// Whether a writer can still be written to.
#[derive(Debug, Clone, Copy, PartialEq, Eq, Structural)]
pub enum HandleState {
    /// The stream is open; writes, flushes and resizes are accepted.
    Open,
    /// A resize could not drain the buffer. Nothing but a close is accepted,
    /// and the close reports the handle as invalid.
    Invalid,
}

/// One open output target, seen from the side of the memory: the stream
/// itself is with the driver.
#[derive(Debug)]
pub struct FileWriter {
    buffer: Vec<u8>,
    capacity: usize,
    state: HandleState,
}

pub type FileWriterHandle = FileWriter;

pub struct WriterView {
    pub state: HandleState,
    pub buffered: Seq<u8>,
    pub capacity: nat,
}

impl WriterView {
    /// The buffer has room, and what waits in it does not exceed that room.
    pub open spec fn wf(self) -> bool {
        0 < self.capacity && self.buffered.len() <= self.capacity
    }

    /// A writer as `open` leaves it: nothing buffered, the default capacity.
    pub open spec fn fresh() -> WriterView {
        WriterView {
            state: HandleState::Open,
            buffered: Seq::empty(),
            capacity: DEFAULT_BUFFER_CAPACITY as nat,
        }
    }

    /// The same writer with other bytes waiting in its buffer.
    pub open spec fn holding(self, buffered: Seq<u8>) -> WriterView {
        WriterView { buffered, ..self }
    }

    /// The same writer with an empty buffer of another capacity.
    pub open spec fn resized(self, capacity: nat) -> WriterView {
        WriterView { buffered: Seq::empty(), capacity, ..self }
    }

    /// The same writer after it has been given up: its buffer is gone.
    pub open spec fn invalidated(self) -> WriterView {
        WriterView { state: HandleState::Invalid, buffered: Seq::empty(), ..self }
    }
}

impl View for FileWriter {
    type V = WriterView;

    closed spec fn view(&self) -> WriterView {
        WriterView {
            state: self.state,
            buffered: self.buffer@,
            capacity: self.capacity as nat,
        }
    }
}

impl FileWriter {
    /// Whether the handle still accepts writes.
    pub fn is_valid(&self) -> (valid: bool)
        ensures
            valid == (self@.state is Open),
    {
        match self.state {
            HandleState::Open => true,
            HandleState::Invalid => false,
        }
    }

    /// The room of the buffer, in bytes.
    pub fn capacity(&self) -> (capacity: usize)
        ensures
            capacity == self@.capacity,
    {
        self.capacity
    }

    /// The bytes that wait in the buffer, oldest first.
    pub fn buffered(&self) -> (bytes: &[u8])
        ensures
            bytes@ == self@.buffered,
    {
        self.buffer.as_slice()
    }

    pub(crate) fn fresh() -> (writer: FileWriter)
        ensures
            writer@ == WriterView::fresh(),
    {
        FileWriter {
            buffer: Vec::new(),
            capacity: DEFAULT_BUFFER_CAPACITY,
            state: HandleState::Open,
        }
    }

    /// Moves what waits in the buffer into a step of its own.
    pub(crate) fn drain(&mut self, steps: &mut Vec<IoStep>)
        ensures
            final(self)@ == old(self)@.holding(Seq::empty()),
            steps_view(final(steps)@) == steps_view(old(steps)@) + drain_steps(old(self)@.buffered),
    {
        if self.buffer.len() > 0 {
            let mut run: Vec<u8> = Vec::new();
            std::mem::swap(&mut self.buffer, &mut run);
            steps.push(IoStep::Drain(run));
        }
        assert(self.buffer@ =~= Seq::empty());
    }

    /// Places one payload according to the buffering discipline.
    pub(crate) fn stage(&mut self, payload: &[u8], index: usize, steps: &mut Vec<IoStep>)
        ensures
            final(self)@ == old(self)@.holding(
                stage(old(self)@.buffered, old(self)@.capacity, payload@, index as nat).buffered,
            ),
            steps_view(final(steps)@) == steps_view(old(steps)@) + stage(
                old(self)@.buffered,
                old(self)@.capacity,
                payload@,
                index as nat,
            ).steps,
    {
        let ghost held = self.buffer@;
        let held_len: usize = self.buffer.len();
        if payload.len() >= self.capacity {
            self.drain(steps);
            let ghost drained = steps@;
            steps.push(IoStep::Payload(index));
            assert(steps_view(steps@) =~= steps_view(drained).push(
                IoStepView::Payload(index as nat),
            ));
        } else if held_len <= self.capacity && payload.len() <= self.capacity - held_len {
            self.buffer.extend_from_slice(payload);
            assert(self.buffer@ =~= held + payload@);
        } else {
            self.drain(steps);
            self.buffer.extend_from_slice(payload);
            assert(self.buffer@ =~= payload@);
        }
    }

    /// Drains the buffer, has the stream flushed and sends one payload
    /// straight after.
    pub(crate) fn bypass(&mut self, index: usize, steps: &mut Vec<IoStep>)
        ensures
            final(self)@ == old(self)@.holding(Seq::empty()),
            steps_view(final(steps)@) == steps_view(old(steps)@) + stage_bypass(
                old(self)@.buffered,
                index as nat,
            ).steps,
    {
        self.drain(steps);
        let ghost drained = steps@;
        steps.push(IoStep::Sync);
        let ghost synced = steps@;
        assert(steps_view(synced) =~= steps_view(drained).push(IoStepView::Sync));
        steps.push(IoStep::Payload(index));
        assert(steps_view(steps@) =~= steps_view(synced).push(IoStepView::Payload(index as nat)));
    }

    /// Drains the buffer and has the stream flushed.
    pub(crate) fn flush(&mut self, steps: &mut Vec<IoStep>)
        ensures
            final(self)@ == old(self)@.holding(Seq::empty()),
            steps_view(final(steps)@) == steps_view(old(steps)@) + drain_steps(
                old(self)@.buffered,
            ).push(IoStepView::Sync),
    {
        self.drain(steps);
        let ghost drained = steps@;
        steps.push(IoStep::Sync);
        assert(steps_view(steps@) =~= steps_view(drained).push(IoStepView::Sync));
    }

    /// Drains the buffer and gives the writer an empty one of another
    /// capacity.
    pub(crate) fn resize(&mut self, capacity: usize, steps: &mut Vec<IoStep>)
        ensures
            final(self)@ == old(self)@.resized(capacity as nat),
            steps_view(final(steps)@) == steps_view(old(steps)@) + drain_steps(old(self)@.buffered),
    {
        self.drain(steps);
        self.capacity = capacity;
    }

    /// Gives the writer up: it keeps no bytes and accepts nothing but a close.
    pub(crate) fn invalidate(&mut self)
        ensures
            final(self)@ == old(self)@.invalidated(),
    {
        self.buffer = Vec::new();
        self.state = HandleState::Invalid;
    }

    /// Puts bytes that did not reach the stream back into the buffer.
    pub(crate) fn restore(&mut self, bytes: Vec<u8>)
        ensures
            final(self)@ == old(self)@.holding(bytes@),
    {
        self.buffer = bytes;
    }

    /// Ends the writer and leaves what waited in its buffer as steps.
    pub(crate) fn close(self) -> (steps: Vec<IoStep>)
        ensures
            steps_view(steps@) == drain_steps(self@.buffered),
    {
        let mut writer = self;
        let mut steps: Vec<IoStep> = Vec::new();
        writer.drain(&mut steps);
        steps
    }
}

} // verus!
