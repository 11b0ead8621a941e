//! The two workers of a connection and the life of the connection itself.
//!
//! The read worker cuts what the socket delivers into frames and offers them
//! to the inbound pool. The write worker takes one frame at a time from the
//! outbound pool and answers for it once the socket has taken its last byte.

use crate::mem::buffer::{first_chunk, Chunk, ConcatBuf};
use crate::mem::frame::Frame;
use crate::sync::pool::{PoolModel, Reply, Resolution, Slot, WriteError};
use vstd::prelude::*;

verus! {

/// What came of waiting for the socket to be readable and reading from it.
pub enum ReadEvent<'a> {
    /// Waiting for the socket failed.
    NotReadable,
    /// The peer has ended the stream.
    Eof,
    /// These bytes have arrived.
    Received(&'a [u8]),
    /// The socket was not ready after all.
    WouldBlock,
    /// Reading failed.
    Failed,
}

/// What the read worker does next.
pub enum ReadAction {
    /// Wait for the socket and read again.
    Read,
    /// Offer this frame to the inbound pool and report how that went.
    Deliver(Frame),
    /// Close the inbound pool and end.
    Close,
}

/// The read worker of a connection.
pub struct ConnReader {
    buffer: ConcatBuf<Frame>,
    stopped: bool,
}

impl ConnReader {
    /// The bytes that have arrived and have not left as frames.
    pub closed spec fn stream(&self) -> Seq<u8> {
        self.buffer.stream()
    }

    /// The worker has ended and asks for nothing but the close of the pool.
    pub closed spec fn stopped(&self) -> bool {
        self.stopped
    }

    /// The worker is in order.
    pub closed spec fn wf(&self) -> bool {
        self.buffer.wf()
    }

    /// Whether the worker has room for `len` more bytes.
    pub closed spec fn has_room(&self, len: nat) -> bool {
        self.buffer.buffered().len() + len <= isize::MAX
    }

    /// A worker has room for whatever keeps its stream within the greatest
    /// allocation.
    pub proof fn lemma_room_for_short_streams(&self, len: nat)
        requires
            self.stream().len() + len <= isize::MAX,
        ensures
            self.has_room(len),
    {
        self.buffer.lemma_stream_parts();
    }

    /// What the worker does about a stream in which nothing more has
    /// arrived: deliver the frame it starts with, end on a chunk that is no
    /// frame, or wait for more.
    pub open spec fn due(stream: Seq<u8>) -> Option<Seq<u8>> {
        ConcatBuf::<Frame>::next_chunk(stream)
    }

    /// A stream that starts with a whole chunk which is no frame.
    pub open spec fn broken(stream: Seq<u8>) -> bool {
        first_chunk(stream, Frame::spec_header_len() as nat) is Some && Self::due(stream)
            is None
    }

    /// The inbound pool was closed when the frame was offered.
    pub open spec fn refused(result: Result<(), WriteError<Frame>>) -> bool {
        result matches Err(WriteError::Closed(_))
    }

    /// Creates a worker to which nothing has arrived.
    pub fn create() -> (worker: Self)
        ensures
            worker.wf(),
            !worker.stopped(),
            worker.stream() == Seq::<u8>::empty(),
    {
        ConnReader { buffer: ConcatBuf::default(), stopped: false }
    }

    /// Hands out the next frame, asks for more bytes, or ends on a chunk
    /// that is no frame.
    fn drain(&mut self) -> (action: ReadAction)
        requires
            old(self).wf(),
            !old(self).stopped(),
        ensures
            final(self).wf(),
            match Self::due(old(self).stream()) {
                Some(wire) => {
                    &&& action matches ReadAction::Deliver(frame) && frame@ == wire
                    &&& final(self).stream() == old(self).stream().skip(wire.len() as int)
                    &&& !final(self).stopped()
                },
                None => {
                    &&& final(self).stream() == old(self).stream()
                    &&& final(self).stopped() == Self::broken(old(self).stream())
                    &&& if Self::broken(old(self).stream()) {
                        action is Close
                    } else {
                        action is Read
                    }
                },
            },
    {
        match self.buffer.try_read_chunk() {
            Some(frame) => ReadAction::Deliver(frame),
            None => {
                if self.buffer.is_blocked() {
                    self.stopped = true;
                    ReadAction::Close
                } else {
                    ReadAction::Read
                }
            },
        }
    }

    /// Takes in what the socket reported and says what to do next.
    ///
    /// Bytes that have arrived are added to the stream, and the first frame
    /// that is whole is handed out for delivery. The worker ends when the
    /// stream has ended, when the socket fails, when a chunk arrives that is
    /// no frame, and when more bytes arrive than it can hold. A socket that
    /// was not ready is read again.
    pub fn on_read(&mut self, event: ReadEvent<'_>) -> (action: ReadAction)
        requires
            old(self).wf(),
        ensures
            final(self).wf(),
            old(self).stopped() ==> action is Close && final(self).stopped()
                && final(self).stream() == old(self).stream(),
            !old(self).stopped() ==> match event {
                ReadEvent::Received(bytes) => if old(self).has_room(bytes@.len()) {
                    match Self::due(old(self).stream() + bytes@) {
                        Some(wire) => {
                            &&& action matches ReadAction::Deliver(frame) && frame@ == wire
                            &&& final(self).stream() == (old(self).stream() + bytes@).skip(
                                wire.len() as int,
                            )
                            &&& !final(self).stopped()
                        },
                        None => {
                            &&& final(self).stream() == old(self).stream() + bytes@
                            &&& final(self).stopped() == Self::broken(
                                old(self).stream() + bytes@,
                            )
                            &&& if Self::broken(old(self).stream() + bytes@) {
                                action is Close
                            } else {
                                action is Read
                            }
                        },
                    }
                } else {
                    action is Close && final(self).stopped() && final(self).stream() == old(
                        self,
                    ).stream()
                },
                ReadEvent::WouldBlock => action is Read && !final(self).stopped()
                    && final(self).stream() == old(self).stream(),
                _ => action is Close && final(self).stopped() && final(self).stream() == old(
                    self,
                ).stream(),
            },
    {
        if self.stopped {
            return ReadAction::Close;
        }
        match event {
            ReadEvent::Received(bytes) => {
                let held = self.buffer.len();
                if held <= isize::MAX as usize && bytes.len() <= isize::MAX as usize - held {
                    self.buffer.put_slice(bytes);
                    self.drain()
                } else {
                    self.stopped = true;
                    ReadAction::Close
                }
            },
            ReadEvent::WouldBlock => ReadAction::Read,
            _ => {
                self.stopped = true;
                ReadAction::Close
            },
        }
    }

    /// Takes in how the delivery of a frame went and says what to do next.
    ///
    /// The worker ends when the inbound pool is closed. After any other
    /// result it goes on with the next frame of the stream.
    pub fn on_delivered(&mut self, result: Result<(), WriteError<Frame>>) -> (action: ReadAction)
        requires
            old(self).wf(),
        ensures
            final(self).wf(),
            old(self).stopped() || Self::refused(result) ==> action is Close
                && final(self).stopped() && final(self).stream() == old(self).stream(),
            !old(self).stopped() && !Self::refused(result) ==> match Self::due(
                old(self).stream(),
            ) {
                Some(wire) => {
                    &&& action matches ReadAction::Deliver(frame) && frame@ == wire
                    &&& final(self).stream() == old(self).stream().skip(wire.len() as int)
                    &&& !final(self).stopped()
                },
                None => {
                    &&& final(self).stream() == old(self).stream()
                    &&& final(self).stopped() == Self::broken(old(self).stream())
                    &&& if Self::broken(old(self).stream()) {
                        action is Close
                    } else {
                        action is Read
                    }
                },
            },
    {
        if self.stopped {
            return ReadAction::Close;
        }
        match result {
            Err(WriteError::Closed(_)) => {
                self.stopped = true;
                ReadAction::Close
            },
            _ => self.drain(),
        }
    }
}

/// What came of waiting for the socket to be writable and writing to it.
#[derive(Debug, Clone, Copy, PartialEq, Eq, Structural)]
pub enum WriteEvent {
    /// Waiting for the socket failed.
    NotWritable,
    /// The socket took this many bytes.
    Wrote(usize),
    /// The socket was not ready after all.
    WouldBlock,
    /// Writing failed.
    Failed,
}

/// What the write worker does next.
#[derive(Debug, Clone, Copy, PartialEq, Eq, Structural)]
pub enum WriteAction {
    /// Take the next frame from the outbound pool.
    Take,
    /// Wait for the socket and write the frame from this byte on.
    Write(usize),
    /// The frame has left: accept it, so that its writer is told `Ok`.
    Accept,
    /// The frame cannot leave: reject it, so that its writer gets it back.
    Reject,
    /// Close the outbound pool and end.
    Close,
}

/// Mathematical state of the write worker.
pub struct WriterModel {
    /// A frame is being written.
    pub busy: bool,
    /// Length of the frame that is being written.
    pub frame_len: nat,
    /// How many of its bytes the socket has taken.
    pub wrote_len: nat,
    /// The socket has failed; what is still in the pool is turned away.
    pub failed: bool,
}

impl WriterModel {
    /// A worker that has written nothing yet.
    pub open spec fn init() -> Self {
        WriterModel { busy: false, frame_len: 0, wrote_len: 0, failed: false }
    }

    /// The worker and its answer after a frame of `frame_len` bytes was
    /// taken from the pool.
    pub open spec fn take(self, frame_len: nat) -> (Self, WriteAction) {
        if self.failed {
            (WriterModel { busy: false, ..self }, WriteAction::Reject)
        } else if frame_len == 0 {
            (WriterModel { busy: false, frame_len, wrote_len: 0, ..self }, WriteAction::Accept)
        } else {
            (WriterModel { busy: true, frame_len, wrote_len: 0, ..self }, WriteAction::Write(0))
        }
    }

    /// The worker and its answer after the socket reported `event`.
    pub open spec fn write(self, event: WriteEvent) -> (Self, WriteAction) {
        if !self.busy {
            (self, self.idle().1)
        } else {
            match event {
                WriteEvent::Wrote(count) => if self.wrote_len + count >= self.frame_len {
                    (
                        WriterModel { busy: false, wrote_len: self.frame_len, ..self },
                        WriteAction::Accept,
                    )
                } else {
                    (
                        WriterModel { wrote_len: (self.wrote_len + count) as nat, ..self },
                        WriteAction::Write((self.wrote_len + count) as usize),
                    )
                },
                WriteEvent::WouldBlock => (self, WriteAction::Write(self.wrote_len as usize)),
                _ => (WriterModel { busy: false, failed: true, ..self }, WriteAction::Reject),
            }
        }
    }

    /// The worker and its answer when the pool has no frame at hand.
    pub open spec fn idle(self) -> (Self, WriteAction) {
        if self.busy {
            (self, WriteAction::Write(self.wrote_len as usize))
        } else if self.failed {
            (self, WriteAction::Close)
        } else {
            (self, WriteAction::Take)
        }
    }
}

/// The write worker of a connection.
pub struct ConnWriter {
    busy: bool,
    frame_len: usize,
    wrote_len: usize,
    failed: bool,
}

impl View for ConnWriter {
    type V = WriterModel;

    closed spec fn view(&self) -> WriterModel {
        WriterModel {
            busy: self.busy,
            frame_len: self.frame_len as nat,
            wrote_len: self.wrote_len as nat,
            failed: self.failed,
        }
    }
}

impl ConnWriter {
    /// The worker is in order: it has not written more than there is, and
    /// a frame that it is still busy with has bytes left to write.
    pub open spec fn wf(&self) -> bool {
        &&& self@.wrote_len <= self@.frame_len <= usize::MAX
        &&& self@.busy ==> self@.wrote_len < self@.frame_len
    }

    /// Creates a worker that has written nothing yet.
    pub fn create() -> (worker: Self)
        ensures
            worker.wf(),
            worker@ == WriterModel::init(),
    {
        ConnWriter { busy: false, frame_len: 0, wrote_len: 0, failed: false }
    }

    /// Takes in a frame of `frame_len` bytes from the outbound pool.
    ///
    /// Once the socket has failed the frame is rejected unseen. Otherwise
    /// the worker starts to write it from its first byte.
    pub fn on_frame(&mut self, frame_len: usize) -> (action: WriteAction)
        requires
            old(self).wf(),
        ensures
            final(self).wf(),
            (final(self)@, action) == old(self)@.take(frame_len as nat),
    {
        if self.failed {
            self.busy = false;
            WriteAction::Reject
        } else if frame_len == 0 {
            self.busy = false;
            self.frame_len = 0;
            self.wrote_len = 0;
            WriteAction::Accept
        } else {
            self.busy = true;
            self.frame_len = frame_len;
            self.wrote_len = 0;
            WriteAction::Write(0)
        }
    }

    /// Takes in what the socket reported and says what to do next.
    ///
    /// The frame is accepted when the socket has taken its last byte, and
    /// only then. It is rejected when the socket fails. Until either, the
    /// worker goes on writing where the socket left off.
    pub fn on_write(&mut self, event: WriteEvent) -> (action: WriteAction)
        requires
            old(self).wf(),
        ensures
            final(self).wf(),
            (final(self)@, action) == old(self)@.write(event),
    {
        if !self.busy {
            return self.on_idle();
        }
        match event {
            WriteEvent::Wrote(count) => {
                if count >= self.frame_len - self.wrote_len {
                    self.busy = false;
                    self.wrote_len = self.frame_len;
                    WriteAction::Accept
                } else {
                    self.wrote_len = self.wrote_len + count;
                    WriteAction::Write(self.wrote_len)
                }
            },
            WriteEvent::WouldBlock => WriteAction::Write(self.wrote_len),
            _ => {
                self.busy = false;
                self.failed = true;
                WriteAction::Reject
            },
        }
    }

    /// Says what to do when the outbound pool has no frame at hand.
    ///
    /// A worker whose socket has failed ends here, after it has turned away
    /// what was waiting. Any other waits for the next frame.
    pub fn on_idle(&self) -> (action: WriteAction)
        requires
            self.wf(),
        ensures
            action == self@.idle().1,
    {
        if self.busy {
            WriteAction::Write(self.wrote_len)
        } else if self.failed {
            WriteAction::Close
        } else {
            WriteAction::Take
        }
    }
}

/// A frame is accepted exactly when all of it has gone to the socket. So a
/// writer is told `Ok` for a frame only if the socket took its last byte, and
/// for every frame whose last byte the socket took the writer is told `Ok`;
/// a frame that meets a failed socket comes back as `Rejected`.
pub proof fn lemma_ok_means_delivered(
    worker: WriterModel,
    event: WriteEvent,
    pool: PoolModel<Seq<u8>>,
    frame: Seq<u8>,
)
    requires
        worker.busy,
        worker.wrote_len < worker.frame_len <= usize::MAX,
        pool.slot == Slot::<Seq<u8>>::Taken(Reply::Awaited),
    ensures
        worker.write(event).1 is Accept <==> (event matches WriteEvent::Wrote(count)
            && worker.wrote_len + count >= worker.frame_len),
        worker.write(event).1 is Accept ==> worker.write(event).0.wrote_len
            == worker.frame_len && pool.resolve(Resolution::Accept, frame).outcome() == Some(
            Ok::<(), WriteError<Seq<u8>>>(()),
        ),
        worker.write(event).1 is Reject <==> (event is NotWritable || event is Failed),
        worker.write(event).1 is Reject ==> pool.resolve(Resolution::Reject, frame).outcome()
            == Some(Err::<(), WriteError<Seq<u8>>>(WriteError::Rejected(frame))),
        worker.write(event).1 matches WriteAction::Write(from) ==> from == worker.write(
            event,
        ).0.wrote_len && from < worker.frame_len,
{
}

/// Once the socket has failed nothing is written any more: every frame that
/// is still taken from the pool is rejected, and the worker ends when the
/// pool has none left.
pub proof fn lemma_failed_writer_drains(worker: WriterModel, frame_len: nat, event: WriteEvent)
    requires
        worker.failed,
        !worker.busy,
    ensures
        worker.take(frame_len) == (worker, WriteAction::Reject),
        worker.write(event) == (worker, WriteAction::Close),
        worker.idle() == (worker, WriteAction::Close),
{
}

/// Where a connection is in its life.
#[derive(Debug, Clone, Copy, PartialEq, Eq, Structural)]
pub enum ConnPhase {
    /// Both directions work.
    Open,
    /// One direction has ended; the other still works.
    Draining,
    /// Both directions have ended.
    Closed,
}

/// What can happen to a connection.
#[derive(Debug, Clone, Copy, PartialEq, Eq, Structural)]
pub enum ConnEvent {
    /// The read worker has ended: the stream ended or reading failed.
    ReadEnded,
    /// The write worker has ended: writing failed.
    WriteEnded,
    /// The connection was closed or dropped, or its listener closed all
    /// connections.
    Close,
}

/// Which directions of a connection still work.
#[derive(Debug, Clone, Copy, PartialEq, Eq, Structural)]
pub struct ConnState {
    /// The inbound pool is open.
    pub reading: bool,
    /// The outbound pool is open.
    pub writing: bool,
}

impl ConnState {
    /// The phase that the open directions amount to.
    pub open spec fn spec_phase(self) -> ConnPhase {
        if self.reading && self.writing {
            ConnPhase::Open
        } else if self.reading || self.writing {
            ConnPhase::Draining
        } else {
            ConnPhase::Closed
        }
    }

    /// The state after `event`.
    pub open spec fn after(self, event: ConnEvent) -> Self {
        match event {
            ConnEvent::ReadEnded => ConnState { reading: false, writing: self.writing },
            ConnEvent::WriteEnded => ConnState { reading: self.reading, writing: false },
            ConnEvent::Close => ConnState { reading: false, writing: false },
        }
    }

    /// How far a phase is from the start.
    pub open spec fn rank(phase: ConnPhase) -> nat {
        match phase {
            ConnPhase::Open => 0,
            ConnPhase::Draining => 1,
            ConnPhase::Closed => 2,
        }
    }

    /// A connection on which both directions work.
    pub fn new() -> (state: Self)
        ensures
            state == (ConnState { reading: true, writing: true }),
            state.spec_phase() == ConnPhase::Open,
    {
        ConnState { reading: true, writing: true }
    }

    /// Returns the phase of the connection.
    pub fn phase(&self) -> (phase: ConnPhase)
        ensures
            phase == self.spec_phase(),
    {
        if self.reading && self.writing {
            ConnPhase::Open
        } else if self.reading || self.writing {
            ConnPhase::Draining
        } else {
            ConnPhase::Closed
        }
    }

    /// Takes in `event`. A direction that has ended stays ended.
    pub fn on_event(&mut self, event: ConnEvent) -> (phase: ConnPhase)
        ensures
            *final(self) == old(self).after(event),
            phase == final(self).spec_phase(),
    {
        match event {
            ConnEvent::ReadEnded => {
                self.reading = false;
            },
            ConnEvent::WriteEnded => {
                self.writing = false;
            },
            ConnEvent::Close => {
                self.reading = false;
                self.writing = false;
            },
        }
        self.phase()
    }

    /// Closes both directions, as `on_event` does for `Close`.
    pub fn close(&mut self)
        ensures
            *final(self) == old(self).after(ConnEvent::Close),
            final(self).spec_phase() == ConnPhase::Closed,
    {
        self.reading = false;
        self.writing = false;
    }
}

/// A connection only moves on: from open to draining to closed, never back.
/// The end of one direction leaves the other as it is, a close ends both,
/// and closing again changes nothing.
pub proof fn lemma_connection_only_moves_on(state: ConnState, event: ConnEvent)
    ensures
        ConnState::rank(state.spec_phase()) <= ConnState::rank(state.after(event).spec_phase()),
        state.after(ConnEvent::ReadEnded).writing == state.writing,
        state.after(ConnEvent::WriteEnded).reading == state.reading,
        state.after(ConnEvent::Close).spec_phase() == ConnPhase::Closed,
        state.after(ConnEvent::Close).after(event) == state.after(ConnEvent::Close),
        state.after(event).after(event) == state.after(event),
{
}

} // verus!
