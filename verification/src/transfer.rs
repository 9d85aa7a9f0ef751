//! The splice transfer engine, as a verified state machine.
//!
//! The engine decides every step of a zero-copy transfer of an in-memory
//! payload to a connected socket: acquire a kernel pipe, move the payload
//! into the pipe and from the pipe into the socket in bounded chunks, release
//! the pipe on every exit path, and half-close the socket once every byte is
//! delivered. The kernel calls themselves are performed by the caller, which
//! asks for the next [`TransferAction`], performs it, and reports the outcome
//! as a [`TransferEvent`]. The counts returned by the kernel are
//! authoritative: a move may accept fewer bytes than requested, and the
//! machine accounts with the reported count, never the requested one.
//!
//! The bytes of the payload never pass through the machine; the kernel moves
//! them directly. The machine designates which bytes move: a fill action
//! always names the next unsent contiguous range of the payload, and a drain
//! never asks for more than the pipe holds, so the bytes on the wire are
//! always exactly the first [`Transfer::delivered`] bytes of the payload, in
//! order. [`Transfer::wire`] states that correspondence over an abstract
//! payload sequence, and the lemmas at the bottom of this module prove the
//! delivery guarantees over it.

use vstd::prelude::*;

verus! {

/// Default chunk size: 64 KiB, large enough to amortize syscall overhead,
/// small enough to bound per-iteration memory pinning.
pub const DEFAULT_CHUNK_SIZE: usize = 65536;

/// Where the transfer stands.
#[derive(Clone, Copy, Debug, PartialEq, Eq, Structural)]
pub enum TransferPhase {
    /// No pipe exists yet; the next step acquires one.
    Creating,
    /// The pipe is open and empty; the next step moves payload bytes into it.
    Filling,
    /// The pipe holds part of the current chunk; the next step drains it
    /// toward the socket.
    Draining,
    /// The transfer body is over (completed or aborted); the pipe is still
    /// open and must be released before anything else.
    Releasing { failed: bool, errno: i32 },
    /// The pipe is released and every byte is delivered; the write side of
    /// the connection is to be shut down.
    ShuttingDown,
    /// The payload was fully delivered and the half-close succeeded.
    Finished,
    /// A kernel call failed; the transfer is over and the pipe is released.
    Failed { errno: i32 },
}

/// What the caller must do next with the real descriptors.
#[derive(Clone, Copy, Debug, PartialEq, Eq, Structural)]
pub enum TransferAction {
    /// Create a kernel pipe (two descriptors).
    CreatePipe,
    /// Move `len` payload bytes starting at `offset` into the pipe's write
    /// end, without copying through user space.
    Fill { offset: usize, len: usize },
    /// Move up to `len` bytes from the pipe's read end into the socket.
    Drain { len: usize },
    /// Close both ends of the pipe.
    ClosePipe,
    /// Shut down the write direction of the connection.
    Shutdown,
    /// Nothing remains; the transfer is over.
    Done,
}

/// What the kernel answered to the last action.
#[derive(Clone, Copy, Debug, PartialEq, Eq, Structural)]
pub enum TransferEvent {
    /// The pipe was created.
    PipeCreated,
    /// A fill moved `count` bytes into the pipe; `count` may be less than
    /// requested.
    Filled { count: usize },
    /// A drain moved `count` bytes into the socket; `count` may be less than
    /// requested.
    Drained { count: usize },
    /// Both pipe descriptors were closed.
    PipeClosed,
    /// The write direction of the connection was shut down.
    ShutdownDone,
    /// The action failed with the given OS error code.
    SyscallFailed { errno: i32 },
}

/// The state of one transfer attempt.
///
/// `total_sent` counts the bytes of completed chunks, `chunk_filled` the
/// bytes of the current chunk accepted into the pipe, and `chunk_drained`
/// those of them already moved on into the socket.
#[derive(Clone, Copy, Debug)]
pub struct Transfer {
    pub payload_len: usize,
    pub chunk_size: usize,
    pub total_sent: usize,
    pub chunk_filled: usize,
    pub chunk_drained: usize,
    pub pipe_open: bool,
    pub phase: TransferPhase,
}

impl Transfer {
    /// Bytes of the payload not yet part of a completed chunk.
    pub open spec fn remaining(self) -> int {
        self.payload_len - self.total_sent
    }

    /// Size of the next fill request: a full chunk, or what is left.
    pub open spec fn fill_goal(self) -> int {
        if self.remaining() < self.chunk_size {
            self.remaining()
        } else {
            self.chunk_size as int
        }
    }

    /// Bytes already moved into the socket, and so visible to the peer.
    pub open spec fn delivered(self) -> int {
        self.total_sent + self.chunk_drained
    }

    /// Bytes sitting in the pipe, accepted but not yet drained.
    pub open spec fn in_pipe(self) -> int {
        self.chunk_filled - self.chunk_drained
    }

    /// The transfer is over, successfully or not.
    pub open spec fn is_terminal(self) -> bool {
        self.phase is Finished || self.phase is Failed
    }

    /// The byte sequence the peer has received, given the payload the fill
    /// actions draw from: always the delivered-length prefix, in order.
    pub open spec fn wire(self, payload: Seq<u8>) -> Seq<u8> {
        payload.take(self.delivered())
    }

    /// Well-formedness: the counters stay within the payload, and each phase
    /// agrees with the pipe state it implies. Established by [`Transfer::new`]
    /// and preserved by every [`Transfer::apply`].
    pub open spec fn wf(self) -> bool {
        &&& self.chunk_size >= 1
        &&& self.total_sent <= self.payload_len
        &&& match self.phase {
            TransferPhase::Creating => {
                &&& !self.pipe_open
                &&& self.total_sent == 0
                &&& self.chunk_filled == 0
                &&& self.chunk_drained == 0
            },
            TransferPhase::Filling => {
                &&& self.pipe_open
                &&& self.total_sent < self.payload_len
                &&& self.chunk_filled == 0
                &&& self.chunk_drained == 0
            },
            TransferPhase::Draining => {
                &&& self.pipe_open
                &&& 1 <= self.chunk_filled <= self.chunk_size
                &&& self.chunk_drained < self.chunk_filled
                &&& self.total_sent + self.chunk_filled <= self.payload_len
            },
            TransferPhase::Releasing { failed, .. } => {
                &&& self.pipe_open
                &&& if failed {
                    &&& self.chunk_drained <= self.chunk_filled <= self.chunk_size
                    &&& self.total_sent + self.chunk_filled <= self.payload_len
                } else {
                    &&& self.total_sent == self.payload_len
                    &&& self.chunk_filled == 0
                    &&& self.chunk_drained == 0
                }
            },
            TransferPhase::ShuttingDown => {
                &&& !self.pipe_open
                &&& self.total_sent == self.payload_len
                &&& self.chunk_filled == 0
                &&& self.chunk_drained == 0
            },
            TransferPhase::Finished => {
                &&& !self.pipe_open
                &&& self.total_sent == self.payload_len
                &&& self.chunk_filled == 0
                &&& self.chunk_drained == 0
            },
            TransferPhase::Failed { .. } => {
                &&& !self.pipe_open
                &&& self.chunk_drained <= self.chunk_filled
                &&& self.total_sent + self.chunk_filled <= self.payload_len
            },
        }
    }

    /// The state a fresh transfer starts in.
    pub open spec fn initial(payload_len: usize, chunk_size: usize) -> Transfer {
        Transfer {
            payload_len,
            chunk_size,
            total_sent: 0,
            chunk_filled: 0,
            chunk_drained: 0,
            pipe_open: false,
            phase: TransferPhase::Creating,
        }
    }

    /// The action each phase calls for.
    pub open spec fn action_spec(self) -> TransferAction {
        match self.phase {
            TransferPhase::Creating => TransferAction::CreatePipe,
            TransferPhase::Filling => TransferAction::Fill {
                offset: self.total_sent,
                len: self.fill_goal() as usize,
            },
            TransferPhase::Draining => TransferAction::Drain {
                len: (self.chunk_filled - self.chunk_drained) as usize,
            },
            TransferPhase::Releasing { .. } => TransferAction::ClosePipe,
            TransferPhase::ShuttingDown => TransferAction::Shutdown,
            TransferPhase::Finished => TransferAction::Done,
            TransferPhase::Failed { .. } => TransferAction::Done,
        }
    }

    /// Which events can answer the current action. A fill or drain never
    /// reports more bytes than were requested.
    pub open spec fn valid_event(self, ev: TransferEvent) -> bool {
        match self.phase {
            TransferPhase::Creating => ev is PipeCreated || ev is SyscallFailed,
            TransferPhase::Filling => {
                ||| (ev matches TransferEvent::Filled { count } && count <= self.fill_goal())
                ||| ev is SyscallFailed
            },
            TransferPhase::Draining => {
                ||| (ev matches TransferEvent::Drained { count } && count <= self.in_pipe())
                ||| ev is SyscallFailed
            },
            TransferPhase::Releasing { .. } => ev is PipeClosed,
            TransferPhase::ShuttingDown => ev is ShutdownDone || ev is SyscallFailed,
            TransferPhase::Finished => false,
            TransferPhase::Failed { .. } => false,
        }
    }

    /// The transition relation, as a total function; an event that is not
    /// valid for the phase leaves the state unchanged.
    pub open spec fn step_spec(self, ev: TransferEvent) -> Transfer {
        match (self.phase, ev) {
            (TransferPhase::Creating, TransferEvent::PipeCreated) => {
                if self.payload_len == 0 {
                    Transfer {
                        pipe_open: true,
                        phase: TransferPhase::Releasing { failed: false, errno: 0 },
                        ..self
                    }
                } else {
                    Transfer { pipe_open: true, phase: TransferPhase::Filling, ..self }
                }
            },
            (TransferPhase::Creating, TransferEvent::SyscallFailed { errno }) => {
                Transfer { phase: TransferPhase::Failed { errno }, ..self }
            },
            (TransferPhase::Filling, TransferEvent::Filled { count }) => {
                if count == 0 {
                    self
                } else {
                    Transfer {
                        chunk_filled: count,
                        chunk_drained: 0,
                        phase: TransferPhase::Draining,
                        ..self
                    }
                }
            },
            (TransferPhase::Filling, TransferEvent::SyscallFailed { errno }) => {
                Transfer { phase: TransferPhase::Releasing { failed: true, errno }, ..self }
            },
            (TransferPhase::Draining, TransferEvent::Drained { count }) => {
                if self.chunk_drained + count == self.chunk_filled {
                    let sent = (self.total_sent + self.chunk_filled) as usize;
                    if sent == self.payload_len {
                        Transfer {
                            total_sent: sent,
                            chunk_filled: 0,
                            chunk_drained: 0,
                            phase: TransferPhase::Releasing { failed: false, errno: 0 },
                            ..self
                        }
                    } else {
                        Transfer {
                            total_sent: sent,
                            chunk_filled: 0,
                            chunk_drained: 0,
                            phase: TransferPhase::Filling,
                            ..self
                        }
                    }
                } else {
                    Transfer { chunk_drained: (self.chunk_drained + count) as usize, ..self }
                }
            },
            (TransferPhase::Draining, TransferEvent::SyscallFailed { errno }) => {
                Transfer { phase: TransferPhase::Releasing { failed: true, errno }, ..self }
            },
            (TransferPhase::Releasing { failed, errno }, TransferEvent::PipeClosed) => {
                if failed {
                    Transfer { pipe_open: false, phase: TransferPhase::Failed { errno }, ..self }
                } else {
                    Transfer { pipe_open: false, phase: TransferPhase::ShuttingDown, ..self }
                }
            },
            (TransferPhase::ShuttingDown, TransferEvent::ShutdownDone) => {
                Transfer { phase: TransferPhase::Finished, ..self }
            },
            (TransferPhase::ShuttingDown, TransferEvent::SyscallFailed { errno }) => {
                Transfer { phase: TransferPhase::Failed { errno }, ..self }
            },
            _ => self,
        }
    }

    /// Start a transfer of `payload_len` bytes, moved in chunks of at most
    /// `chunk_size` bytes.
    pub fn new(payload_len: usize, chunk_size: usize) -> (t: Transfer)
        requires
            chunk_size >= 1,
        ensures
            t == Transfer::initial(payload_len, chunk_size),
            t.wf(),
            t.delivered() == 0,
            !t.pipe_open,
    {
        Transfer {
            payload_len,
            chunk_size,
            total_sent: 0,
            chunk_filled: 0,
            chunk_drained: 0,
            pipe_open: false,
            phase: TransferPhase::Creating,
        }
    }

    /// The next action the caller must perform.
    pub fn next_action(&self) -> (a: TransferAction)
        requires
            self.wf(),
        ensures
            a == self.action_spec(),
    {
        match self.phase {
            TransferPhase::Creating => TransferAction::CreatePipe,
            TransferPhase::Filling => {
                let left: usize = self.payload_len - self.total_sent;
                let len: usize = if left < self.chunk_size {
                    left
                } else {
                    self.chunk_size
                };
                TransferAction::Fill { offset: self.total_sent, len }
            },
            TransferPhase::Draining => TransferAction::Drain {
                len: self.chunk_filled - self.chunk_drained,
            },
            TransferPhase::Releasing { .. } => TransferAction::ClosePipe,
            TransferPhase::ShuttingDown => TransferAction::Shutdown,
            TransferPhase::Finished => TransferAction::Done,
            TransferPhase::Failed { .. } => TransferAction::Done,
        }
    }

    /// Consume the outcome of the last action and move to the next state.
    pub fn apply(&mut self, ev: TransferEvent)
        requires
            old(self).wf(),
            old(self).valid_event(ev),
        ensures
            *final(self) == old(self).step_spec(ev),
            final(self).wf(),
            final(self).payload_len == old(self).payload_len,
            final(self).chunk_size == old(self).chunk_size,
            final(self).delivered() >= old(self).delivered(),
    {
        match (self.phase, ev) {
            (TransferPhase::Creating, TransferEvent::PipeCreated) => {
                self.pipe_open = true;
                if self.payload_len == 0 {
                    self.phase = TransferPhase::Releasing { failed: false, errno: 0 };
                } else {
                    self.phase = TransferPhase::Filling;
                }
            },
            (TransferPhase::Creating, TransferEvent::SyscallFailed { errno }) => {
                self.phase = TransferPhase::Failed { errno };
            },
            (TransferPhase::Filling, TransferEvent::Filled { count }) => {
                if count != 0 {
                    self.chunk_filled = count;
                    self.chunk_drained = 0;
                    self.phase = TransferPhase::Draining;
                }
            },
            (TransferPhase::Filling, TransferEvent::SyscallFailed { errno }) => {
                self.phase = TransferPhase::Releasing { failed: true, errno };
            },
            (TransferPhase::Draining, TransferEvent::Drained { count }) => {
                if self.chunk_drained + count == self.chunk_filled {
                    self.total_sent = self.total_sent + self.chunk_filled;
                    self.chunk_filled = 0;
                    self.chunk_drained = 0;
                    if self.total_sent == self.payload_len {
                        self.phase = TransferPhase::Releasing { failed: false, errno: 0 };
                    } else {
                        self.phase = TransferPhase::Filling;
                    }
                } else {
                    self.chunk_drained = self.chunk_drained + count;
                }
            },
            (TransferPhase::Draining, TransferEvent::SyscallFailed { errno }) => {
                self.phase = TransferPhase::Releasing { failed: true, errno };
            },
            (TransferPhase::Releasing { failed, errno }, TransferEvent::PipeClosed) => {
                self.pipe_open = false;
                if failed {
                    self.phase = TransferPhase::Failed { errno };
                } else {
                    self.phase = TransferPhase::ShuttingDown;
                }
            },
            (TransferPhase::ShuttingDown, TransferEvent::ShutdownDone) => {
                self.phase = TransferPhase::Finished;
            },
            (TransferPhase::ShuttingDown, TransferEvent::SyscallFailed { errno }) => {
                self.phase = TransferPhase::Failed { errno };
            },
            _ => {
            },
        }
    }
}

impl Transfer {
    /// An upper bound on the steps left before the transfer is over: each
    /// undelivered byte weighs four, and each phase still ahead of the
    /// terminal ones weighs one. Strictly decreased by every step whose
    /// event reports progress (see [`lemma_progress`]), so a transfer under
    /// a kernel that keeps moving bytes terminates — and the loop leaves
    /// the chunk phases exactly when `total_sent` reaches the payload
    /// length.
    pub open spec fn measure(self) -> int {
        4 * (self.payload_len - self.delivered()) + match self.phase {
            TransferPhase::Creating => 5int,
            TransferPhase::Filling => 4int,
            TransferPhase::Draining => 3int,
            TransferPhase::Releasing { .. } => 2int,
            TransferPhase::ShuttingDown => 1int,
            TransferPhase::Finished => 0int,
            TransferPhase::Failed { .. } => 0int,
        }
    }
}

/// Progress: whenever the kernel answers, and a fill or drain answer moves
/// at least one byte, the step strictly decreases a non-negative measure;
/// the transfer therefore cannot run forever, and ends in bounded steps.
pub proof fn lemma_progress(t: Transfer, ev: TransferEvent)
    requires
        t.wf(),
        t.valid_event(ev),
        ev matches TransferEvent::Filled { count } ==> count >= 1,
        ev matches TransferEvent::Drained { count } ==> count >= 1,
    ensures
        0 <= t.step_spec(ev).measure() < t.measure(),
{
}

/// Completeness: a finished transfer has put exactly the payload on the
/// wire, byte for byte and in order.
pub proof fn lemma_completeness(t: Transfer, payload: Seq<u8>)
    requires
        t.wf(),
        t.phase is Finished,
        payload.len() == t.payload_len,
    ensures
        t.wire(payload) == payload,
{
    assert(t.wire(payload) =~= payload);
}

/// Chunking invariance: two finished transfers of the same payload deliver
/// the same byte sequence, whatever chunk sizes each used.
pub proof fn lemma_chunking_invariance(a: Transfer, b: Transfer, payload: Seq<u8>)
    requires
        a.wf(),
        b.wf(),
        a.phase is Finished,
        b.phase is Finished,
        payload.len() == a.payload_len,
        a.payload_len == b.payload_len,
    ensures
        a.wire(payload) == b.wire(payload),
{
    lemma_completeness(a, payload);
    lemma_completeness(b, payload);
}

/// Resource release: however a transfer ends, success or failure, the pipe
/// is no longer open, and no further action or event is left for it.
pub proof fn lemma_resource_release(t: Transfer, ev: TransferEvent)
    requires
        t.wf(),
        t.is_terminal(),
    ensures
        !t.pipe_open,
        t.action_spec() == TransferAction::Done,
        !t.valid_event(ev),
{
}

/// Half-close discipline: the shutdown is requested only once every payload
/// byte is delivered and the pipe is empty and released, so the peer sees
/// end-of-stream immediately after the last payload byte and nothing after
/// it.
pub proof fn lemma_half_close(t: Transfer)
    requires
        t.wf(),
    ensures
        t.action_spec() == TransferAction::Shutdown ==> {
            &&& t.delivered() == t.payload_len
            &&& t.in_pipe() == 0
            &&& !t.pipe_open
        },
        t.phase is Finished ==> t.action_spec() == TransferAction::Done,
{
}

/// In-order delivery: a fill is requested only when the pipe is empty, for
/// the range of the payload that starts exactly where delivery stands, and
/// never past the end of the payload. Chunks therefore go out strictly in
/// payload order.
pub proof fn lemma_fill_in_order(t: Transfer, offset: usize, len: usize)
    requires
        t.wf(),
        t.action_spec() == (TransferAction::Fill { offset, len }),
    ensures
        offset == t.delivered(),
        t.in_pipe() == 0,
        1 <= len <= t.chunk_size,
        offset + len <= t.payload_len,
{
}

/// Error surfacing: a kernel failure during the chunk loop first releases
/// the pipe and then ends the transfer with exactly the OS error code the
/// kernel reported.
pub proof fn lemma_error_code_surfaced(t: Transfer, errno: i32)
    requires
        t.wf(),
        t.phase is Filling || t.phase is Draining,
    ensures
        ({
            let aborted = t.step_spec(TransferEvent::SyscallFailed { errno });
            let released = aborted.step_spec(TransferEvent::PipeClosed);
            &&& aborted.action_spec() == TransferAction::ClosePipe
            &&& released.phase == (TransferPhase::Failed { errno })
            &&& !released.pipe_open
        }),
{
}

/// Empty payload: with nothing to send, the machine acquires and releases
/// the pipe, half-closes at once with zero bytes delivered, and finishes
/// without error.
pub proof fn lemma_empty_payload(chunk_size: usize)
    requires
        chunk_size >= 1,
    ensures
        ({
            let t0 = Transfer::initial(0, chunk_size);
            let t1 = t0.step_spec(TransferEvent::PipeCreated);
            let t2 = t1.step_spec(TransferEvent::PipeClosed);
            let t3 = t2.step_spec(TransferEvent::ShutdownDone);
            &&& t0.action_spec() == TransferAction::CreatePipe
            &&& t1.action_spec() == TransferAction::ClosePipe
            &&& t2.action_spec() == TransferAction::Shutdown
            &&& t2.delivered() == 0
            &&& t3.phase is Finished
            &&& t3.delivered() == 0
            &&& !t3.pipe_open
        }),
{
}

} // verus!

