//! The image transfer engine: one download of a firmware image into storage.
//!
//! The engine performs no operation itself. It is a state machine that says
//! which operation comes next and takes the outcome of that operation as an
//! event: the request, the opening of a storage session, each read of a chunk
//! and each write of it, the finalizing, the switch of the boot target, the
//! restart. Whatever arrives in place of the success that a phase waits for
//! ends the transfer with the error of that phase.

use vstd::prelude::*;
use crate::manifest::{is_success, status_ok};

verus! {

/// The number of bytes asked of the stream in one read.
pub const CHUNK_SIZE: usize = 4096;

/// Why a transfer ended.
#[derive(Clone, Copy, Debug, PartialEq, Eq, Structural)]
pub enum TransferError {
    /// The response status was outside 200 to 299.
    UnexpectedStatus(u16),
    /// A read from the stream or an operation of the storage failed.
    IoError,
    /// The storage could not finalize the session.
    FinalizeError,
    /// The request failed before a status arrived.
    NetworkError,
}

/// Where a transfer stands: the outcome that it waits for.
#[derive(Clone, Copy, Debug, PartialEq, Eq, Structural)]
pub enum TransferPhase {
    /// The request is out; the response status is awaited.
    Connecting,
    /// The status was accepted; the storage session is being opened.
    Opening,
    /// The next chunk of the stream is being read.
    Reading,
    /// A chunk is being written to the session.
    Writing,
    /// The stream has ended; the session is being finalized.
    Finalizing,
    /// The image is finalized; the boot target is being switched to it.
    Activating,
    /// The boot target is switched; the restart is under way.
    Restarting,
    /// The transfer ended with an error. Nothing follows.
    Failed(TransferError),
}

/// The outcome of the operation that the engine asked for last.
#[derive(Clone, Copy, Debug, PartialEq, Eq, Structural)]
pub enum TransferEvent {
    /// The response arrived with this status.
    Status(u16),
    /// A read returned this many bytes; none means the end of the stream.
    Chunk(usize),
    /// The storage operation succeeded.
    Done,
    /// The operation failed, or, for the restart, returned.
    Failed,
}

/// The operation that the engine asks for next.
#[derive(Clone, Copy, Debug, PartialEq, Eq, Structural)]
pub enum TransferAction {
    /// Open a session on the storage.
    OpenSession,
    /// Read up to [`CHUNK_SIZE`] bytes from the stream.
    ReadChunk,
    /// Write the bytes just read, this many, to the session.
    WriteChunk(usize),
    /// Finalize the session.
    Finalize,
    /// Make the finalized image the next boot target.
    SetBootTarget,
    /// Restart the device.
    Restart,
    /// Give up with this error.
    Abort(TransferError),
}

/// The mathematical value of a [`TransferSession`].
pub struct SessionModel {
    pub phase: TransferPhase,
    /// The bytes that the storage has taken so far.
    pub cursor: nat,
    /// The length of the chunk that is being written.
    pub pending: nat,
}

/// One download in progress.
#[derive(Debug, PartialEq, Eq)]
pub struct TransferSession {
    phase: TransferPhase,
    cursor: u64,
    pending: usize,
}

/// What holds of a session in every state that the engine reaches: the
/// cursor, and the chunk that is being written with it, can be counted; a
/// chunk is being written in the writing phase and in no other, and it fits
/// the read buffer.
pub open spec fn consistent(session: SessionModel) -> bool {
    &&& session.cursor + session.pending <= u64::MAX
    &&& session.pending <= CHUNK_SIZE
    &&& session.phase != TransferPhase::Writing ==> session.pending == 0
    &&& session.phase == TransferPhase::Writing ==> session.pending > 0
}

/// The session at its start: the request is out and nothing is written.
pub open spec fn initial() -> SessionModel {
    SessionModel { phase: TransferPhase::Connecting, cursor: 0, pending: 0 }
}

/// The session ended by an error; the cursor stays where it was.
pub open spec fn failed(session: SessionModel, error: TransferError) -> (SessionModel, TransferAction) {
    (
        SessionModel { phase: TransferPhase::Failed(error), cursor: session.cursor, pending: 0 },
        TransferAction::Abort(error),
    )
}

/// The session in another phase, with nothing being written.
pub open spec fn moved(session: SessionModel, phase: TransferPhase, action: TransferAction) -> (
    SessionModel,
    TransferAction,
) {
    (SessionModel { phase, cursor: session.cursor, pending: 0 }, action)
}

/// Whether a chunk of this length can be taken: it fits the read buffer, and
/// the cursor can still count it.
pub open spec fn chunk_fits(session: SessionModel, length: nat) -> bool {
    length <= CHUNK_SIZE && session.cursor + length <= u64::MAX
}

/// One step of the engine: the session after an event, and the operation that
/// it asks for.
pub open spec fn step(session: SessionModel, event: TransferEvent) -> (SessionModel, TransferAction) {
    match session.phase {
        TransferPhase::Connecting => match event {
            TransferEvent::Status(status) => if status_ok(status) {
                moved(session, TransferPhase::Opening, TransferAction::OpenSession)
            } else {
                failed(session, TransferError::UnexpectedStatus(status))
            },
            _ => failed(session, TransferError::NetworkError),
        },
        TransferPhase::Opening => match event {
            TransferEvent::Done => moved(session, TransferPhase::Reading, TransferAction::ReadChunk),
            _ => failed(session, TransferError::IoError),
        },
        TransferPhase::Reading => match event {
            TransferEvent::Chunk(length) => if length == 0 {
                moved(session, TransferPhase::Finalizing, TransferAction::Finalize)
            } else if chunk_fits(session, length as nat) {
                (
                    SessionModel {
                        phase: TransferPhase::Writing,
                        cursor: session.cursor,
                        pending: length as nat,
                    },
                    TransferAction::WriteChunk(length),
                )
            } else {
                failed(session, TransferError::IoError)
            },
            _ => failed(session, TransferError::IoError),
        },
        TransferPhase::Writing => match event {
            TransferEvent::Done => (
                SessionModel {
                    phase: TransferPhase::Reading,
                    cursor: session.cursor + session.pending,
                    pending: 0,
                },
                TransferAction::ReadChunk,
            ),
            _ => failed(session, TransferError::IoError),
        },
        TransferPhase::Finalizing => match event {
            TransferEvent::Done => moved(
                session,
                TransferPhase::Activating,
                TransferAction::SetBootTarget,
            ),
            _ => failed(session, TransferError::FinalizeError),
        },
        TransferPhase::Activating => match event {
            TransferEvent::Done => moved(session, TransferPhase::Restarting, TransferAction::Restart),
            _ => failed(session, TransferError::IoError),
        },
        TransferPhase::Restarting => failed(session, TransferError::IoError),
        TransferPhase::Failed(error) => (session, TransferAction::Abort(error)),
    }
}

impl View for TransferSession {
    type V = SessionModel;

    closed spec fn view(&self) -> SessionModel {
        SessionModel {
            phase: self.phase,
            cursor: self.cursor as nat,
            pending: self.pending as nat,
        }
    }
}

impl TransferSession {
    /// Every session is consistent: see [`consistent`].
    #[verifier::type_invariant]
    spec fn holds_together(&self) -> bool {
        consistent(self@)
    }

    /// A session whose request is out: it waits for the response status.
    pub fn new() -> (session: TransferSession)
        ensures
            session@ == initial(),
    {
        TransferSession { phase: TransferPhase::Connecting, cursor: 0, pending: 0 }
    }

    /// The phase that the session is in.
    pub fn phase(&self) -> (phase: TransferPhase)
        ensures
            phase == self@.phase,
    {
        self.phase
    }

    /// The number of bytes that the storage has taken so far.
    pub fn bytes_written(&self) -> (cursor: u64)
        ensures
            cursor == self@.cursor,
    {
        self.cursor
    }

    /// Whether the image is committed: written whole, finalized, and made the
    /// next boot target.
    pub fn is_complete(&self) -> (complete: bool)
        ensures
            complete == (self@.phase == TransferPhase::Restarting),
    {
        match self.phase {
            TransferPhase::Restarting => true,
            _ => false,
        }
    }

    /// Whether the transfer has ended with an error.
    pub fn has_failed(&self) -> (ended: bool)
        ensures
            ended == (self@.phase is Failed),
    {
        match self.phase {
            TransferPhase::Failed(_) => true,
            _ => false,
        }
    }

    fn fail(&mut self, error: TransferError) -> (action: TransferAction)
        ensures
            (final(self)@, action) == failed(old(self)@, error),
    {
        proof {
            use_type_invariant(&*self);
        }
        *self = TransferSession { phase: TransferPhase::Failed(error), cursor: self.cursor, pending: 0 };
        TransferAction::Abort(error)
    }

    fn enter(&mut self, phase: TransferPhase, action: TransferAction) -> (asked: TransferAction)
        requires
            phase != TransferPhase::Writing,
        ensures
            (final(self)@, asked) == moved(old(self)@, phase, action),
    {
        proof {
            use_type_invariant(&*self);
        }
        *self = TransferSession { phase, cursor: self.cursor, pending: 0 };
        action
    }

    /// Takes the outcome of the operation asked for last, and says which
    /// operation comes next: one [`step`].
    pub fn advance(&mut self, event: TransferEvent) -> (action: TransferAction)
        ensures
            (final(self)@, action) == step(old(self)@, event),
    {
        proof {
            use_type_invariant(&*self);
        }
        match self.phase {
            TransferPhase::Connecting => match event {
                TransferEvent::Status(status) => if is_success(status) {
                    self.enter(TransferPhase::Opening, TransferAction::OpenSession)
                } else {
                    self.fail(TransferError::UnexpectedStatus(status))
                },
                _ => self.fail(TransferError::NetworkError),
            },
            TransferPhase::Opening => match event {
                TransferEvent::Done => self.enter(TransferPhase::Reading, TransferAction::ReadChunk),
                _ => self.fail(TransferError::IoError),
            },
            TransferPhase::Reading => match event {
                TransferEvent::Chunk(length) => if length == 0 {
                    self.enter(TransferPhase::Finalizing, TransferAction::Finalize)
                } else if length <= CHUNK_SIZE && length as u64 <= u64::MAX - self.cursor {
                    *self = TransferSession {
                        phase: TransferPhase::Writing,
                        cursor: self.cursor,
                        pending: length,
                    };
                    TransferAction::WriteChunk(length)
                } else {
                    self.fail(TransferError::IoError)
                },
                _ => self.fail(TransferError::IoError),
            },
            TransferPhase::Writing => match event {
                TransferEvent::Done => {
                    *self = TransferSession {
                        phase: TransferPhase::Reading,
                        cursor: self.cursor + self.pending as u64,
                        pending: 0,
                    };
                    TransferAction::ReadChunk
                },
                _ => self.fail(TransferError::IoError),
            },
            TransferPhase::Finalizing => match event {
                TransferEvent::Done => self.enter(
                    TransferPhase::Activating,
                    TransferAction::SetBootTarget,
                ),
                _ => self.fail(TransferError::FinalizeError),
            },
            TransferPhase::Activating => match event {
                TransferEvent::Done => self.enter(TransferPhase::Restarting, TransferAction::Restart),
                _ => self.fail(TransferError::IoError),
            },
            TransferPhase::Restarting => self.fail(TransferError::IoError),
            TransferPhase::Failed(error) => TransferAction::Abort(error),
        }
    }
}

/// The session after a run of events, counted from the start of a transfer.
pub open spec fn session_after(events: Seq<TransferEvent>) -> SessionModel
    decreases events.len(),
{
    if events.len() == 0 {
        initial()
    } else {
        step(session_after(events.drop_last()), events.last()).0
    }
}

/// The operation that the engine asks for in answer to the event at `at`.
pub open spec fn answer(events: Seq<TransferEvent>, at: int) -> TransferAction {
    step(session_after(events.take(at)), events[at]).1
}

/// How far a phase is along the way of a transfer. No step leads back.
pub open spec fn progress(phase: TransferPhase) -> nat {
    match phase {
        TransferPhase::Connecting => 0,
        TransferPhase::Opening => 1,
        TransferPhase::Reading => 2,
        TransferPhase::Writing => 2,
        TransferPhase::Finalizing => 3,
        TransferPhase::Activating => 4,
        TransferPhase::Restarting => 5,
        TransferPhase::Failed(_) => 6,
    }
}

/// The session after the first `at + 1` events is one step from the session
/// after the first `at`.
pub proof fn lemma_session_unfolds(events: Seq<TransferEvent>, at: int)
    requires
        0 <= at < events.len(),
    ensures
        session_after(events.take(at + 1)) == step(session_after(events.take(at)), events[at]).0,
{
    let longer = events.take(at + 1);
    assert(longer.drop_last() =~= events.take(at));
    assert(longer.last() == events[at]);
}

/// A step keeps a session consistent, and leads neither back along the way
/// of the transfer nor to a smaller cursor.
pub proof fn lemma_step_goes_forward(session: SessionModel, event: TransferEvent)
    requires
        consistent(session),
    ensures
        consistent(step(session, event).0),
        progress(session.phase) <= progress(step(session, event).0.phase),
        session.cursor <= step(session, event).0.cursor,
{
}

/// Every session that a run of events reaches is consistent.
pub proof fn lemma_reached_is_consistent(events: Seq<TransferEvent>)
    ensures
        consistent(session_after(events)),
    decreases events.len(),
{
    if events.len() > 0 {
        lemma_reached_is_consistent(events.drop_last());
        lemma_step_goes_forward(session_after(events.drop_last()), events.last());
    }
}

/// Along a run of events the transfer only moves forward, and the byte cursor
/// never decreases.
pub proof fn lemma_run_goes_forward(events: Seq<TransferEvent>, early: int, late: int)
    requires
        0 <= early <= late <= events.len(),
    ensures
        progress(session_after(events.take(early)).phase) <= progress(
            session_after(events.take(late)).phase,
        ),
        session_after(events.take(early)).cursor <= session_after(events.take(late)).cursor,
    decreases late - early,
{
    if early < late {
        lemma_run_goes_forward(events, early, late - 1);
        lemma_session_unfolds(events, late - 1);
        lemma_reached_is_consistent(events.take(late - 1));
        lemma_step_goes_forward(session_after(events.take(late - 1)), events[late - 1]);
    }
}

/// A transfer that has failed stays failed: every later event is answered by
/// giving up with the same error.
pub proof fn lemma_failed_stays_failed(events: Seq<TransferEvent>, early: int, late: int)
    requires
        0 <= early <= late < events.len(),
        session_after(events.take(early)).phase is Failed,
    ensures
        session_after(events.take(late)) == session_after(events.take(early)),
        answer(events, late) == TransferAction::Abort(
            session_after(events.take(early)).phase->Failed_0,
        ),
    decreases late - early,
{
    if early < late {
        lemma_failed_stays_failed(events, early, late - 1);
        lemma_session_unfolds(events, late - 1);
    }
}

/// Once an operation has failed, the engine never again asks for anything:
/// the failed event and every event after it are answered by giving up. So
/// no write, no finalizing, no switch of the boot target and no restart
/// follows a failure.
pub proof fn lemma_nothing_follows_a_failure(events: Seq<TransferEvent>, failure: int, later: int)
    requires
        0 <= failure <= later < events.len(),
        events[failure] == TransferEvent::Failed,
    ensures
        answer(events, later) is Abort,
{
    lemma_session_unfolds(events, failure);
    if failure < later {
        lemma_failed_stays_failed(events, failure + 1, later);
    }
}

/// The engine asks to finalize only in answer to the end of the stream, and
/// only while it reads: no operation before has failed, and the engine has
/// not given up before.
pub proof fn lemma_finalize_needs_end_of_stream(events: Seq<TransferEvent>, at: int)
    requires
        0 <= at < events.len(),
        answer(events, at) == TransferAction::Finalize,
    ensures
        events[at] == TransferEvent::Chunk(0),
        session_after(events.take(at)).phase == TransferPhase::Reading,
        forall|before: int|
            0 <= before < at ==> events[before] != TransferEvent::Failed && !(#[trigger] answer(
                events,
                before,
            ) is Abort),
{
    assert forall|before: int| 0 <= before < at implies events[before] != TransferEvent::Failed
        && !(#[trigger] answer(events, before) is Abort) by {
        if events[before] == TransferEvent::Failed || answer(events, before) is Abort {
            lemma_session_unfolds(events, before);
            lemma_failed_stays_failed(events, before + 1, at);
        }
    }
}

/// The engine asks to switch the boot target only in answer to a finalizing
/// that succeeded, which it had asked for one event earlier.
pub proof fn lemma_boot_target_needs_finalized_image(events: Seq<TransferEvent>, at: int)
    requires
        0 <= at < events.len(),
        answer(events, at) == TransferAction::SetBootTarget,
    ensures
        events[at] == TransferEvent::Done,
        at >= 1,
        answer(events, at - 1) == TransferAction::Finalize,
{
    if at == 0 {
        assert(events.take(0).len() == 0);
    } else {
        lemma_session_unfolds(events, at - 1);
    }
}

/// The engine asks to restart only in answer to a switch of the boot target
/// that succeeded, which it had asked for one event earlier.
pub proof fn lemma_restart_needs_boot_target(events: Seq<TransferEvent>, at: int)
    requires
        0 <= at < events.len(),
        answer(events, at) == TransferAction::Restart,
    ensures
        events[at] == TransferEvent::Done,
        at >= 1,
        answer(events, at - 1) == TransferAction::SetBootTarget,
{
    if at == 0 {
        assert(events.take(0).len() == 0);
    } else {
        lemma_session_unfolds(events, at - 1);
    }
}

/// In one transfer the engine asks to finalize at most once, and to switch
/// the boot target at most once.
pub proof fn lemma_commits_at_most_once(events: Seq<TransferEvent>, first: int, second: int)
    requires
        0 <= first < events.len(),
        0 <= second < events.len(),
        answer(events, first) == answer(events, second),
        answer(events, first) == TransferAction::Finalize || answer(events, first)
            == TransferAction::SetBootTarget,
    ensures
        first == second,
{
    if first < second {
        lemma_session_unfolds(events, first);
        lemma_run_goes_forward(events, first + 1, second);
    } else if second < first {
        lemma_session_unfolds(events, second);
        lemma_run_goes_forward(events, second + 1, first);
    }
}

/// Each write that the engine asks for is the answer to the read of a chunk
/// of that very length, which fits the read buffer: chunks go to the storage
/// in the order of the stream, none left out, none doubled, none resized.
pub proof fn lemma_writes_follow_reads(events: Seq<TransferEvent>, at: int, length: usize)
    requires
        0 <= at < events.len(),
        answer(events, at) == TransferAction::WriteChunk(length),
    ensures
        events[at] == TransferEvent::Chunk(length),
        0 < length <= CHUNK_SIZE,
        session_after(events.take(at)).phase == TransferPhase::Reading,
{
}

/// While the engine reads, every chunk that is not empty and fits the read
/// buffer is handed on to be written, as long as the cursor can count it.
pub proof fn lemma_chunks_are_written(session: SessionModel, length: usize)
    requires
        session.phase == TransferPhase::Reading,
        0 < length <= CHUNK_SIZE,
        session.cursor + length <= u64::MAX,
    ensures
        step(session, TransferEvent::Chunk(length)).1 == TransferAction::WriteChunk(length),
{
}

/// The byte cursor moves only when a write is acknowledged, and then by the
/// length of the chunk written.
pub proof fn lemma_cursor_counts_acknowledged_writes(events: Seq<TransferEvent>, at: int)
    requires
        0 <= at < events.len(),
    ensures
        session_after(events.take(at + 1)).cursor == session_after(events.take(at)).cursor + (if at
            >= 1 && events[at] == TransferEvent::Done && answer(events, at - 1)
            is WriteChunk {
            answer(events, at - 1)->WriteChunk_0 as nat
        } else {
            0
        }),
{
    lemma_session_unfolds(events, at);
    lemma_reached_is_consistent(events.take(at));
    if at == 0 {
        assert(events.take(0).len() == 0);
    } else {
        lemma_session_unfolds(events, at - 1);
        lemma_reached_is_consistent(events.take(at - 1));
    }
}

} // verus!
