//! One read or one write on the kernel channel, one step at a time.
//!
//! A call first takes its direction's gate, then waits until the
//! descriptor is ready, then attempts its system call. An attempt that would
//! have blocked sends it back to waiting; any other result ends the call.
//! The driver gives that gate back when the call is done.

use vstd::prelude::*;

use crate::error::Error;
use crate::error::NixError;
use crate::helper::io_error_from_nix_error;
use crate::helper::io_error_of;
use crate::raw::platform::errno_would_block;
use crate::raw::platform::is_would_block;

verus! {

/// The two directions of the channel. Each has a gate of its own.
#[derive(Clone, Copy, Debug, PartialEq, Eq)]
pub enum Direction {
    Read,
    Write,
}

/// How far a call has come.
#[derive(Clone, Copy, Debug, PartialEq, Eq)]
pub enum Stage {
    /// The call waits for its direction's gate.
    AwaitingGate,
    /// The call holds its gate and waits for the descriptor to be ready.
    /// `stale` says that the last readiness report proved wrong and has to
    /// be discarded before waiting.
    AwaitingReadiness { stale: bool },
    /// The call holds its gate and its system call is being attempted.
    Attempting,
}

/// A call in progress: which way it goes, on which descriptor, with a
/// buffer of how many bytes, and how far it has come.
#[derive(Clone, Copy, Debug, PartialEq, Eq)]
pub struct CallState {
    pub direction: Direction,
    pub fd: i32,
    pub len: usize,
    pub stage: Stage,
}

/// What a call asks its driver to do next.
#[derive(Clone, Copy, Debug, PartialEq, Eq)]
pub enum IoAction {
    /// Take the `direction` gate, waiting for it if need be.
    AcquireGate { direction: Direction },
    /// Wait until `fd` is ready for `direction`, after discarding the last
    /// readiness report if `discard_stale` is set.
    AwaitReadiness { direction: Direction, fd: i32, discard_stale: bool },
    /// Attempt one system call of `direction` on `fd`, with the caller's
    /// buffer of `len` bytes, without blocking.
    Attempt { direction: Direction, fd: i32, len: usize },
}

/// How the action that a call asked for ended.
#[derive(Debug, PartialEq, Eq)]
pub enum IoEvent {
    /// The call has its gate.
    GateAcquired,
    /// The descriptor is ready, or waiting for it failed.
    Ready(Result<(), Error>),
    /// The system call returned this many bytes, or failed.
    Attempted(Result<usize, NixError>),
}

/// A call's next state, or its result.
pub enum IoProgressView {
    Pending(CallState),
    Done(Result<usize, Error>),
}

/// The state of a call that starts on `fd`.
pub open spec fn starting(direction: Direction, fd: i32, len: usize) -> CallState {
    CallState { direction, fd, len, stage: Stage::AwaitingGate }
}

/// The same call at another stage.
pub open spec fn at_stage(state: CallState, stage: Stage) -> CallState {
    CallState { stage, ..state }
}

/// Whether a call holds its direction's gate: from the moment it acquires
/// it until the call is done.
pub open spec fn holds_gate(state: CallState) -> bool {
    !(state.stage is AwaitingGate)
}

/// The action that a call waits on.
pub open spec fn io_action_of(state: CallState) -> IoAction {
    match state.stage {
        Stage::AwaitingGate => IoAction::AcquireGate { direction: state.direction },
        Stage::AwaitingReadiness { stale } => IoAction::AwaitReadiness {
            direction: state.direction,
            fd: state.fd,
            discard_stale: stale,
        },
        Stage::Attempting => IoAction::Attempt {
            direction: state.direction,
            fd: state.fd,
            len: state.len,
        },
    }
}

/// Whether a failure says no more than that the call would have blocked.
pub open spec fn would_block(error: Error) -> bool {
    error matches Error::Os(code) && errno_would_block(code)
}

/// What an attempt's outcome makes of the call: a byte count ends it, a
/// failure ends it too unless it is `blocked`, which sends the call back to
/// waiting with the readiness report marked stale.
pub open spec fn settle(state: CallState, outcome: Result<usize, Error>, blocked: bool)
    -> IoProgressView {
    match outcome {
        Ok(count) => IoProgressView::Done(Ok(count)),
        Err(error) => if blocked {
            IoProgressView::Pending(at_stage(state, Stage::AwaitingReadiness { stale: true }))
        } else {
            IoProgressView::Done(Err(error))
        },
    }
}

/// The outcome of an attempt as the call reports it.
pub open spec fn attempt_outcome(attempted: Result<usize, NixError>) -> Result<usize, Error> {
    match attempted {
        Ok(count) => Ok(count),
        Err(err) => Err(io_error_of(err)),
    }
}

/// Whether the outcome of an attempt is a failure that only says the call
/// would have blocked.
pub open spec fn outcome_blocked(outcome: Result<usize, Error>) -> bool {
    outcome matches Err(error) && would_block(error)
}

/// What the call makes of the event. An event that does not answer the
/// call's action leaves the call as it is.
pub open spec fn io_step(state: CallState, event: IoEvent) -> IoProgressView {
    match (state.stage, event) {
        (Stage::AwaitingGate, IoEvent::GateAcquired) => IoProgressView::Pending(
            at_stage(state, Stage::AwaitingReadiness { stale: false }),
        ),
        (Stage::AwaitingReadiness { .. }, IoEvent::Ready(Ok(_))) => IoProgressView::Pending(
            at_stage(state, Stage::Attempting),
        ),
        (Stage::AwaitingReadiness { .. }, IoEvent::Ready(Err(error))) => IoProgressView::Done(
            Err(error),
        ),
        (Stage::Attempting, IoEvent::Attempted(attempted)) => settle(
            state,
            attempt_outcome(attempted),
            outcome_blocked(attempt_outcome(attempted)),
        ),
        _ => IoProgressView::Pending(state),
    }
}

/// A read or a write in progress.
#[derive(Debug)]
pub struct IoCall {
    state: CallState,
}

impl View for IoCall {
    type V = CallState;

    closed spec fn view(&self) -> CallState {
        self.state
    }
}

/// What became of a call after an event.
#[derive(Debug)]
pub enum IoProgress {
    /// The call goes on; its action is the next thing to perform.
    Pending(IoCall),
    /// The call is over: its gate goes back and this is the call's result.
    Done(Result<usize, Error>),
}

impl View for IoProgress {
    type V = IoProgressView;

    open spec fn view(&self) -> IoProgressView {
        match *self {
            IoProgress::Pending(call) => IoProgressView::Pending(call@),
            IoProgress::Done(result) => IoProgressView::Done(result),
        }
    }
}

impl IoCall {
    pub(crate) fn start(direction: Direction, fd: i32, len: usize) -> (call: IoCall)
        ensures
            call@ == starting(direction, fd, len),
    {
        IoCall { state: CallState { direction, fd, len, stage: Stage::AwaitingGate } }
    }

    fn at(&self, stage: Stage) -> (progress: IoProgress)
        ensures
            progress@ == IoProgressView::Pending(at_stage(self@, stage)),
    {
        IoProgress::Pending(
            IoCall {
                state: CallState {
                    direction: self.state.direction,
                    fd: self.state.fd,
                    len: self.state.len,
                    stage,
                },
            },
        )
    }

    /// The action to perform next.
    pub fn action(&self) -> (action: IoAction)
        ensures
            action == io_action_of(self@),
    {
        match self.state.stage {
            Stage::AwaitingGate => IoAction::AcquireGate { direction: self.state.direction },
            Stage::AwaitingReadiness { stale } => IoAction::AwaitReadiness {
                direction: self.state.direction,
                fd: self.state.fd,
                discard_stale: stale,
            },
            Stage::Attempting => IoAction::Attempt {
                direction: self.state.direction,
                fd: self.state.fd,
                len: self.state.len,
            },
        }
    }

    /// Takes in the outcome of an attempt, together with the answer to
    /// whether a failure only says that the call would have blocked. A call
    /// that is not attempting stays as it is.
    pub fn attempted(self, outcome: Result<usize, Error>, blocked: bool) -> (progress: IoProgress)
        ensures
            progress@ == if self@.stage is Attempting {
                settle(self@, outcome, blocked)
            } else {
                IoProgressView::Pending(self@)
            },
    {
        match self.state.stage {
            Stage::Attempting => match outcome {
                Ok(count) => IoProgress::Done(Ok(count)),
                Err(error) => if blocked {
                    self.at(Stage::AwaitingReadiness { stale: true })
                } else {
                    IoProgress::Done(Err(error))
                },
            },
            _ => IoProgress::Pending(self),
        }
    }

    /// Takes in how the pending action ended. An event that does not answer
    /// that action changes nothing.
    pub fn advance(self, event: IoEvent) -> (progress: IoProgress)
        ensures
            progress@ == io_step(self@, event),
    {
        match (self.state.stage, event) {
            (Stage::AwaitingGate, IoEvent::GateAcquired) => self.at(
                Stage::AwaitingReadiness { stale: false },
            ),
            (Stage::AwaitingReadiness { .. }, IoEvent::Ready(Ok(_))) => self.at(Stage::Attempting),
            (Stage::AwaitingReadiness { .. }, IoEvent::Ready(Err(error))) => IoProgress::Done(
                Err(error),
            ),
            (Stage::Attempting, IoEvent::Attempted(attempted)) => {
                let outcome = match attempted {
                    Ok(count) => Ok(count),
                    Err(err) => Err(io_error_from_nix_error(err)),
                };
                let blocked = match &outcome {
                    Err(Error::Os(code)) => is_would_block(*code),
                    _ => false,
                };
                self.attempted(outcome, blocked)
            },
            _ => IoProgress::Pending(self),
        }
    }
}

/// A call ends with a count of zero exactly when its attempt returned zero,
/// which is how the channel reports that it was closed. Neither waiting nor
/// an attempt that would have blocked ever ends a call with zero.
pub proof fn lemma_zero_means_closed(state: CallState, event: IoEvent)
    ensures
        io_step(state, event) == IoProgressView::Done(Ok(0)) <==> state.stage is Attempting
            && event == IoEvent::Attempted(Ok(0)),
{
}

/// An attempt that would have blocked never ends the call: the call goes
/// back to waiting, with the readiness report marked stale, and asks for
/// nothing but to wait again.
pub proof fn lemma_would_block_is_retried(state: CallState, code: i32)
    requires
        state.stage is Attempting,
        errno_would_block(code),
    ensures
        io_step(state, IoEvent::Attempted(Err(NixError::Sys(code)))) == IoProgressView::Pending(
            at_stage(state, Stage::AwaitingReadiness { stale: true }),
        ),
        io_action_of(at_stage(state, Stage::AwaitingReadiness { stale: true }))
            == (IoAction::AwaitReadiness {
            direction: state.direction,
            fd: state.fd,
            discard_stale: true,
        }),
{
}

/// An attempt that returns a byte count ends the call with that count; it
/// is not made a second time. With an empty buffer the count can only be
/// zero, so the call ends with zero.
pub proof fn lemma_count_ends_call(state: CallState, count: usize)
    requires
        state.stage is Attempting,
        count <= state.len,
    ensures
        io_step(state, IoEvent::Attempted(Ok(count))) == IoProgressView::Done(Ok(count)),
        state.len == 0 ==> io_step(state, IoEvent::Attempted(Ok(count))) == IoProgressView::Done(
            Ok(0),
        ),
{
}

/// A call asks for a system call only while it holds its gate, and whatever
/// the event, it keeps its direction, its descriptor and its buffer length.
pub proof fn lemma_attempt_needs_gate(state: CallState, event: IoEvent)
    ensures
        io_action_of(state) is Attempt ==> holds_gate(state),
        io_step(state, event) matches IoProgressView::Pending(next) ==> next.direction
            == state.direction && next.fd == state.fd && next.len == state.len,
{
}

} // verus!
