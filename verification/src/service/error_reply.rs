//! Telling a client that its message has failed.

use vstd::prelude::*;

use crate::clock;
use crate::error::Failure;
use crate::requests::request_tracker::{
    self, Recording, RequestIntervalKind, RequestTracker,
};
use crate::service::request::{record_span, ReplyOptions};

verus! {

/// What came of the last thing that an error reply asked for.
#[derive(Debug)]
pub enum ErrorReplyEvent<C, E> {
    /// The failure has been put into the form in which clients get it.
    Built(C),
    Written(Result<(), E>),
    Emitted,
}

/// What an error reply asks for.
#[derive(Clone, Copy, Debug, PartialEq, Eq, Structural)]
pub enum ErrorReplyAction {
    /// Put the failure into the form in which clients get it.
    Build,
    /// Write the error to the client and flush the stream.
    WriteAndFlush,
    /// Report the error to the telemetry provider.
    EmitError,
    /// Nothing: the client has been told, or cannot be.
    Finish,
}

/// How far an error reply has come.
#[derive(Debug)]
pub enum ErrorReplyPhase<C, E> {
    /// Rendering the failure. The message as a whole has been worked on since
    /// `message_start`, where that is still to be recorded.
    Building { message_start: Option<u128> },
    /// Writing the error, since `write_start`.
    Writing { write_start: u128, error: C },
    /// Reporting the error, which the client has.
    Emitting { error: C },
    Finished(Result<C, E>),
}

/// Telling a client that its message has failed.
#[derive(Debug)]
pub struct ErrorReply<C, E> {
    pub failure: Failure<E>,
    pub phase: ErrorReplyPhase<C, E>,
}

impl<C, E> ErrorReply<C, E> {
    /// What to do next.
    pub open spec fn spec_action(self) -> ErrorReplyAction {
        match self.phase {
            ErrorReplyPhase::Building { .. } => ErrorReplyAction::Build,
            ErrorReplyPhase::Writing { .. } => ErrorReplyAction::WriteAndFlush,
            ErrorReplyPhase::Emitting { .. } => ErrorReplyAction::EmitError,
            ErrorReplyPhase::Finished(_) => ErrorReplyAction::Finish,
        }
    }

    /// The beginning of a reply to `failure`.
    pub open spec fn begin(failure: Failure<E>, message_start: Option<u128>) -> ErrorReply<C, E> {
        ErrorReply { failure, phase: ErrorReplyPhase::Building { message_start } }
    }

    /// The phase after `event` at `now`. Reporting comes after writing and
    /// flushing, since it can block. An event that was not asked for changes
    /// nothing.
    pub open spec fn next_phase(
        self,
        event: ErrorReplyEvent<C, E>,
        options: ReplyOptions,
        now: u128,
    ) -> ErrorReplyPhase<C, E> {
        match (self.phase, event) {
            (ErrorReplyPhase::Building { .. }, ErrorReplyEvent::Built(error)) =>
                ErrorReplyPhase::Writing { write_start: now, error },
            (ErrorReplyPhase::Writing { error, .. }, ErrorReplyEvent::Written(Ok(_))) =>
                if options.telemetry {
                    ErrorReplyPhase::Emitting { error }
                } else {
                    ErrorReplyPhase::Finished(Ok(error))
                },
            (ErrorReplyPhase::Writing { .. }, ErrorReplyEvent::Written(Err(reason))) =>
                ErrorReplyPhase::Finished(Err(reason)),
            (ErrorReplyPhase::Emitting { error }, ErrorReplyEvent::Emitted) =>
                ErrorReplyPhase::Finished(Ok(error)),
            (same, _) => same,
        }
    }

    /// The reply after `event` at `now`.
    pub open spec fn next(
        self,
        event: ErrorReplyEvent<C, E>,
        options: ReplyOptions,
        now: u128,
    ) -> ErrorReply<C, E> {
        ErrorReply { phase: self.next_phase(event, options, now), ..self }
    }

    /// What is recorded on `event` at `now`: the time spent on the message before
    /// the error is written, where that is still to be recorded, and the time
    /// that writing it took.
    pub open spec fn records(self, event: ErrorReplyEvent<C, E>, now: u128) -> Seq<Recording> {
        match (self.phase, event) {
            (
                ErrorReplyPhase::Building { message_start: Some(start) },
                ErrorReplyEvent::Built(_),
            ) => seq![(RequestIntervalKind::HandleMessage, clock::span(start, now))],
            (
                ErrorReplyPhase::Writing { write_start, .. },
                ErrorReplyEvent::Written(Ok(_)),
            ) => seq![(RequestIntervalKind::WriteResponse, clock::span(write_start, now))],
            _ => seq![],
        }
    }

    /// Begins a reply to `failure`; `message_start` is when work on the message
    /// began, where that is still to be recorded.
    pub fn start(failure: Failure<E>, message_start: Option<u128>) -> (reply: ErrorReply<C, E>)
        ensures
            reply == Self::begin(failure, message_start),
    {
        ErrorReply { failure, phase: ErrorReplyPhase::Building { message_start } }
    }

    /// What to do next.
    pub fn action(&self) -> (action: ErrorReplyAction)
        ensures
            action == self.spec_action(),
    {
        match &self.phase {
            ErrorReplyPhase::Building { .. } => ErrorReplyAction::Build,
            ErrorReplyPhase::Writing { .. } => ErrorReplyAction::WriteAndFlush,
            ErrorReplyPhase::Emitting { .. } => ErrorReplyAction::EmitError,
            ErrorReplyPhase::Finished(_) => ErrorReplyAction::Finish,
        }
    }

    /// Takes in what came of the last action.
    pub fn step(
        self,
        event: ErrorReplyEvent<C, E>,
        options: ReplyOptions,
        tracker: &mut RequestTracker,
        now: u128,
    ) -> (reply: ErrorReply<C, E>)
        ensures
            reply == self.next(event, options, now),
            final(tracker)@ == request_tracker::record_all(
                old(tracker)@,
                self.records(event, now),
            ),
    {
        proof {
            request_tracker::record_few(old(tracker)@, self.records(event, now));
        }
        let phase = match (self.phase, event) {
            (ErrorReplyPhase::Building { message_start }, ErrorReplyEvent::Built(error)) => {
                if let Some(start) = message_start {
                    record_span(tracker, RequestIntervalKind::HandleMessage, start, now);
                }
                ErrorReplyPhase::Writing { write_start: now, error }
            },
            (
                ErrorReplyPhase::Writing { write_start, error },
                ErrorReplyEvent::Written(Ok(_)),
            ) => {
                record_span(tracker, RequestIntervalKind::WriteResponse, write_start, now);
                if options.telemetry {
                    ErrorReplyPhase::Emitting { error }
                } else {
                    ErrorReplyPhase::Finished(Ok(error))
                }
            },
            (ErrorReplyPhase::Writing { .. }, ErrorReplyEvent::Written(Err(reason))) =>
                ErrorReplyPhase::Finished(Err(reason)),
            (ErrorReplyPhase::Emitting { error }, ErrorReplyEvent::Emitted) =>
                ErrorReplyPhase::Finished(Ok(error)),
            (same, _) => same,
        };
        ErrorReply { failure: self.failure, phase }
    }
}

/// An error reply succeeds exactly when the error could be written, and then
/// gives back the error that the client got; it is over after at most one more
/// step, which reports the error where a telemetry provider wants to hear of it.
pub proof fn error_reply_succeeds_when_written<C, E>(
    failure: Failure<E>,
    message_start: Option<u128>,
    error: C,
    written: Result<(), E>,
    options: ReplyOptions,
    built_at: u128,
    written_at: u128,
    emitted_at: u128,
)
    ensures
        ({
            let reply = ErrorReply::<C, E>::begin(failure, message_start).next(
                ErrorReplyEvent::Built(error),
                options,
                built_at,
            ).next(ErrorReplyEvent::Written(written), options, written_at);
            match written {
                Ok(_) => {
                    &&& (reply.phase is Emitting <==> options.telemetry)
                    &&& reply.next(ErrorReplyEvent::Emitted, options, emitted_at).phase
                        == ErrorReplyPhase::<C, E>::Finished(Ok(error))
                },
                Err(reason) => reply.phase == ErrorReplyPhase::<C, E>::Finished(Err(reason)),
            }
        }),
{
}

/// An error reply goes from building the error to writing it, and from there, where
/// a telemetry provider wants to hear of it, to reporting it; it ends with the error
/// that the client got, or with the reason why it could not be written. The overall
/// time is recorded when the error is built, if that is still to be done, and the
/// time of writing when it has been written.
pub proof fn error_reply_goes_step_by_step<C, E>(
    failure: Failure<E>,
    message_start: Option<u128>,
    error: C,
    reason: E,
    options: ReplyOptions,
    start: u128,
    now: u128,
)
    requires
        message_start matches Some(begun) ==> begun == start,
    ensures
        ({
            let built = ErrorReplyEvent::<C, E>::Built(error);
            let written = ErrorReplyEvent::<C, E>::Written(Ok(()));
            let unwritten = ErrorReplyEvent::<C, E>::Written(Err(reason));
            let emitted = ErrorReplyEvent::<C, E>::Emitted;
            let building = ErrorReply::<C, E> {
                failure,
                phase: ErrorReplyPhase::Building { message_start },
            };
            let writing = ErrorReply::<C, E> {
                failure,
                phase: ErrorReplyPhase::Writing { write_start: start, error },
            };
            let emitting = ErrorReply::<C, E> {
                failure,
                phase: ErrorReplyPhase::Emitting { error },
            };
            let over = ErrorReply::<C, E> { failure, phase: ErrorReplyPhase::Finished(Ok(error)) };
            let lost = ErrorReply::<C, E> {
                failure,
                phase: ErrorReplyPhase::Finished(Err(reason)),
            };
            let nothing = Seq::<Recording>::empty();
            &&& ErrorReply::<C, E>::begin(failure, message_start) == building
            &&& building.next(built, options, now) == ErrorReply::<C, E> {
                failure,
                phase: ErrorReplyPhase::Writing { write_start: now, error },
            }
            &&& message_start is Some ==> building.records(built, now) == seq![
                (RequestIntervalKind::HandleMessage, clock::span(start, now)),
            ]
            &&& message_start is None ==> building.records(built, now) == nothing
            &&& options.telemetry ==> writing.next(written, options, now) == emitting
            &&& !options.telemetry ==> writing.next(written, options, now) == over
            &&& writing.records(written, now) == seq![
                (RequestIntervalKind::WriteResponse, clock::span(start, now)),
            ]
            &&& writing.next(unwritten, options, now) == lost
            &&& writing.records(unwritten, now) == nothing
            &&& emitting.next(emitted, options, now) == over
            &&& emitting.records(emitted, now) == nothing
        }),
{
}

/// An error reply asks for the step that it is at; what it did not ask for leaves it
/// as it is and records nothing.
pub proof fn error_reply_keeps_to_its_step<C, E>(
    reply: ErrorReply<C, E>,
    event: ErrorReplyEvent<C, E>,
    options: ReplyOptions,
    now: u128,
)
    ensures
        ({
            let same = reply.next(event, options, now) == reply && reply.records(event, now)
                == Seq::<Recording>::empty();
            match reply.phase {
                ErrorReplyPhase::Building { .. } => reply.spec_action() == ErrorReplyAction::Build
                    && (!(event is Built) ==> same),
                ErrorReplyPhase::Writing { .. } => reply.spec_action()
                    == ErrorReplyAction::WriteAndFlush && (!(event is Written) ==> same),
                ErrorReplyPhase::Emitting { .. } => reply.spec_action()
                    == ErrorReplyAction::EmitError && (!(event is Emitted) ==> same),
                ErrorReplyPhase::Finished(_) => reply.spec_action() == ErrorReplyAction::Finish
                    && same,
            }
        }),
{
}

} // verus!
