//! The flow of one message: reading, parsing, handling, and telling the client.

use vstd::prelude::*;

use crate::clock;
use crate::error::{DocumentDBError, Failure};
use crate::requests::request_tracker::{
    self, Recording, RequestIntervalKind, RequestTracker,
};
use crate::service::error_reply::{
    ErrorReply, ErrorReplyAction, ErrorReplyEvent, ErrorReplyPhase,
};
use crate::service::request::{
    record_span, ReplyOptions, RequestAction, RequestEvent, RequestFlow,
};
use crate::service::response::ResponseFlow;

verus! {

/// What a parsed request says about itself.
#[derive(Debug)]
pub struct RequestFacts {
    /// Authentication handles requests of this type.
    pub handle_with_auth: bool,
    /// The collection that the request is about.
    pub collection: Option<String>,
}

/// What came of the last thing that a message asked for.
#[derive(Debug)]
pub enum MessageEvent<R, C, E> {
    RequestRead(Result<(), E>),
    /// Whether clients are to be told that the gateway is shutting down.
    ShutdownChecked(bool),
    Parsed(Result<(), E>),
    FactsExtracted(Result<RequestFacts, E>),
    Request(RequestEvent<R, E>),
    ErrorReply(ErrorReplyEvent<C, E>),
    /// Whether the latency of requests is to be logged.
    VerbosityChecked(bool),
    LatencyLogged,
}

/// What a message asks for.
#[derive(Clone, Copy, Debug, PartialEq, Eq, Structural)]
pub enum MessageAction {
    /// Read the message off the stream.
    ReadRequest,
    /// Find out whether clients are to be told that the gateway is shutting down.
    CheckShutdown,
    /// Parse the message.
    Parse,
    /// Extract what the request says about itself.
    ExtractFacts,
    /// Go on handling the request.
    Request(RequestAction),
    /// Go on telling the client that the request has failed.
    ErrorReply(ErrorReplyAction),
    /// Find out whether the latency of requests is to be logged.
    CheckVerbosity,
    /// Log the latency of the request.
    LogLatency,
    /// Nothing: the message is dealt with, or has failed.
    Finish,
}

/// The flow of one message.
#[derive(Debug)]
pub enum MessageFlow<R, C, E> {
    Reading { read_start: u128 },
    CheckingShutdown { message_start: u128 },
    Parsing { message_start: u128, format_start: u128 },
    Extracting { message_start: u128 },
    Handling { message_start: u128, collection: Option<String>, flow: RequestFlow<R, E> },
    Replying { collection: Option<String>, reply: ErrorReply<C, E> },
    CheckingVerbosity { error: Option<C> },
    LoggingLatency { error: Option<C> },
    Finished(Result<(), Failure<E>>),
}

impl<R, C, E> MessageFlow<R, C, E> {
    /// What to do next.
    pub open spec fn spec_action(self) -> MessageAction {
        match self {
            MessageFlow::Reading { .. } => MessageAction::ReadRequest,
            MessageFlow::CheckingShutdown { .. } => MessageAction::CheckShutdown,
            MessageFlow::Parsing { .. } => MessageAction::Parse,
            MessageFlow::Extracting { .. } => MessageAction::ExtractFacts,
            MessageFlow::Handling { flow, .. } => MessageAction::Request(flow.spec_action()),
            MessageFlow::Replying { reply, .. } => MessageAction::ErrorReply(reply.spec_action()),
            MessageFlow::CheckingVerbosity { .. } => MessageAction::CheckVerbosity,
            MessageFlow::LoggingLatency { .. } => MessageAction::LogLatency,
            MessageFlow::Finished(_) => MessageAction::Finish,
        }
    }

    /// Where handling the request leads from `flow` when it comes to `next`. The
    /// overall time of a message ends before its response is written: it is left
    /// to the error reply to record only when no response was found.
    pub open spec fn handled(
        message_start: u128,
        collection: Option<String>,
        flow: RequestFlow<R, E>,
        next: RequestFlow<R, E>,
    ) -> MessageFlow<R, C, E> {
        match next {
            RequestFlow::Finished(Ok(_)) => MessageFlow::CheckingVerbosity { error: None },
            RequestFlow::Finished(Err(failure)) => MessageFlow::Replying {
                collection,
                reply: ErrorReply::begin(
                    failure,
                    if flow is Responding {
                        Some(message_start)
                    } else {
                        None
                    },
                ),
            },
            _ => MessageFlow::Handling { message_start, collection, flow: next },
        }
    }

    /// Where telling the client of a failure leads when it has come to `reply`.
    pub open spec fn replied(
        collection: Option<String>,
        reply: ErrorReply<C, E>,
    ) -> MessageFlow<R, C, E> {
        match reply.phase {
            ErrorReplyPhase::Finished(Ok(error)) => MessageFlow::CheckingVerbosity {
                error: Some(error),
            },
            ErrorReplyPhase::Finished(Err(_)) => MessageFlow::CheckingVerbosity { error: None },
            _ => MessageFlow::Replying { collection, reply },
        }
    }

    /// The flow after `event` at `now`. A failure up to the extraction of facts
    /// is the failure of the message; one in handling the request is told to the
    /// client here. An event that was not asked for changes nothing.
    pub open spec fn next(
        self,
        event: MessageEvent<R, C, E>,
        options: ReplyOptions,
        now: u128,
    ) -> MessageFlow<R, C, E> {
        match (self, event) {
            (MessageFlow::Reading { .. }, MessageEvent::RequestRead(Ok(_))) =>
                MessageFlow::CheckingShutdown { message_start: now },
            (MessageFlow::CheckingShutdown { message_start }, MessageEvent::ShutdownChecked(down)) =>
                if down {
                    MessageFlow::Finished(
                        Err(Failure::Gateway(DocumentDBError::ShutdownRequested)),
                    )
                } else {
                    MessageFlow::Parsing { message_start, format_start: now }
                },
            (MessageFlow::Parsing { message_start, .. }, MessageEvent::Parsed(Ok(_))) =>
                MessageFlow::Extracting { message_start },
            (MessageFlow::Extracting { message_start }, MessageEvent::FactsExtracted(Ok(facts))) =>
                MessageFlow::Handling {
                    message_start,
                    collection: facts.collection,
                    flow: RequestFlow::Responding {
                        message_start,
                        request_start: now,
                        flow: ResponseFlow::begin(facts.handle_with_auth),
                    },
                },
            (
                MessageFlow::Handling { message_start, collection, flow },
                MessageEvent::Request(event),
            ) => Self::handled(message_start, collection, flow, flow.next(event, options, now)),
            (MessageFlow::Replying { collection, reply }, MessageEvent::ErrorReply(event)) =>
                Self::replied(collection, reply.next(event, options, now)),
            (MessageFlow::CheckingVerbosity { error }, MessageEvent::VerbosityChecked(verbose)) =>
                if verbose {
                    MessageFlow::LoggingLatency { error }
                } else {
                    MessageFlow::Finished(Ok(()))
                },
            (MessageFlow::LoggingLatency { .. }, MessageEvent::LatencyLogged) =>
                MessageFlow::Finished(Ok(())),
            (MessageFlow::Reading { .. }, MessageEvent::RequestRead(Err(error)))
            | (MessageFlow::Parsing { .. }, MessageEvent::Parsed(Err(error)))
            | (MessageFlow::Extracting { .. }, MessageEvent::FactsExtracted(Err(error))) =>
                MessageFlow::Finished(Err(Failure::Service(error))),
            _ => self,
        }
    }

    /// What is recorded on `event` at `now`.
    pub open spec fn records(self, event: MessageEvent<R, C, E>, now: u128) -> Seq<Recording> {
        match (self, event) {
            (MessageFlow::Reading { read_start }, MessageEvent::RequestRead(Ok(_))) => seq![
                (RequestIntervalKind::ReadRequest, clock::span(read_start, now)),
            ],
            (MessageFlow::Parsing { format_start, .. }, MessageEvent::Parsed(Ok(_))) => seq![
                (RequestIntervalKind::FormatRequest, clock::span(format_start, now)),
            ],
            (MessageFlow::Handling { flow, .. }, MessageEvent::Request(event)) => flow.records(
                event,
                now,
            ),
            (MessageFlow::Replying { reply, .. }, MessageEvent::ErrorReply(event)) =>
                reply.records(event, now),
            _ => seq![],
        }
    }

    /// Handling the request, and telling the client, are not over while they go on.
    pub open spec fn wf(self) -> bool {
        match self {
            MessageFlow::Handling { flow, .. } => flow.wf() && !(flow is Finished),
            MessageFlow::Replying { reply, .. } => !(reply.phase is Finished),
            _ => true,
        }
    }

    /// The request has been read, parsed and understood.
    pub open spec fn is_understood(self) -> bool {
        match self {
            MessageFlow::Handling { .. } | MessageFlow::Replying { .. } => true,
            MessageFlow::CheckingVerbosity { .. } | MessageFlow::LoggingLatency { .. } => true,
            MessageFlow::Finished(Ok(_)) => true,
            _ => false,
        }
    }

    /// Begins to read a message at `now`.
    pub fn start(now: u128) -> (flow: MessageFlow<R, C, E>)
        ensures
            flow == (MessageFlow::<R, C, E>::Reading { read_start: now }),
            flow.wf(),
    {
        MessageFlow::Reading { read_start: now }
    }

    /// What to do next.
    pub fn action(&self) -> (action: MessageAction)
        ensures
            action == self.spec_action(),
    {
        match self {
            MessageFlow::Reading { .. } => MessageAction::ReadRequest,
            MessageFlow::CheckingShutdown { .. } => MessageAction::CheckShutdown,
            MessageFlow::Parsing { .. } => MessageAction::Parse,
            MessageFlow::Extracting { .. } => MessageAction::ExtractFacts,
            MessageFlow::Handling { flow, .. } => MessageAction::Request(flow.action()),
            MessageFlow::Replying { reply, .. } => MessageAction::ErrorReply(reply.action()),
            MessageFlow::CheckingVerbosity { .. } => MessageAction::CheckVerbosity,
            MessageFlow::LoggingLatency { .. } => MessageAction::LogLatency,
            MessageFlow::Finished(_) => MessageAction::Finish,
        }
    }

    /// The collection under which the request is reported: the one that it
    /// names, or none.
    pub fn collection(&self) -> (name: String)
        ensures
            name@ == (match *self {
                MessageFlow::Handling { collection: Some(name), .. } => name@,
                MessageFlow::Replying { collection: Some(name), .. } => name@,
                _ => ""@,
            }),
    {
        match self {
            MessageFlow::Handling { collection: Some(name), .. } => name.clone(),
            MessageFlow::Replying { collection: Some(name), .. } => name.clone(),
            _ => "".to_string(),
        }
    }

    /// Takes in what came of the last action.
    pub fn step(
        self,
        event: MessageEvent<R, C, E>,
        options: ReplyOptions,
        tracker: &mut RequestTracker,
        now: u128,
    ) -> (flow: MessageFlow<R, C, E>)
        ensures
            flow == self.next(event, options, now),
            final(tracker)@ == request_tracker::record_all(
                old(tracker)@,
                self.records(event, now),
            ),
            self.wf() ==> flow.wf(),
    {
        proof {
            request_tracker::record_few(old(tracker)@, self.records(event, now));
        }
        match (self, event) {
            (MessageFlow::Reading { read_start }, MessageEvent::RequestRead(Ok(_))) => {
                record_span(tracker, RequestIntervalKind::ReadRequest, read_start, now);
                MessageFlow::CheckingShutdown { message_start: now }
            },
            (MessageFlow::CheckingShutdown { message_start }, MessageEvent::ShutdownChecked(down)) => {
                if down {
                    MessageFlow::Finished(
                        Err(Failure::Gateway(DocumentDBError::ShutdownRequested)),
                    )
                } else {
                    MessageFlow::Parsing { message_start, format_start: now }
                }
            },
            (MessageFlow::Parsing { message_start, format_start }, MessageEvent::Parsed(Ok(_))) => {
                record_span(tracker, RequestIntervalKind::FormatRequest, format_start, now);
                MessageFlow::Extracting { message_start }
            },
            (MessageFlow::Extracting { message_start }, MessageEvent::FactsExtracted(Ok(facts))) =>
                MessageFlow::Handling {
                    message_start,
                    collection: facts.collection,
                    flow: RequestFlow::start(message_start, facts.handle_with_auth, now),
                },
            (
                MessageFlow::Handling { message_start, collection, flow },
                MessageEvent::Request(event),
            ) => {
                let unrecorded: Option<u128> = match &flow {
                    RequestFlow::Responding { .. } => Some(message_start),
                    _ => None,
                };
                match flow.step(event, options, tracker, now) {
                    RequestFlow::Finished(Ok(_)) => MessageFlow::CheckingVerbosity { error: None },
                    RequestFlow::Finished(Err(failure)) => MessageFlow::Replying {
                        collection,
                        reply: ErrorReply::start(failure, unrecorded),
                    },
                    flow => MessageFlow::Handling { message_start, collection, flow },
                }
            },
            (MessageFlow::Replying { collection, reply }, MessageEvent::ErrorReply(event)) => {
                let reply = reply.step(event, options, tracker, now);
                let failure = reply.failure;
                match reply.phase {
                    ErrorReplyPhase::Finished(Ok(error)) => MessageFlow::CheckingVerbosity {
                        error: Some(error),
                    },
                    ErrorReplyPhase::Finished(Err(_)) => MessageFlow::CheckingVerbosity {
                        error: None,
                    },
                    phase => MessageFlow::Replying {
                        collection,
                        reply: ErrorReply { failure, phase },
                    },
                }
            },
            (MessageFlow::CheckingVerbosity { error }, MessageEvent::VerbosityChecked(verbose)) => {
                if verbose {
                    MessageFlow::LoggingLatency { error }
                } else {
                    MessageFlow::Finished(Ok(()))
                }
            },
            (MessageFlow::LoggingLatency { .. }, MessageEvent::LatencyLogged) =>
                MessageFlow::Finished(Ok(())),
            (MessageFlow::Reading { .. }, MessageEvent::RequestRead(Err(error)))
            | (MessageFlow::Parsing { .. }, MessageEvent::Parsed(Err(error)))
            | (MessageFlow::Extracting { .. }, MessageEvent::FactsExtracted(Err(error))) =>
                MessageFlow::Finished(Err(Failure::Service(error))),
            (same, _) => same,
        }
    }
}

} // verus!
