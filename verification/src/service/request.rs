//! Handling a parsed request: finding the response and sending it.

use vstd::prelude::*;

use crate::clock::{self, nanos_between};
use crate::error::Failure;
use crate::requests::request_tracker::{
    self, Recording, RequestIntervalKind, RequestTracker,
};
use crate::service::response::{ResponseAction, ResponseEvent, ResponseFlow};

verus! {

/// What the connection wants to happen besides finding a response.
#[derive(Clone, Copy, Debug, PartialEq, Eq, Structural)]
pub struct ReplyOptions {
    /// The client expects a response.
    pub requires_response: bool,
    /// Request events are reported to a telemetry provider.
    pub telemetry: bool,
}

/// Adds the time from `start` to `now` to the phase `kind`.
pub(crate) fn record_span(
    tracker: &mut RequestTracker,
    kind: RequestIntervalKind,
    start: u128,
    now: u128,
)
    requires
        kind != RequestIntervalKind::MaxUnused,
    ensures
        final(tracker)@ == request_tracker::record(old(tracker)@, kind, clock::span(start, now)),
{
    tracker.record_elapsed(kind, nanos_between(start, now));
}

/// What came of the last thing that handling a request asked for.
#[derive(Debug)]
pub enum RequestEvent<R, E> {
    Response(ResponseEvent<R, E>),
    Written(Result<(), E>),
    Emitted,
}

/// What handling a request asks for.
#[derive(Clone, Copy, Debug, PartialEq, Eq, Structural)]
pub enum RequestAction {
    /// Go on finding the response.
    Response(ResponseAction),
    /// Write the response to the client.
    WriteResponse,
    /// Report the response to the telemetry provider.
    EmitResponse,
    /// Nothing: the request is handled, or has failed.
    Finish,
}

/// Handling a parsed request.
#[derive(Debug)]
pub enum RequestFlow<R, E> {
    /// Finding the response, since `request_start`; the message as a whole has
    /// been worked on since `message_start`.
    Responding { message_start: u128, request_start: u128, flow: ResponseFlow<R, E> },
    /// Writing the response, since `write_start`.
    Writing { write_start: u128, response: R },
    /// Reporting the response.
    Emitting { response: R },
    Finished(Result<(), Failure<E>>),
}

impl<R, E> RequestFlow<R, E> {
    /// What to do next.
    pub open spec fn spec_action(self) -> RequestAction {
        match self {
            RequestFlow::Responding { flow, .. } => RequestAction::Response(flow.spec_action()),
            RequestFlow::Writing { .. } => RequestAction::WriteResponse,
            RequestFlow::Emitting { .. } => RequestAction::EmitResponse,
            RequestFlow::Finished(_) => RequestAction::Finish,
        }
    }

    /// Where a response that the client has, or does not want, goes.
    pub open spec fn delivered(response: R, options: ReplyOptions) -> RequestFlow<R, E> {
        if options.telemetry {
            RequestFlow::Emitting { response }
        } else {
            RequestFlow::Finished(Ok(()))
        }
    }

    /// Where a response that was found at `now` goes.
    pub open spec fn responded(response: R, options: ReplyOptions, now: u128) -> RequestFlow<
        R,
        E,
    > {
        if options.requires_response {
            RequestFlow::Writing { write_start: now, response }
        } else {
            Self::delivered(response, options)
        }
    }

    /// The flow after `event` at `now`. An event that was not asked for changes
    /// nothing.
    pub open spec fn next(
        self,
        event: RequestEvent<R, E>,
        options: ReplyOptions,
        now: u128,
    ) -> RequestFlow<R, E> {
        match (self, event) {
            (
                RequestFlow::Responding { message_start, request_start, flow },
                RequestEvent::Response(event),
            ) => match flow.next(event) {
                ResponseFlow::Finished(Ok(response)) => Self::responded(response, options, now),
                ResponseFlow::Finished(Err(failure)) => RequestFlow::Finished(Err(failure)),
                flow => RequestFlow::Responding { message_start, request_start, flow },
            },
            (RequestFlow::Writing { response, .. }, RequestEvent::Written(Ok(_))) =>
                Self::delivered(response, options),
            (RequestFlow::Writing { .. }, RequestEvent::Written(Err(error))) =>
                RequestFlow::Finished(Err(Failure::Service(error))),
            (RequestFlow::Emitting { .. }, RequestEvent::Emitted) => RequestFlow::Finished(Ok(())),
            _ => self,
        }
    }

    /// What is recorded on `event` at `now`: the time that finding a response
    /// took, whether or not it was found; the time spent on the message so far
    /// once it was; and the time that writing it took.
    pub open spec fn records(self, event: RequestEvent<R, E>, now: u128) -> Seq<Recording> {
        match (self, event) {
            (
                RequestFlow::Responding { message_start, request_start, flow },
                RequestEvent::Response(event),
            ) => match flow.next(event) {
                ResponseFlow::Finished(Ok(_)) => seq![
                    (RequestIntervalKind::HandleRequest, clock::span(request_start, now)),
                    (RequestIntervalKind::HandleMessage, clock::span(message_start, now)),
                ],
                ResponseFlow::Finished(Err(_)) => seq![
                    (RequestIntervalKind::HandleRequest, clock::span(request_start, now)),
                ],
                _ => seq![],
            },
            (RequestFlow::Writing { write_start, .. }, RequestEvent::Written(Ok(_))) => seq![
                (RequestIntervalKind::WriteResponse, clock::span(write_start, now)),
            ],
            _ => seq![],
        }
    }

    /// Finding the response is not over while it goes on.
    pub open spec fn wf(self) -> bool {
        self matches RequestFlow::Responding { flow, .. } ==> !(flow is Finished)
    }

    /// Begins to handle a request at `now`, as part of a message that has been
    /// worked on since `message_start`.
    pub fn start(message_start: u128, handle_with_auth: bool, now: u128) -> (flow: RequestFlow<
        R,
        E,
    >)
        ensures
            flow == (RequestFlow::<R, E>::Responding {
                message_start,
                request_start: now,
                flow: ResponseFlow::begin(handle_with_auth),
            }),
            flow.wf(),
    {
        RequestFlow::Responding {
            message_start,
            request_start: now,
            flow: ResponseFlow::start(handle_with_auth),
        }
    }

    /// What to do next.
    pub fn action(&self) -> (action: RequestAction)
        ensures
            action == self.spec_action(),
    {
        match self {
            RequestFlow::Responding { flow, .. } => RequestAction::Response(flow.action()),
            RequestFlow::Writing { .. } => RequestAction::WriteResponse,
            RequestFlow::Emitting { .. } => RequestAction::EmitResponse,
            RequestFlow::Finished(_) => RequestAction::Finish,
        }
    }

    /// Takes in what came of the last action.
    pub fn step(
        self,
        event: RequestEvent<R, E>,
        options: ReplyOptions,
        tracker: &mut RequestTracker,
        now: u128,
    ) -> (flow: RequestFlow<R, E>)
        ensures
            flow == self.next(event, options, now),
            final(tracker)@ == request_tracker::record_all(
                old(tracker)@,
                self.records(event, now),
            ),
            self.wf() ==> flow.wf(),
    {
        proof {
            request_tracker::record_few(old(tracker)@, self.records(event, now));
        }
        match (self, event) {
            (
                RequestFlow::Responding { message_start, request_start, flow },
                RequestEvent::Response(event),
            ) => match flow.step(event) {
                ResponseFlow::Finished(Ok(response)) => {
                    record_span(tracker, RequestIntervalKind::HandleRequest, request_start, now);
                    record_span(tracker, RequestIntervalKind::HandleMessage, message_start, now);
                    if options.requires_response {
                        RequestFlow::Writing { write_start: now, response }
                    } else if options.telemetry {
                        RequestFlow::Emitting { response }
                    } else {
                        RequestFlow::Finished(Ok(()))
                    }
                },
                ResponseFlow::Finished(Err(failure)) => {
                    record_span(tracker, RequestIntervalKind::HandleRequest, request_start, now);
                    RequestFlow::Finished(Err(failure))
                },
                flow => RequestFlow::Responding { message_start, request_start, flow },
            },
            (RequestFlow::Writing { write_start, response }, RequestEvent::Written(Ok(_))) => {
                record_span(tracker, RequestIntervalKind::WriteResponse, write_start, now);
                if options.telemetry {
                    RequestFlow::Emitting { response }
                } else {
                    RequestFlow::Finished(Ok(()))
                }
            },
            (RequestFlow::Writing { .. }, RequestEvent::Written(Err(error))) =>
                RequestFlow::Finished(Err(Failure::Service(error))),
            (RequestFlow::Emitting { .. }, RequestEvent::Emitted) => RequestFlow::Finished(Ok(())),
            (same, _) => same,
        }
    }
}

/// The response that is written is the one that was found, and it is written only
/// to a client that expects one.
pub proof fn found_response_is_written<R, E>(
    flow: RequestFlow<R, E>,
    event: RequestEvent<R, E>,
    options: ReplyOptions,
    now: u128,
)
    requires
        !(flow is Writing),
    ensures
        flow.next(event, options, now) matches RequestFlow::Writing { write_start, response } ==> {
            &&& write_start == now
            &&& options.requires_response
            &&& flow matches RequestFlow::Responding { flow: finding, .. }
            &&& event matches RequestEvent::Response(found)
            &&& finding.next(found) == ResponseFlow::<R, E>::Finished(Ok(response))
        },
{
}

/// A response is reported to the telemetry provider, if there is one, only after
/// the client has got it or when the client does not expect one; and what is
/// reported is the response that was written or found.
pub proof fn response_is_reported_after_delivery<R, E>(
    flow: RequestFlow<R, E>,
    event: RequestEvent<R, E>,
    options: ReplyOptions,
    now: u128,
)
    requires
        !(flow is Emitting),
    ensures
        flow.next(event, options, now) matches RequestFlow::Emitting { response: reported } ==> {
            &&& options.telemetry
            &&& {
                ||| {
                    &&& flow matches RequestFlow::Writing { response, .. }
                    &&& response == reported
                    &&& event matches RequestEvent::Written(Ok(_))
                }
                ||| {
                    &&& !options.requires_response
                    &&& flow matches RequestFlow::Responding { flow: finding, .. }
                    &&& event matches RequestEvent::Response(found)
                    &&& finding.next(found) == ResponseFlow::<R, E>::Finished(Ok(reported))
                }
            }
        },
{
}

/// The time of handling a request includes that of processing it: what processing
/// measures between the moment it is asked for and the moment it is reported
/// back, in one stretch or in several that do not overlap, comes to no more than
/// the time that is recorded for handling.
pub proof fn handling_includes_processing<R, E>(
    message_start: u128,
    request_start: u128,
    asked_at: u128,
    measured: int,
    result: Result<R, E>,
    now: u128,
)
    requires
        request_start <= asked_at <= now,
        measured <= now - asked_at,
    ensures
        ({
            let flow = RequestFlow::<R, E>::Responding {
                message_start,
                request_start,
                flow: ResponseFlow::Processing,
            };
            let recorded = flow.records(
                RequestEvent::Response(ResponseEvent::Processed(result)),
                now,
            );
            &&& recorded.len() > 0
            &&& recorded[0].0 == RequestIntervalKind::HandleRequest
            &&& measured <= recorded[0].1
        }),
{
}

/// A response that is found, by authentication or by processing, is written to a
/// client that expects one; where the client does not, it is reported to the
/// telemetry provider if there is one, and otherwise the request is handled. The
/// time of finding it and the overall time of the message so far are recorded.
pub proof fn found_response_goes_to_the_client<R, E>(
    message_start: u128,
    request_start: u128,
    finding: ResponseFlow<R, E>,
    found: ResponseEvent<R, E>,
    response: R,
    options: ReplyOptions,
    now: u128,
)
    requires
        ({
            ||| finding.next(found) == ResponseFlow::<R, E>::Finished(Ok(response))
            ||| finding is Processing && found == ResponseEvent::<R, E>::Processed(Ok(response))
            ||| finding is Authenticating && found == ResponseEvent::<R, E>::Authenticated(
                Ok(response),
            )
        }),
    ensures
        ({
            let flow = RequestFlow::<R, E>::Responding {
                message_start,
                request_start,
                flow: finding,
            };
            let event = RequestEvent::Response(found);
            let next = flow.next(event, options, now);
            &&& options.requires_response ==> next == RequestFlow::<R, E>::Writing {
                write_start: now,
                response,
            }
            &&& !options.requires_response && options.telemetry ==> next == RequestFlow::<
                R,
                E,
            >::Emitting { response }
            &&& !options.requires_response && !options.telemetry ==> next == RequestFlow::<
                R,
                E,
            >::Finished(Ok(()))
            &&& flow.records(event, now) == seq![
                (RequestIntervalKind::HandleRequest, clock::span(request_start, now)),
                (RequestIntervalKind::HandleMessage, clock::span(message_start, now)),
            ]
        }),
{
}

/// A request whose response cannot be had fails with the reason, and the time of
/// looking for it is recorded; while the response is looked for, the request goes on
/// with that and nothing is recorded.
pub proof fn search_for_a_response_is_gone_on_with<R, E>(
    message_start: u128,
    request_start: u128,
    finding: ResponseFlow<R, E>,
    found: ResponseEvent<R, E>,
    failure: Failure<E>,
    options: ReplyOptions,
    now: u128,
)
    ensures
        ({
            let flow = RequestFlow::<R, E>::Responding {
                message_start,
                request_start,
                flow: finding,
            };
            let event = RequestEvent::Response(found);
            let next = flow.next(event, options, now);
            &&& finding.next(found) == ResponseFlow::<R, E>::Finished(Err(failure)) ==> {
                &&& next == RequestFlow::<R, E>::Finished(Err(failure))
                &&& flow.records(event, now) == seq![
                    (RequestIntervalKind::HandleRequest, clock::span(request_start, now)),
                ]
            }
            &&& !(finding.next(found) is Finished) ==> {
                &&& next == RequestFlow::<R, E>::Responding {
                    message_start,
                    request_start,
                    flow: finding.next(found),
                }
                &&& flow.records(event, now) == Seq::<Recording>::empty()
            }
        }),
{
}

/// A response that has been written is reported to the telemetry provider if there
/// is one, after which the request is handled, and the time of writing is recorded.
/// A response that cannot be written fails the request with that error, and nothing
/// is recorded.
pub proof fn written_response_completes_the_request<R, E>(
    write_start: u128,
    response: R,
    error: E,
    options: ReplyOptions,
    now: u128,
)
    ensures
        ({
            let flow = RequestFlow::<R, E>::Writing { write_start, response };
            let emitting = RequestFlow::<R, E>::Emitting { response };
            let written = RequestEvent::<R, E>::Written(Ok(()));
            let unwritten = RequestEvent::<R, E>::Written(Err(error));
            let emitted = RequestEvent::<R, E>::Emitted;
            let handled = RequestFlow::<R, E>::Finished(Ok(()));
            let failed = RequestFlow::<R, E>::Finished(Err(Failure::Service(error)));
            &&& options.telemetry ==> flow.next(written, options, now) == emitting
            &&& !options.telemetry ==> flow.next(written, options, now) == handled
            &&& flow.records(written, now) == seq![
                (RequestIntervalKind::WriteResponse, clock::span(write_start, now)),
            ]
            &&& flow.next(unwritten, options, now) == failed
            &&& flow.records(unwritten, now) == Seq::<Recording>::empty()
            &&& emitting.next(emitted, options, now) == handled
            &&& emitting.records(emitted, now) == Seq::<Recording>::empty()
        }),
{
}

/// Handling a request asks for the step that it is at; what it did not ask for
/// leaves it as it is and records nothing.
pub proof fn handling_a_request_keeps_to_its_step<R, E>(
    flow: RequestFlow<R, E>,
    event: RequestEvent<R, E>,
    options: ReplyOptions,
    now: u128,
)
    ensures
        ({
            let same = flow.next(event, options, now) == flow && flow.records(event, now)
                == Seq::<Recording>::empty();
            match flow {
                RequestFlow::Responding { flow: finding, .. } => flow.spec_action()
                    == RequestAction::Response(finding.spec_action()) && (!(event is Response)
                    ==> same),
                RequestFlow::Writing { .. } => flow.spec_action() == RequestAction::WriteResponse
                    && (!(event is Written) ==> same),
                RequestFlow::Emitting { .. } => flow.spec_action() == RequestAction::EmitResponse
                    && (!(event is Emitted) ==> same),
                RequestFlow::Finished(_) => flow.spec_action() == RequestAction::Finish && same,
            }
        }),
{
}

} // verus!
