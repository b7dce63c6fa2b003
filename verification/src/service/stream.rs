//! Serving a client, message by message, until its connection closes.

use vstd::prelude::*;

use crate::clock;
use crate::error::Failure;
use crate::requests::request_tracker::{self, RequestIntervalKind, RequestTracker};
use crate::service::error_reply::{
    ErrorReply, ErrorReplyAction, ErrorReplyEvent, ErrorReplyPhase,
};
use crate::service::message::{MessageAction, MessageEvent, MessageFlow};
use crate::service::message_laws;
use crate::service::request::ReplyOptions;

verus! {

/// What came of the last thing that serving a client asked for.
#[derive(Debug)]
pub enum StreamEvent<R, C, E> {
    /// The header of the next message was read, with this request id; or the
    /// client has closed the connection; or neither could be made out.
    HeaderRead(Result<Option<i32>, E>),
    Message(MessageEvent<R, C, E>),
    ErrorReply(ErrorReplyEvent<C, E>),
    HeaderlessErrorWritten(Result<(), E>),
}

/// What serving a client asks for.
#[derive(Clone, Copy, Debug, PartialEq, Eq, Structural)]
pub enum StreamAction {
    /// Read the header of the next message.
    ReadHeader,
    /// Go on with the message of this request id.
    Message(i32, MessageAction),
    /// Go on telling the client that the message of this request id has failed.
    ErrorReply(i32, ErrorReplyAction),
    /// Tell the client that no header could be read.
    WriteHeaderlessError,
    /// Nothing: the connection is closed.
    Finish,
}

/// Why a connection was closed.
#[derive(Clone, Copy, Debug, PartialEq, Eq, Structural)]
pub enum CloseReason {
    /// The client closed it.
    ClosedByClient,
    /// The client could not be told of an error.
    ErrorNotDelivered,
}

/// Serving a client.
#[derive(Debug)]
pub enum StreamFlow<R, C, E> {
    ReadingHeader,
    Handling { request_id: i32, flow: MessageFlow<R, C, E> },
    Replying { request_id: i32, reply: ErrorReply<C, E> },
    ReplyingWithoutHeader { error: E },
    Closed(CloseReason),
}

impl<R, C, E> StreamFlow<R, C, E> {
    /// What to do next.
    pub open spec fn spec_action(self) -> StreamAction {
        match self {
            StreamFlow::ReadingHeader => StreamAction::ReadHeader,
            StreamFlow::Handling { request_id, flow } => StreamAction::Message(
                request_id,
                flow.spec_action(),
            ),
            StreamFlow::Replying { request_id, reply } => StreamAction::ErrorReply(
                request_id,
                reply.spec_action(),
            ),
            StreamFlow::ReplyingWithoutHeader { .. } => StreamAction::WriteHeaderlessError,
            StreamFlow::Closed(_) => StreamAction::Finish,
        }
    }

    /// Where a message leads when it has come to `flow`.
    pub open spec fn handled(request_id: i32, flow: MessageFlow<R, C, E>) -> StreamFlow<R, C, E> {
        match flow {
            MessageFlow::Finished(Ok(_)) => StreamFlow::ReadingHeader,
            MessageFlow::Finished(Err(failure)) => StreamFlow::Replying {
                request_id,
                reply: ErrorReply::begin(failure, None),
            },
            _ => StreamFlow::Handling { request_id, flow },
        }
    }

    /// Where telling the client of a failure leads when it has come to `reply`.
    pub open spec fn replied(request_id: i32, reply: ErrorReply<C, E>) -> StreamFlow<R, C, E> {
        match reply.phase {
            ErrorReplyPhase::Finished(Ok(_)) => StreamFlow::ReadingHeader,
            ErrorReplyPhase::Finished(Err(_)) => StreamFlow::Closed(CloseReason::ErrorNotDelivered),
            _ => StreamFlow::Replying { request_id, reply },
        }
    }

    /// The flow after `event` at `now`. An event that was not asked for changes
    /// nothing.
    pub open spec fn next(
        self,
        event: StreamEvent<R, C, E>,
        options: ReplyOptions,
        now: u128,
    ) -> StreamFlow<R, C, E> {
        match (self, event) {
            (StreamFlow::ReadingHeader, StreamEvent::HeaderRead(Ok(Some(request_id)))) =>
                StreamFlow::Handling { request_id, flow: MessageFlow::Reading { read_start: now } },
            (StreamFlow::ReadingHeader, StreamEvent::HeaderRead(Ok(None))) => StreamFlow::Closed(
                CloseReason::ClosedByClient,
            ),
            (StreamFlow::ReadingHeader, StreamEvent::HeaderRead(Err(error))) =>
                StreamFlow::ReplyingWithoutHeader { error },
            (StreamFlow::Handling { request_id, flow }, StreamEvent::Message(event)) =>
                Self::handled(request_id, flow.next(event, options, now)),
            (StreamFlow::Replying { request_id, reply }, StreamEvent::ErrorReply(event)) =>
                Self::replied(request_id, reply.next(event, options, now)),
            (
                StreamFlow::ReplyingWithoutHeader { .. },
                StreamEvent::HeaderlessErrorWritten(Ok(_)),
            ) => StreamFlow::ReadingHeader,
            (
                StreamFlow::ReplyingWithoutHeader { .. },
                StreamEvent::HeaderlessErrorWritten(Err(_)),
            ) => StreamFlow::Closed(CloseReason::ErrorNotDelivered),
            _ => self,
        }
    }

    /// The metrics `m` after `event` at `now`: each message, and each reply to a
    /// failed one, starts from nothing.
    pub open spec fn metrics_after(
        self,
        m: Seq<i64>,
        event: StreamEvent<R, C, E>,
        options: ReplyOptions,
        now: u128,
    ) -> Seq<i64> {
        match (self, event) {
            (StreamFlow::ReadingHeader, StreamEvent::HeaderRead(Ok(Some(_)))) =>
                request_tracker::no_metrics(),
            (StreamFlow::Handling { flow, .. }, StreamEvent::Message(event)) => if flow.next(
                event,
                options,
                now,
            ) matches MessageFlow::Finished(Err(_)) {
                request_tracker::no_metrics()
            } else {
                request_tracker::record_all(m, flow.records(event, now))
            },
            (StreamFlow::Replying { reply, .. }, StreamEvent::ErrorReply(event)) =>
                request_tracker::record_all(m, reply.records(event, now)),
            _ => m,
        }
    }

    /// The flow after all of `inputs`, in order.
    pub open spec fn after(
        self,
        inputs: Seq<(StreamEvent<R, C, E>, ReplyOptions, u128)>,
    ) -> StreamFlow<R, C, E>
        decreases inputs.len(),
    {
        if inputs.len() == 0 {
            self
        } else {
            let (event, options, now) = inputs.last();
            self.after(inputs.drop_last()).next(event, options, now)
        }
    }

    /// The metrics `m` after all of `inputs`, in order.
    pub open spec fn metrics(
        self,
        m: Seq<i64>,
        inputs: Seq<(StreamEvent<R, C, E>, ReplyOptions, u128)>,
    ) -> Seq<i64>
        decreases inputs.len(),
    {
        if inputs.len() == 0 {
            m
        } else {
            let (event, options, now) = inputs.last();
            let before = inputs.drop_last();
            self.after(before).metrics_after(self.metrics(m, before), event, options, now)
        }
    }

    /// The message and the reply, while they go on, are not over.
    pub open spec fn wf(self) -> bool {
        match self {
            StreamFlow::Handling { flow, .. } => flow.wf() && !(flow is Finished),
            StreamFlow::Replying { reply, .. } => !(reply.phase is Finished),
            _ => true,
        }
    }

    /// Begins to serve a client.
    pub fn start() -> (flow: StreamFlow<R, C, E>)
        ensures
            flow == StreamFlow::<R, C, E>::ReadingHeader,
            flow.wf(),
    {
        StreamFlow::ReadingHeader
    }

    /// What to do next.
    pub fn action(&self) -> (action: StreamAction)
        ensures
            action == self.spec_action(),
    {
        match self {
            StreamFlow::ReadingHeader => StreamAction::ReadHeader,
            StreamFlow::Handling { request_id, flow } => StreamAction::Message(
                *request_id,
                flow.action(),
            ),
            StreamFlow::Replying { request_id, reply } => StreamAction::ErrorReply(
                *request_id,
                reply.action(),
            ),
            StreamFlow::ReplyingWithoutHeader { .. } => StreamAction::WriteHeaderlessError,
            StreamFlow::Closed(_) => StreamAction::Finish,
        }
    }

    /// Takes in what came of the last action. `tracker` holds the metrics of the
    /// message at hand.
    pub fn step(
        self,
        event: StreamEvent<R, C, E>,
        options: ReplyOptions,
        tracker: &mut RequestTracker,
        now: u128,
    ) -> (flow: StreamFlow<R, C, E>)
        ensures
            flow == self.next(event, options, now),
            final(tracker)@ == self.metrics_after(old(tracker)@, event, options, now),
            self.wf() ==> flow.wf(),
    {
        match (self, event) {
            (StreamFlow::ReadingHeader, StreamEvent::HeaderRead(Ok(Some(request_id)))) => {
                *tracker = RequestTracker::new();
                StreamFlow::Handling { request_id, flow: MessageFlow::start(now) }
            },
            (StreamFlow::ReadingHeader, StreamEvent::HeaderRead(Ok(None))) => StreamFlow::Closed(
                CloseReason::ClosedByClient,
            ),
            (StreamFlow::ReadingHeader, StreamEvent::HeaderRead(Err(error))) =>
                StreamFlow::ReplyingWithoutHeader { error },
            (StreamFlow::Handling { request_id, flow }, StreamEvent::Message(event)) =>
                match flow.step(event, options, tracker, now) {
                    MessageFlow::Finished(Ok(_)) => StreamFlow::ReadingHeader,
                    MessageFlow::Finished(Err(failure)) => {
                        *tracker = RequestTracker::new();
                        StreamFlow::Replying {
                            request_id,
                            reply: ErrorReply::start(failure, None),
                        }
                    },
                    flow => StreamFlow::Handling { request_id, flow },
                },
            (StreamFlow::Replying { request_id, reply }, StreamEvent::ErrorReply(event)) => {
                let reply = reply.step(event, options, tracker, now);
                let failure = reply.failure;
                match reply.phase {
                    ErrorReplyPhase::Finished(Ok(_)) => StreamFlow::ReadingHeader,
                    ErrorReplyPhase::Finished(Err(_)) => StreamFlow::Closed(
                        CloseReason::ErrorNotDelivered,
                    ),
                    phase => StreamFlow::Replying {
                        request_id,
                        reply: ErrorReply { failure, phase },
                    },
                }
            },
            (
                StreamFlow::ReplyingWithoutHeader { .. },
                StreamEvent::HeaderlessErrorWritten(Ok(_)),
            ) => StreamFlow::ReadingHeader,
            (
                StreamFlow::ReplyingWithoutHeader { .. },
                StreamEvent::HeaderlessErrorWritten(Err(_)),
            ) => StreamFlow::Closed(CloseReason::ErrorNotDelivered),
            (same, _) => same,
        }
    }
}

/// A connection is closed exactly when the client closes it between two messages,
/// or when the client cannot be told of an error: of one that failed a message,
/// or of a header that could not be read. Neither of these closes it by itself.
pub proof fn connection_closes_for_cause<R, C, E>(
    flow: StreamFlow<R, C, E>,
    event: StreamEvent<R, C, E>,
    options: ReplyOptions,
    now: u128,
)
    requires
        flow.wf(),
        !(flow is Closed),
    ensures
        flow.next(event, options, now) == StreamFlow::<R, C, E>::Closed(CloseReason::ClosedByClient)
            <==> flow is ReadingHeader && (event matches StreamEvent::HeaderRead(Ok(None))),
        flow.next(event, options, now) == StreamFlow::<R, C, E>::Closed(
            CloseReason::ErrorNotDelivered,
        ) <==> {
            ||| flow is ReplyingWithoutHeader && (
            event matches StreamEvent::HeaderlessErrorWritten(Err(_)))
            ||| (flow matches StreamFlow::Replying { reply, .. } && reply.phase is Writing) && (
            event matches StreamEvent::ErrorReply(ErrorReplyEvent::Written(Err(_))))
        },
{
}

/// A message that fails is answered: the failure goes into a reply that names the
/// message's request id, and the reply either reaches the client, after which the
/// next message is read, or closes the connection. Of such a reply the time of
/// writing it is recorded, where it could be written, and nothing else.
pub proof fn failed_message_is_answered<R, C, E>(
    m: Seq<i64>,
    request_id: i32,
    flow: MessageFlow<R, C, E>,
    event: MessageEvent<R, C, E>,
    failure: Failure<E>,
    error: C,
    written: Result<(), E>,
    options: ReplyOptions,
    failed_at: u128,
    built_at: u128,
    written_at: u128,
    emitted_at: u128,
)
    requires
        flow.next(event, options, failed_at) == MessageFlow::<R, C, E>::Finished(Err(failure)),
    ensures
        ({
            let handling = StreamFlow::Handling { request_id, flow };
            let failed = handling.next(StreamEvent::Message(event), options, failed_at);
            let reply = seq![
                (StreamEvent::ErrorReply(ErrorReplyEvent::Built(error)), options, built_at),
                (StreamEvent::ErrorReply(ErrorReplyEvent::Written(written)), options, written_at),
                (StreamEvent::ErrorReply(ErrorReplyEvent::Emitted), options, emitted_at),
            ];
            let zero = handling.metrics_after(m, StreamEvent::Message(event), options, failed_at);
            &&& failed == StreamFlow::<R, C, E>::Replying {
                request_id,
                reply: ErrorReply::begin(failure, None),
            }
            &&& failed.after(reply) == if written is Ok {
                StreamFlow::<R, C, E>::ReadingHeader
            } else {
                StreamFlow::<R, C, E>::Closed(CloseReason::ErrorNotDelivered)
            }
            &&& failed.metrics(zero, reply) == if written is Ok {
                request_tracker::record(
                    request_tracker::no_metrics(),
                    RequestIntervalKind::WriteResponse,
                    clock::span(built_at, written_at),
                )
            } else {
                request_tracker::no_metrics()
            }
        }),
{
    let handling = StreamFlow::Handling { request_id, flow };
    let failed = handling.next(StreamEvent::Message(event), options, failed_at);
    let built = (StreamEvent::ErrorReply(ErrorReplyEvent::Built(error)), options, built_at);
    let done = (
        StreamEvent::<R, C, E>::ErrorReply(ErrorReplyEvent::Written(written)),
        options,
        written_at,
    );
    let emitted = (
        StreamEvent::<R, C, E>::ErrorReply(ErrorReplyEvent::Emitted),
        options,
        emitted_at,
    );
    assert(seq![built, done, emitted].drop_last() =~= seq![built, done]);
    assert(seq![built, done].drop_last() =~= seq![built]);
    assert(seq![built].drop_last() =~= seq![]);
    reveal_with_fuel(StreamFlow::after, 4);
    reveal_with_fuel(StreamFlow::metrics, 4);
    reveal_with_fuel(request_tracker::record_all, 2);
}

/// A connection that is closed stays closed.
pub proof fn closed_connection_stays_closed<R, C, E>(
    flow: StreamFlow<R, C, E>,
    inputs: Seq<(StreamEvent<R, C, E>, ReplyOptions, u128)>,
)
    requires
        flow is Closed,
    ensures
        flow.after(inputs) == flow,
    decreases inputs.len(),
{
    if inputs.len() > 0 {
        closed_connection_stays_closed(flow, inputs.drop_last());
    }
}

/// The inputs of a message, as the connection gets them.
pub open spec fn as_stream_inputs<R, C, E>(
    inputs: Seq<(MessageEvent<R, C, E>, ReplyOptions, u128)>,
) -> Seq<(StreamEvent<R, C, E>, ReplyOptions, u128)> {
    Seq::new(
        inputs.len(),
        |i: int| (StreamEvent::Message(inputs[i].0), inputs[i].1, inputs[i].2),
    )
}

/// The message that was begun at `start` is not over at any point of `inputs`.
pub open spec fn goes_on<R, C, E>(
    start: u128,
    inputs: Seq<(MessageEvent<R, C, E>, ReplyOptions, u128)>,
) -> bool {
    forall|n: int|
        0 <= n <= inputs.len() ==> !(#[trigger] message_laws::after(
            MessageFlow::<R, C, E>::Reading { read_start: start },
            inputs.take(n),
        ) is Finished)
}

/// While a message goes on, the connection is at that message, and its tracker
/// holds what has been recorded of that message since its header was read, and
/// nothing of the messages before it.
pub proof fn messages_are_timed_separately<R, C, E>(
    m: Seq<i64>,
    request_id: i32,
    options: ReplyOptions,
    start: u128,
    inputs: Seq<(MessageEvent<R, C, E>, ReplyOptions, u128)>,
)
    requires
        goes_on(start, inputs),
    ensures
        ({
            let header = StreamEvent::<R, C, E>::HeaderRead(Ok(Some(request_id)));
            let idle = StreamFlow::<R, C, E>::ReadingHeader;
            let begun = idle.next(header, options, start);
            let zero = idle.metrics_after(m, header, options, start);
            let message = MessageFlow::<R, C, E>::Reading { read_start: start };
            &&& begun.after(as_stream_inputs(inputs)) == StreamFlow::<R, C, E>::Handling {
                request_id,
                flow: message_laws::after(message, inputs),
            }
            &&& begun.metrics(zero, as_stream_inputs(inputs)) == request_tracker::record_all(
                request_tracker::no_metrics(),
                message_laws::recorded(message, inputs),
            )
        }),
    decreases inputs.len(),
{
    let message = MessageFlow::<R, C, E>::Reading { read_start: start };
    if inputs.len() == 0 {
        assert(as_stream_inputs(inputs).len() == 0);
    } else {
        let before = inputs.drop_last();
        assert forall|n: int| 0 <= n <= before.len() implies !(#[trigger] message_laws::after(
            message,
            before.take(n),
        ) is Finished) by {
            assert(before.take(n) =~= inputs.take(n));
        }
        messages_are_timed_separately(m, request_id, options, start, before);
        assert(as_stream_inputs(inputs).drop_last() =~= as_stream_inputs(before));
        assert(inputs.take(inputs.len() as int) =~= inputs);
        let (event, _, now) = inputs.last();
        request_tracker::recordings_append(
            request_tracker::no_metrics(),
            message_laws::recorded(message, before),
            message_laws::after(message, before).records(event, now),
        );
    }
}

/// When a header has been read, its message is begun under its request id, with a
/// tracker that holds nothing; when the client has closed the connection, it is
/// closed; and a header that cannot be read is answered with that error, after which
/// the next one is read if the client could be told, and else the connection is
/// closed.
pub proof fn header_begins_a_message<R, C, E>(
    m: Seq<i64>,
    request_id: i32,
    error: E,
    reason: E,
    options: ReplyOptions,
    now: u128,
)
    ensures
        ({
            let idle = StreamFlow::<R, C, E>::ReadingHeader;
            let header = StreamEvent::<R, C, E>::HeaderRead(Ok(Some(request_id)));
            let unread = idle.next(StreamEvent::HeaderRead(Err(error)), options, now);
            &&& idle.next(header, options, now) == StreamFlow::<R, C, E>::Handling {
                request_id,
                flow: MessageFlow::Reading { read_start: now },
            }
            &&& idle.metrics_after(m, header, options, now) == request_tracker::no_metrics()
            &&& idle.next(StreamEvent::HeaderRead(Ok(None)), options, now) == StreamFlow::<
                R,
                C,
                E,
            >::Closed(CloseReason::ClosedByClient)
            &&& unread == StreamFlow::<R, C, E>::ReplyingWithoutHeader { error }
            &&& unread.next(StreamEvent::HeaderlessErrorWritten(Ok(())), options, now) == idle
            &&& unread.next(StreamEvent::HeaderlessErrorWritten(Err(reason)), options, now)
                == StreamFlow::<R, C, E>::Closed(CloseReason::ErrorNotDelivered)
        }),
{
}

/// While a message goes on the connection goes on with it. When it has succeeded the
/// next header is read, and no error is sent; when it has failed, the client is told
/// of that failure under the request id of the message, with a tracker that holds
/// nothing. Otherwise the tracker takes in what the message records.
pub proof fn message_outcome_decides_what_follows<R, C, E>(
    m: Seq<i64>,
    request_id: i32,
    message: MessageFlow<R, C, E>,
    event: MessageEvent<R, C, E>,
    failure: Failure<E>,
    options: ReplyOptions,
    now: u128,
)
    ensures
        ({
            let flow = StreamFlow::<R, C, E>::Handling { request_id, flow: message };
            let input = StreamEvent::<R, C, E>::Message(event);
            let dealt_with = message.next(event, options, now);
            let next = flow.next(input, options, now);
            let metrics = flow.metrics_after(m, input, options, now);
            &&& dealt_with == MessageFlow::<R, C, E>::Finished(Ok(())) ==> next == StreamFlow::<
                R,
                C,
                E,
            >::ReadingHeader
            &&& dealt_with == MessageFlow::<R, C, E>::Finished(Err(failure)) ==> {
                &&& next == StreamFlow::<R, C, E>::Replying {
                    request_id,
                    reply: ErrorReply {
                        failure,
                        phase: ErrorReplyPhase::Building { message_start: None },
                    },
                }
                &&& metrics == request_tracker::no_metrics()
            }
            &&& !(dealt_with is Finished) ==> next == StreamFlow::<R, C, E>::Handling {
                request_id,
                flow: dealt_with,
            }
            &&& !(dealt_with matches MessageFlow::Finished(Err(_))) ==> metrics
                == request_tracker::record_all(m, message.records(event, now))
        }),
{
}

/// A connection begins to tell the client of a failed message only when the message
/// at hand fails, and then of that failure.
pub proof fn error_reply_answers_a_failure<R, C, E>(
    flow: StreamFlow<R, C, E>,
    event: StreamEvent<R, C, E>,
    options: ReplyOptions,
    now: u128,
)
    requires
        !(flow is Replying),
        flow.next(event, options, now) is Replying,
    ensures
        flow matches StreamFlow::Handling { request_id, flow: message } && event
            matches StreamEvent::Message(input) && message.next(input, options, now)
            matches MessageFlow::Finished(Err(failure)) && flow.next(event, options, now)
            == (StreamFlow::<R, C, E>::Replying {
            request_id,
            reply: ErrorReply { failure, phase: ErrorReplyPhase::Building { message_start: None } },
        }),
{
}

/// Telling the client of a failed message is gone on with while it goes on, under
/// the same request id; when the client has been told the next header is read, and
/// when it cannot be the connection is closed. The tracker takes in what the reply
/// records.
pub proof fn told_failure_leads_to_the_next_message<R, C, E>(
    m: Seq<i64>,
    request_id: i32,
    reply: ErrorReply<C, E>,
    event: ErrorReplyEvent<C, E>,
    options: ReplyOptions,
    now: u128,
)
    ensures
        ({
            let flow = StreamFlow::<R, C, E>::Replying { request_id, reply };
            let input = StreamEvent::<R, C, E>::ErrorReply(event);
            let replied = reply.next(event, options, now);
            let next = flow.next(input, options, now);
            &&& flow.metrics_after(m, input, options, now) == request_tracker::record_all(
                m,
                reply.records(event, now),
            )
            &&& (replied.phase matches ErrorReplyPhase::Finished(Ok(_))) ==> next == StreamFlow::<
                R,
                C,
                E,
            >::ReadingHeader
            &&& (replied.phase matches ErrorReplyPhase::Finished(Err(_))) ==> next == StreamFlow::<
                R,
                C,
                E,
            >::Closed(CloseReason::ErrorNotDelivered)
            &&& !(replied.phase is Finished) ==> next == StreamFlow::<R, C, E>::Replying {
                request_id,
                reply: replied,
            }
        }),
{
}

/// Serving a client asks for the step that it is at; what it did not ask for leaves
/// the connection and its tracker as they are, and the tracker changes with a
/// message or its reply alone.
pub proof fn serving_keeps_to_its_step<R, C, E>(
    m: Seq<i64>,
    flow: StreamFlow<R, C, E>,
    event: StreamEvent<R, C, E>,
    options: ReplyOptions,
    now: u128,
)
    ensures
        ({
            let action = flow.spec_action();
            let silent = flow.metrics_after(m, event, options, now) == m;
            let same = flow.next(event, options, now) == flow && silent;
            match flow {
                StreamFlow::ReadingHeader => action == StreamAction::ReadHeader && (!(
                event is HeaderRead) ==> same) && (!(event matches StreamEvent::HeaderRead(
                    Ok(Some(_)),
                )) ==> silent),
                StreamFlow::Handling { request_id, flow: message } => action
                    == StreamAction::Message(request_id, message.spec_action()) && (!(
                event is Message) ==> same),
                StreamFlow::Replying { request_id, reply } => action == StreamAction::ErrorReply(
                    request_id,
                    reply.spec_action(),
                ) && (!(event is ErrorReply) ==> same),
                StreamFlow::ReplyingWithoutHeader { .. } => action
                    == StreamAction::WriteHeaderlessError && silent && (!(
                event is HeaderlessErrorWritten) ==> same),
                StreamFlow::Closed(_) => action == StreamAction::Finish && same,
            }
        }),
{
}

} // verus!
