//! What holds of the course of a message.

use vstd::prelude::*;

use crate::clock;
use crate::error::{DocumentDBError, Failure};
use crate::requests::request_tracker::{self, Recording, RequestIntervalKind};
use crate::service::error_reply::{
    ErrorReply, ErrorReplyAction, ErrorReplyEvent, ErrorReplyPhase,
};
use crate::service::message::{MessageAction, MessageEvent, MessageFlow, RequestFacts};
use crate::service::request::{ReplyOptions, RequestAction, RequestEvent, RequestFlow};
use crate::service::response::ResponseFlow;

verus! {

/// An event, what the connection wanted at that time, and when it happened.
pub type MessageInput<R, C, E> = (MessageEvent<R, C, E>, ReplyOptions, u128);

/// The flow after all of `inputs`, in order.
pub open spec fn after<R, C, E>(
    flow: MessageFlow<R, C, E>,
    inputs: Seq<MessageInput<R, C, E>>,
) -> MessageFlow<R, C, E>
    decreases inputs.len(),
{
    if inputs.len() == 0 {
        flow
    } else {
        let (event, options, now) = inputs.last();
        after(flow, inputs.drop_last()).next(event, options, now)
    }
}

/// Everything that is recorded over `inputs`, in order.
pub open spec fn recorded<R, C, E>(
    flow: MessageFlow<R, C, E>,
    inputs: Seq<MessageInput<R, C, E>>,
) -> Seq<Recording>
    decreases inputs.len(),
{
    if inputs.len() == 0 {
        seq![]
    } else {
        let (event, _, now) = inputs.last();
        let before = inputs.drop_last();
        recorded(flow, before) + after(flow, before).records(event, now)
    }
}

/// The metrics `m` after a message has taken in all of `inputs`.
pub open spec fn metrics<R, C, E>(
    flow: MessageFlow<R, C, E>,
    inputs: Seq<MessageInput<R, C, E>>,
    m: Seq<i64>,
) -> Seq<i64>
    decreases inputs.len(),
{
    if inputs.len() == 0 {
        m
    } else {
        let (event, _, now) = inputs.last();
        let before = inputs.drop_last();
        request_tracker::record_all(
            metrics(flow, before, m),
            after(flow, before).records(event, now),
        )
    }
}

/// The tracker of a message holds what was recorded over its whole course.
pub proof fn tracker_holds_what_was_recorded<R, C, E>(
    flow: MessageFlow<R, C, E>,
    inputs: Seq<MessageInput<R, C, E>>,
    m: Seq<i64>,
)
    ensures
        metrics(flow, inputs, m) == request_tracker::record_all(m, recorded(flow, inputs)),
    decreases inputs.len(),
{
    if inputs.len() > 0 {
        let (event, _, now) = inputs.last();
        let before = inputs.drop_last();
        tracker_holds_what_was_recorded(flow, before, m);
        request_tracker::recordings_append(
            m,
            recorded(flow, before),
            after(flow, before).records(event, now),
        );
    }
}

/// How often `recordings` hold the phase `kind`.
pub open spec fn times(recordings: Seq<Recording>, kind: RequestIntervalKind) -> nat
    decreases recordings.len(),
{
    if recordings.len() == 0 {
        0
    } else {
        times(recordings.drop_last(), kind) + if recordings.last().0 == kind {
            1nat
        } else {
            0nat
        }
    }
}

proof fn times_adds_up(a: Seq<Recording>, b: Seq<Recording>, kind: RequestIntervalKind)
    ensures
        times(a + b, kind) == times(a, kind) + times(b, kind),
    decreases b.len(),
{
    if b.len() == 0 {
        assert(a + b =~= a);
    } else {
        assert((a + b).drop_last() =~= a + b.drop_last());
        times_adds_up(a, b.drop_last(), kind);
    }
}

proof fn times_of_few(recordings: Seq<Recording>, kind: RequestIntervalKind)
    ensures
        recordings.len() == 0 ==> times(recordings, kind) == 0,
        recordings.len() == 1 ==> times(recordings, kind) == if recordings[0].0 == kind {
            1nat
        } else {
            0nat
        },
        recordings.len() == 2 ==> times(recordings, kind) == (if recordings[0].0 == kind {
            1nat
        } else {
            0nat
        }) + (if recordings[1].0 == kind {
            1nat
        } else {
            0nat
        }),
{
    reveal_with_fuel(times, 3);
}

/// Once a request has been read, parsed and understood, the message does not
/// fail any more: whatever goes wrong is told to the client, or logged, within
/// the message.
pub proof fn understood_message_succeeds<R, C, E>(
    flow: MessageFlow<R, C, E>,
    inputs: Seq<MessageInput<R, C, E>>,
)
    requires
        flow.is_understood(),
    ensures
        after(flow, inputs).is_understood(),
        !(after(flow, inputs) matches MessageFlow::Finished(Err(_))),
    decreases inputs.len(),
{
    if inputs.len() > 0 {
        understood_message_succeeds(flow, inputs.drop_last());
    }
}

/// A message that is over stays as it is.
pub proof fn finished_message_stays<R, C, E>(
    flow: MessageFlow<R, C, E>,
    inputs: Seq<MessageInput<R, C, E>>,
)
    requires
        flow is Finished,
    ensures
        after(flow, inputs) == flow,
        recorded(flow, inputs) == Seq::<Recording>::empty(),
    decreases inputs.len(),
{
    if inputs.len() > 0 {
        finished_message_stays(flow, inputs.drop_last());
    }
}

/// How often the overall time of a message has been recorded by the time it has
/// come to `flow`.
pub open spec fn overall_count<R, C, E>(flow: MessageFlow<R, C, E>) -> nat {
    match flow {
        MessageFlow::Handling { flow: RequestFlow::Writing { .. }, .. }
        | MessageFlow::Handling { flow: RequestFlow::Emitting { .. }, .. } => 1,
        MessageFlow::Replying { reply, .. } => match reply.phase {
            ErrorReplyPhase::Building { message_start: Some(_) } => 0,
            _ => 1,
        },
        MessageFlow::CheckingVerbosity { .. }
        | MessageFlow::LoggingLatency { .. }
        | MessageFlow::Finished(Ok(_)) => 1,
        _ => 0,
    }
}

/// The overall time of a message that is dealt with is recorded exactly once,
/// whether its request succeeds or fails, and whether or not a response that is
/// found can be written; of a message that fails before, it is not recorded.
pub proof fn overall_time_is_recorded_once<R, C, E>(
    start: u128,
    inputs: Seq<MessageInput<R, C, E>>,
)
    ensures
        ({
            let flow = MessageFlow::<R, C, E>::Reading { read_start: start };
            let end = after(flow, inputs);
            &&& end.wf()
            &&& times(recorded(flow, inputs), RequestIntervalKind::HandleMessage) == overall_count(
                end,
            )
        }),
    decreases inputs.len(),
{
    let flow = MessageFlow::<R, C, E>::Reading { read_start: start };
    let kind = RequestIntervalKind::HandleMessage;
    if inputs.len() == 0 {
        times_of_few(recorded(flow, inputs), kind);
    } else {
        let before = inputs.drop_last();
        overall_time_is_recorded_once(start, before);
        let state = after(flow, before);
        let (event, options, now) = inputs.last();
        times_adds_up(recorded(flow, before), state.records(event, now), kind);
        times_of_few(state.records(event, now), kind);
    }
}

/// The readings of a clock that does not run backwards.
pub open spec fn clock_runs_forward<R, C, E>(
    start: u128,
    inputs: Seq<MessageInput<R, C, E>>,
) -> bool {
    &&& forall|i: int| 0 <= i < inputs.len() ==> start <= (#[trigger] inputs[i]).2
    &&& forall|i: int, j: int|
        0 <= i <= j < inputs.len() ==> (#[trigger] inputs[i]).2 <= (#[trigger] inputs[j]).2
}

/// The last reading of the clock.
pub open spec fn last_reading<R, C, E>(start: u128, inputs: Seq<MessageInput<R, C, E>>) -> u128 {
    if inputs.len() == 0 {
        start
    } else {
        inputs.last().2
    }
}

/// The times in `m` fit the course of a message that was begun at `start` and has
/// come to `flow` at `now`.
pub open spec fn times_fit<R, C, E>(
    flow: MessageFlow<R, C, E>,
    m: Seq<Recording>,
    start: u128,
    now: u128,
) -> bool {
    let read = request_tracker::total(m, RequestIntervalKind::ReadRequest);
    let parse = request_tracker::total(m, RequestIntervalKind::FormatRequest);
    let find = request_tracker::total(m, RequestIntervalKind::HandleRequest);
    let overall = request_tracker::total(m, RequestIntervalKind::HandleMessage);
    let write = request_tracker::total(m, RequestIntervalKind::WriteResponse);
    match flow {
        MessageFlow::Reading { read_start } => {
            &&& read_start == start <= now
            &&& read == parse == find == overall == write == 0
        },
        MessageFlow::CheckingShutdown { message_start } => {
            &&& read == message_start - start
            &&& start <= message_start <= now
            &&& parse == find == overall == write == 0
        },
        MessageFlow::Parsing { message_start, format_start } => {
            &&& read == message_start - start
            &&& start <= message_start <= format_start <= now
            &&& parse == find == overall == write == 0
        },
        MessageFlow::Extracting { message_start } => {
            &&& read == message_start - start
            &&& start <= message_start <= now
            &&& 0 <= parse <= now - message_start
            &&& find == overall == write == 0
        },
        MessageFlow::Handling { message_start, flow, .. } => match flow {
            RequestFlow::Responding { message_start: same, request_start, .. } => {
                &&& read == message_start - start
                &&& start <= message_start == same <= request_start <= now
                &&& 0 <= parse <= request_start - message_start
                &&& find == overall == write == 0
            },
            RequestFlow::Writing { write_start, .. } => {
                &&& read >= 0 && read + overall == write_start - start
                &&& start <= write_start <= now
                &&& parse >= 0 && find >= 0 && parse + find <= overall
                &&& write == 0
            },
            _ => fits_whole(read, parse, find, overall, write, now - start),
        },
        MessageFlow::Replying { reply, .. } => match reply.phase {
            ErrorReplyPhase::Building { message_start: Some(message_start) } => {
                &&& read == message_start - start
                &&& start <= message_start <= now
                &&& parse >= 0 && find >= 0 && parse + find <= now - message_start
                &&& overall == write == 0
            },
            ErrorReplyPhase::Building { message_start: None } => {
                &&& fits_whole(read, parse, find, overall, write, now - start)
                &&& write == 0
            },
            ErrorReplyPhase::Writing { write_start, .. } => {
                &&& read >= 0 && read + overall <= write_start - start
                &&& start <= write_start <= now
                &&& parse >= 0 && find >= 0 && parse + find <= overall
                &&& write == 0
            },
            _ => fits_whole(read, parse, find, overall, write, now - start),
        },
        MessageFlow::Finished(Err(_)) => {
            &&& read >= 0 && read + parse <= now - start
            &&& find == overall == write == 0
        },
        _ => fits_whole(read, parse, find, overall, write, now - start),
    }
}

/// Reading, the overall time and writing follow each other within `whole`, and
/// parsing and finding the response lie within the overall time.
pub open spec fn fits_whole(
    read: int,
    parse: int,
    find: int,
    overall: int,
    write: int,
    whole: int,
) -> bool {
    &&& read >= 0 && parse >= 0 && find >= 0 && write >= 0
    &&& parse + find <= overall
    &&& read + overall + write <= whole
}

proof fn total_adds_up(a: Seq<Recording>, b: Seq<Recording>, kind: RequestIntervalKind)
    ensures
        request_tracker::total(a + b, kind) == request_tracker::total(a, kind) + request_tracker::total(b, kind),
    decreases b.len(),
{
    if b.len() == 0 {
        assert(a + b =~= a);
    } else {
        assert((a + b).drop_last() =~= a + b.drop_last());
        total_adds_up(a, b.drop_last(), kind);
    }
}

proof fn total_of_few(recordings: Seq<Recording>, kind: RequestIntervalKind)
    ensures
        recordings.len() == 0 ==> request_tracker::total(recordings, kind) == 0,
        recordings.len() == 1 ==> request_tracker::total(recordings, kind) == if recordings[0].0 == kind {
            recordings[0].1
        } else {
            0
        },
        recordings.len() == 2 ==> request_tracker::total(recordings, kind) == (if recordings[0].0 == kind {
            recordings[0].1
        } else {
            0
        }) + (if recordings[1].0 == kind {
            recordings[1].1
        } else {
            0
        }),
{
    reveal_with_fuel(request_tracker::total, 3);
}

/// At every point of the course of a message, what has been recorded fits it: the
/// reading time ends where the overall time begins, parsing and finding the
/// response lie within the overall time, and writing lies after it.
pub proof fn times_stay_fitting<R, C, E>(start: u128, inputs: Seq<MessageInput<R, C, E>>)
    requires
        clock_runs_forward(start, inputs),
    ensures
        after(MessageFlow::<R, C, E>::Reading { read_start: start }, inputs).wf(),
        times_fit(
            after(MessageFlow::<R, C, E>::Reading { read_start: start }, inputs),
            recorded(MessageFlow::<R, C, E>::Reading { read_start: start }, inputs),
            start,
            last_reading(start, inputs),
        ),
    decreases inputs.len(),
{
    let flow = MessageFlow::<R, C, E>::Reading { read_start: start };
    if inputs.len() == 0 {
        total_of_few(recorded(flow, inputs), RequestIntervalKind::ReadRequest);
        total_of_few(recorded(flow, inputs), RequestIntervalKind::FormatRequest);
        total_of_few(recorded(flow, inputs), RequestIntervalKind::HandleRequest);
        total_of_few(recorded(flow, inputs), RequestIntervalKind::HandleMessage);
        total_of_few(recorded(flow, inputs), RequestIntervalKind::WriteResponse);
    } else {
        let before = inputs.drop_last();
        assert forall|i: int| 0 <= i < before.len() implies before[i] == inputs[i] by {}
        assert forall|i: int| 0 <= i < before.len() implies start <= (#[trigger] before[i]).2 by {
            assert(inputs[i].2 >= start);
        }
        assert forall|i: int, j: int| 0 <= i <= j < before.len() implies (
        #[trigger] before[i]).2 <= (#[trigger] before[j]).2 by {
            assert(inputs[i].2 <= inputs[j].2);
        }
        times_stay_fitting(start, before);
        let state = after(flow, before);
        let (event, options, now) = inputs.last();
        let earlier = last_reading(start, before);
        assert(earlier <= now) by {
            assert(inputs[inputs.len() - 1].2 >= start);
            if before.len() > 0 {
                assert(inputs[before.len() - 1].2 <= inputs[inputs.len() - 1].2);
            }
        }
        let more = state.records(event, now);
        let so_far = recorded(flow, before);
        total_adds_up(so_far, more, RequestIntervalKind::ReadRequest);
        total_adds_up(so_far, more, RequestIntervalKind::FormatRequest);
        total_adds_up(so_far, more, RequestIntervalKind::HandleRequest);
        total_adds_up(so_far, more, RequestIntervalKind::HandleMessage);
        total_adds_up(so_far, more, RequestIntervalKind::WriteResponse);
        total_of_few(more, RequestIntervalKind::ReadRequest);
        total_of_few(more, RequestIntervalKind::FormatRequest);
        total_of_few(more, RequestIntervalKind::HandleRequest);
        total_of_few(more, RequestIntervalKind::HandleMessage);
        total_of_few(more, RequestIntervalKind::WriteResponse);
    }
}

/// The times of the message are reported in this state: to the telemetry provider,
/// with the response or with the error, or in the log; or the message is dealt
/// with.
pub open spec fn reports_times<R, C, E>(flow: MessageFlow<R, C, E>) -> bool {
    ||| flow.spec_action() == MessageAction::Request(RequestAction::EmitResponse)
    ||| flow.spec_action() == MessageAction::ErrorReply(ErrorReplyAction::EmitError)
    ||| flow.spec_action() == MessageAction::CheckVerbosity
    ||| flow.spec_action() == MessageAction::LogLatency
    ||| flow == MessageFlow::<R, C, E>::Finished(Ok(()))
}

/// Whenever the times of a message are reported, and when it is dealt with,
/// reading and writing lie outside the overall time, which begins when reading is
/// over and ends before writing begins, while parsing the request and finding the
/// response lie within it: the three parts add up to no more than the whole, and
/// the latter two to no more than the overall time.
pub proof fn intervals_nest_and_do_not_overlap<R, C, E>(
    start: u128,
    inputs: Seq<MessageInput<R, C, E>>,
)
    requires
        clock_runs_forward(start, inputs),
        reports_times(after(MessageFlow::<R, C, E>::Reading { read_start: start }, inputs)),
    ensures
        ({
            let m = recorded(MessageFlow::<R, C, E>::Reading { read_start: start }, inputs);
            fits_whole(
                request_tracker::total(m, RequestIntervalKind::ReadRequest),
                request_tracker::total(m, RequestIntervalKind::FormatRequest),
                request_tracker::total(m, RequestIntervalKind::HandleRequest),
                request_tracker::total(m, RequestIntervalKind::HandleMessage),
                request_tracker::total(m, RequestIntervalKind::WriteResponse),
                last_reading(start, inputs) - start,
            )
        }),
{
    times_stay_fitting(start, inputs);
}

/// A message that has been read is checked against a shutdown, and when none is on
/// parsed, and when it is parsed asked what it says about itself; the request is
/// then handled from there, by authentication where that handles its type and else
/// by finding out whether the client is authorized. The reading time is recorded
/// when it has been read, and the overall time begins there; the parsing time is
/// recorded when it has been parsed.
pub proof fn message_is_read_parsed_and_handled<R, C, E>(
    begun: u128,
    message_start: u128,
    facts: RequestFacts,
    options: ReplyOptions,
    now: u128,
)
    ensures
        ({
            let reading = MessageFlow::<R, C, E>::Reading { read_start: begun };
            let checking = MessageFlow::<R, C, E>::CheckingShutdown { message_start };
            let parsing = MessageFlow::<R, C, E>::Parsing { message_start, format_start: begun };
            let extracting = MessageFlow::<R, C, E>::Extracting { message_start };
            let read = MessageEvent::<R, C, E>::RequestRead(Ok(()));
            let open = MessageEvent::<R, C, E>::ShutdownChecked(false);
            let parsed = MessageEvent::<R, C, E>::Parsed(Ok(()));
            let extracted = MessageEvent::<R, C, E>::FactsExtracted(Ok(facts));
            let nothing = Seq::<Recording>::empty();
            &&& reading.next(read, options, now) == MessageFlow::<R, C, E>::CheckingShutdown {
                message_start: now,
            }
            &&& reading.records(read, now) == seq![(RequestIntervalKind::ReadRequest, clock::span(begun, now))]
            &&& checking.next(open, options, now) == MessageFlow::<R, C, E>::Parsing {
                message_start,
                format_start: now,
            }
            &&& checking.records(open, now) == nothing
            &&& parsing.next(parsed, options, now) == extracting
            &&& parsing.records(parsed, now) == seq![
                (RequestIntervalKind::FormatRequest, clock::span(begun, now)),
            ]
            &&& extracting.next(extracted, options, now) == MessageFlow::<R, C, E>::Handling {
                message_start,
                collection: facts.collection,
                flow: RequestFlow::Responding {
                    message_start,
                    request_start: now,
                    flow: if facts.handle_with_auth {
                        ResponseFlow::Authenticating
                    } else {
                        ResponseFlow::ReadingAuthorization
                    },
                },
            }
            &&& extracting.records(extracted, now) == nothing
        }),
{
}

/// A message fails, before its request is handled, when it cannot be read, parsed
/// or understood, with that error, or when clients are to be told of a shutdown;
/// nothing is recorded then.
pub proof fn message_fails_before_it_is_handled<R, C, E>(
    begun: u128,
    message_start: u128,
    error: E,
    options: ReplyOptions,
    now: u128,
)
    ensures
        ({
            let reading = MessageFlow::<R, C, E>::Reading { read_start: begun };
            let checking = MessageFlow::<R, C, E>::CheckingShutdown { message_start };
            let parsing = MessageFlow::<R, C, E>::Parsing { message_start, format_start: begun };
            let extracting = MessageFlow::<R, C, E>::Extracting { message_start };
            let unread = MessageEvent::<R, C, E>::RequestRead(Err(error));
            let down = MessageEvent::<R, C, E>::ShutdownChecked(true);
            let unparsed = MessageEvent::<R, C, E>::Parsed(Err(error));
            let unclear = MessageEvent::<R, C, E>::FactsExtracted(Err(error));
            let failed = MessageFlow::<R, C, E>::Finished(Err(Failure::Service(error)));
            let nothing = Seq::<Recording>::empty();
            &&& reading.next(unread, options, now) == failed
            &&& reading.records(unread, now) == nothing
            &&& checking.next(down, options, now) == MessageFlow::<R, C, E>::Finished(
                Err(Failure::Gateway(DocumentDBError::ShutdownRequested)),
            )
            &&& checking.records(down, now) == nothing
            &&& parsing.next(unparsed, options, now) == failed
            &&& parsing.records(unparsed, now) == nothing
            &&& extracting.next(unclear, options, now) == failed
            &&& extracting.records(unclear, now) == nothing
        }),
{
}

/// Handling the request is gone on with while it goes on, for the same collection.
/// When it succeeds, the message is as good as dealt with; when it fails, the client
/// is told of that failure, and the overall time is left to record with that only
/// where no response was found. What is recorded is what handling records.
pub proof fn request_outcome_decides_the_message<R, C, E>(
    message_start: u128,
    collection: Option<String>,
    handling: RequestFlow<R, E>,
    event: RequestEvent<R, E>,
    failure: Failure<E>,
    options: ReplyOptions,
    now: u128,
)
    ensures
        ({
            let flow = MessageFlow::<R, C, E>::Handling {
                message_start,
                collection,
                flow: handling,
            };
            let input = MessageEvent::<R, C, E>::Request(event);
            let handled = handling.next(event, options, now);
            let next = flow.next(input, options, now);
            &&& flow.records(input, now) == handling.records(event, now)
            &&& handled == RequestFlow::<R, E>::Finished(Ok(())) ==> next == MessageFlow::<
                R,
                C,
                E,
            >::CheckingVerbosity { error: None }
            &&& handled == RequestFlow::<R, E>::Finished(Err(failure)) ==> next == MessageFlow::<
                R,
                C,
                E,
            >::Replying {
                collection,
                reply: ErrorReply {
                    failure,
                    phase: ErrorReplyPhase::Building {
                        message_start: if handling is Responding {
                            Some(message_start)
                        } else {
                            None
                        },
                    },
                },
            }
            &&& !(handled is Finished) ==> next == MessageFlow::<R, C, E>::Handling {
                message_start,
                collection,
                flow: handled,
            }
        }),
{
}

/// Telling the client of a failure is gone on with while it goes on, for the same
/// collection. Whether or not the client could be told, the message is as good as
/// dealt with; the error that the client got, if it got one, is kept for the log.
/// What is recorded is what the reply records.
pub proof fn told_failure_closes_the_message<R, C, E>(
    collection: Option<String>,
    reply: ErrorReply<C, E>,
    event: ErrorReplyEvent<C, E>,
    error: C,
    options: ReplyOptions,
    now: u128,
)
    ensures
        ({
            let flow = MessageFlow::<R, C, E>::Replying { collection, reply };
            let input = MessageEvent::<R, C, E>::ErrorReply(event);
            let replied = reply.next(event, options, now);
            let next = flow.next(input, options, now);
            &&& flow.records(input, now) == reply.records(event, now)
            &&& replied.phase == ErrorReplyPhase::<C, E>::Finished(Ok(error)) ==> next
                == MessageFlow::<R, C, E>::CheckingVerbosity { error: Some(error) }
            &&& (replied.phase matches ErrorReplyPhase::Finished(Err(_))) ==> next
                == MessageFlow::<R, C, E>::CheckingVerbosity { error: None }
            &&& !(replied.phase is Finished) ==> next == MessageFlow::<R, C, E>::Replying {
                collection,
                reply: replied,
            }
        }),
{
}

/// A message that is as good as dealt with succeeds, after its latency has been
/// logged with the error that it ended with where that is wanted.
pub proof fn message_ends_with_the_log<R, C, E>(
    error: Option<C>,
    options: ReplyOptions,
    now: u128,
)
    ensures
        ({
            let checking = MessageFlow::<R, C, E>::CheckingVerbosity { error };
            let logging = MessageFlow::<R, C, E>::LoggingLatency { error };
            let over = MessageFlow::<R, C, E>::Finished(Ok(()));
            &&& checking.next(MessageEvent::VerbosityChecked(true), options, now) == logging
            &&& checking.next(MessageEvent::VerbosityChecked(false), options, now) == over
            &&& logging.next(MessageEvent::LatencyLogged, options, now) == over
        }),
{
}

/// A message asks for the step that it is at; what it did not ask for leaves it as
/// it is and records nothing.
pub proof fn message_keeps_to_its_step<R, C, E>(
    flow: MessageFlow<R, C, E>,
    event: MessageEvent<R, C, E>,
    options: ReplyOptions,
    now: u128,
)
    ensures
        ({
            let action = flow.spec_action();
            let silent = flow.records(event, now) == Seq::<Recording>::empty();
            let same = flow.next(event, options, now) == flow && silent;
            match flow {
                MessageFlow::Reading { .. } => action == MessageAction::ReadRequest && (!(
                event is RequestRead) ==> same),
                MessageFlow::CheckingShutdown { .. } => action == MessageAction::CheckShutdown && (
                !(event is ShutdownChecked) ==> same),
                MessageFlow::Parsing { .. } => action == MessageAction::Parse && (!(event is Parsed)
                    ==> same),
                MessageFlow::Extracting { .. } => action == MessageAction::ExtractFacts && (!(
                event is FactsExtracted) ==> same),
                MessageFlow::Handling { flow: handling, .. } => action == MessageAction::Request(
                    handling.spec_action(),
                ) && (!(event is Request) ==> same),
                MessageFlow::Replying { reply, .. } => action == MessageAction::ErrorReply(
                    reply.spec_action(),
                ) && (!(event is ErrorReply) ==> same),
                MessageFlow::CheckingVerbosity { .. } => action == MessageAction::CheckVerbosity
                    && silent && (!(event is VerbosityChecked) ==> same),
                MessageFlow::LoggingLatency { .. } => action == MessageAction::LogLatency && silent
                    && (!(event is LatencyLogged) ==> same),
                MessageFlow::Finished(_) => action == MessageAction::Finish && same,
            }
        }),
{
}

} // verus!
