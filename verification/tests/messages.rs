use pg_documentdb_gw::error::{DocumentDBError, ErrorCode, ErrorKind, Failure};
use pg_documentdb_gw::requests::request_tracker::{RequestIntervalKind, RequestTracker};
use pg_documentdb_gw::service::error_reply::{ErrorReplyAction, ErrorReplyEvent};
use pg_documentdb_gw::service::message::{
    MessageAction, MessageEvent, MessageFlow, RequestFacts,
};
use pg_documentdb_gw::service::request::{
    ReplyOptions, RequestAction, RequestEvent, RequestFlow,
};
use pg_documentdb_gw::service::response::{
    AuthKind, ResponseAction, ResponseEvent, ResponseFlow,
};
use pg_documentdb_gw::service::stream::{
    CloseReason, StreamAction, StreamEvent, StreamFlow,
};

type Message = MessageFlow<&'static str, &'static str, &'static str>;
type Event = MessageEvent<&'static str, &'static str, &'static str>;
type Stream = StreamFlow<&'static str, &'static str, &'static str>;
type Response = ResponseFlow<&'static str, &'static str>;

const QUIET: ReplyOptions = ReplyOptions { requires_response: true, telemetry: false };
const REPORTED: ReplyOptions = ReplyOptions { requires_response: true, telemetry: true };

fn facts(handle_with_auth: bool) -> RequestFacts {
    RequestFacts { handle_with_auth, collection: Some("things".to_string()) }
}

fn respond(event: ResponseEvent<&'static str, &'static str>) -> Event {
    MessageEvent::Request(RequestEvent::Response(event))
}

/// A message whose request is about to be handled: read from 100 to 110, parsed
/// from 112 to 115, understood at 120.
fn understood(tracker: &mut RequestTracker) -> Message {
    let message: Message = MessageFlow::start(100);
    assert_eq!(message.action(), MessageAction::ReadRequest);
    let message = message.step(MessageEvent::RequestRead(Ok(())), QUIET, tracker, 110);
    assert_eq!(message.action(), MessageAction::CheckShutdown);
    let message = message.step(MessageEvent::ShutdownChecked(false), QUIET, tracker, 112);
    assert_eq!(message.action(), MessageAction::Parse);
    let message = message.step(MessageEvent::Parsed(Ok(())), QUIET, tracker, 115);
    assert_eq!(message.action(), MessageAction::ExtractFacts);
    message.step(MessageEvent::FactsExtracted(Ok(facts(true))), QUIET, tracker, 120)
}

fn time(tracker: &RequestTracker, kind: RequestIntervalKind) -> i64 {
    tracker.get_interval_elapsed_time(kind)
}

#[test]
fn a_successful_message_is_timed() {
    let mut tracker = RequestTracker::new();
    let message = understood(&mut tracker);
    assert_eq!(
        message.action(),
        MessageAction::Request(RequestAction::Response(ResponseAction::Authenticate))
    );
    assert_eq!(message.collection(), "things");
    let message = message.step(
        respond(ResponseEvent::Authenticated(Ok("pong"))),
        REPORTED,
        &mut tracker,
        150,
    );
    assert_eq!(message.action(), MessageAction::Request(RequestAction::WriteResponse));
    match &message {
        MessageFlow::Handling { flow: RequestFlow::Writing { response, .. }, .. } => {
            assert_eq!(*response, "pong");
        }
        _ => panic!("nothing to write"),
    }
    let written = MessageEvent::Request(RequestEvent::Written(Ok(())));
    let message = message.step(written, REPORTED, &mut tracker, 157);
    assert_eq!(message.action(), MessageAction::Request(RequestAction::EmitResponse));
    let emitted = MessageEvent::Request(RequestEvent::Emitted);
    let message = message.step(emitted, REPORTED, &mut tracker, 160);
    assert_eq!(message.action(), MessageAction::CheckVerbosity);
    let message = message.step(MessageEvent::VerbosityChecked(true), REPORTED, &mut tracker, 161);
    assert_eq!(message.action(), MessageAction::LogLatency);
    let message = message.step(MessageEvent::LatencyLogged, REPORTED, &mut tracker, 162);
    assert!(matches!(message, MessageFlow::Finished(Ok(()))));
    assert_eq!(message.collection(), "");

    assert_eq!(time(&tracker, RequestIntervalKind::ReadRequest), 10);
    assert_eq!(time(&tracker, RequestIntervalKind::FormatRequest), 3);
    assert_eq!(time(&tracker, RequestIntervalKind::HandleRequest), 30);
    assert_eq!(time(&tracker, RequestIntervalKind::HandleMessage), 40);
    assert_eq!(time(&tracker, RequestIntervalKind::WriteResponse), 7);
    assert_eq!(time(&tracker, RequestIntervalKind::ProcessRequest), 0);
}

#[test]
fn a_response_nobody_waits_for_is_not_written() {
    let mut tracker = RequestTracker::new();
    let message = understood(&mut tracker);
    let silent = ReplyOptions { requires_response: false, telemetry: false };
    let message = message.step(
        respond(ResponseEvent::Authenticated(Ok("pong"))),
        silent,
        &mut tracker,
        150,
    );
    assert_eq!(message.action(), MessageAction::CheckVerbosity);
    let message = message.step(MessageEvent::VerbosityChecked(false), silent, &mut tracker, 151);
    assert!(matches!(message, MessageFlow::Finished(Ok(()))));
    assert_eq!(time(&tracker, RequestIntervalKind::WriteResponse), 0);
}

#[test]
fn a_failed_request_is_told_to_the_client_once() {
    let mut tracker = RequestTracker::new();
    let message = understood(&mut tracker);
    let message = message.step(
        respond(ResponseEvent::Authenticated(Err("denied"))),
        REPORTED,
        &mut tracker,
        150,
    );
    assert_eq!(message.action(), MessageAction::ErrorReply(ErrorReplyAction::Build));
    match &message {
        MessageFlow::Replying { reply, .. } => {
            assert!(matches!(reply.failure, Failure::Service("denied")));
        }
        _ => panic!("no reply"),
    }
    assert_eq!(message.collection(), "things");
    let message = message.step(
        MessageEvent::ErrorReply(ErrorReplyEvent::Built("error")),
        REPORTED,
        &mut tracker,
        155,
    );
    assert_eq!(message.action(), MessageAction::ErrorReply(ErrorReplyAction::WriteAndFlush));
    let message = message.step(
        MessageEvent::ErrorReply(ErrorReplyEvent::Written(Ok(()))),
        REPORTED,
        &mut tracker,
        158,
    );
    assert_eq!(message.action(), MessageAction::ErrorReply(ErrorReplyAction::EmitError));
    let message = message.step(
        MessageEvent::ErrorReply(ErrorReplyEvent::Emitted),
        REPORTED,
        &mut tracker,
        159,
    );
    assert!(matches!(message, MessageFlow::CheckingVerbosity { error: Some("error") }));
    let message = message.step(MessageEvent::VerbosityChecked(false), REPORTED, &mut tracker, 160);
    assert!(matches!(message, MessageFlow::Finished(Ok(()))));
    assert_eq!(time(&tracker, RequestIntervalKind::HandleRequest), 30);
    assert_eq!(time(&tracker, RequestIntervalKind::HandleMessage), 45);
    assert_eq!(time(&tracker, RequestIntervalKind::WriteResponse), 3);
}

#[test]
fn an_undeliverable_error_is_dropped_within_the_message() {
    let mut tracker = RequestTracker::new();
    let message = understood(&mut tracker);
    let message = message
        .step(respond(ResponseEvent::Authenticated(Err("denied"))), QUIET, &mut tracker, 150)
        .step(MessageEvent::ErrorReply(ErrorReplyEvent::Built("error")), QUIET, &mut tracker, 151)
        .step(
            MessageEvent::ErrorReply(ErrorReplyEvent::Written(Err("gone"))),
            QUIET,
            &mut tracker,
            152,
        );
    assert!(matches!(message, MessageFlow::CheckingVerbosity { error: None }));
}

#[test]
fn an_unwritten_response_is_timed_once() {
    let mut tracker = RequestTracker::new();
    let message = understood(&mut tracker);
    let message = message
        .step(respond(ResponseEvent::Authenticated(Ok("pong"))), QUIET, &mut tracker, 150)
        .step(
            MessageEvent::Request(RequestEvent::Written(Err("gone"))),
            QUIET,
            &mut tracker,
            152,
        );
    assert_eq!(message.action(), MessageAction::ErrorReply(ErrorReplyAction::Build));
    assert_eq!(time(&tracker, RequestIntervalKind::HandleMessage), 40);
    let message = message
        .step(MessageEvent::ErrorReply(ErrorReplyEvent::Built("error")), QUIET, &mut tracker, 155)
        .step(
            MessageEvent::ErrorReply(ErrorReplyEvent::Written(Ok(()))),
            QUIET,
            &mut tracker,
            158,
        );
    assert!(matches!(message, MessageFlow::CheckingVerbosity { error: Some("error") }));
    assert_eq!(time(&tracker, RequestIntervalKind::HandleMessage), 40);
    assert_eq!(time(&tracker, RequestIntervalKind::WriteResponse), 3);
}

#[test]
fn a_message_fails_before_its_request_is_understood() {
    let mut tracker = RequestTracker::new();
    let message: Message = MessageFlow::start(0);
    let message = message.step(MessageEvent::RequestRead(Err("eof")), QUIET, &mut tracker, 1);
    assert!(matches!(message, MessageFlow::Finished(Err(Failure::Service("eof")))));

    let message: Message = MessageFlow::start(0);
    let message = message
        .step(MessageEvent::RequestRead(Ok(())), QUIET, &mut tracker, 1)
        .step(MessageEvent::ShutdownChecked(true), QUIET, &mut tracker, 2);
    match message {
        MessageFlow::Finished(Err(Failure::Gateway(error))) => {
            assert_eq!(error.message(), "Graceful shutdown requested");
            assert_eq!(error.kind(), ErrorKind::DocumentDB(ErrorCode::ShutdownInProgress));
        }
        _ => panic!("went on"),
    }

    let message: Message = MessageFlow::start(0);
    let message = message
        .step(MessageEvent::RequestRead(Ok(())), QUIET, &mut tracker, 1)
        .step(MessageEvent::ShutdownChecked(false), QUIET, &mut tracker, 2)
        .step(MessageEvent::Parsed(Err("garbage")), QUIET, &mut tracker, 3);
    assert!(matches!(message, MessageFlow::Finished(Err(Failure::Service("garbage")))));
}

#[test]
fn requests_are_routed_by_authorization() {
    let flow: Response = ResponseFlow::start(true);
    assert_eq!(flow.action(), ResponseAction::Authenticate);
    let flow: Response = ResponseFlow::start(false);
    assert_eq!(flow.action(), ResponseAction::ReadAuthorization);
    let flow = flow.step(ResponseEvent::AuthorizationRead { authorized: true, auth_kind: None });
    assert_eq!(flow.action(), ResponseAction::AllocatePool);
    let flow = flow.step(ResponseEvent::PoolAllocated(Ok(())));
    assert_eq!(flow.action(), ResponseAction::CreateClient);
    let flow = flow.step(ResponseEvent::ClientCreated(Ok(())));
    assert_eq!(flow.action(), ResponseAction::Process);
    let flow = flow.step(ResponseEvent::Processed(Ok("done")));
    assert!(matches!(flow, ResponseFlow::Finished(Ok("done"))));

    for kind in [None, Some(AuthKind::Other)] {
        let flow: Response = ResponseFlow::start(false);
        let flow =
            flow.step(ResponseEvent::AuthorizationRead { authorized: false, auth_kind: kind });
        assert_eq!(flow.action(), ResponseAction::Authenticate);
    }
    let flow: Response = ResponseFlow::start(false);
    let flow = flow.step(ResponseEvent::AuthorizationRead {
        authorized: false,
        auth_kind: Some(AuthKind::ExternalIdentity),
    });
    match flow {
        ResponseFlow::Finished(Err(Failure::Gateway(error))) => {
            assert_eq!(error, DocumentDBError::TokenExpired);
            assert_eq!(error.message(), "External identity token has expired.");
            assert_eq!(error.kind(), ErrorKind::ReauthenticationRequired);
        }
        _ => panic!("not refused"),
    }
    let flow: Response = ResponseFlow::AllocatingPool;
    let flow = flow.step(ResponseEvent::PoolAllocated(Err("full")));
    assert!(matches!(flow, ResponseFlow::Finished(Err(Failure::Service("full")))));
}

#[test]
fn a_connection_outlives_failed_messages() {
    let mut tracker = RequestTracker::new();
    let stream: Stream = StreamFlow::start();
    assert_eq!(stream.action(), StreamAction::ReadHeader);
    let stream = stream.step(StreamEvent::HeaderRead(Ok(Some(77))), QUIET, &mut tracker, 0);
    assert_eq!(stream.action(), StreamAction::Message(77, MessageAction::ReadRequest));
    let stream = stream.step(
        StreamEvent::Message(MessageEvent::RequestRead(Ok(()))),
        QUIET,
        &mut tracker,
        9,
    );
    assert_eq!(time(&tracker, RequestIntervalKind::ReadRequest), 9);
    let stream = stream.step(
        StreamEvent::Message(MessageEvent::ShutdownChecked(true)),
        QUIET,
        &mut tracker,
        10,
    );
    assert_eq!(stream.action(), StreamAction::ErrorReply(77, ErrorReplyAction::Build));
    assert_eq!(time(&tracker, RequestIntervalKind::ReadRequest), 0);
    let stream = stream
        .step(StreamEvent::ErrorReply(ErrorReplyEvent::Built("error")), QUIET, &mut tracker, 11)
        .step(
            StreamEvent::ErrorReply(ErrorReplyEvent::Written(Ok(()))),
            QUIET,
            &mut tracker,
            15,
        );
    assert_eq!(stream.action(), StreamAction::ReadHeader);
    assert_eq!(time(&tracker, RequestIntervalKind::HandleMessage), 0);
    assert_eq!(time(&tracker, RequestIntervalKind::WriteResponse), 4);
    let stream = stream.step(StreamEvent::HeaderRead(Err("bad")), QUIET, &mut tracker, 20);
    assert_eq!(stream.action(), StreamAction::WriteHeaderlessError);
    let stream =
        stream.step(StreamEvent::HeaderlessErrorWritten(Ok(())), QUIET, &mut tracker, 21);
    assert_eq!(stream.action(), StreamAction::ReadHeader);
    let stream = stream.step(StreamEvent::HeaderRead(Ok(None)), QUIET, &mut tracker, 22);
    assert!(matches!(stream, StreamFlow::Closed(CloseReason::ClosedByClient)));
    let stream = stream.step(StreamEvent::HeaderRead(Ok(Some(1))), QUIET, &mut tracker, 23);
    assert_eq!(stream.action(), StreamAction::Finish);
}

#[test]
fn an_undeliverable_error_closes_the_connection() {
    let mut tracker = RequestTracker::new();
    let stream: Stream = StreamFlow::start();
    let stream = stream
        .step(StreamEvent::HeaderRead(Ok(Some(1))), QUIET, &mut tracker, 0)
        .step(
            StreamEvent::Message(MessageEvent::RequestRead(Err("eof"))),
            QUIET,
            &mut tracker,
            1,
        )
        .step(StreamEvent::ErrorReply(ErrorReplyEvent::Built("error")), QUIET, &mut tracker, 2)
        .step(
            StreamEvent::ErrorReply(ErrorReplyEvent::Written(Err("gone"))),
            QUIET,
            &mut tracker,
            3,
        );
    assert!(matches!(stream, StreamFlow::Closed(CloseReason::ErrorNotDelivered)));

    let stream: Stream = StreamFlow::start();
    let stream = stream
        .step(StreamEvent::HeaderRead(Err("bad")), QUIET, &mut tracker, 0)
        .step(StreamEvent::HeaderlessErrorWritten(Err("gone")), QUIET, &mut tracker, 1);
    assert!(matches!(stream, StreamFlow::Closed(CloseReason::ErrorNotDelivered)));
}

#[test]
fn each_message_starts_from_an_empty_tracker() {
    let mut tracker = RequestTracker::new();
    tracker.record_elapsed(RequestIntervalKind::ProcessRequest, 5);
    let stream: Stream = StreamFlow::start();
    let stream = stream.step(StreamEvent::HeaderRead(Ok(Some(3))), QUIET, &mut tracker, 50);
    assert_eq!(time(&tracker, RequestIntervalKind::ProcessRequest), 0);
    let stream = stream
        .step(StreamEvent::Message(MessageEvent::RequestRead(Ok(()))), QUIET, &mut tracker, 54)
        .step(StreamEvent::Message(MessageEvent::ShutdownChecked(false)), QUIET, &mut tracker, 55);
    assert_eq!(stream.action(), StreamAction::Message(3, MessageAction::Parse));
    assert_eq!(time(&tracker, RequestIntervalKind::ReadRequest), 4);
}

#[test]
fn a_silent_request_is_still_reported() {
    let mut tracker = RequestTracker::new();
    let message = understood(&mut tracker);
    let options = ReplyOptions { requires_response: false, telemetry: true };
    let message = message.step(
        respond(ResponseEvent::Authenticated(Ok("pong"))),
        options,
        &mut tracker,
        150,
    );
    match &message {
        MessageFlow::Handling { flow: RequestFlow::Emitting { response }, .. } => {
            assert_eq!(*response, "pong");
        }
        _ => panic!("not reported"),
    }
}
