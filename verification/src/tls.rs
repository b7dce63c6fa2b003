//! Recognising a TLS client by the first bytes that it sends.

use vstd::prelude::*;

use crate::error::DocumentDBError;

verus! {

/// How long a client may take to send its first bytes.
pub const TLS_PEEK_TIMEOUT_SECS: u64 = 5;

/// How long to wait before looking again at a client that has sent too few bytes.
pub const PEEK_RETRY_MILLIS: u64 = 100;

/// How many bytes decide.
pub const PEEK_LENGTH: usize = 3;

/// Byte `i` of a connection is one that a TLS handshake can have there: the
/// handshake record type, the major version, and a minor version from TLS 1.0 to
/// TLS 1.3.
pub open spec fn fits_handshake(i: int, byte: u8) -> bool {
    if i == 0 {
        byte == 0x16
    } else if i == 1 {
        byte == 0x03
    } else {
        0x01 <= byte <= 0x04
    }
}

/// The bytes begin as a TLS handshake does.
pub open spec fn begins_handshake(bytes: Seq<u8>) -> bool {
    forall|i: int|
        0 <= i < bytes.len() && i < PEEK_LENGTH ==> fits_handshake(i, #[trigger] bytes[i])
}

/// What the bytes seen so far say about a connection.
#[derive(Clone, Copy, Debug, PartialEq, Eq, Structural)]
pub enum Verdict {
    /// The client starts a TLS handshake.
    Tls,
    /// The client does not.
    Plain,
    /// Too few bytes have come in to tell.
    Undecided,
}

/// What `seen`, the first bytes of a connection, say about it.
pub open spec fn verdict(seen: Seq<u8>) -> Verdict {
    if !begins_handshake(seen) {
        Verdict::Plain
    } else if seen.len() >= PEEK_LENGTH {
        Verdict::Tls
    } else {
        Verdict::Undecided
    }
}

/// Judges a connection by `seen`, its first bytes.
pub fn classify(seen: &[u8]) -> (result: Verdict)
    ensures
        result == verdict(seen@),
{
    let n: usize = seen.len();
    if n >= 1 && seen[0] != 0x16 {
        assert(!fits_handshake(0, seen@[0]));
        return Verdict::Plain;
    }
    if n >= 2 && seen[1] != 0x03 {
        assert(!fits_handshake(1, seen@[1]));
        return Verdict::Plain;
    }
    if n >= 3 && (seen[2] < 0x01 || seen[2] > 0x04) {
        assert(!fits_handshake(2, seen@[2]));
        return Verdict::Plain;
    }
    if n >= PEEK_LENGTH {
        Verdict::Tls
    } else {
        Verdict::Undecided
    }
}

/// What came of the last thing that a detection asked for.
#[derive(Debug)]
pub enum DetectEvent {
    /// A peek showed these first bytes of the connection.
    Peeked(Vec<u8>),
    /// A peek failed, for this reason.
    PeekFailed(String),
    /// A peek did not come to an end in time.
    TimedOut,
    /// The wait is over.
    Waited,
}

/// What a detection asks for.
#[derive(Clone, Copy, Debug, PartialEq, Eq, Structural)]
pub enum DetectAction {
    /// Peek at the first bytes, for no longer than the time that is left.
    Peek,
    /// Wait before the next peek.
    Wait,
    /// Nothing: the detection is over.
    Finish,
}

/// The search for a TLS handshake at the start of a connection.
#[derive(Debug)]
pub enum TlsDetection {
    Peeking,
    Waiting,
    Finished(Result<bool, DocumentDBError>),
}

impl TlsDetection {
    /// What to do next.
    pub open spec fn spec_action(self) -> DetectAction {
        match self {
            TlsDetection::Peeking => DetectAction::Peek,
            TlsDetection::Waiting => DetectAction::Wait,
            TlsDetection::Finished(_) => DetectAction::Finish,
        }
    }

    /// The detection after `event`, when it has gone on for `elapsed` nanoseconds.
    /// A client that has sent too few bytes to tell is waited for while it has
    /// time left. An event that was not asked for changes nothing.
    pub open spec fn next(self, event: DetectEvent, elapsed: u128) -> TlsDetection {
        match (self, event) {
            (TlsDetection::Peeking, DetectEvent::Peeked(seen)) => if seen@.len() == 0 {
                TlsDetection::Finished(Err(DocumentDBError::ConnectionClosed))
            } else {
                match verdict(seen@) {
                    Verdict::Plain => TlsDetection::Finished(Ok(false)),
                    Verdict::Tls => TlsDetection::Finished(Ok(true)),
                    Verdict::Undecided => if time_left(elapsed) == 0 {
                        TlsDetection::Finished(Err(DocumentDBError::ReadTimedOut))
                    } else {
                        TlsDetection::Waiting
                    },
                }
            },
            (TlsDetection::Peeking, DetectEvent::PeekFailed(reason)) => TlsDetection::Finished(
                Err(DocumentDBError::ReadFailed(reason)),
            ),
            (TlsDetection::Peeking, DetectEvent::TimedOut) => TlsDetection::Finished(
                Err(DocumentDBError::ReadTimedOut),
            ),
            (TlsDetection::Waiting, DetectEvent::Waited) => TlsDetection::Peeking,
            _ => self,
        }
    }

    /// The detection after all of `inputs`, in order: events, each with the time
    /// that had passed by then.
    pub open spec fn after(self, inputs: Seq<(DetectEvent, u128)>) -> TlsDetection
        decreases inputs.len(),
    {
        if inputs.len() == 0 {
            self
        } else {
            let (event, elapsed) = inputs.last();
            self.after(inputs.drop_last()).next(event, elapsed)
        }
    }

    /// What to do next.
    pub fn action(&self) -> (action: DetectAction)
        ensures
            action == self.spec_action(),
    {
        match self {
            TlsDetection::Peeking => DetectAction::Peek,
            TlsDetection::Waiting => DetectAction::Wait,
            TlsDetection::Finished(_) => DetectAction::Finish,
        }
    }

    /// Takes in what came of the last action, `elapsed` nanoseconds after the
    /// detection began.
    pub fn step(self, event: DetectEvent, elapsed: u128) -> (detection: TlsDetection)
        ensures
            detection == self.next(event, elapsed),
    {
        match (self, event) {
            (TlsDetection::Peeking, DetectEvent::Peeked(seen)) => {
                if seen.len() == 0 {
                    TlsDetection::Finished(Err(DocumentDBError::ConnectionClosed))
                } else {
                    match classify(seen.as_slice()) {
                        Verdict::Plain => TlsDetection::Finished(Ok(false)),
                        Verdict::Tls => TlsDetection::Finished(Ok(true)),
                        Verdict::Undecided => if peek_timeout(elapsed) == 0 {
                            TlsDetection::Finished(Err(DocumentDBError::ReadTimedOut))
                        } else {
                            TlsDetection::Waiting
                        },
                    }
                }
            },
            (TlsDetection::Peeking, DetectEvent::PeekFailed(reason)) => TlsDetection::Finished(
                Err(DocumentDBError::ReadFailed(reason)),
            ),
            (TlsDetection::Peeking, DetectEvent::TimedOut) => TlsDetection::Finished(
                Err(DocumentDBError::ReadTimedOut),
            ),
            (TlsDetection::Waiting, DetectEvent::Waited) => TlsDetection::Peeking,
            (same, _) => same,
        }
    }
}

/// The nanoseconds that a client has left when `elapsed` of them have passed.
pub open spec fn time_left(elapsed: u128) -> int {
    let limit = TLS_PEEK_TIMEOUT_SECS * 1_000_000_000;
    if elapsed < limit {
        limit - elapsed
    } else {
        0
    }
}

/// The nanoseconds that a client has left to send its first bytes when `elapsed`
/// of them have passed.
pub fn peek_timeout(elapsed: u128) -> (nanos: u128)
    ensures
        nanos == time_left(elapsed),
{
    let limit: u128 = TLS_PEEK_TIMEOUT_SECS as u128 * 1_000_000_000;
    limit.saturating_sub(elapsed)
}

/// More bytes never turn a connection that is not TLS into one that is, nor the
/// reverse; and three bytes always decide.
pub proof fn verdict_is_stable(seen: Seq<u8>, more: Seq<u8>)
    ensures
        verdict(seen) != Verdict::Undecided ==> verdict(seen + more) == verdict(seen),
        seen.len() >= PEEK_LENGTH ==> verdict(seen) != Verdict::Undecided,
        verdict(seen) == Verdict::Tls ==> seen[0] == 0x16 && seen[1] == 0x03 && 0x01 <= seen[2]
            <= 0x04,
        seen.len() >= PEEK_LENGTH && seen[0] == 0x16 && seen[1] == 0x03 && 0x01 <= seen[2] <= 0x04
            ==> verdict(seen) == Verdict::Tls,
{
    let all = seen + more;
    if verdict(seen) == Verdict::Plain {
        let i = choose|i: int|
            0 <= i < seen.len() && i < PEEK_LENGTH && !fits_handshake(i, #[trigger] seen[i]);
        assert(all[i] == seen[i]);
    }
    if verdict(seen) == Verdict::Tls {
        assert forall|i: int| 0 <= i < all.len() && i < PEEK_LENGTH implies fits_handshake(
            i,
            #[trigger] all[i],
        ) by {
            assert(all[i] == seen[i]);
        }
        assert(fits_handshake(0, seen[0]) && fits_handshake(1, seen[1]) && fits_handshake(
            2,
            seen[2],
        ));
    }
}

/// Every peek among `inputs` showed a beginning of `stream`.
pub open spec fn peeks_show(inputs: Seq<(DetectEvent, u128)>, stream: Seq<u8>) -> bool {
    forall|i: int|
        0 <= i < inputs.len() ==> ((#[trigger] inputs[i]).0 matches DetectEvent::Peeked(seen) ==>
            seen@.is_prefix_of(stream))
}

/// However the bytes of a client trickle in, a detection that comes to an answer
/// gives the one that the bytes call for: TLS exactly when the client's first
/// three bytes begin a TLS handshake.
pub proof fn detection_answers_truly(
    inputs: Seq<(DetectEvent, u128)>,
    stream: Seq<u8>,
    answer: bool,
)
    requires
        peeks_show(inputs, stream),
        TlsDetection::Peeking.after(inputs) == TlsDetection::Finished(Ok(answer)),
    ensures
        answer <==> stream.len() >= PEEK_LENGTH && begins_handshake(stream),
        !answer ==> !begins_handshake(stream),
    decreases inputs.len(),
{
    let before = inputs.drop_last();
    let (last, _) = inputs.last();
    assert forall|i: int| 0 <= i < before.len() implies ((
    #[trigger] before[i]).0 matches DetectEvent::Peeked(seen) ==> seen@.is_prefix_of(stream)) by {
        assert(before[i] == inputs[i]);
    }
    let state = TlsDetection::Peeking.after(before);
    if state is Finished {
        detection_answers_truly(before, stream, answer);
    } else {
        assert(inputs[inputs.len() - 1].0 == last);
        if let DetectEvent::Peeked(seen) = last {
            let rest = stream.skip(seen@.len() as int);
            assert(stream =~= seen@ + rest);
            verdict_is_stable(seen@, rest);
        }
    }
}

/// A detection that is over stays as it is.
pub proof fn finished_detection_stays(detection: TlsDetection, event: DetectEvent, elapsed: u128)
    requires
        detection is Finished,
    ensures
        detection.next(event, elapsed) == detection,
{
}

/// A client has a limited time to send its first three bytes: once that time is
/// over, the next peek ends the detection, however many bytes it shows, and so
/// does the peek after a wait that was still going on. Until then a client that
/// has sent too few bytes is waited for.
pub proof fn client_has_limited_time(event: DetectEvent, elapsed: u128)
    requires
        !(event is Waited),
    ensures
        time_left(elapsed) == 0 ==> {
            &&& TlsDetection::Peeking.next(event, elapsed) is Finished
            &&& TlsDetection::Waiting.next(DetectEvent::Waited, elapsed).next(
                event,
                elapsed,
            ) is Finished
        },
        time_left(elapsed) > 0 ==> (TlsDetection::Peeking.next(event, elapsed) is Waiting <==> (
        event matches DetectEvent::Peeked(seen) && seen@.len() > 0 && verdict(seen@)
            == Verdict::Undecided)),
{
}

/// What the first bytes of a client say: it does not speak TLS when one of the
/// first three is not `0x16`, `0x03` and a value from `0x01` to `0x04` in turn; it
/// does when all three are there and none is such; and otherwise it cannot be told.
pub proof fn first_bytes_tell(seen: Seq<u8>)
    ensures
        ({
            let foreign = {
                ||| seen.len() >= 1 && seen[0] != 0x16
                ||| seen.len() >= 2 && seen[1] != 0x03
                ||| seen.len() >= 3 && (seen[2] < 0x01 || seen[2] > 0x04)
            };
            &&& foreign <==> verdict(seen) == Verdict::Plain
            &&& !foreign && seen.len() >= 3 <==> verdict(seen) == Verdict::Tls
            &&& !foreign && seen.len() < 3 <==> verdict(seen) == Verdict::Undecided
        }),
{
    if seen.len() >= 1 {
        assert(fits_handshake(0, seen[0]) <==> seen[0] == 0x16);
    }
    if seen.len() >= 2 {
        assert(fits_handshake(1, seen[1]) <==> seen[1] == 0x03);
    }
    if seen.len() >= 3 {
        assert(fits_handshake(2, seen[2]) <==> 0x01 <= seen[2] <= 0x04);
    }
}

/// A peek that shows a byte which no TLS handshake has in its place answers that
/// the client does not speak TLS, and one that shows three bytes which a handshake
/// has answers that it does, however long the client took. A peek that shows
/// nothing is a closed connection. Too few bytes to tell are waited on for five
/// seconds, after which the client has run out of time.
pub proof fn peek_is_answered_by_its_bytes(seen: Vec<u8>, elapsed: u128)
    ensures
        ({
            let next = TlsDetection::Peeking.next(DetectEvent::Peeked(seen), elapsed);
            let foreign = {
                ||| seen@.len() >= 1 && seen@[0] != 0x16
                ||| seen@.len() >= 2 && seen@[1] != 0x03
                ||| seen@.len() >= 3 && (seen@[2] < 0x01 || seen@[2] > 0x04)
            };
            &&& seen@.len() == 0 ==> next == TlsDetection::Finished(
                Err(DocumentDBError::ConnectionClosed),
            )
            &&& foreign ==> next == TlsDetection::Finished(Ok(false))
            &&& seen@.len() >= 3 && !foreign ==> next == TlsDetection::Finished(Ok(true))
            &&& 0 < seen@.len() < 3 && !foreign && elapsed < 5_000_000_000 ==> next
                == TlsDetection::Waiting
            &&& 0 < seen@.len() < 3 && !foreign && elapsed >= 5_000_000_000 ==> next
                == TlsDetection::Finished(Err(DocumentDBError::ReadTimedOut))
        }),
{
    first_bytes_tell(seen@);
}

/// A detection fails only for an empty peek, for a peek that failed, with its
/// reason, or for time that has run out, in a peek or while the bytes do not tell.
pub proof fn detection_fails_for_cause(
    detection: TlsDetection,
    event: DetectEvent,
    elapsed: u128,
    error: DocumentDBError,
)
    requires
        !(detection is Finished),
    ensures
        detection.next(event, elapsed) == TlsDetection::Finished(Err(error)) <==> detection
            is Peeking && (match event {
            DetectEvent::Peeked(seen) => {
                ||| seen@.len() == 0 && error == DocumentDBError::ConnectionClosed
                ||| {
                    &&& 0 < seen@.len() < 3 && elapsed >= 5_000_000_000
                    &&& seen@[0] == 0x16 && (seen@.len() == 2 ==> seen@[1] == 0x03)
                    &&& error == DocumentDBError::ReadTimedOut
                }
            },
            DetectEvent::PeekFailed(reason) => error == DocumentDBError::ReadFailed(reason),
            DetectEvent::TimedOut => error == DocumentDBError::ReadTimedOut,
            DetectEvent::Waited => false,
        }),
{
    if let DetectEvent::Peeked(seen) = event {
        peek_is_answered_by_its_bytes(seen, elapsed);
    }
}

/// A detection asks for a peek, for a wait, or for nothing once it is over; after
/// a wait it asks for a peek again; and what it did not ask for leaves it as it is.
pub proof fn detection_keeps_to_its_course(
    event: DetectEvent,
    elapsed: u128,
    outcome: Result<bool, DocumentDBError>,
)
    ensures
        TlsDetection::Peeking.spec_action() == DetectAction::Peek,
        TlsDetection::Waiting.spec_action() == DetectAction::Wait,
        TlsDetection::Finished(outcome).spec_action() == DetectAction::Finish,
        TlsDetection::Waiting.next(DetectEvent::Waited, elapsed) == TlsDetection::Peeking,
        TlsDetection::Peeking.next(DetectEvent::Waited, elapsed) == TlsDetection::Peeking,
        !(event is Waited) ==> TlsDetection::Waiting.next(event, elapsed) == TlsDetection::Waiting,
        TlsDetection::Finished(outcome).next(event, elapsed) == TlsDetection::Finished(outcome),
{
}

/// A client has five seconds for its first three bytes, is looked at again every
/// tenth of a second, and what has passed of its time and what is left of it make
/// up the five seconds until they are over.
pub proof fn client_has_five_seconds(elapsed: u128)
    ensures
        elapsed <= 5_000_000_000 ==> elapsed + time_left(elapsed) == 5_000_000_000,
        elapsed >= 5_000_000_000 ==> time_left(elapsed) == 0,
        TLS_PEEK_TIMEOUT_SECS == 5,
        PEEK_RETRY_MILLIS == 100,
        PEEK_LENGTH == 3,
{
}

} // verus!
