//! Accumulated time per phase of a request.

use tokio::time::Instant;
use vstd::prelude::*;

use crate::clock::{elapsed_nanos, NANOS_LIMIT};

verus! {

/// The phases of a request that are timed separately.
#[derive(Clone, Copy, Debug, PartialEq, Eq, Structural)]
pub enum RequestIntervalKind {
    /// Time spent reading stream from request body.
    ReadRequest,
    /// Interval kind for the overall request processing duration, which includes FormatRequest, and HandleRequest via backend.
    /// ReadRequest and WriteResponse are not part of HandleMessage.
    HandleMessage,
    /// Time spent formatting and parsing the incoming request.
    FormatRequest,
    /// Time spent handling the request, which includes ProcessRequest and, if applicable,
    /// PostgresBeginTransaction, PostgresSetStatementTimeout, and PostgresCommitTransaction.
    HandleRequest,
    /// Time spent in network transport and Postgres processing.
    ProcessRequest,
    /// Time spent beginning a Postgres transaction.
    PostgresBeginTransaction,
    /// Time spent setting statement timeout parameters in Postgres.
    PostgresSetStatementTimeout,
    /// Time spent committing a Postgres transaction.
    PostgresCommitTransaction,
    /// Time spent writing the response to the stream.
    WriteResponse,
    /// Special value used to define the size of the metrics array.
    MaxUnused,
}

/// The number of phases that are timed.
pub const INTERVAL_COUNT: usize = 9;

impl RequestIntervalKind {
    /// The position of a phase in the metrics array; `MaxUnused` lies just past its end.
    pub open spec fn spec_index(self) -> int {
        match self {
            RequestIntervalKind::ReadRequest => 0,
            RequestIntervalKind::HandleMessage => 1,
            RequestIntervalKind::FormatRequest => 2,
            RequestIntervalKind::HandleRequest => 3,
            RequestIntervalKind::ProcessRequest => 4,
            RequestIntervalKind::PostgresBeginTransaction => 5,
            RequestIntervalKind::PostgresSetStatementTimeout => 6,
            RequestIntervalKind::PostgresCommitTransaction => 7,
            RequestIntervalKind::WriteResponse => 8,
            RequestIntervalKind::MaxUnused => INTERVAL_COUNT as int,
        }
    }

    /// The position of this phase in the metrics array.
    fn index(self) -> (i: usize)
        ensures
            i == self.spec_index(),
    {
        match self {
            RequestIntervalKind::ReadRequest => 0,
            RequestIntervalKind::HandleMessage => 1,
            RequestIntervalKind::FormatRequest => 2,
            RequestIntervalKind::HandleRequest => 3,
            RequestIntervalKind::ProcessRequest => 4,
            RequestIntervalKind::PostgresBeginTransaction => 5,
            RequestIntervalKind::PostgresSetStatementTimeout => 6,
            RequestIntervalKind::PostgresCommitTransaction => 7,
            RequestIntervalKind::WriteResponse => 8,
            RequestIntervalKind::MaxUnused => INTERVAL_COUNT,
        }
    }
}

/// `n` reduced modulo 2^64 into the range of `i64`, which is what a sum of
/// 64-bit counters holds after it has wrapped around.
pub open spec fn wrap_i64(n: int) -> int {
    (n + 0x8000_0000_0000_0000) % 0x1_0000_0000_0000_0000 - 0x8000_0000_0000_0000
}

/// One measurement: a phase and the nanoseconds it took.
pub type Recording = (RequestIntervalKind, int);

/// The metrics `m` after `nanos` more nanoseconds in `kind`.
pub open spec fn record(m: Seq<i64>, kind: RequestIntervalKind, nanos: int) -> Seq<i64> {
    m.update(kind.spec_index(), wrap_i64(m[kind.spec_index()] + nanos) as i64)
}

/// The metrics `m` after all of `recordings`, in order.
pub open spec fn record_all(m: Seq<i64>, recordings: Seq<Recording>) -> Seq<i64>
    decreases recordings.len(),
{
    if recordings.len() == 0 {
        m
    } else {
        record(
            record_all(m, recordings.drop_last()),
            recordings.last().0,
            recordings.last().1,
        )
    }
}

/// The metrics of a tracker in which nothing has been recorded.
pub open spec fn no_metrics() -> Seq<i64> {
    Seq::new(INTERVAL_COUNT as nat, |i: int| 0i64)
}

/// Accumulates the nanoseconds spent in each phase of one request.
#[derive(Debug)]
pub struct RequestTracker {
    pub request_interval_metrics_array: [i64; INTERVAL_COUNT],
}

impl View for RequestTracker {
    type V = Seq<i64>;

    open spec fn view(&self) -> Seq<i64> {
        self.request_interval_metrics_array@
    }
}

impl Default for RequestTracker {
    fn default() -> (tracker: Self)
        ensures
            tracker@ == no_metrics(),
    {
        RequestTracker::new()
    }
}

/// The low 64 bits of `nanos`, read as a signed number.
fn truncate_to_i64(nanos: u128) -> (low: i64)
    ensures
        low == wrap_i64(nanos as int),
{
    let low: u128 = nanos % 0x1_0000_0000_0000_0000;
    if low < 0x8000_0000_0000_0000 {
        low as i64
    } else {
        (low as i128 - 0x1_0000_0000_0000_0000) as i64
    }
}

impl RequestTracker {
    /// A tracker in which every phase stands at zero.
    pub fn new() -> (tracker: Self)
        ensures
            tracker@ == no_metrics(),
    {
        let tracker = RequestTracker { request_interval_metrics_array: [0i64; 9] };
        assert(tracker@ =~= no_metrics());
        tracker
    }

    /// Adds the time that has passed since `start_time` to the phase `interval`.
    pub fn record_duration(&mut self, interval: RequestIntervalKind, start_time: Instant)
        requires
            interval != RequestIntervalKind::MaxUnused,
        ensures
            exists|nanos: u128|
                nanos < NANOS_LIMIT && final(self)@ == #[trigger] record(
                    old(self)@,
                    interval,
                    nanos as int,
                ),
    {
        let nanos: u128 = elapsed_nanos(&start_time);
        self.record_elapsed(interval, nanos);
        assert(self@ == record(old(self)@, interval, nanos as int));
    }

    /// Adds `nanos` nanoseconds to the phase `interval`, wrapping around at the
    /// limits of `i64`, and leaves every other phase as it was.
    pub fn record_elapsed(&mut self, interval: RequestIntervalKind, nanos: u128)
        requires
            interval != RequestIntervalKind::MaxUnused,
        ensures
            final(self)@ == record(old(self)@, interval, nanos as int),
    {
        let i: usize = interval.index();
        let before: i64 = self.request_interval_metrics_array[i];
        let after: i64 = before.wrapping_add(truncate_to_i64(nanos));
        assert(after == wrap_i64(before + nanos));
        self.request_interval_metrics_array[i] = after;
        assert(self@ =~= record(old(self)@, interval, nanos as int));
    }

    /// The nanoseconds recorded so far in the phase `interval`.
    pub fn get_interval_elapsed_time(&self, interval: RequestIntervalKind) -> (nanos: i64)
        requires
            interval != RequestIntervalKind::MaxUnused,
        ensures
            nanos == self@[interval.spec_index()],
    {
        self.request_interval_metrics_array[interval.index()]
    }
}

/// The nanoseconds that `recordings` hold in all for the phase `kind`.
pub open spec fn total(recordings: Seq<Recording>, kind: RequestIntervalKind) -> int
    decreases recordings.len(),
{
    if recordings.len() == 0 {
        0
    } else {
        total(recordings.drop_last(), kind) + if recordings.last().0 == kind {
            recordings.last().1
        } else {
            0
        }
    }
}

/// A tracker holds for each phase the sum of everything recorded in that phase
/// since it was made, modulo 2^64, and nothing of the other phases.
pub proof fn tracker_accumulates(recordings: Seq<Recording>, kind: RequestIntervalKind)
    requires
        kind != RequestIntervalKind::MaxUnused,
        forall|i: int|
            0 <= i < recordings.len() ==> (#[trigger] recordings[i]).0
                != RequestIntervalKind::MaxUnused,
    ensures
        record_all(no_metrics(), recordings).len() == INTERVAL_COUNT,
        record_all(no_metrics(), recordings)[kind.spec_index()] == wrap_i64(
            total(recordings, kind),
        ),
    decreases recordings.len(),
{
    if recordings.len() > 0 {
        let before = recordings.drop_last();
        let (last, nanos) = recordings.last();
        assert(recordings[recordings.len() - 1].0 != RequestIntervalKind::MaxUnused);
        assert forall|i: int| 0 <= i < before.len() implies (#[trigger] before[i]).0
            != RequestIntervalKind::MaxUnused by {
            assert(before[i] == recordings[i]);
        }
        tracker_accumulates(before, kind);
        if last == kind {
            assert(wrap_i64(wrap_i64(total(before, kind)) + nanos) == wrap_i64(
                total(before, kind) + nanos,
            ));
        }
    }
}

/// What none, one or two measurements come to.
pub proof fn record_few(m: Seq<i64>, recordings: Seq<Recording>)
    ensures
        recordings.len() == 0 ==> record_all(m, recordings) == m,
        recordings.len() == 1 ==> record_all(m, recordings) == record(
            m,
            recordings[0].0,
            recordings[0].1,
        ),
        recordings.len() == 2 ==> record_all(m, recordings) == record(
            record(m, recordings[0].0, recordings[0].1),
            recordings[1].0,
            recordings[1].1,
        ),
{
    reveal_with_fuel(record_all, 3);
}

/// Recording one course of measurements after another is recording both together.
pub proof fn recordings_append(m: Seq<i64>, first: Seq<Recording>, second: Seq<Recording>)
    ensures
        record_all(m, first + second) == record_all(record_all(m, first), second),
    decreases second.len(),
{
    if second.len() == 0 {
        assert(first + second =~= first);
    } else {
        assert((first + second).drop_last() =~= first + second.drop_last());
        recordings_append(m, first, second.drop_last());
    }
}

/// The order in which two measurements are recorded does not matter.
pub proof fn recordings_commute(
    m: Seq<i64>,
    kind1: RequestIntervalKind,
    nanos1: int,
    kind2: RequestIntervalKind,
    nanos2: int,
)
    requires
        m.len() == INTERVAL_COUNT,
        kind1 != RequestIntervalKind::MaxUnused,
        kind2 != RequestIntervalKind::MaxUnused,
    ensures
        record(record(m, kind1, nanos1), kind2, nanos2) == record(
            record(m, kind2, nanos2),
            kind1,
            nanos1,
        ),
{
    if kind1 == kind2 {
        let start = m[kind1.spec_index()] as int;
        assert(wrap_i64(wrap_i64(start + nanos1) + nanos2) == wrap_i64(
            wrap_i64(start + nanos2) + nanos1,
        ));
    }
    assert(record(record(m, kind1, nanos1), kind2, nanos2) =~= record(
        record(m, kind2, nanos2),
        kind1,
        nanos1,
    ));
}

/// The phases stand in the metrics in the order in which they are declared.
pub proof fn phases_stand_in_order()
    ensures
        RequestIntervalKind::ReadRequest.spec_index() == 0,
        RequestIntervalKind::HandleMessage.spec_index() == 1,
        RequestIntervalKind::FormatRequest.spec_index() == 2,
        RequestIntervalKind::HandleRequest.spec_index() == 3,
        RequestIntervalKind::ProcessRequest.spec_index() == 4,
        RequestIntervalKind::PostgresBeginTransaction.spec_index() == 5,
        RequestIntervalKind::PostgresSetStatementTimeout.spec_index() == 6,
        RequestIntervalKind::PostgresCommitTransaction.spec_index() == 7,
        RequestIntervalKind::WriteResponse.spec_index() == 8,
        RequestIntervalKind::MaxUnused.spec_index() == 9,
        INTERVAL_COUNT == 9,
{
}

/// A new tracker has nine phases, and all of them stand at zero.
pub proof fn new_tracker_holds_nothing(i: int)
    ensures
        no_metrics().len() == 9,
        0 <= i < 9 ==> no_metrics()[i] == 0,
{
}

/// Recording adds the nanoseconds to the phase that they were spent in, up to a
/// multiple of 2^64, and exactly while the sum fits; every other phase stays as it
/// was.
pub proof fn recording_adds_to_one_phase(
    m: Seq<i64>,
    kind: RequestIntervalKind,
    other: RequestIntervalKind,
    nanos: int,
)
    requires
        m.len() == 9,
        kind != RequestIntervalKind::MaxUnused,
        other != RequestIntervalKind::MaxUnused,
        other != kind,
    ensures
        ({
            let i = kind.spec_index();
            let after = record(m, kind, nanos);
            &&& after.len() == 9
            &&& (after[i] - m[i] - nanos) % 0x1_0000_0000_0000_0000 == 0
            &&& i64::MIN <= m[i] + nanos <= i64::MAX ==> after[i] == m[i] + nanos
            &&& after[other.spec_index()] == m[other.spec_index()]
        }),
{
}

} // verus!
