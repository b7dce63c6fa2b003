//! What holds of the transaction store over any course of operations.

use std::sync::Arc;

use vstd::prelude::*;

use crate::context::session_maps;
use crate::context::transaction::{
    self, Connection, CreateActionView, CreateEvent, IsolationLevel, PgTransaction,
    RequestTransactionInfo, SettleActionView, SettleEvent, SettleKind, StartedTransaction,
    StoreView, TransactionState, TransactionView,
};
use crate::error::{DocumentDBError, Failure};

verus! {

/// One call of an operation that changes the store.
pub enum StoreCall<E> {
    Create {
        last_number: Option<i64>,
        info: RequestTransactionInfo,
        session: Seq<u8>,
        event: CreateEvent<E>,
        now: u128,
    },
    Abort { session: Seq<u8>, settlement: SettleEvent<E> },
    Commit { session: Seq<u8>, settlement: SettleEvent<E> },
    Reap { now: u128 },
}

impl<E> StoreCall<E> {
    /// The store after the call.
    pub open spec fn apply(self, store: StoreView) -> StoreView {
        match self {
            StoreCall::Create { last_number, info, session, event, now } => store.create_state(
                last_number,
                info,
                session,
                event,
                now,
            ),
            StoreCall::Abort { session, settlement } => store.settle_state(
                session,
                settlement,
                SettleKind::Abort,
            ),
            StoreCall::Commit { session, settlement } => store.settle_state(
                session,
                settlement,
                SettleKind::Commit,
            ),
            StoreCall::Reap { now } => store.reaped(now),
        }
    }

    /// The call files a new transaction in `session`.
    pub open spec fn opens_in(self, session: Seq<u8>) -> bool {
        self matches StoreCall::Create { session: target, event, .. } && target == session
            && event matches CreateEvent::TransactionStarted(Ok(_))
    }

    /// The call asks to commit or abort the transaction open in `session`.
    pub open spec fn settles_in(self, session: Seq<u8>) -> bool {
        match self {
            StoreCall::Abort { session: target, settlement }
            | StoreCall::Commit { session: target, settlement } => target == session
                && settlement is Requested,
            _ => false,
        }
    }

    /// The call reports that the transaction taken out of `session` is settled.
    pub open spec fn reports_settled(self, session: Seq<u8>) -> bool {
        match self {
            StoreCall::Abort { session: target, settlement }
            | StoreCall::Commit { session: target, settlement } => target == session && (
            settlement matches SettleEvent::Settled(Ok(_))),
            _ => false,
        }
    }

    /// The call asks to open a transaction other than `number` in `session`, and
    /// is not refused for its number being too low.
    pub open spec fn replaces_in(self, session: Seq<u8>, number: i64) -> bool {
        self matches StoreCall::Create { last_number, info, session: target, event, .. } && target
            == session && event is Requested && info.opens_transaction() && up_to_date(
            last_number,
            info,
        ) && info.transaction_number != number
    }

    /// The call leaves transaction `number` of `session`, which was filed at
    /// `filed`, where it is: it does not settle or replace it, files no other one
    /// in its place, and is no sweep at which it has expired.
    pub open spec fn spares(
        self,
        session: Seq<u8>,
        number: i64,
        filed: u128,
        expiration: u128,
    ) -> bool {
        &&& !self.settles_in(session)
        &&& !self.replaces_in(session, number)
        &&& !self.opens_in(session)
        &&& self matches StoreCall::Reap { now } ==> transaction::is_live(filed, now, expiration)
    }

    /// The call is about `session`.
    pub open spec fn concerns(self, session: Seq<u8>) -> bool {
        match self {
            StoreCall::Create { session: target, .. }
            | StoreCall::Abort { session: target, .. }
            | StoreCall::Commit { session: target, .. } => target == session,
            StoreCall::Reap { .. } => true,
        }
    }
}

/// Asking for `transaction` to be settled: a commit for a commit, an abort for an
/// abort.
pub open spec fn settling<E>(kind: SettleKind, transaction: TransactionView) -> SettleActionView<
    E,
> {
    match kind {
        SettleKind::Commit => SettleActionView::Commit(transaction),
        SettleKind::Abort => SettleActionView::Abort(transaction),
    }
}

/// The store after all of `calls`, in order.
pub open spec fn after<E>(store: StoreView, calls: Seq<StoreCall<E>>) -> StoreView
    decreases calls.len(),
{
    if calls.len() == 0 {
        store
    } else {
        calls.last().apply(after(store, calls.drop_last()))
    }
}

/// None of `calls` files a new transaction in `session`.
pub open spec fn opens_nothing<E>(calls: Seq<StoreCall<E>>, session: Seq<u8>) -> bool {
    forall|i: int| 0 <= i < calls.len() ==> !(#[trigger] calls[i]).opens_in(session)
}

/// A request to open transaction `number`.
pub open spec fn opening(info: RequestTransactionInfo, number: i64) -> bool {
    info.opens_transaction() && info.transaction_number == number
}

/// A request to continue transaction `number`.
pub open spec fn continuing(info: RequestTransactionInfo, number: i64) -> bool {
    !info.opens_transaction() && info.transaction_number == number
}

/// The request's connection has not been in a transaction of a higher number.
pub open spec fn up_to_date(last_number: Option<i64>, info: RequestTransactionInfo) -> bool {
    last_number matches Some(last) ==> last <= info.transaction_number
}

/// Whatever is called on a consistent store leaves it consistent: every open
/// transaction stays filed under its own session, with the number that was last
/// started there.
pub proof fn store_stays_consistent<E>(store: StoreView, calls: Seq<StoreCall<E>>)
    requires
        store.wf(),
    ensures
        after(store, calls).wf(),
    decreases calls.len(),
{
    if calls.len() > 0 {
        store_stays_consistent(store, calls.drop_last());
    }
}

/// A session in which a transaction was ever started is never forgotten.
pub proof fn sessions_are_remembered<E>(
    store: StoreView,
    calls: Seq<StoreCall<E>>,
    session: Seq<u8>,
)
    requires
        store.seen.contains_key(session),
    ensures
        after(store, calls).seen.contains_key(session),
    decreases calls.len(),
{
    if calls.len() > 0 {
        sessions_are_remembered(store, calls.drop_last(), session);
    }
}

/// The number last started in a session stays the same until another
/// transaction is opened there.
pub proof fn last_number_is_remembered<E>(
    store: StoreView,
    calls: Seq<StoreCall<E>>,
    session: Seq<u8>,
    number: i64,
)
    requires
        store.last_started(session, number),
        opens_nothing(calls, session),
    ensures
        after(store, calls).last_started(session, number),
    decreases calls.len(),
{
    if calls.len() > 0 {
        let before = calls.drop_last();
        assert forall|i: int| 0 <= i < before.len() implies !(#[trigger] before[i]).opens_in(
            session,
        ) by {
            assert(before[i] == calls[i]);
        }
        last_number_is_remembered(store, before, session, number);
        assert(!calls[calls.len() - 1].opens_in(session));
    }
}

/// A transaction number can be started in its session once: whatever becomes of
/// the transaction, a request to open the same number again is refused as a
/// conflict until another transaction is opened there.
pub proof fn number_starts_once<E>(
    store: StoreView,
    calls: Seq<StoreCall<E>>,
    session: Seq<u8>,
    started: RequestTransactionInfo,
    backend: StartedTransaction,
    now: u128,
    last_number: Option<i64>,
    info: RequestTransactionInfo,
)
    requires
        opens_nothing(calls, session),
        opening(info, started.transaction_number),
        up_to_date(last_number, info),
    ensures
        ({
            let later = after(store.opened(started, session, backend, now), calls);
            &&& later.create_action::<E>(last_number, info, session, CreateEvent::Requested)
                == CreateActionView::<E>::Fail(
                Failure::Gateway(
                    transaction::conflict(later.seen[session].state, info.transaction_number),
                ),
                None,
            )
            &&& later.create_state::<E>(last_number, info, session, CreateEvent::Requested, now)
                == later
        }),
{
    last_number_is_remembered(
        store.opened(started, session, backend, now),
        calls,
        session,
        started.transaction_number,
    );
}

/// A request whose number is lower than one that its connection has used is
/// refused, and changes nothing.
pub proof fn lower_number_is_refused<E>(
    store: StoreView,
    last_number: i64,
    info: RequestTransactionInfo,
    session: Seq<u8>,
    now: u128,
)
    requires
        info.transaction_number < last_number,
    ensures
        store.create_action::<E>(Some(last_number), info, session, CreateEvent::Requested)
            == CreateActionView::<E>::Fail(Failure::Gateway(DocumentDBError::NumberTooLow), None),
        store.create_state::<E>(Some(last_number), info, session, CreateEvent::Requested, now)
            == store,
{
}

/// All of `calls` leave the transaction where it is.
pub open spec fn all_spare<E>(
    calls: Seq<StoreCall<E>>,
    session: Seq<u8>,
    number: i64,
    filed: u128,
    expiration: u128,
) -> bool {
    forall|i: int|
        0 <= i < calls.len() ==> (#[trigger] calls[i]).spares(session, number, filed, expiration)
}

/// An open transaction leaves the store exactly when it is settled, replaced or
/// swept after its time, and another takes its place only when it is filed there;
/// every other call leaves it as it is.
pub proof fn open_transaction_ends_for_cause<E>(
    store: StoreView,
    call: StoreCall<E>,
    session: Seq<u8>,
)
    requires
        store.wf(),
        store.open.contains_key(session),
    ensures
        ({
            let (filed, open) = store.open[session];
            let number = open.transaction_number;
            let spared = call.spares(session, number, filed, store.expiration);
            &&& spared ==> call.apply(store).open.get(session) == Some((filed, open))
            &&& !spared && !call.opens_in(session) ==> !call.apply(store).open.contains_key(session)
        }),
{
}

proof fn spared_transaction_stays<E>(
    store: StoreView,
    calls: Seq<StoreCall<E>>,
    session: Seq<u8>,
)
    requires
        store.wf(),
        store.open.contains_key(session),
        all_spare(
            calls,
            session,
            store.open[session].1.transaction_number,
            store.open[session].0,
            store.expiration,
        ),
    ensures
        after(store, calls).wf(),
        after(store, calls).expiration == store.expiration,
        after(store, calls).open.get(session) == Some(store.open[session]),
    decreases calls.len(),
{
    if calls.len() > 0 {
        let before = calls.drop_last();
        let (filed, open) = store.open[session];
        assert forall|i: int| 0 <= i < before.len() implies (#[trigger] before[i]).spares(
            session,
            open.transaction_number,
            filed,
            store.expiration,
        ) by {
            assert(before[i] == calls[i]);
        }
        spared_transaction_stays(store, before, session);
        assert(calls[calls.len() - 1].spares(
            session,
            open.transaction_number,
            filed,
            store.expiration,
        ));
        open_transaction_ends_for_cause(after(store, before), calls.last(), session);
        store_stays_consistent(store, calls);
    }
}

/// From the moment it is opened until a call settles or replaces it, files
/// another in its place or finds it expired, a transaction is found under its
/// session with the connection that it was started on and the cursors that it was
/// given, and requests that continue it join it.
pub proof fn open_transaction_is_found<E>(
    store: StoreView,
    calls: Seq<StoreCall<E>>,
    session: Seq<u8>,
    started: RequestTransactionInfo,
    backend: StartedTransaction,
    now: u128,
    last_number: Option<i64>,
    info: RequestTransactionInfo,
)
    requires
        store.wf(),
        all_spare(calls, session, started.transaction_number, now, store.expiration),
        continuing(info, started.transaction_number),
        up_to_date(last_number, info),
    ensures
        ({
            let opened = store.opened(started, session, backend, now);
            let later = after(opened, calls);
            &&& later.open.get(session) == Some(opened.open[session])
            &&& later.connection(session) == Some(backend.transaction.connection)
            &&& later.cursors(session) == Some(backend.cursors)
            &&& later.create_action::<E>(last_number, info, session, CreateEvent::Requested)
                == CreateActionView::<E>::Joined
        }),
{
    spared_transaction_stays(store.opened(started, session, backend, now), calls, session);
}

/// In a consistent store a session has a connection exactly when a transaction is
/// open in it.
pub proof fn open_transaction_has_a_connection(store: StoreView, session: Seq<u8>)
    requires
        store.wf(),
    ensures
        store.connection(session) is Some <==> store.open.contains_key(session),
{
    if store.open.contains_key(session) {
        assert(store.open[session].1.transaction is Some);
    }
}

/// The transaction open in `session`, if there is one, is recorded as started.
pub open spec fn open_as_started(store: StoreView, session: Seq<u8>) -> bool {
    store.open.contains_key(session) ==> store.seen.contains_key(session)
        && store.seen[session].state == TransactionState::Started
}

/// Call `i` reports a settlement in `session` that call `j` asked for, and no
/// transaction was filed there between the two.
pub open spec fn answers<E>(calls: Seq<StoreCall<E>>, session: Seq<u8>, j: int, i: int) -> bool {
    &&& 0 <= j < i
    &&& calls[j].settles_in(session)
    &&& opens_nothing(calls.subrange(j + 1, i), session)
}

/// Commits and aborts in `session` do not overlap with the opening of another
/// transaction there: each reported settlement answers a request since which no
/// transaction was filed.
pub open spec fn settlements_do_not_overlap<E>(
    calls: Seq<StoreCall<E>>,
    session: Seq<u8>,
) -> bool {
    forall|i: int|
        0 <= i < calls.len() && (#[trigger] calls[i]).reports_settled(session) ==> exists|j: int|
            answers(calls, session, j, i)
}

proof fn calls_in_two_parts<E>(
    store: StoreView,
    first: Seq<StoreCall<E>>,
    second: Seq<StoreCall<E>>,
)
    ensures
        after(store, first + second) == after(after(store, first), second),
    decreases second.len(),
{
    if second.len() == 0 {
        assert(first + second =~= first);
    } else {
        assert((first + second).drop_last() =~= first + second.drop_last());
        calls_in_two_parts(store, first, second.drop_last());
    }
}

/// While commits and aborts in a session do not overlap with the opening of
/// another transaction there, the transaction that is open is recorded as
/// started: it has neither been committed nor aborted.
pub proof fn open_transaction_is_recorded_as_started<E>(
    store: StoreView,
    calls: Seq<StoreCall<E>>,
    session: Seq<u8>,
)
    requires
        open_as_started(store, session),
        settlements_do_not_overlap(calls, session),
    ensures
        open_as_started(after(store, calls), session),
    decreases calls.len(),
{
    if calls.len() > 0 {
        let before = calls.drop_last();
        let last = calls[calls.len() - 1];
        assert forall|i: int|
            0 <= i < before.len() && (#[trigger] before[i]).reports_settled(
                session,
            ) implies exists|j: int| answers(before, session, j, i) by {
            assert(calls[i].reports_settled(session));
            let j = choose|j: int| answers(calls, session, j, i);
            assert(before.subrange(j + 1, i) =~= calls.subrange(j + 1, i));
            assert(answers(before, session, j, i));
        }
        open_transaction_is_recorded_as_started(store, before, session);
        if last.reports_settled(session) {
            let i = calls.len() - 1;
            let j = choose|j: int| answers(calls, session, j, i);
            let first = before.take(j + 1);
            let second = before.skip(j + 1);
            assert(before =~= first + second);
            assert(second =~= calls.subrange(j + 1, i));
            assert(first.last() == calls[j]);
            calls_in_two_parts(store, first, second);
            nothing_opens_by_itself(after(store, first), second, session);
        }
    }
}

/// The state that the settled transaction of a session is left in is that of the
/// settlement, provided no other transaction was opened there meanwhile; after a
/// commit it can neither be continued (it is committed) nor opened again, after
/// an abort it can neither be continued (there is no such transaction) nor
/// opened again, and a second commit or abort finds nothing.
pub proof fn settled_transaction_is_over<E>(
    store: StoreView,
    calls: Seq<StoreCall<E>>,
    session: Seq<u8>,
    kind: SettleKind,
    number: i64,
    last_number: Option<i64>,
    info: RequestTransactionInfo,
)
    requires
        store.wf(),
        store.open.contains_key(session),
        store.open[session].1.transaction_number == number,
        opens_nothing(calls, session),
        up_to_date(last_number, info),
        info.transaction_number == number,
    ensures
        ({
            let requested = store.settle_state::<E>(session, SettleEvent::Requested, kind);
            let between = after(requested, calls);
            let done = between.settle_state::<E>(session, SettleEvent::Settled(Ok(())), kind);
            &&& between.settle_action::<E>(session, SettleEvent::Settled(Ok(())), kind)
                == SettleActionView::<E>::Done
            &&& done.seen[session].state == kind.spec_state()
            &&& done.settle_action::<E>(session, SettleEvent::Requested, kind)
                == SettleActionView::<E>::Fail(Failure::Gateway(kind.spec_missing()))
            &&& done.create_action::<E>(last_number, info, session, CreateEvent::Requested)
                == CreateActionView::<E>::Fail(
                Failure::Gateway(
                    if info.opens_transaction() {
                        transaction::conflict(kind.spec_state(), number)
                    } else if kind == SettleKind::Commit {
                        DocumentDBError::ContinuesCommitted(number)
                    } else {
                        DocumentDBError::CannotContinue(number)
                    },
                ),
                None,
            )
        }),
{
    let requested = store.settle_state::<E>(session, SettleEvent::Requested, kind);
    last_number_is_remembered(requested, calls, session, number);
    nothing_opens_by_itself(requested, calls, session);
}

/// A session without an open transaction has none until one is opened there.
pub proof fn nothing_opens_by_itself<E>(
    store: StoreView,
    calls: Seq<StoreCall<E>>,
    session: Seq<u8>,
)
    requires
        !store.open.contains_key(session),
        opens_nothing(calls, session),
    ensures
        !after(store, calls).open.contains_key(session),
    decreases calls.len(),
{
    if calls.len() > 0 {
        let before = calls.drop_last();
        assert forall|i: int| 0 <= i < before.len() implies !(#[trigger] before[i]).opens_in(
            session,
        ) by {
            assert(before[i] == calls[i]);
        }
        nothing_opens_by_itself(store, before, session);
        assert(!calls[calls.len() - 1].opens_in(session));
    }
}

/// In a consistent store a transaction that is asked for again is recognised by
/// the record of the last one started, so the check against the open transaction
/// itself never strikes; the transaction that a request evicts or settles always
/// has a backend transaction; and a session with an open transaction always has
/// such a record when the transaction has been settled, whatever happened
/// meanwhile.
pub proof fn consistent_store_never_lacks_a_record<E>(
    store: StoreView,
    calls: Seq<StoreCall<E>>,
    session: Seq<u8>,
    last_number: Option<i64>,
    info: RequestTransactionInfo,
    kind: SettleKind,
    dropped: Option<PgTransaction>,
)
    requires
        store.wf(),
    ensures
        store.create_action::<E>(last_number, info, session, CreateEvent::Requested)
            != CreateActionView::<E>::Fail(Failure::Gateway(DocumentDBError::AlreadyOpen), dropped),
        store.create_action::<E>(last_number, info, session, CreateEvent::Requested)
            != CreateActionView::<E>::Fail(
            Failure::Gateway(DocumentDBError::NothingToSettle),
            dropped,
        ),
        store.open.contains_key(session) ==> store.settle_action::<E>(
            session,
            SettleEvent::Requested,
            kind,
        ) == settling::<E>(kind, store.open[session].1),
        store.open.contains_key(session) ==> after(
            store.settle_state::<E>(session, SettleEvent::Requested, kind),
            calls,
        ).settle_action::<E>(session, SettleEvent::Settled(Ok(())), kind)
            == SettleActionView::<E>::Done,
{
    if store.open.contains_key(session) {
        let requested = store.settle_state::<E>(session, SettleEvent::Requested, kind);
        sessions_are_remembered(requested, calls, session);
    }
}

/// A call that is about one session leaves every other session as it was.
pub proof fn sessions_are_independent<E>(store: StoreView, call: StoreCall<E>, session: Seq<u8>)
    requires
        !call.concerns(session),
    ensures
        call.apply(store).open.get(session) == store.open.get(session),
        call.apply(store).seen.get(session) == store.seen.get(session),
{
}

/// A transaction that was filed at `filed` survives every sweep before it has
/// reached the expiration age, and no sweep from then on.
pub proof fn transactions_live_until_expiration(
    store: StoreView,
    session: Seq<u8>,
    now: u128,
)
    requires
        store.open.contains_key(session),
    ensures
        store.expiration > 0 && now < store.open[session].0 + store.expiration ==> store.reaped(
            now,
        ).open.get(session) == Some(store.open[session]),
        now >= store.open[session].0 + store.expiration ==> !store.reaped(now).open.contains_key(
            session,
        ),
        store.reaped(now).seen == store.seen,
{
}

/// Two sweeps leave what the later one alone would have left.
pub proof fn sweeps_compose(store: StoreView, earlier: u128, later: u128)
    requires
        earlier <= later,
    ensures
        store.reaped(earlier).reaped(later) == store.reaped(later),
        store.reaped(later).reaped(earlier) == store.reaped(later),
{
    assert(store.reaped(earlier).reaped(later).open =~= store.reaped(later).open);
    assert(store.reaped(later).reaped(earlier).open =~= store.reaped(later).open);
}

/// A transaction that has expired can neither be continued nor opened again
/// under its number.
pub proof fn expired_transaction_is_over<E>(
    store: StoreView,
    session: Seq<u8>,
    now: u128,
    last_number: Option<i64>,
    info: RequestTransactionInfo,
)
    requires
        store.wf(),
        store.open.contains_key(session),
        now >= store.open[session].0 + store.expiration,
        info.transaction_number == store.open[session].1.transaction_number,
        up_to_date(last_number, info),
    ensures
        store.reaped(now).create_action::<E>(last_number, info, session, CreateEvent::Requested)
            == CreateActionView::<E>::Fail(
            Failure::Gateway(
                if info.opens_transaction() {
                    transaction::conflict(store.seen[session].state, info.transaction_number)
                } else if store.seen[session].state == TransactionState::Committed {
                    DocumentDBError::ContinuesCommitted(info.transaction_number)
                } else {
                    DocumentDBError::CannotContinue(info.transaction_number)
                },
            ),
            None,
        ),
{
}

/// No uncommitted backend transaction is lost: when a call of `create` takes an
/// open transaction out of the store, its answer hands over the backend
/// transaction that is left to abort.
pub proof fn evicted_transaction_is_handed_over<E>(
    store: StoreView,
    last_number: Option<i64>,
    info: RequestTransactionInfo,
    session: Seq<u8>,
    event: CreateEvent<E>,
    now: u128,
)
    requires
        store.open.contains_key(session),
        store.create_state(last_number, info, session, event, now).open.get(session)
            != store.open.get(session),
    ensures
        match store.create_action(last_number, info, session, event) {
            CreateActionView::AbortPrevious(transaction) => transaction == store.open[session].1,
            CreateActionView::Created(displaced) => displaced
                == store.open[session].1.uncommitted(),
            CreateActionView::Fail(_, dropped) => dropped == store.open[session].1.uncommitted(),
            _ => false,
        },
{
}

/// No backend transaction is lost to a commit or an abort either: the transaction
/// that it takes out of the store is handed over, to be committed or aborted as
/// was asked for, unless its backend transaction is already gone; a settlement
/// that is reported back takes nothing out.
pub proof fn settled_transaction_is_handed_over<E>(
    store: StoreView,
    session: Seq<u8>,
    outcome: Result<(), E>,
    kind: SettleKind,
)
    requires
        store.open.contains_key(session),
    ensures
        !store.settle_state::<E>(session, SettleEvent::Requested, kind).open.contains_key(session),
        store.settle_action::<E>(session, SettleEvent::Requested, kind) == (
        match store.open[session].1.transaction {
            Some(_) => settling::<E>(kind, store.open[session].1),
            None => SettleActionView::<E>::Fail(Failure::Gateway(DocumentDBError::NothingToSettle)),
        }),
        store.settle_state(session, SettleEvent::Settled(outcome), kind).open == store.open,
{
}

/// A request that opens a transaction in a session without one goes through
/// pulling a connection and starting the transaction on it, at the isolation
/// level asked for or else at read committed, and ends with that transaction
/// open and recorded as started.
pub proof fn opening_runs_to_completion<E>(
    store: StoreView,
    last_number: Option<i64>,
    info: RequestTransactionInfo,
    session: Seq<u8>,
    backend: StartedTransaction,
    now: u128,
)
    requires
        info.opens_transaction(),
        up_to_date(last_number, info),
        !store.last_started(session, info.transaction_number),
        !store.open.contains_key(session),
    ensures
        ({
            let requested = CreateEvent::<E>::Requested;
            let pulled = CreateEvent::<E>::ConnectionPulled(Ok(backend.transaction.connection));
            let started = CreateEvent::<E>::TransactionStarted(Ok(backend));
            let done = store.create_state(last_number, info, session, started, now);
            &&& store.create_action(last_number, info, session, requested)
                == CreateActionView::<E>::PullConnection
            &&& store.create_state(last_number, info, session, requested, now) == store
            &&& store.create_action(last_number, info, session, pulled)
                == CreateActionView::<E>::StartTransaction(
                backend.transaction.connection,
                info.effective_isolation(),
            )
            &&& store.create_action(last_number, info, session, started)
                == CreateActionView::<E>::Created(None)
            &&& done.open[session] == (
                now,
                TransactionView {
                    session_id: session,
                    transaction_number: info.transaction_number,
                    cursors: backend.cursors,
                    transaction: Some(backend.transaction),
                },
            )
            &&& done.last_started(session, info.transaction_number)
            &&& done.seen[session].state == TransactionState::Started
        }),
{
    assert(store.open.remove(session) =~= store.open);
}

/// When a transaction goes away, its backend transaction is handed over for
/// aborting at most once, and a committed one never.
pub proof fn backend_transaction_is_released_once(transaction: TransactionView)
    ensures
        transaction.released().uncommitted() is None,
        transaction.transaction matches Some(inner) && inner.committed
            ==> transaction.uncommitted() is None && transaction.released() == transaction,
        transaction.released().session_id == transaction.session_id,
        transaction.released().transaction_number == transaction.transaction_number,
{
}

/// A transaction is started on the connection that was pulled for it, at the
/// isolation level that the request asks for, whichever that is, and at read
/// committed when it asks for none; whatever else the request says and the store
/// holds does not matter, and the store stays as it is.
pub proof fn transaction_starts_at_the_level_asked_for<E>(
    store: StoreView,
    last_number: Option<i64>,
    info: RequestTransactionInfo,
    session: Seq<u8>,
    connection: Arc<Connection>,
    level: IsolationLevel,
    now: u128,
)
    ensures
        ({
            let pulled = CreateEvent::<E>::ConnectionPulled(Ok(connection));
            let action = store.create_action(last_number, info, session, pulled);
            &&& info.isolation_level == Some(level) ==> action
                == CreateActionView::<E>::StartTransaction(connection, level)
            &&& info.isolation_level is None ==> action == CreateActionView::<E>::StartTransaction(
                connection,
                IsolationLevel::ReadCommitted,
            )
            &&& store.create_state(last_number, info, session, pulled, now) == store
        }),
{
}

/// Once the previous transaction of the session has been aborted a connection is
/// pulled. An exchange with the backend that fails fails the request with that
/// error. The store stays as it is in either case.
pub proof fn exchanges_with_the_backend_are_passed_on<E>(
    store: StoreView,
    last_number: Option<i64>,
    info: RequestTransactionInfo,
    session: Seq<u8>,
    error: E,
    now: u128,
)
    ensures
        ({
            let aborted = CreateEvent::<E>::PreviousAborted(Ok(()));
            let not_aborted = CreateEvent::<E>::PreviousAborted(Err(error));
            let not_pulled = CreateEvent::<E>::ConnectionPulled(Err(error));
            let not_started = CreateEvent::<E>::TransactionStarted(Err(error));
            let failed = CreateActionView::<E>::Fail(Failure::Service(error), None);
            &&& store.create_action(last_number, info, session, aborted)
                == CreateActionView::<E>::PullConnection
            &&& store.create_action(last_number, info, session, not_aborted) == failed
            &&& store.create_action(last_number, info, session, not_pulled) == failed
            &&& store.create_action(last_number, info, session, not_started) == failed
            &&& store.create_state(last_number, info, session, aborted, now) == store
            &&& store.create_state(last_number, info, session, not_aborted, now) == store
            &&& store.create_state(last_number, info, session, not_pulled, now) == store
            &&& store.create_state(last_number, info, session, not_started, now) == store
        }),
{
}

/// A request that starts a transaction, and does not commit by itself, is refused
/// when its number is the one last started in the session, by what has become of
/// that transaction, and the store stays as it is. With any other number it clears
/// the session: without an open transaction there it goes on to pulling a
/// connection, and one that is open is handed over to be aborted.
pub proof fn opening_request_clears_its_session<E>(
    store: StoreView,
    last_number: Option<i64>,
    info: RequestTransactionInfo,
    session: Seq<u8>,
    now: u128,
)
    requires
        info.start_transaction,
        !info.auto_commit,
        last_number matches Some(last) ==> last <= info.transaction_number,
    ensures
        ({
            let number = info.transaction_number;
            let requested = CreateEvent::<E>::Requested;
            let action = store.create_action(last_number, info, session, requested);
            let next = store.create_state(last_number, info, session, requested, now);
            let taken = store.seen.contains_key(session)
                && store.seen[session].transaction_number == number;
            let state = store.seen[session].state;
            let open = store.open.contains_key(session);
            let previous = store.open[session].1;
            &&& taken && state == TransactionState::Committed ==> action
                == CreateActionView::<E>::Fail(
                Failure::Gateway(DocumentDBError::AlreadyCommitted(number)),
                None,
            )
            &&& taken && state == TransactionState::Aborted ==> action
                == CreateActionView::<E>::Fail(
                Failure::Gateway(DocumentDBError::AlreadyAborted(number)),
                None,
            )
            &&& taken && state == TransactionState::Started ==> action
                == CreateActionView::<E>::Fail(
                Failure::Gateway(DocumentDBError::AlreadyStarted(number)),
                None,
            )
            &&& taken ==> next == store
            &&& !taken && !open ==> action == CreateActionView::<E>::PullConnection
            &&& !taken && open && previous.transaction_number == number ==> action
                == CreateActionView::<E>::Fail(
                Failure::Gateway(DocumentDBError::AlreadyOpen),
                match previous.transaction {
                    Some(inner) => if inner.committed {
                        None
                    } else {
                        Some(inner)
                    },
                    None => None,
                },
            )
            &&& !taken && open && previous.transaction_number != number && previous.transaction
                is Some ==> action == CreateActionView::<E>::AbortPrevious(previous)
            &&& !taken && open && previous.transaction_number != number && previous.transaction
                is None ==> action == CreateActionView::<E>::Fail(
                Failure::Gateway(DocumentDBError::NothingToSettle),
                None,
            )
            &&& !taken ==> next.open == store.open.remove(session)
            &&& next.seen == store.seen
            &&& next.expiration == store.expiration
        }),
{
}

/// A request that does not start a transaction, or commits by itself, joins the
/// transaction that is open in its session when that has its number. Otherwise it
/// is refused: as continuing a committed transaction when its number is the one
/// last started there, none is open and that one was committed, and else as
/// continuing one that is not there. The store stays as it is.
pub proof fn continuing_request_joins_or_is_refused<E>(
    store: StoreView,
    last_number: Option<i64>,
    info: RequestTransactionInfo,
    session: Seq<u8>,
    now: u128,
)
    requires
        !info.start_transaction || info.auto_commit,
        last_number matches Some(last) ==> last <= info.transaction_number,
    ensures
        ({
            let number = info.transaction_number;
            let requested = CreateEvent::<E>::Requested;
            let action = store.create_action(last_number, info, session, requested);
            let open = store.open.contains_key(session);
            let current = store.open[session].1;
            let committed = store.seen.contains_key(session)
                && store.seen[session].transaction_number == number && store.seen[session].state
                == TransactionState::Committed;
            &&& open && current.transaction_number == number ==> action
                == CreateActionView::<E>::Joined
            &&& !open && committed ==> action == CreateActionView::<E>::Fail(
                Failure::Gateway(DocumentDBError::ContinuesCommitted(number)),
                None,
            )
            &&& open && current.transaction_number != number || !open && !committed ==> action
                == CreateActionView::<E>::Fail(
                Failure::Gateway(DocumentDBError::CannotContinue(number)),
                None,
            )
            &&& store.create_state(last_number, info, session, requested, now) == store
        }),
{
}

/// A transaction that the backend has started is filed under its session at that
/// time, with the number of the request and its cursors, and recorded there as
/// started; an uncommitted one that stood there is handed over. No other session is
/// touched.
pub proof fn started_transaction_is_filed<E>(
    store: StoreView,
    last_number: Option<i64>,
    info: RequestTransactionInfo,
    session: Seq<u8>,
    backend: StartedTransaction,
    now: u128,
    other: Seq<u8>,
)
    requires
        other != session,
    ensures
        ({
            let started = CreateEvent::<E>::TransactionStarted(Ok(backend));
            let next = store.create_state(last_number, info, session, started, now);
            let filed = TransactionView {
                session_id: session,
                transaction_number: info.transaction_number,
                cursors: backend.cursors,
                transaction: Some(backend.transaction),
            };
            &&& next.open.get(session) == Some((now, filed))
            &&& next.seen.contains_key(session)
            &&& next.seen[session].transaction_number == info.transaction_number
            &&& next.seen[session].state == TransactionState::Started
            &&& next.open.get(other) == store.open.get(other)
            &&& next.seen.get(other) == store.seen.get(other)
            &&& next.expiration == store.expiration
            &&& store.create_action(last_number, info, session, started)
                == CreateActionView::<E>::Created(
                match store.open.get(session) {
                    Some((_, displaced)) => match displaced.transaction {
                        Some(inner) => if inner.committed {
                            None
                        } else {
                            Some(inner)
                        },
                        None => None,
                    },
                    None => None,
                },
            )
        }),
{
}

/// A commit asks for the transaction that is open in its session to be committed,
/// and an abort for it to be aborted; where none is open, each says so in its own
/// words. When the backend has done it, the record of the session says committed
/// after a commit and aborted after an abort.
pub proof fn commit_commits_and_abort_aborts<E>(store: StoreView, session: Seq<u8>)
    ensures
        ({
            let requested = SettleEvent::<E>::Requested;
            let done = SettleEvent::<E>::Settled(Ok(()));
            let asked_commit = store.settle_action(session, requested, SettleKind::Commit);
            let asked_abort = store.settle_action(session, requested, SettleKind::Abort);
            let committed = store.settle_state(session, done, SettleKind::Commit);
            let aborted = store.settle_state(session, done, SettleKind::Abort);
            let open = store.open.contains_key(session);
            let transaction = store.open[session].1;
            let gone = Failure::<E>::Gateway(DocumentDBError::NothingToSettle);
            let no_commit = Failure::<E>::Gateway(DocumentDBError::NothingToCommit);
            let no_abort = Failure::<E>::Gateway(DocumentDBError::NothingToAbort);
            &&& open && transaction.transaction is Some ==> {
                &&& asked_commit == SettleActionView::<E>::Commit(transaction)
                &&& asked_abort == SettleActionView::<E>::Abort(transaction)
            }
            &&& open && transaction.transaction is None ==> {
                &&& asked_commit == SettleActionView::<E>::Fail(gone)
                &&& asked_abort == SettleActionView::<E>::Fail(gone)
            }
            &&& !open ==> {
                &&& asked_commit == SettleActionView::<E>::Fail(no_commit)
                &&& asked_abort == SettleActionView::<E>::Fail(no_abort)
            }
            &&& store.seen.contains_key(session) ==> {
                &&& committed.seen[session].state == TransactionState::Committed
                &&& aborted.seen[session].state == TransactionState::Aborted
            }
        }),
{
}

/// A request to settle takes the open transaction out of its session and changes
/// nothing else. That the backend has settled it changes the state in the record of
/// the session and nothing else, and is the end of it, unless there is no record;
/// that the backend could not fails the request with that error and changes
/// nothing.
pub proof fn settling_touches_one_session<E>(
    store: StoreView,
    session: Seq<u8>,
    other: Seq<u8>,
    kind: SettleKind,
    error: E,
)
    requires
        other != session,
    ensures
        ({
            let done = SettleEvent::<E>::Settled(Ok(()));
            let failed = SettleEvent::<E>::Settled(Err(error));
            let asked = store.settle_state(session, SettleEvent::<E>::Requested, kind);
            let settled = store.settle_state(session, done, kind);
            let recorded = store.seen.contains_key(session);
            &&& !asked.open.contains_key(session)
            &&& asked.open.get(other) == store.open.get(other)
            &&& asked.seen == store.seen
            &&& asked.expiration == store.expiration
            &&& settled.open == store.open
            &&& settled.expiration == store.expiration
            &&& settled.seen.contains_key(session) == recorded
            &&& settled.seen.get(other) == store.seen.get(other)
            &&& recorded ==> settled.seen[session].transaction_number
                == store.seen[session].transaction_number
            &&& recorded ==> store.settle_action(session, done, kind) == SettleActionView::<
                E,
            >::Done
            &&& !recorded ==> store.settle_action(session, done, kind) == SettleActionView::<
                E,
            >::Fail(Failure::Gateway(DocumentDBError::NoRecord))
            &&& store.settle_action(session, failed, kind) == SettleActionView::<E>::Fail(
                Failure::Service(error),
            )
            &&& store.settle_state(session, failed, kind) == store
        }),
{
}

/// A sweep keeps exactly the transactions that are younger than the expiration age,
/// unchanged, and what it hands over to be aborted is exactly the uncommitted
/// backend transactions of the others, each once and under its session.
pub proof fn sweep_drops_what_has_expired(
    store: StoreView,
    now: u128,
    abandoned: Seq<(Vec<u8>, PgTransaction)>,
    session: Seq<u8>,
    i: int,
    j: int,
)
    requires
        session_maps::are_abandoned(abandoned, store.open, now, store.expiration),
    ensures
        ({
            let open = store.open.contains_key(session);
            let filed = store.open[session].0;
            let age = if now > filed {
                now - filed
            } else {
                0
            };
            let handed_over = exists|k: int|
                0 <= k < abandoned.len() && (#[trigger] abandoned[k]).0@ == session;
            let key = abandoned[i].0@;
            &&& open && age < store.expiration ==> store.reaped(now).open.get(session) == Some(
                store.open[session],
            )
            &&& open && age >= store.expiration ==> !store.reaped(now).open.contains_key(session)
            &&& !open ==> !store.reaped(now).open.contains_key(session)
            &&& handed_over <==> {
                &&& open && age >= store.expiration
                &&& store.open[session].1.transaction matches Some(inner)
                &&& !inner.committed
            }
            &&& 0 <= i < abandoned.len() ==> {
                &&& store.open[key].1.transaction == Some(abandoned[i].1)
                &&& !abandoned[i].1.committed
            }
            &&& 0 <= i < j < abandoned.len() ==> abandoned[j].0@ != key
            &&& store.reaped(now).seen == store.seen
            &&& store.reaped(now).expiration == store.expiration
        }),
{
    if exists|k: int| 0 <= k < abandoned.len() && (#[trigger] abandoned[k]).0@ == session {
        let k = choose|k: int|
            0 <= k < abandoned.len() && (#[trigger] abandoned[k]).0@ == session;
        assert(store.open.contains_key(abandoned[k].0@));
    }
}

/// A transaction that goes away leaves its backend transaction to abort exactly when
/// it has one that is not committed, and then keeps none; otherwise it stays as it
/// is. Its connection is that of its backend transaction.
pub proof fn uncommitted_transaction_is_left_to_abort(
    transaction: TransactionView,
    inner: PgTransaction,
)
    ensures
        transaction.transaction is None ==> {
            &&& transaction.uncommitted() is None
            &&& transaction.connection() is None
            &&& transaction.released() == transaction
        },
        transaction.transaction == Some(inner) ==> {
            &&& transaction.connection() == Some(inner.connection)
            &&& inner.committed ==> transaction.uncommitted() is None && transaction.released()
                == transaction
            &&& !inner.committed ==> transaction.uncommitted() == Some(inner) && (
            transaction.released().transaction is None)
        },
        transaction.released().session_id == transaction.session_id,
        transaction.released().transaction_number == transaction.transaction_number,
        transaction.released().cursors == transaction.cursors,
{
}

/// A session is found with the connection and the cursors of the transaction that is
/// open in it, and with none when no transaction is.
pub proof fn session_finds_its_own_transaction(store: StoreView, session: Seq<u8>)
    ensures
        !store.open.contains_key(session) ==> store.connection(session) is None && store.cursors(
            session,
        ) is None,
        store.open.contains_key(session) ==> {
            &&& store.cursors(session) == Some(store.open[session].1.cursors)
            &&& store.open[session].1.transaction matches Some(inner) ==> store.connection(session)
                == Some(inner.connection)
            &&& store.open[session].1.transaction is None ==> store.connection(session) is None
        },
{
}

} // verus!
