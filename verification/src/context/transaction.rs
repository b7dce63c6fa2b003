//! Multi-statement transactions: their life in the store of open transactions.
//!
//! Starting, committing and aborting a transaction takes several exchanges with
//! the backend. The store decides what each exchange is and what its outcome
//! means; the caller performs it and reports back.

use std::sync::Arc;

use dashmap::DashMap;
use vstd::prelude::*;

use crate::clock::{self, nanos_between, Clock, NANOS_LIMIT};
use crate::context::session_maps::{
    self, open_get, open_insert, open_new, open_remove, open_retain_live, seen_get, seen_insert,
    seen_new, seen_set_state, OpenMap, SeenMap,
};
use crate::error::{DocumentDBError, Failure};

verus! {

/// The isolation levels of a backend transaction.
#[derive(Clone, Copy, Debug, PartialEq, Eq, Structural)]
pub enum IsolationLevel {
    ReadUncommitted,
    ReadCommitted,
    RepeatableRead,
    Serializable,
}

/// What a request says about the transaction that it belongs to.
#[derive(Clone, Copy, Debug)]
pub struct RequestTransactionInfo {
    pub transaction_number: i64,
    pub auto_commit: bool,
    pub start_transaction: bool,
    pub is_request_within_transaction: bool,
    pub isolation_level: Option<IsolationLevel>,
}

impl RequestTransactionInfo {
    /// The request opens a new multi-statement transaction.
    pub open spec fn opens_transaction(self) -> bool {
        self.start_transaction && !self.auto_commit
    }

    /// The isolation level that a new transaction gets.
    pub open spec fn effective_isolation(self) -> IsolationLevel {
        match self.isolation_level {
            Some(level) => level,
            None => IsolationLevel::ReadCommitted,
        }
    }
}

/// A backend connection, known by its number.
#[derive(Debug)]
pub struct Connection {
    pub id: u64,
}

/// A backend transaction: the connection that it runs on, and whether it has
/// been committed.
#[derive(Debug)]
pub struct PgTransaction {
    pub connection: Arc<Connection>,
    pub committed: bool,
}

impl PgTransaction {
    /// The connection that the transaction runs on.
    pub fn get_connection(&self) -> (connection: Arc<Connection>)
        ensures
            connection == self.connection,
    {
        Arc::clone(&self.connection)
    }
}

impl Clone for PgTransaction {
    fn clone(&self) -> (copy: Self)
        ensures
            copy == *self,
    {
        PgTransaction { connection: self.get_connection(), committed: self.committed }
    }
}

/// The cursors that requests of a transaction have opened, known by a number.
#[derive(Clone, Copy, Debug, PartialEq, Eq, Structural)]
pub struct CursorStore {
    pub id: u64,
}

/// What the backend has started for a new transaction, and an empty store for the
/// cursors of that transaction.
#[derive(Debug)]
pub struct StartedTransaction {
    pub transaction: PgTransaction,
    pub cursors: CursorStore,
}

/// What is to be done with a backend transaction, and on which connection.
#[derive(Debug)]
pub enum Settlement {
    Commit(Arc<Connection>),
    Abort(Arc<Connection>),
}

/// A transaction of a client session.
#[derive(Debug)]
pub struct Transaction {
    pub session_id: Vec<u8>,
    pub transaction_number: i64,
    pub cursors: CursorStore,
    transaction: Option<PgTransaction>,
}

/// The contents of a `Transaction`.
pub struct TransactionView {
    pub session_id: Seq<u8>,
    pub transaction_number: i64,
    pub cursors: CursorStore,
    pub transaction: Option<PgTransaction>,
}

impl TransactionView {
    /// The connection that the transaction runs on, while it has a backend
    /// transaction.
    pub open spec fn connection(self) -> Option<Arc<Connection>> {
        match self.transaction {
            Some(inner) => Some(inner.connection),
            None => None,
        }
    }

    /// The backend transaction that is left to abort when the transaction goes
    /// away.
    pub open spec fn uncommitted(self) -> Option<PgTransaction> {
        match self.transaction {
            Some(inner) => if inner.committed {
                None
            } else {
                Some(inner)
            },
            None => None,
        }
    }

    /// The transaction after what is left to abort has been taken out of it.
    pub open spec fn released(self) -> TransactionView {
        match self.uncommitted() {
            Some(_) => TransactionView { transaction: None, ..self },
            None => self,
        }
    }
}

impl View for Transaction {
    type V = TransactionView;

    closed spec fn view(&self) -> TransactionView {
        TransactionView {
            session_id: self.session_id@,
            transaction_number: self.transaction_number,
            cursors: self.cursors,
            transaction: self.transaction,
        }
    }
}

impl Clone for Transaction {
    fn clone(&self) -> (copy: Self)
        ensures
            copy@ == self@,
    {
        let session_id = self.session_id.clone();
        assert(session_id@ =~= self.session_id@);
        let transaction = match &self.transaction {
            Some(inner) => Some(inner.clone()),
            None => None,
        };
        Transaction {
            session_id,
            transaction_number: self.transaction_number,
            cursors: self.cursors,
            transaction,
        }
    }
}

impl Transaction {
    /// The transaction that `request` opened in the session `session_id`, once
    /// the backend has started it, with the store for its cursors.
    pub fn start(
        request: &RequestTransactionInfo,
        started: StartedTransaction,
        session_id: Vec<u8>,
    ) -> (transaction: Self)
        ensures
            transaction@ == (TransactionView {
                session_id: session_id@,
                transaction_number: request.transaction_number,
                cursors: started.cursors,
                transaction: Some(started.transaction),
            }),
    {
        Transaction {
            session_id,
            transaction_number: request.transaction_number,
            cursors: started.cursors,
            transaction: Some(started.transaction),
        }
    }

    /// The connection that the transaction runs on, while it has a backend
    /// transaction.
    pub fn get_connection(&self) -> (connection: Option<Arc<Connection>>)
        ensures
            connection == self@.connection(),
    {
        match &self.transaction {
            Some(inner) => Some(inner.get_connection()),
            None => None,
        }
    }

    /// The session that the transaction belongs to.
    pub fn get_session_id(&self) -> (session_id: &[u8])
        ensures
            session_id@ == self@.session_id,
    {
        self.session_id.as_slice()
    }

    /// Asks for the backend transaction to be committed, on its connection.
    pub fn commit(&self) -> (settlement: Result<Settlement, DocumentDBError>)
        ensures
            settlement == (match self@.connection() {
                Some(target) => Ok(Settlement::Commit(target)),
                None => Err(DocumentDBError::NothingToSettle),
            }),
    {
        match self.get_connection() {
            Some(target) => Ok(Settlement::Commit(target)),
            None => Err(DocumentDBError::NothingToSettle),
        }
    }

    /// Asks for the backend transaction to be aborted, on its connection.
    pub fn abort(&self) -> (settlement: Result<Settlement, DocumentDBError>)
        ensures
            settlement == (match self@.connection() {
                Some(target) => Ok(Settlement::Abort(target)),
                None => Err(DocumentDBError::NothingToSettle),
            }),
    {
        match self.get_connection() {
            Some(target) => Ok(Settlement::Abort(target)),
            None => Err(DocumentDBError::NothingToSettle),
        }
    }

    /// The number that the client gave the transaction.
    pub fn transaction_number(&self) -> (number: i64)
        ensures
            number == self@.transaction_number,
    {
        self.transaction_number
    }

    /// Notes whether the backend transaction, if there still is one, has been
    /// committed.
    pub fn set_committed(&mut self, committed: bool)
        ensures
            final(self)@ == (TransactionView {
                transaction: match old(self)@.transaction {
                    Some(inner) => Some(PgTransaction { committed, ..inner }),
                    None => None,
                },
                ..old(self)@
            }),
    {
        let inner = self.transaction.take();
        self.transaction = match inner {
            Some(inner) => Some(PgTransaction { connection: inner.connection, committed }),
            None => None,
        };
    }

    /// Called when the transaction goes away: takes out the backend transaction
    /// if it has not been committed, and with that hands over the duty to abort
    /// it. A committed one stays.
    pub fn release(&mut self) -> (abandoned: Option<PgTransaction>)
        ensures
            abandoned == old(self)@.uncommitted(),
            final(self)@ == old(self)@.released(),
    {
        let inner = self.transaction.take();
        match inner {
            Some(inner) => if inner.committed {
                self.transaction = Some(inner);
                None
            } else {
                Some(inner)
            },
            None => None,
        }
    }
}

/// How far the transaction last started in a session has come.
#[derive(Clone, Copy, Debug, PartialEq, Eq, Structural)]
pub enum TransactionState {
    Started,
    Committed,
    Aborted,
}

/// The transaction last started in a session.
#[derive(Clone, Copy, Debug)]
pub struct LastSeenTransaction {
    pub transaction_number: i64,
    pub state: TransactionState,
}

impl LastSeenTransaction {
    /// A transaction that has just been started.
    pub fn new(transaction_number: i64) -> (seen: Self)
        ensures
            seen == (LastSeenTransaction { transaction_number, state: TransactionState::Started }),
    {
        LastSeenTransaction { transaction_number, state: TransactionState::Started }
    }

    /// Notes what the transaction has come to.
    pub fn set_state(&mut self, state: TransactionState)
        ensures
            *final(self) == (LastSeenTransaction { state, ..*old(self) }),
    {
        self.state = state;
    }
}

/// An open transaction with the clock reading at which it was filed.
pub type TransactionEntry = (u128, Transaction);

/// An entry that was filed at `filed` is kept at `now`: it is younger than `expiration`.
pub open spec fn is_live(filed: u128, now: u128, expiration: u128) -> bool {
    clock::span(filed, now) < expiration
}

/// Decides whether `entry` stays in the store at `now`. When it does not, what
/// is left of it to abort is taken out and noted in `abandoned`.
pub(crate) fn retain_entry(
    key: &Vec<u8>,
    entry: &mut TransactionEntry,
    now: u128,
    expiration: u128,
    abandoned: &mut Vec<(Vec<u8>, PgTransaction)>,
) -> (keep: bool)
    ensures
        keep == is_live(old(entry).0, now, expiration),
        keep ==> *final(entry) == *old(entry) && final(abandoned)@ == old(abandoned)@,
        !keep ==> match old(entry).1@.uncommitted() {
            Some(inner) => {
                &&& final(abandoned)@.len() == old(abandoned)@.len() + 1
                &&& final(abandoned)@.drop_last() == old(abandoned)@
                &&& final(abandoned)@.last().0@ == key@
                &&& final(abandoned)@.last().1 == inner
            },
            None => final(abandoned)@ == old(abandoned)@,
        },
{
    if nanos_between(entry.0, now) < expiration {
        return true;
    }
    match entry.1.release() {
        Some(inner) => {
            let session = key.clone();
            assert(session@ =~= key@);
            abandoned.push((session, inner));
            assert(abandoned@.drop_last() =~= old(abandoned)@);
        },
        None => {},
    }
    false
}

/// What has happened since `TransactionStore::create` last decided.
pub enum CreateEvent<E> {
    /// The request has come in.
    Requested,
    /// The previous transaction of the session was aborted, or could not be.
    PreviousAborted(Result<(), E>),
    /// A connection for the transaction was taken from the pool, or could not be.
    ConnectionPulled(Result<Arc<Connection>, E>),
    /// The backend started the transaction, or did not.
    TransactionStarted(Result<StartedTransaction, E>),
}

/// What `TransactionStore::create` wants done next. A backend transaction that a
/// final action carries was dropped on the way and is left to abort.
pub enum CreateAction<E> {
    /// Abort this transaction, the previous one of the session, and report.
    AbortPrevious(Transaction),
    /// Take a connection that can hold a transaction from the pool, and report.
    PullConnection,
    /// Start a transaction at this isolation level on this connection, and report.
    StartTransaction(Arc<Connection>, IsolationLevel),
    /// The new transaction is open: the request may go on.
    Created(Option<PgTransaction>),
    /// The request continues the open transaction of its session.
    Joined,
    /// The request fails.
    Fail(Failure<E>, Option<PgTransaction>),
}

/// The contents of a `CreateAction`.
pub enum CreateActionView<E> {
    AbortPrevious(TransactionView),
    PullConnection,
    StartTransaction(Arc<Connection>, IsolationLevel),
    Created(Option<PgTransaction>),
    Joined,
    Fail(Failure<E>, Option<PgTransaction>),
}

impl<E> View for CreateAction<E> {
    type V = CreateActionView<E>;

    open spec fn view(&self) -> CreateActionView<E> {
        match *self {
            CreateAction::AbortPrevious(transaction) => CreateActionView::AbortPrevious(
                transaction@,
            ),
            CreateAction::PullConnection => CreateActionView::PullConnection,
            CreateAction::StartTransaction(connection, level) => CreateActionView::StartTransaction(
                connection,
                level,
            ),
            CreateAction::Created(displaced) => CreateActionView::Created(displaced),
            CreateAction::Joined => CreateActionView::Joined,
            CreateAction::Fail(failure, dropped) => CreateActionView::Fail(failure, dropped),
        }
    }
}

/// What has happened since `TransactionStore::commit` or `TransactionStore::abort`
/// last decided.
pub enum SettleEvent<E> {
    /// The request has come in.
    Requested,
    /// The backend has committed or aborted the transaction, or could not.
    Settled(Result<(), E>),
}

/// The two ways of settling a transaction.
#[derive(Clone, Copy, Debug, PartialEq, Eq, Structural)]
pub enum SettleKind {
    Commit,
    Abort,
}

impl SettleKind {
    /// What a transaction comes to that is settled this way.
    pub open spec fn spec_state(self) -> TransactionState {
        match self {
            SettleKind::Commit => TransactionState::Committed,
            SettleKind::Abort => TransactionState::Aborted,
        }
    }

    /// The error when there is no transaction to settle this way.
    pub open spec fn spec_missing(self) -> DocumentDBError {
        match self {
            SettleKind::Commit => DocumentDBError::NothingToCommit,
            SettleKind::Abort => DocumentDBError::NothingToAbort,
        }
    }

    /// What a transaction comes to that is settled this way.
    fn state(self) -> (state: TransactionState)
        ensures
            state == self.spec_state(),
    {
        match self {
            SettleKind::Commit => TransactionState::Committed,
            SettleKind::Abort => TransactionState::Aborted,
        }
    }

    /// The error when there is no transaction to settle this way.
    fn missing(self) -> (error: DocumentDBError)
        ensures
            error == self.spec_missing(),
    {
        match self {
            SettleKind::Commit => DocumentDBError::NothingToCommit,
            SettleKind::Abort => DocumentDBError::NothingToAbort,
        }
    }
}

/// What `TransactionStore::commit` or `TransactionStore::abort` wants done next.
pub enum SettleAction<E> {
    /// Commit this transaction, which has left the store, and report.
    Commit(Transaction),
    /// Abort this transaction, which has left the store, and report.
    Abort(Transaction),
    /// The transaction is settled.
    Done,
    /// The request fails.
    Fail(Failure<E>),
}

/// The contents of a `SettleAction`.
pub enum SettleActionView<E> {
    Commit(TransactionView),
    Abort(TransactionView),
    Done,
    Fail(Failure<E>),
}

impl<E> View for SettleAction<E> {
    type V = SettleActionView<E>;

    open spec fn view(&self) -> SettleActionView<E> {
        match *self {
            SettleAction::Commit(transaction) => SettleActionView::Commit(transaction@),
            SettleAction::Abort(transaction) => SettleActionView::Abort(transaction@),
            SettleAction::Done => SettleActionView::Done,
            SettleAction::Fail(failure) => SettleActionView::Fail(failure),
        }
    }
}

/// The contents of a `TransactionStore`: the open transactions with the time at
/// which each was filed, the transaction last started in each session, and the
/// age in nanoseconds at which an open transaction expires.
#[verifier::ext_equal]
pub struct StoreView {
    pub open: OpenMap,
    pub seen: SeenMap,
    pub expiration: u128,
}

/// The refusal of a transaction number that was the last one started in its
/// session and has come to `state`.
pub open spec fn conflict(state: TransactionState, number: i64) -> DocumentDBError {
    match state {
        TransactionState::Committed => DocumentDBError::AlreadyCommitted(number),
        TransactionState::Aborted => DocumentDBError::AlreadyAborted(number),
        TransactionState::Started => DocumentDBError::AlreadyStarted(number),
    }
}

impl StoreView {
    /// Every open transaction is filed under its own session, has its backend
    /// transaction, and is the one that was last started there.
    pub open spec fn wf(self) -> bool {
        forall|session: Seq<u8>| #[trigger]
            self.open.contains_key(session) ==> {
                &&& self.open[session].1.session_id == session
                &&& self.open[session].1.transaction is Some
                &&& self.seen.contains_key(session)
                &&& self.seen[session].transaction_number
                    == self.open[session].1.transaction_number
            }
    }

    /// The connection of the transaction that is open in `session`.
    pub open spec fn connection(self, session: Seq<u8>) -> Option<Arc<Connection>> {
        match self.open.get(session) {
            Some((_, transaction)) => transaction.connection(),
            None => None,
        }
    }

    /// The cursors of the transaction that is open in `session`.
    pub open spec fn cursors(self, session: Seq<u8>) -> Option<CursorStore> {
        match self.open.get(session) {
            Some((_, transaction)) => Some(transaction.cursors),
            None => None,
        }
    }

    /// The transaction last started in `session` has the number `number`.
    pub open spec fn last_started(self, session: Seq<u8>, number: i64) -> bool {
        self.seen.contains_key(session) && self.seen[session].transaction_number == number
    }

    /// A request to open transaction `number` gets past the checks, and with that
    /// evicts what is open in its session.
    pub open spec fn evicts(
        self,
        last_number: Option<i64>,
        info: RequestTransactionInfo,
        session: Seq<u8>,
    ) -> bool {
        &&& !(last_number matches Some(last) && last > info.transaction_number)
        &&& info.opens_transaction()
        &&& !self.last_started(session, info.transaction_number)
    }

    /// The decision on a request that opens transaction `number`.
    pub open spec fn on_open<E>(self, number: i64, session: Seq<u8>) -> CreateActionView<E> {
        if self.last_started(session, number) {
            CreateActionView::Fail(
                Failure::Gateway(conflict(self.seen[session].state, number)),
                None,
            )
        } else {
            match self.open.get(session) {
                None => CreateActionView::PullConnection,
                Some((_, previous)) => if previous.transaction_number == number {
                    CreateActionView::Fail(
                        Failure::Gateway(DocumentDBError::AlreadyOpen),
                        previous.uncommitted(),
                    )
                } else if previous.transaction is None {
                    CreateActionView::Fail(Failure::Gateway(DocumentDBError::NothingToSettle), None)
                } else {
                    CreateActionView::AbortPrevious(previous)
                },
            }
        }
    }

    /// The decision on a request that continues transaction `number`.
    pub open spec fn on_continue<E>(self, number: i64, session: Seq<u8>) -> CreateActionView<E> {
        match self.open.get(session) {
            Some((_, current)) => if current.transaction_number == number {
                CreateActionView::Joined
            } else {
                CreateActionView::Fail(
                    Failure::Gateway(DocumentDBError::CannotContinue(number)),
                    None,
                )
            },
            None => if self.last_started(session, number) && self.seen[session].state
                == TransactionState::Committed {
                CreateActionView::Fail(
                    Failure::Gateway(DocumentDBError::ContinuesCommitted(number)),
                    None,
                )
            } else {
                CreateActionView::Fail(
                    Failure::Gateway(DocumentDBError::CannotContinue(number)),
                    None,
                )
            },
        }
    }

    /// What `create` answers to `event`.
    pub open spec fn create_action<E>(
        self,
        last_number: Option<i64>,
        info: RequestTransactionInfo,
        session: Seq<u8>,
        event: CreateEvent<E>,
    ) -> CreateActionView<E> {
        let number = info.transaction_number;
        match event {
            CreateEvent::Requested => if last_number matches Some(last) && last > number {
                CreateActionView::Fail(Failure::Gateway(DocumentDBError::NumberTooLow), None)
            } else if info.opens_transaction() {
                self.on_open(number, session)
            } else {
                self.on_continue(number, session)
            },
            CreateEvent::PreviousAborted(Ok(_)) => CreateActionView::PullConnection,
            CreateEvent::ConnectionPulled(Ok(connection)) => CreateActionView::StartTransaction(
                connection,
                info.effective_isolation(),
            ),
            CreateEvent::TransactionStarted(Ok(_)) => CreateActionView::Created(
                match self.open.get(session) {
                    Some((_, displaced)) => displaced.uncommitted(),
                    None => None,
                },
            ),
            CreateEvent::PreviousAborted(Err(error))
            | CreateEvent::ConnectionPulled(Err(error))
            | CreateEvent::TransactionStarted(Err(error)) => CreateActionView::Fail(
                Failure::Service(error),
                None,
            ),
        }
    }

    /// The store after `create` has answered `event` at `now`.
    pub open spec fn create_state<E>(
        self,
        last_number: Option<i64>,
        info: RequestTransactionInfo,
        session: Seq<u8>,
        event: CreateEvent<E>,
        now: u128,
    ) -> StoreView {
        match event {
            CreateEvent::Requested => if self.evicts(last_number, info, session) {
                StoreView { open: self.open.remove(session), ..self }
            } else {
                self
            },
            CreateEvent::TransactionStarted(Ok(started)) => self.opened(
                info,
                session,
                started,
                now,
            ),
            _ => self,
        }
    }

    /// The store with the transaction that `info` asks for open in `session`.
    pub open spec fn opened(
        self,
        info: RequestTransactionInfo,
        session: Seq<u8>,
        started: StartedTransaction,
        now: u128,
    ) -> StoreView {
        let transaction = TransactionView {
            session_id: session,
            transaction_number: info.transaction_number,
            cursors: started.cursors,
            transaction: Some(started.transaction),
        };
        let seen = LastSeenTransaction {
            transaction_number: info.transaction_number,
            state: TransactionState::Started,
        };
        StoreView {
            open: self.open.insert(session, (now, transaction)),
            seen: self.seen.insert(session, seen),
            ..self
        }
    }

    /// What a settlement of the transaction open in `session` answers to `event`: a
    /// commit asks for a commit, and an abort for an abort.
    pub open spec fn settle_action<E>(
        self,
        session: Seq<u8>,
        event: SettleEvent<E>,
        kind: SettleKind,
    ) -> SettleActionView<E> {
        match event {
            SettleEvent::Requested => match self.open.get(session) {
                None => SettleActionView::Fail(Failure::Gateway(kind.spec_missing())),
                Some((_, transaction)) => if transaction.transaction is None {
                    SettleActionView::Fail(Failure::Gateway(DocumentDBError::NothingToSettle))
                } else {
                    match kind {
                        SettleKind::Commit => SettleActionView::Commit(transaction),
                        SettleKind::Abort => SettleActionView::Abort(transaction),
                    }
                },
            },
            SettleEvent::Settled(Err(error)) => SettleActionView::Fail(Failure::Service(error)),
            SettleEvent::Settled(Ok(_)) => if self.seen.contains_key(session) {
                SettleActionView::Done
            } else {
                SettleActionView::Fail(Failure::Gateway(DocumentDBError::NoRecord))
            },
        }
    }

    /// The store after a settlement has answered `event`.
    pub open spec fn settle_state<E>(
        self,
        session: Seq<u8>,
        event: SettleEvent<E>,
        kind: SettleKind,
    ) -> StoreView {
        match event {
            SettleEvent::Requested => StoreView { open: self.open.remove(session), ..self },
            SettleEvent::Settled(Err(_)) => self,
            SettleEvent::Settled(Ok(_)) => StoreView {
                seen: session_maps::with_state(self.seen, session, kind.spec_state()),
                ..self
            },
        }
    }

    /// The store after the expired transactions have been dropped at `now`.
    pub open spec fn reaped(self, now: u128) -> StoreView {
        StoreView { open: session_maps::live_entries(self.open, now, self.expiration), ..self }
    }
}

/// The open transactions of all sessions, at most one in each.
pub struct TransactionStore {
    transactions: DashMap<Vec<u8>, TransactionEntry>,
    last_seen_transactions: DashMap<Vec<u8>, LastSeenTransaction>,
    clock: Clock,
    expiration: u128,
}

impl View for TransactionStore {
    type V = StoreView;

    closed spec fn view(&self) -> StoreView {
        StoreView {
            open: session_maps::open_contents(self.transactions),
            seen: session_maps::seen_contents(self.last_seen_transactions),
            expiration: self.expiration,
        }
    }
}

impl TransactionStore {
    /// The latest reading of the store's own clock.
    pub closed spec fn clock_reading(&self) -> u128 {
        self.clock.latest()
    }

    /// An empty store, in which an open transaction expires at the age of
    /// `expiration` nanoseconds.
    pub fn new(expiration: u128) -> (store: Self)
        ensures
            store@ == (StoreView { open: OpenMap::empty(), seen: SeenMap::empty(), expiration }),
            store@.wf(),
            store.clock_reading() == 0,
    {
        TransactionStore {
            transactions: open_new(),
            last_seen_transactions: seen_new(),
            clock: Clock::start(),
            expiration,
        }
    }

    /// The nanoseconds between two sweeps for expired transactions.
    pub fn reaper_period(&self) -> (nanos: u128)
        ensures
            nanos == self@.expiration / 2,
    {
        self.expiration / 2
    }

    /// Drops the transactions that have expired by now, as the store's clock is
    /// read for it, and returns what is left of them to abort.
    pub fn reap(&mut self) -> (abandoned: Vec<(Vec<u8>, PgTransaction)>)
        ensures
            old(self)@.wf() ==> final(self)@.wf(),
            old(self).clock_reading() <= final(self).clock_reading() < NANOS_LIMIT,
            final(self)@ == old(self)@.reaped(final(self).clock_reading()),
            session_maps::are_abandoned(
                abandoned@,
                old(self)@.open,
                final(self).clock_reading(),
                old(self)@.expiration,
            ),
    {
        let now: u128 = self.clock.now();
        self.reap_at(now)
    }

    /// Drops the transactions that have expired at `now`, and returns what is
    /// left of them to abort.
    pub fn reap_at(&mut self, now: u128) -> (abandoned: Vec<(Vec<u8>, PgTransaction)>)
        ensures
            final(self)@ == old(self)@.reaped(now),
            session_maps::are_abandoned(abandoned@, old(self)@.open, now, old(self)@.expiration),
            old(self)@.wf() ==> final(self)@.wf(),
            final(self).clock_reading() == old(self).clock_reading(),
    {
        open_retain_live(&mut self.transactions, now, self.expiration)
    }

    /// The connection of the transaction that is open in the session.
    pub fn get_connection(&self, session_id: &[u8]) -> (connection: Option<Arc<Connection>>)
        ensures
            connection == self@.connection(session_id@),
    {
        match open_get(&self.transactions, session_id) {
            Some((_, transaction)) => transaction.get_connection(),
            None => None,
        }
    }

    /// The cursors of the transaction that is open in the session.
    pub fn get_cursors(&self, session_id: &[u8]) -> (cursors: Option<CursorStore>)
        ensures
            cursors == self@.cursors(session_id@),
    {
        match open_get(&self.transactions, session_id) {
            Some((_, transaction)) => Some(transaction.cursors),
            None => None,
        }
    }

    /// Finds or opens the transaction that a request belongs to, one exchange
    /// with the backend at a time. `last_number` is the number of the transaction
    /// that the request's connection was last in.
    pub fn create<E>(
        &mut self,
        last_number: Option<i64>,
        transaction_info: &RequestTransactionInfo,
        session_id: &Vec<u8>,
        event: CreateEvent<E>,
    ) -> (action: CreateAction<E>)
        ensures
            action@ == old(self)@.create_action(last_number, *transaction_info, session_id@, event),
            old(self).clock_reading() <= final(self).clock_reading() < NANOS_LIMIT,
            final(self)@ == old(self)@.create_state(
                last_number,
                *transaction_info,
                session_id@,
                event,
                final(self).clock_reading(),
            ),
            old(self)@.wf() ==> final(self)@.wf(),
    {
        let now: u128 = self.clock.now();
        self.create_at(last_number, transaction_info, session_id, event, now)
    }

    /// `create` at the clock reading `now`.
    pub fn create_at<E>(
        &mut self,
        last_number: Option<i64>,
        transaction_info: &RequestTransactionInfo,
        session_id: &Vec<u8>,
        event: CreateEvent<E>,
        now: u128,
    ) -> (action: CreateAction<E>)
        ensures
            action@ == old(self)@.create_action(last_number, *transaction_info, session_id@, event),
            final(self)@ == old(self)@.create_state(
                last_number,
                *transaction_info,
                session_id@,
                event,
                now,
            ),
            old(self)@.wf() ==> final(self)@.wf(),
            final(self).clock_reading() == old(self).clock_reading(),
    {
        let number: i64 = transaction_info.transaction_number;
        match event {
            CreateEvent::Requested => {
                if let Some(last) = last_number {
                    if last > number {
                        return CreateAction::Fail(
                            Failure::Gateway(DocumentDBError::NumberTooLow),
                            None,
                        );
                    }
                }
                if transaction_info.start_transaction && !transaction_info.auto_commit {
                    self.evict_for(number, session_id)
                } else {
                    self.join(number, session_id)
                }
            },
            CreateEvent::PreviousAborted(Ok(_)) => CreateAction::PullConnection,
            CreateEvent::ConnectionPulled(Ok(connection)) => {
                let level = match transaction_info.isolation_level {
                    Some(level) => level,
                    None => IsolationLevel::ReadCommitted,
                };
                CreateAction::StartTransaction(connection, level)
            },
            CreateEvent::TransactionStarted(Ok(started)) => {
                let displaced = self.file(transaction_info, session_id, started, now);
                CreateAction::Created(displaced)
            },
            CreateEvent::PreviousAborted(Err(error))
            | CreateEvent::ConnectionPulled(Err(error))
            | CreateEvent::TransactionStarted(Err(error)) => CreateAction::Fail(
                Failure::Service(error),
                None,
            ),
        }
    }

    /// Clears the way for a new transaction `number` in the session, or refuses it.
    fn evict_for<E>(&mut self, number: i64, session_id: &Vec<u8>) -> (action: CreateAction<E>)
        ensures
            action@ == old(self)@.on_open::<E>(number, session_id@),
            final(self)@ == if old(self)@.last_started(session_id@, number) {
                old(self)@
            } else {
                StoreView { open: old(self)@.open.remove(session_id@), ..old(self)@ }
            },
            final(self).clock_reading() == old(self).clock_reading(),
    {
        let seen = seen_get(&self.last_seen_transactions, session_id.as_slice());
        if let Some(last) = seen {
            if last.transaction_number == number {
                let error = match last.state {
                    TransactionState::Committed => DocumentDBError::AlreadyCommitted(number),
                    TransactionState::Aborted => DocumentDBError::AlreadyAborted(number),
                    TransactionState::Started => DocumentDBError::AlreadyStarted(number),
                };
                return CreateAction::Fail(Failure::Gateway(error), None);
            }
        }
        match open_remove(&mut self.transactions, session_id.as_slice()) {
            None => CreateAction::PullConnection,
            Some((_, mut previous)) => {
                if previous.transaction_number() == number {
                    let dropped = previous.release();
                    return CreateAction::Fail(
                        Failure::Gateway(DocumentDBError::AlreadyOpen),
                        dropped,
                    );
                }
                match previous.abort() {
                    Ok(_) => CreateAction::AbortPrevious(previous),
                    Err(error) => CreateAction::Fail(Failure::Gateway(error), None),
                }
            },
        }
    }

    /// Joins the open transaction of the session if it is transaction `number`.
    fn join<E>(&self, number: i64, session_id: &Vec<u8>) -> (action: CreateAction<E>)
        ensures
            action@ == self@.on_continue::<E>(number, session_id@),
    {
        if let Some((_, current)) = open_get(&self.transactions, session_id.as_slice()) {
            return if current.transaction_number() == number {
                CreateAction::Joined
            } else {
                CreateAction::Fail(Failure::Gateway(DocumentDBError::CannotContinue(number)), None)
            };
        }
        let committed = match seen_get(&self.last_seen_transactions, session_id.as_slice()) {
            Some(last) => last.transaction_number == number && last.state
                == TransactionState::Committed,
            None => false,
        };
        if committed {
            CreateAction::Fail(Failure::Gateway(DocumentDBError::ContinuesCommitted(number)), None)
        } else {
            CreateAction::Fail(Failure::Gateway(DocumentDBError::CannotContinue(number)), None)
        }
    }

    /// Files the transaction that the backend has started, and returns what is
    /// left to abort of one that took its place in the meantime.
    fn file(
        &mut self,
        transaction_info: &RequestTransactionInfo,
        session_id: &Vec<u8>,
        started: StartedTransaction,
        now: u128,
    ) -> (displaced: Option<PgTransaction>)
        ensures
            final(self)@ == old(self)@.opened(*transaction_info, session_id@, started, now),
            displaced == (match old(self)@.open.get(session_id@) {
                Some((_, transaction)) => transaction.uncommitted(),
                None => None,
            }),
            final(self).clock_reading() == old(self).clock_reading(),
    {
        let owner = session_id.clone();
        let seen_key = session_id.clone();
        let open_key = session_id.clone();
        assert(owner@ =~= session_id@ && seen_key@ =~= session_id@ && open_key@ =~= session_id@);
        let transaction = Transaction::start(transaction_info, started, owner);
        seen_insert(
            &mut self.last_seen_transactions,
            seen_key,
            LastSeenTransaction::new(transaction.transaction_number()),
        );
        match open_insert(&mut self.transactions, open_key, (now, transaction)) {
            Some((_, mut displaced)) => displaced.release(),
            None => None,
        }
    }

    /// Aborts the transaction that is open in the session.
    pub fn abort<E>(&mut self, session_id: &[u8], event: SettleEvent<E>) -> (action: SettleAction<E>)
        ensures
            action@ == old(self)@.settle_action(session_id@, event, SettleKind::Abort),
            final(self)@ == old(self)@.settle_state(session_id@, event, SettleKind::Abort),
            old(self)@.wf() ==> final(self)@.wf(),
            final(self).clock_reading() == old(self).clock_reading(),
    {
        self.settle(session_id, event, SettleKind::Abort)
    }

    /// Commits the transaction that is open in the session.
    pub fn commit<E>(&mut self, session_id: &[u8], event: SettleEvent<E>) -> (action: SettleAction<
        E,
    >)
        ensures
            action@ == old(self)@.settle_action(session_id@, event, SettleKind::Commit),
            final(self)@ == old(self)@.settle_state(session_id@, event, SettleKind::Commit),
            old(self)@.wf() ==> final(self)@.wf(),
            final(self).clock_reading() == old(self).clock_reading(),
    {
        self.settle(session_id, event, SettleKind::Commit)
    }

    /// What committing and aborting have in common.
    fn settle<E>(
        &mut self,
        session_id: &[u8],
        event: SettleEvent<E>,
        kind: SettleKind,
    ) -> (action: SettleAction<E>)
        ensures
            action@ == old(self)@.settle_action(session_id@, event, kind),
            final(self)@ == old(self)@.settle_state(session_id@, event, kind),
            old(self)@.wf() ==> final(self)@.wf(),
            final(self).clock_reading() == old(self).clock_reading(),
    {
        match event {
            SettleEvent::Requested => match open_remove(&mut self.transactions, session_id) {
                Some((_, transaction)) => {
                    let settlement = match kind {
                        SettleKind::Commit => transaction.commit(),
                        SettleKind::Abort => transaction.abort(),
                    };
                    match settlement {
                        Ok(Settlement::Commit(_)) => SettleAction::Commit(transaction),
                        Ok(Settlement::Abort(_)) => SettleAction::Abort(transaction),
                        Err(error) => SettleAction::Fail(Failure::Gateway(error)),
                    }
                },
                None => SettleAction::Fail(Failure::Gateway(kind.missing())),
            },
            SettleEvent::Settled(Err(error)) => SettleAction::Fail(Failure::Service(error)),
            SettleEvent::Settled(Ok(_)) => {
                if seen_set_state(&mut self.last_seen_transactions, session_id, kind.state()) {
                    SettleAction::Done
                } else {
                    SettleAction::Fail(Failure::Gateway(DocumentDBError::NoRecord))
                }
            },
        }
    }
}

} // verus!
