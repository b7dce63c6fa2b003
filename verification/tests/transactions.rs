use std::sync::Arc;

use pg_documentdb_gw::context::transaction::{
    Connection, CreateAction, CreateEvent, CursorStore, IsolationLevel, LastSeenTransaction,
    PgTransaction, RequestTransactionInfo, SettleAction, SettleEvent, Settlement,
    StartedTransaction, Transaction, TransactionState, TransactionStore,
};
use pg_documentdb_gw::error::{DocumentDBError, ErrorCode, ErrorKind, Failure};

type Action = CreateAction<&'static str>;

fn opening(number: i64) -> RequestTransactionInfo {
    RequestTransactionInfo {
        transaction_number: number,
        auto_commit: false,
        start_transaction: true,
        is_request_within_transaction: true,
        isolation_level: None,
    }
}

fn continuing(number: i64) -> RequestTransactionInfo {
    RequestTransactionInfo { start_transaction: false, ..opening(number) }
}

/// A backend transaction on connection `id`, with cursors `id + 100`.
fn backend(id: u64) -> StartedTransaction {
    StartedTransaction {
        transaction: PgTransaction { connection: Arc::new(Connection { id }), committed: false },
        cursors: CursorStore { id: id + 100 },
    }
}

fn session(name: &str) -> Vec<u8> {
    name.as_bytes().to_vec()
}

fn request(
    store: &mut TransactionStore,
    last: Option<i64>,
    info: &RequestTransactionInfo,
    name: &str,
) -> Action {
    store.create(last, info, &session(name), CreateEvent::Requested)
}

fn refusal(action: Action) -> DocumentDBError {
    match action {
        CreateAction::Fail(Failure::Gateway(error), _) => error,
        _ => panic!("not refused"),
    }
}

/// Opens transaction `number` on connection `id`.
fn open(store: &mut TransactionStore, name: &str, number: i64, id: u64) {
    let info = opening(number);
    assert!(matches!(request(store, None, &info, name), CreateAction::PullConnection));
    let pulled: Action = store.create(
        None,
        &info,
        &session(name),
        CreateEvent::ConnectionPulled(Ok(Arc::new(Connection { id }))),
    );
    match pulled {
        CreateAction::StartTransaction(connection, level) => {
            assert_eq!(connection.id, id);
            assert_eq!(level, IsolationLevel::ReadCommitted);
        }
        _ => panic!("not started"),
    }
    let started: Action = store.create(
        None,
        &info,
        &session(name),
        CreateEvent::TransactionStarted(Ok(backend(id))),
    );
    assert!(matches!(started, CreateAction::Created(None)));
}

fn settled(action: SettleAction<&'static str>) -> bool {
    matches!(action, SettleAction::Done)
}

#[test]
fn a_new_transaction_can_be_joined_and_found() {
    let mut store = TransactionStore::new(1_000_000_000_000);
    assert!(store.get_connection(b"s").is_none());
    open(&mut store, "s", 7, 41);
    assert_eq!(store.get_connection(b"s").unwrap().id, 41);
    assert_eq!(store.get_cursors(b"s"), Some(CursorStore { id: 141 }));
    assert!(store.get_connection(b"t").is_none());
    assert!(store.get_cursors(b"t").is_none());
    assert!(matches!(request(&mut store, Some(7), &continuing(7), "s"), CreateAction::Joined));
    let error = refusal(request(&mut store, None, &continuing(8), "s"));
    assert_eq!(error, DocumentDBError::CannotContinue(8));
    assert_eq!(error.message(), "Cannot continue transaction 8");
    assert_eq!(error.kind(), ErrorKind::DocumentDB(ErrorCode::NoSuchTransaction));
}

#[test]
fn a_requested_isolation_level_is_kept() {
    let mut store = TransactionStore::new(1);
    let info = RequestTransactionInfo {
        isolation_level: Some(IsolationLevel::Serializable),
        ..opening(1)
    };
    let action: Action = store.create(
        None,
        &info,
        &session("s"),
        CreateEvent::ConnectionPulled(Ok(Arc::new(Connection { id: 3 }))),
    );
    assert!(matches!(action, CreateAction::StartTransaction(_, IsolationLevel::Serializable)));
}

#[test]
fn a_lower_number_is_refused() {
    let mut store = TransactionStore::new(1_000_000_000_000);
    let error = refusal(request(&mut store, Some(9), &opening(8), "s"));
    assert_eq!(error.kind(), ErrorKind::DocumentDB(ErrorCode::TransactionTooOld));
    assert_eq!(error.message(), "Transaction number is lower than last seen transaction");
    assert!(matches!(
        request(&mut store, Some(8), &opening(8), "s"),
        CreateAction::PullConnection
    ));
}

#[test]
fn a_number_starts_once() {
    let mut store = TransactionStore::new(1_000_000_000_000);
    open(&mut store, "s", 5, 1);
    let error = refusal(request(&mut store, None, &opening(5), "s"));
    assert_eq!(error.message(), "Transaction 5 is already started.");
    assert_eq!(error.kind(), ErrorKind::DocumentDB(ErrorCode::ConflictingOperationInProgress));
    assert!(store.get_connection(b"s").is_some());

    match store.commit::<&'static str>(b"s", SettleEvent::Requested) {
        SettleAction::Commit(transaction) => {
            assert_eq!(transaction.get_session_id(), b"s");
            assert_eq!(transaction.transaction_number(), 5);
            assert!(matches!(transaction.commit(), Ok(Settlement::Commit(target)) if target.id == 1));
            assert!(matches!(transaction.abort(), Ok(Settlement::Abort(target)) if target.id == 1));
        }
        _ => panic!("nothing to commit"),
    }
    assert!(settled(store.commit(b"s", SettleEvent::Settled(Ok(())))));
    let error = refusal(request(&mut store, None, &opening(5), "s"));
    assert_eq!(error.message(), "Transaction 5 is already committed.");
    let error = refusal(request(&mut store, None, &continuing(5), "s"));
    assert_eq!(error.message(), "Transaction 5 already committed");
    assert_eq!(error.kind(), ErrorKind::DocumentDB(ErrorCode::TransactionCommitted));

    open(&mut store, "s", 6, 2);
    match store.abort::<&'static str>(b"s", SettleEvent::Requested) {
        SettleAction::Abort(transaction) => {
            assert!(matches!(transaction.abort(), Ok(Settlement::Abort(target)) if target.id == 2));
        }
        _ => panic!("nothing to abort"),
    }
    assert!(settled(store.abort(b"s", SettleEvent::Settled(Ok(())))));
    let error = refusal(request(&mut store, None, &opening(6), "s"));
    assert_eq!(error.message(), "Transaction 6 is already aborted.");
    let error = refusal(request(&mut store, None, &continuing(6), "s"));
    assert_eq!(error, DocumentDBError::CannotContinue(6));
}

#[test]
fn a_new_number_evicts_the_open_transaction() {
    let mut store = TransactionStore::new(1_000_000_000_000);
    open(&mut store, "s", 5, 1);
    match request(&mut store, None, &opening(6), "s") {
        CreateAction::AbortPrevious(previous) => {
            assert_eq!(previous.transaction_number(), 5);
            assert_eq!(previous.get_connection().unwrap().id, 1);
        }
        _ => panic!("nothing to evict"),
    }
    assert!(store.get_connection(b"s").is_none());
    let next: Action =
        store.create(None, &opening(6), &session("s"), CreateEvent::PreviousAborted(Ok(())));
    assert!(matches!(next, CreateAction::PullConnection));
}

#[test]
fn service_errors_are_passed_on() {
    let mut store = TransactionStore::new(1);
    let info = opening(1);
    let name = session("s");
    let events = vec![
        CreateEvent::PreviousAborted(Err("abort")),
        CreateEvent::ConnectionPulled(Err("pull")),
        CreateEvent::TransactionStarted(Err("start")),
    ];
    let mut seen = Vec::new();
    for event in events {
        match store.create(None, &info, &name, event) {
            CreateAction::Fail(Failure::Service(error), None) => seen.push(error),
            _ => panic!("not passed on"),
        }
    }
    assert_eq!(seen, vec!["abort", "pull", "start"]);
    match store.commit(b"s", SettleEvent::Settled(Err("commit"))) {
        SettleAction::Fail(Failure::Service(error)) => assert_eq!(error, "commit"),
        _ => panic!("not passed on"),
    }
}

#[test]
fn settling_without_a_transaction_fails() {
    let mut store = TransactionStore::new(1);
    match store.abort::<&'static str>(b"s", SettleEvent::Requested) {
        SettleAction::Fail(Failure::Gateway(error)) => {
            assert_eq!(error.message(), "No such transaction to abort");
        }
        _ => panic!("settled"),
    }
    match store.commit::<&'static str>(b"s", SettleEvent::Requested) {
        SettleAction::Fail(Failure::Gateway(error)) => {
            assert_eq!(error.message(), "No such transaction to commit");
        }
        _ => panic!("settled"),
    }
    match store.commit::<&'static str>(b"s", SettleEvent::Settled(Ok(()))) {
        SettleAction::Fail(Failure::Gateway(error)) => {
            assert_eq!(
                error.message(),
                "Last seen transaction should always exist for an existing transaction"
            );
        }
        _ => panic!("settled"),
    }
}

#[test]
fn a_displaced_transaction_is_handed_over() {
    let mut store = TransactionStore::new(1_000_000_000_000);
    open(&mut store, "s", 5, 1);
    let started: Action = store.create(
        None,
        &opening(6),
        &session("s"),
        CreateEvent::TransactionStarted(Ok(backend(2))),
    );
    match started {
        CreateAction::Created(Some(displaced)) => assert_eq!(displaced.connection.id, 1),
        _ => panic!("nothing displaced"),
    }
    assert_eq!(store.get_connection(b"s").unwrap().id, 2);
}

#[test]
fn sessions_do_not_disturb_each_other() {
    let mut store = TransactionStore::new(1_000_000_000_000);
    open(&mut store, "a", 1, 10);
    open(&mut store, "b", 1, 20);
    assert!(matches!(
        store.abort::<&'static str>(b"a", SettleEvent::Requested),
        SettleAction::Abort(_)
    ));
    assert!(settled(store.abort(b"a", SettleEvent::Settled(Ok(())))));
    assert_eq!(store.get_connection(b"b").unwrap().id, 20);
    assert!(matches!(request(&mut store, None, &continuing(1), "b"), CreateAction::Joined));
}

#[test]
fn expired_transactions_are_swept() {
    let mut store = TransactionStore::new(100);
    assert_eq!(store.reaper_period(), 50);
    let info = opening(1);
    for (name, id, now) in [("a", 1, 1000), ("b", 2, 1050)] {
        let action: Action = store.create_at(
            None,
            &info,
            &session(name),
            CreateEvent::TransactionStarted(Ok(backend(id))),
            now,
        );
        assert!(matches!(action, CreateAction::Created(None)));
    }
    assert!(store.reap_at(1099).is_empty());
    assert!(store.get_connection(b"a").is_some());
    let abandoned = store.reap_at(1100);
    assert_eq!(abandoned.len(), 1);
    assert_eq!(abandoned[0].0, b"a".to_vec());
    assert_eq!(abandoned[0].1.connection.id, 1);
    assert!(store.get_connection(b"a").is_none());
    assert!(store.get_connection(b"b").is_some());
    assert_eq!(
        refusal(request(&mut store, None, &continuing(1), "a")),
        DocumentDBError::CannotContinue(1)
    );
    assert_eq!(
        refusal(request(&mut store, None, &opening(1), "a")),
        DocumentDBError::AlreadyStarted(1)
    );
}

#[test]
fn a_sweep_reads_the_clock() {
    let mut store = TransactionStore::new(0);
    open(&mut store, "s", 1, 1);
    assert_eq!(store.reap().len(), 1);
    assert!(store.get_connection(b"s").is_none());
    let mut patient = TransactionStore::new(1_000_000_000_000_000);
    open(&mut patient, "s", 1, 1);
    assert!(patient.reap().is_empty());
    assert!(patient.get_connection(b"s").is_some());
}

#[test]
fn a_committed_transaction_is_not_swept_into_an_abort() {
    let mut store = TransactionStore::new(10);
    let mut committed = backend(1);
    committed.transaction.committed = true;
    let action: Action = store.create_at(
        None,
        &opening(1),
        &session("s"),
        CreateEvent::TransactionStarted(Ok(committed)),
        0,
    );
    assert!(matches!(action, CreateAction::Created(None)));
    assert!(store.reap_at(10).is_empty());
    assert!(store.get_connection(b"s").is_none());
}

#[test]
fn a_backend_transaction_is_released_once() {
    let mut transaction = Transaction::start(&opening(3), backend(9), session("s"));
    assert_eq!(transaction.release().unwrap().connection.id, 9);
    assert!(transaction.release().is_none());
    assert!(transaction.get_connection().is_none());
    let error = transaction.abort().unwrap_err();
    assert_eq!(error.message(), "No transaction found to commit");
    assert_eq!(error.kind(), ErrorKind::DocumentDB(ErrorCode::NoSuchTransaction));
    assert_eq!(transaction.commit().unwrap_err(), error);

    let mut transaction = Transaction::start(&opening(3), backend(9), session("s"));
    transaction.set_committed(true);
    assert!(transaction.release().is_none());
    assert_eq!(transaction.get_connection().unwrap().id, 9);
    let copy = transaction.clone();
    assert_eq!(copy.get_session_id(), b"s");
    assert_eq!(copy.transaction_number(), 3);
    assert_eq!(copy.cursors, CursorStore { id: 109 });
}

#[test]
fn a_last_seen_transaction_begins_started() {
    let mut seen = LastSeenTransaction::new(-4);
    assert_eq!(seen.transaction_number, -4);
    assert_eq!(seen.state, TransactionState::Started);
    seen.set_state(TransactionState::Aborted);
    assert_eq!(seen.transaction_number, -4);
    assert_eq!(seen.state, TransactionState::Aborted);
}

#[test]
fn a_record_follows_the_transaction_opened_last() {
    let mut store = TransactionStore::new(1_000_000_000_000);
    open(&mut store, "s", 1, 1);
    assert!(matches!(
        store.commit::<&'static str>(b"s", SettleEvent::Requested),
        SettleAction::Commit(_)
    ));
    open(&mut store, "s", 2, 2);
    assert!(settled(store.commit(b"s", SettleEvent::Settled(Ok(())))));
    assert_eq!(
        refusal(request(&mut store, None, &opening(2), "s")),
        DocumentDBError::AlreadyCommitted(2)
    );
    assert!(matches!(request(&mut store, None, &continuing(2), "s"), CreateAction::Joined));
}

#[test]
fn a_settled_transaction_is_found_no_more() {
    let mut store = TransactionStore::new(1_000_000_000_000);
    open(&mut store, "s", 1, 1);
    match store.commit::<&'static str>(b"s", SettleEvent::Requested) {
        SettleAction::Commit(transaction) => {
            assert_eq!(transaction.get_connection().unwrap().id, 1);
        }
        _ => panic!("nothing to commit"),
    }
    assert!(store.get_connection(b"s").is_none());
    assert!(matches!(
        store.abort::<&'static str>(b"s", SettleEvent::Requested),
        SettleAction::Fail(Failure::Gateway(DocumentDBError::NothingToAbort))
    ));
    assert!(matches!(
        store.commit(b"s", SettleEvent::Settled(Err("lost"))),
        SettleAction::Fail(Failure::Service("lost"))
    ));
    assert_eq!(
        refusal(request(&mut store, None, &opening(1), "s")),
        DocumentDBError::AlreadyStarted(1)
    );
}

#[test]
fn an_open_transaction_outlasts_what_does_not_end_it() {
    let mut store = TransactionStore::new(1_000_000_000_000);
    open(&mut store, "s", 5, 41);
    open(&mut store, "t", 1, 42);
    assert_eq!(
        refusal(request(&mut store, None, &opening(5), "s")),
        DocumentDBError::AlreadyStarted(5)
    );
    assert_eq!(
        refusal(request(&mut store, Some(9), &opening(8), "s")),
        DocumentDBError::NumberTooLow
    );
    assert_eq!(
        refusal(request(&mut store, None, &continuing(6), "s")),
        DocumentDBError::CannotContinue(6)
    );
    assert!(matches!(
        store.commit::<&'static str>(b"t", SettleEvent::Requested),
        SettleAction::Commit(_)
    ));
    assert!(store.reap().is_empty());
    assert_eq!(store.get_connection(b"s").unwrap().id, 41);
    assert!(matches!(request(&mut store, None, &continuing(5), "s"), CreateAction::Joined));
    assert!(store.get_connection(b"t").is_none());
}
