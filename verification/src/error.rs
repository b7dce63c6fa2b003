//! The errors that the gateway itself raises, and how they travel beside the
//! errors of the services around it.

use vstd::prelude::*;

use crate::text::{self, with_number};

verus! {

/// The protocol error codes that the gateway answers with.
#[derive(Clone, Copy, Debug, PartialEq, Eq, Structural)]
pub enum ErrorCode {
    TransactionTooOld,
    ConflictingOperationInProgress,
    NoSuchTransaction,
    TransactionCommitted,
    ShutdownInProgress,
}

/// How an error is reported: under a protocol error code, as an internal error
/// of the gateway, or as a request to authenticate again.
#[derive(Clone, Copy, Debug, PartialEq, Eq, Structural)]
pub enum ErrorKind {
    DocumentDB(ErrorCode),
    Internal,
    ReauthenticationRequired,
}

/// Every condition under which the gateway itself refuses or gives up.
#[derive(Clone, Debug, PartialEq, Eq)]
pub enum DocumentDBError {
    /// The connection has already used a higher transaction number.
    NumberTooLow,
    /// A transaction of this number was started in the session and committed.
    AlreadyCommitted(i64),
    /// A transaction of this number was started in the session and aborted.
    AlreadyAborted(i64),
    /// A transaction of this number was started in the session.
    AlreadyStarted(i64),
    /// The session holds an open transaction of the requested number.
    AlreadyOpen,
    /// The session has no open transaction of this number to continue.
    CannotContinue(i64),
    /// The transaction that a request wants to continue has been committed.
    ContinuesCommitted(i64),
    /// The transaction has no backend transaction left to settle.
    NothingToSettle,
    /// The session has no open transaction to abort.
    NothingToAbort,
    /// The session has no open transaction to commit.
    NothingToCommit,
    /// The session had an open transaction and no record of having started it.
    NoRecord,
    /// The gateway is shutting down.
    ShutdownRequested,
    /// The peer closed the connection before it sent a first byte.
    ConnectionClosed,
    /// Peeking at the connection failed, with the rendered reason.
    ReadFailed(String),
    /// The peer did not send the first bytes in time.
    ReadTimedOut,
    /// The TLS handshake failed, with the rendered reason.
    HandshakeFailed(String),
    /// The token of an external identity is no longer valid.
    TokenExpired,
}

impl DocumentDBError {
    /// How each condition is reported.
    pub open spec fn spec_kind(self) -> ErrorKind {
        match self {
            DocumentDBError::NumberTooLow => ErrorKind::DocumentDB(ErrorCode::TransactionTooOld),
            DocumentDBError::AlreadyCommitted(_)
            | DocumentDBError::AlreadyAborted(_)
            | DocumentDBError::AlreadyStarted(_)
            | DocumentDBError::AlreadyOpen => ErrorKind::DocumentDB(
                ErrorCode::ConflictingOperationInProgress,
            ),
            DocumentDBError::CannotContinue(_)
            | DocumentDBError::NothingToSettle
            | DocumentDBError::NothingToAbort
            | DocumentDBError::NothingToCommit
            | DocumentDBError::NoRecord => ErrorKind::DocumentDB(ErrorCode::NoSuchTransaction),
            DocumentDBError::ContinuesCommitted(_) => ErrorKind::DocumentDB(
                ErrorCode::TransactionCommitted,
            ),
            DocumentDBError::ShutdownRequested => ErrorKind::DocumentDB(
                ErrorCode::ShutdownInProgress,
            ),
            DocumentDBError::ConnectionClosed
            | DocumentDBError::ReadFailed(_)
            | DocumentDBError::ReadTimedOut
            | DocumentDBError::HandshakeFailed(_) => ErrorKind::Internal,
            DocumentDBError::TokenExpired => ErrorKind::ReauthenticationRequired,
        }
    }

    /// The text of each condition.
    pub open spec fn spec_message(self) -> Seq<char> {
        match self {
            DocumentDBError::NumberTooLow => "Transaction number is lower than last seen transaction"@,
            DocumentDBError::AlreadyCommitted(n) => "Transaction "@ + text::decimal(n as int)
                + " is already committed."@,
            DocumentDBError::AlreadyAborted(n) => "Transaction "@ + text::decimal(n as int)
                + " is already aborted."@,
            DocumentDBError::AlreadyStarted(n) => "Transaction "@ + text::decimal(n as int)
                + " is already started."@,
            DocumentDBError::AlreadyOpen => "This transaction is already started."@,
            DocumentDBError::CannotContinue(n) => "Cannot continue transaction "@
                + text::decimal(n as int),
            DocumentDBError::ContinuesCommitted(n) => "Transaction "@ + text::decimal(
                n as int,
            ) + " already committed"@,
            DocumentDBError::NothingToSettle => "No transaction found to commit"@,
            DocumentDBError::NothingToAbort => "No such transaction to abort"@,
            DocumentDBError::NothingToCommit => "No such transaction to commit"@,
            DocumentDBError::NoRecord =>
                "Last seen transaction should always exist for an existing transaction"@,
            DocumentDBError::ShutdownRequested => "Graceful shutdown requested"@,
            DocumentDBError::ConnectionClosed => "Connection closed"@,
            DocumentDBError::ReadFailed(detail) => "Error reading from stream "@ + detail@,
            DocumentDBError::ReadTimedOut => "Timeout reading from stream"@,
            DocumentDBError::HandshakeFailed(detail) => "SSL handshake failed: "@ + detail@ + "."@,
            DocumentDBError::TokenExpired => "External identity token has expired."@,
        }
    }

    /// How this error is reported.
    pub fn kind(&self) -> (kind: ErrorKind)
        ensures
            kind == self.spec_kind(),
    {
        match self {
            DocumentDBError::NumberTooLow => ErrorKind::DocumentDB(ErrorCode::TransactionTooOld),
            DocumentDBError::AlreadyCommitted(_)
            | DocumentDBError::AlreadyAborted(_)
            | DocumentDBError::AlreadyStarted(_)
            | DocumentDBError::AlreadyOpen => ErrorKind::DocumentDB(
                ErrorCode::ConflictingOperationInProgress,
            ),
            DocumentDBError::CannotContinue(_)
            | DocumentDBError::NothingToSettle
            | DocumentDBError::NothingToAbort
            | DocumentDBError::NothingToCommit
            | DocumentDBError::NoRecord => ErrorKind::DocumentDB(ErrorCode::NoSuchTransaction),
            DocumentDBError::ContinuesCommitted(_) => ErrorKind::DocumentDB(
                ErrorCode::TransactionCommitted,
            ),
            DocumentDBError::ShutdownRequested => ErrorKind::DocumentDB(
                ErrorCode::ShutdownInProgress,
            ),
            DocumentDBError::ConnectionClosed
            | DocumentDBError::ReadFailed(_)
            | DocumentDBError::ReadTimedOut
            | DocumentDBError::HandshakeFailed(_) => ErrorKind::Internal,
            DocumentDBError::TokenExpired => ErrorKind::ReauthenticationRequired,
        }
    }

    /// The text of this error.
    pub fn message(&self) -> (text: String)
        ensures
            text@ == self.spec_message(),
    {
        match self {
            DocumentDBError::NumberTooLow => "Transaction number is lower than last seen transaction".to_string(),
            DocumentDBError::AlreadyCommitted(n) => with_number(
                "Transaction ",
                *n,
                " is already committed.",
            ),
            DocumentDBError::AlreadyAborted(n) => with_number(
                "Transaction ",
                *n,
                " is already aborted.",
            ),
            DocumentDBError::AlreadyStarted(n) => with_number(
                "Transaction ",
                *n,
                " is already started.",
            ),
            DocumentDBError::AlreadyOpen => "This transaction is already started.".to_string(),
            DocumentDBError::CannotContinue(n) => {
                proof {
                    reveal_strlit("");
                }
                let text = with_number("Cannot continue transaction ", *n, "");
                assert(text@ =~= self.spec_message());
                text
            },
            DocumentDBError::ContinuesCommitted(n) => with_number(
                "Transaction ",
                *n,
                " already committed",
            ),
            DocumentDBError::NothingToSettle => "No transaction found to commit".to_string(),
            DocumentDBError::NothingToAbort => "No such transaction to abort".to_string(),
            DocumentDBError::NothingToCommit => "No such transaction to commit".to_string(),
            DocumentDBError::NoRecord =>
                "Last seen transaction should always exist for an existing transaction".to_string(),
            DocumentDBError::ShutdownRequested => "Graceful shutdown requested".to_string(),
            DocumentDBError::ConnectionClosed => "Connection closed".to_string(),
            DocumentDBError::ReadFailed(detail) => "Error reading from stream ".to_string().concat(
                detail.as_str(),
            ),
            DocumentDBError::ReadTimedOut => "Timeout reading from stream".to_string(),
            DocumentDBError::HandshakeFailed(detail) => "SSL handshake failed: ".to_string().concat(
                detail.as_str(),
            ).concat("."),
            DocumentDBError::TokenExpired => "External identity token has expired.".to_string(),
        }
    }
}

/// Why an operation failed: the gateway refused it, or a service that it called
/// on returned an error of its own, which is passed on unchanged.
#[derive(Clone, Debug, PartialEq, Eq)]
pub enum Failure<E> {
    Gateway(DocumentDBError),
    Service(E),
}

/// What a client is told of a transaction that it may not open or continue, or that
/// is not there.
pub proof fn transaction_errors_say_what_is_wrong(n: i64)
    ensures
        DocumentDBError::NumberTooLow.spec_message()
            == "Transaction number is lower than last seen transaction"@,
        DocumentDBError::AlreadyCommitted(n).spec_message() == "Transaction "@ + text::decimal(
            n as int,
        ) + " is already committed."@,
        DocumentDBError::AlreadyAborted(n).spec_message() == "Transaction "@ + text::decimal(
            n as int,
        ) + " is already aborted."@,
        DocumentDBError::AlreadyStarted(n).spec_message() == "Transaction "@ + text::decimal(
            n as int,
        ) + " is already started."@,
        DocumentDBError::AlreadyOpen.spec_message() == "This transaction is already started."@,
        DocumentDBError::CannotContinue(n).spec_message() == "Cannot continue transaction "@
            + text::decimal(n as int),
        DocumentDBError::ContinuesCommitted(n).spec_message() == "Transaction "@ + text::decimal(
            n as int,
        ) + " already committed"@,
        DocumentDBError::NothingToSettle.spec_message() == "No transaction found to commit"@,
        DocumentDBError::NothingToAbort.spec_message() == "No such transaction to abort"@,
        DocumentDBError::NothingToCommit.spec_message() == "No such transaction to commit"@,
        DocumentDBError::NoRecord.spec_message()
            == "Last seen transaction should always exist for an existing transaction"@,
{
}

/// What is said of a connection that cannot be set up or served, with the reason
/// where there is one.
pub proof fn connection_errors_say_what_is_wrong(detail: String)
    ensures
        DocumentDBError::ShutdownRequested.spec_message() == "Graceful shutdown requested"@,
        DocumentDBError::ConnectionClosed.spec_message() == "Connection closed"@,
        DocumentDBError::ReadFailed(detail).spec_message() == "Error reading from stream "@
            + detail@,
        DocumentDBError::ReadTimedOut.spec_message() == "Timeout reading from stream"@,
        DocumentDBError::HandshakeFailed(detail).spec_message() == "SSL handshake failed: "@
            + detail@ + "."@,
        DocumentDBError::TokenExpired.spec_message() == "External identity token has expired."@,
{
}

/// Each error goes out under the code that clients act on: a number that is too
/// low, one that is taken, one that is committed, one that is not there, a
/// shutdown, the need to authenticate again, and what concerns the gateway alone.
pub proof fn errors_carry_their_code(error: DocumentDBError)
    ensures
        error.spec_kind() == ErrorKind::DocumentDB(ErrorCode::TransactionTooOld) <==> error
            is NumberTooLow,
        error.spec_kind() == ErrorKind::DocumentDB(ErrorCode::ConflictingOperationInProgress) <==> {
            error is AlreadyCommitted || error is AlreadyAborted || error is AlreadyStarted || error
                is AlreadyOpen
        },
        error.spec_kind() == ErrorKind::DocumentDB(ErrorCode::TransactionCommitted) <==> error
            is ContinuesCommitted,
        error.spec_kind() == ErrorKind::DocumentDB(ErrorCode::NoSuchTransaction) <==> {
            error is CannotContinue || error is NothingToSettle || error is NothingToAbort || error
                is NothingToCommit || error is NoRecord
        },
        error.spec_kind() == ErrorKind::DocumentDB(ErrorCode::ShutdownInProgress) <==> error
            is ShutdownRequested,
        error.spec_kind() == ErrorKind::ReauthenticationRequired <==> error is TokenExpired,
        error.spec_kind() == ErrorKind::Internal <==> {
            error is ConnectionClosed || error is ReadFailed || error is ReadTimedOut || error
                is HandshakeFailed
        },
{
}

} // verus!
