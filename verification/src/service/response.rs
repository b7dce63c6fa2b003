//! Finding the response to a request.

use vstd::prelude::*;

use crate::error::{DocumentDBError, Failure};

verus! {

/// How a connection authenticates, as far as it matters here.
#[derive(Clone, Copy, Debug, PartialEq, Eq, Structural)]
pub enum AuthKind {
    /// By a token that an external identity provider has issued.
    ExternalIdentity,
    Other,
}

/// What came of the last thing that finding a response asked for.
#[derive(Debug)]
pub enum ResponseEvent<R, E> {
    AuthorizationRead { authorized: bool, auth_kind: Option<AuthKind> },
    Authenticated(Result<R, E>),
    PoolAllocated(Result<(), E>),
    ClientCreated(Result<(), E>),
    Processed(Result<R, E>),
}

/// What finding a response asks for.
#[derive(Clone, Copy, Debug, PartialEq, Eq, Structural)]
pub enum ResponseAction {
    /// Read whether the connection is authorized, and how it authenticates.
    ReadAuthorization,
    /// Let the request be answered by authentication.
    Authenticate,
    /// Make sure that there is a pool of backend clients for the user.
    AllocatePool,
    /// Create a backend client for the authorized user.
    CreateClient,
    /// Process the request.
    Process,
    /// Nothing: the response is there, or cannot be had.
    Finish,
}

/// Finding the response to a request.
#[derive(Debug)]
pub enum ResponseFlow<R, E> {
    ReadingAuthorization,
    Authenticating,
    AllocatingPool,
    CreatingClient,
    Processing,
    Finished(Result<R, Failure<E>>),
}

/// The outcome of a service, as the outcome of the whole.
pub open spec fn outcome<R, E>(result: Result<R, E>) -> Result<R, Failure<E>> {
    match result {
        Ok(value) => Ok(value),
        Err(error) => Err(Failure::Service(error)),
    }
}

impl<R, E> ResponseFlow<R, E> {
    /// What to do next.
    pub open spec fn spec_action(self) -> ResponseAction {
        match self {
            ResponseFlow::ReadingAuthorization => ResponseAction::ReadAuthorization,
            ResponseFlow::Authenticating => ResponseAction::Authenticate,
            ResponseFlow::AllocatingPool => ResponseAction::AllocatePool,
            ResponseFlow::CreatingClient => ResponseAction::CreateClient,
            ResponseFlow::Processing => ResponseAction::Process,
            ResponseFlow::Finished(_) => ResponseAction::Finish,
        }
    }

    /// The beginning: requests that authentication handles go there at once.
    pub open spec fn begin(handle_with_auth: bool) -> ResponseFlow<R, E> {
        if handle_with_auth {
            ResponseFlow::Authenticating
        } else {
            ResponseFlow::ReadingAuthorization
        }
    }

    /// The flow after `event`. An event that was not asked for changes nothing.
    pub open spec fn next(self, event: ResponseEvent<R, E>) -> ResponseFlow<R, E> {
        match (self, event) {
            (
                ResponseFlow::ReadingAuthorization,
                ResponseEvent::AuthorizationRead { authorized, auth_kind },
            ) => if authorized {
                ResponseFlow::AllocatingPool
            } else if auth_kind == Some(AuthKind::ExternalIdentity) {
                ResponseFlow::Finished(Err(Failure::Gateway(DocumentDBError::TokenExpired)))
            } else {
                ResponseFlow::Authenticating
            },
            (ResponseFlow::Authenticating, ResponseEvent::Authenticated(result)) =>
                ResponseFlow::Finished(outcome(result)),
            (ResponseFlow::AllocatingPool, ResponseEvent::PoolAllocated(Ok(_))) =>
                ResponseFlow::CreatingClient,
            (ResponseFlow::CreatingClient, ResponseEvent::ClientCreated(Ok(_))) =>
                ResponseFlow::Processing,
            (ResponseFlow::Processing, ResponseEvent::Processed(result)) => ResponseFlow::Finished(
                outcome(result),
            ),
            (ResponseFlow::AllocatingPool, ResponseEvent::PoolAllocated(Err(error)))
            | (ResponseFlow::CreatingClient, ResponseEvent::ClientCreated(Err(error))) =>
                ResponseFlow::Finished(Err(Failure::Service(error))),
            _ => self,
        }
    }

    /// The flow after all of `events`, in order.
    pub open spec fn after(self, events: Seq<ResponseEvent<R, E>>) -> ResponseFlow<R, E>
        decreases events.len(),
    {
        if events.len() == 0 {
            self
        } else {
            self.after(events.drop_last()).next(events.last())
        }
    }

    /// Begins to look for the response to a request; `handle_with_auth` says that
    /// authentication handles requests of its type.
    pub fn start(handle_with_auth: bool) -> (flow: ResponseFlow<R, E>)
        ensures
            flow == Self::begin(handle_with_auth),
    {
        if handle_with_auth {
            ResponseFlow::Authenticating
        } else {
            ResponseFlow::ReadingAuthorization
        }
    }

    /// What to do next.
    pub fn action(&self) -> (action: ResponseAction)
        ensures
            action == self.spec_action(),
    {
        match self {
            ResponseFlow::ReadingAuthorization => ResponseAction::ReadAuthorization,
            ResponseFlow::Authenticating => ResponseAction::Authenticate,
            ResponseFlow::AllocatingPool => ResponseAction::AllocatePool,
            ResponseFlow::CreatingClient => ResponseAction::CreateClient,
            ResponseFlow::Processing => ResponseAction::Process,
            ResponseFlow::Finished(_) => ResponseAction::Finish,
        }
    }

    /// Takes in what came of the last action.
    pub fn step(self, event: ResponseEvent<R, E>) -> (flow: ResponseFlow<R, E>)
        ensures
            flow == self.next(event),
    {
        match (self, event) {
            (
                ResponseFlow::ReadingAuthorization,
                ResponseEvent::AuthorizationRead { authorized, auth_kind },
            ) => {
                if authorized {
                    return ResponseFlow::AllocatingPool;
                }
                match auth_kind {
                    Some(AuthKind::ExternalIdentity) => ResponseFlow::Finished(
                        Err(Failure::Gateway(DocumentDBError::TokenExpired)),
                    ),
                    _ => ResponseFlow::Authenticating,
                }
            },
            (ResponseFlow::Authenticating, ResponseEvent::Authenticated(Ok(response)))
            | (ResponseFlow::Processing, ResponseEvent::Processed(Ok(response))) =>
                ResponseFlow::Finished(Ok(response)),
            (ResponseFlow::AllocatingPool, ResponseEvent::PoolAllocated(Ok(_))) =>
                ResponseFlow::CreatingClient,
            (ResponseFlow::CreatingClient, ResponseEvent::ClientCreated(Ok(_))) =>
                ResponseFlow::Processing,
            (ResponseFlow::Authenticating, ResponseEvent::Authenticated(Err(error)))
            | (ResponseFlow::Processing, ResponseEvent::Processed(Err(error)))
            | (ResponseFlow::AllocatingPool, ResponseEvent::PoolAllocated(Err(error)))
            | (ResponseFlow::CreatingClient, ResponseEvent::ClientCreated(Err(error))) =>
                ResponseFlow::Finished(Err(Failure::Service(error))),
            (same, _) => same,
        }
    }
}

/// None of `events` reports the connection to be authorized.
pub open spec fn never_authorized<R, E>(events: Seq<ResponseEvent<R, E>>) -> bool {
    forall|i: int|
        0 <= i < events.len() ==> !((
        #[trigger] events[i]) matches ResponseEvent::AuthorizationRead { authorized, .. }
            && authorized)
}

/// A request on a connection that is not authorized never reaches the backend:
/// it is answered by authentication, or refused.
pub proof fn unauthorized_request_is_not_processed<R, E>(
    handle_with_auth: bool,
    events: Seq<ResponseEvent<R, E>>,
)
    requires
        never_authorized(events),
    ensures
        !(ResponseFlow::<R, E>::begin(handle_with_auth).after(events) is AllocatingPool),
        !(ResponseFlow::<R, E>::begin(handle_with_auth).after(events) is CreatingClient),
        !(ResponseFlow::<R, E>::begin(handle_with_auth).after(events) is Processing),
    decreases events.len(),
{
    if events.len() > 0 {
        let before = events.drop_last();
        assert forall|i: int| 0 <= i < before.len() implies !((
        #[trigger] before[i]) matches ResponseEvent::AuthorizationRead { authorized, .. }
            && authorized) by {
            assert(before[i] == events[i]);
        }
        unauthorized_request_is_not_processed(handle_with_auth, before);
        let last = events[events.len() - 1];
        assert(!(last matches ResponseEvent::AuthorizationRead { authorized, .. } && authorized));
    }
}

/// A request is processed only with a backend client, which is created only once
/// there is a pool of them for the user, which is seen to only on a connection
/// that is authorized.
pub proof fn processing_is_prepared<R, E>(flow: ResponseFlow<R, E>, event: ResponseEvent<R, E>)
    requires
        flow.next(event) != flow,
    ensures
        flow.next(event) is Processing ==> flow is CreatingClient && (
        event matches ResponseEvent::ClientCreated(Ok(_))),
        flow.next(event) is CreatingClient ==> flow is AllocatingPool && (
        event matches ResponseEvent::PoolAllocated(Ok(_))),
        flow.next(event) is AllocatingPool ==> flow is ReadingAuthorization && (
        event matches ResponseEvent::AuthorizationRead { authorized, .. } && authorized),
{
}

/// A response is the one that authentication or processing came up with.
pub proof fn response_is_the_one_found<R, E>(
    flow: ResponseFlow<R, E>,
    event: ResponseEvent<R, E>,
    response: R,
)
    requires
        !(flow is Finished),
        flow.next(event) == ResponseFlow::<R, E>::Finished(Ok(response)),
    ensures
        event == ResponseEvent::<R, E>::Authenticated(Ok(response)) || event
            == ResponseEvent::<R, E>::Processed(Ok(response)),
{
}

/// A client whose external token has expired is told to authenticate again,
/// unless its request is one that authentication handles anyway; a client that
/// is not authorized for another reason is handed to authentication.
pub proof fn unauthorized_request_is_answered<R, E>(auth_kind: Option<AuthKind>)
    ensures
        ResponseFlow::<R, E>::begin(true) == ResponseFlow::<R, E>::Authenticating,
        ({
            let next = ResponseFlow::<R, E>::begin(false).next(
                ResponseEvent::AuthorizationRead { authorized: false, auth_kind },
            );
            if auth_kind == Some(AuthKind::ExternalIdentity) {
                next == ResponseFlow::<R, E>::Finished(
                    Err(Failure::Gateway(DocumentDBError::TokenExpired)),
                )
            } else {
                next == ResponseFlow::<R, E>::Authenticating
            }
        }),
{
}

/// A request that authentication handles begins there, and every other by finding
/// out whether the connection is authorized.
pub proof fn requests_begin_where_they_belong<R, E>()
    ensures
        ResponseFlow::<R, E>::begin(true) == ResponseFlow::<R, E>::Authenticating,
        ResponseFlow::<R, E>::begin(false) == ResponseFlow::<R, E>::ReadingAuthorization,
{
}

/// A request on an authorized connection, however the client authenticated, goes on
/// to the pool, from there to a backend client, and is processed; what processing
/// comes to is the outcome.
pub proof fn authorized_request_is_processed<R, E>(
    auth_kind: Option<AuthKind>,
    response: R,
    error: E,
)
    ensures
        ({
            let authorized = ResponseFlow::<R, E>::ReadingAuthorization.next(
                ResponseEvent::AuthorizationRead { authorized: true, auth_kind },
            );
            let pooled = authorized.next(ResponseEvent::PoolAllocated(Ok(())));
            let ready = pooled.next(ResponseEvent::ClientCreated(Ok(())));
            &&& authorized == ResponseFlow::<R, E>::AllocatingPool
            &&& pooled == ResponseFlow::<R, E>::CreatingClient
            &&& ready == ResponseFlow::<R, E>::Processing
            &&& ready.next(ResponseEvent::Processed(Ok(response))) == ResponseFlow::<
                R,
                E,
            >::Finished(Ok(response))
            &&& ready.next(ResponseEvent::Processed(Err(error))) == ResponseFlow::<R, E>::Finished(
                Err(Failure::Service(error)),
            )
        }),
{
}

/// A request on a connection that is not authorized is handed to authentication,
/// whose outcome is that of the request, except that a client with an external
/// token is told that the token has expired.
pub proof fn unauthorized_request_is_authenticated<R, E>(
    auth_kind: Option<AuthKind>,
    response: R,
    error: E,
)
    ensures
        ({
            let next = ResponseFlow::<R, E>::ReadingAuthorization.next(
                ResponseEvent::AuthorizationRead { authorized: false, auth_kind },
            );
            let expired = Failure::<E>::Gateway(DocumentDBError::TokenExpired);
            &&& auth_kind == Some(AuthKind::ExternalIdentity) ==> next == ResponseFlow::<
                R,
                E,
            >::Finished(Err(expired))
            &&& auth_kind != Some(AuthKind::ExternalIdentity) ==> next == ResponseFlow::<
                R,
                E,
            >::Authenticating
            &&& ResponseFlow::<R, E>::Authenticating.next(
                ResponseEvent::Authenticated(Ok(response)),
            ) == ResponseFlow::<R, E>::Finished(Ok(response))
            &&& ResponseFlow::<R, E>::Authenticating.next(ResponseEvent::Authenticated(Err(error)))
                == ResponseFlow::<R, E>::Finished(Err(Failure::Service(error)))
        }),
{
}

/// A pool or a backend client that cannot be had fails the request with that error.
pub proof fn missing_client_fails_the_request<R, E>(error: E)
    ensures
        ResponseFlow::<R, E>::AllocatingPool.next(ResponseEvent::PoolAllocated(Err(error)))
            == ResponseFlow::<R, E>::Finished(Err(Failure::Service(error))),
        ResponseFlow::<R, E>::CreatingClient.next(ResponseEvent::ClientCreated(Err(error)))
            == ResponseFlow::<R, E>::Finished(Err(Failure::Service(error))),
{
}

/// Finding a response asks for the step that it is at, and what it did not ask for
/// leaves it as it is.
pub proof fn finding_a_response_keeps_to_its_step<R, E>(
    flow: ResponseFlow<R, E>,
    event: ResponseEvent<R, E>,
)
    ensures
        match flow {
            ResponseFlow::ReadingAuthorization => flow.spec_action()
                == ResponseAction::ReadAuthorization && (!(event is AuthorizationRead)
                ==> flow.next(event) == flow),
            ResponseFlow::Authenticating => flow.spec_action() == ResponseAction::Authenticate && (
            !(event is Authenticated) ==> flow.next(event) == flow),
            ResponseFlow::AllocatingPool => flow.spec_action() == ResponseAction::AllocatePool && (
            !(event is PoolAllocated) ==> flow.next(event) == flow),
            ResponseFlow::CreatingClient => flow.spec_action() == ResponseAction::CreateClient && (
            !(event is ClientCreated) ==> flow.next(event) == flow),
            ResponseFlow::Processing => flow.spec_action() == ResponseAction::Process && (!(
            event is Processed) ==> flow.next(event) == flow),
            ResponseFlow::Finished(_) => flow.spec_action() == ResponseAction::Finish && flow.next(
                event,
            ) == flow,
        },
{
}

} // verus!
