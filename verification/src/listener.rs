//! Bringing up the gateway's listeners, and the loop that accepts connections.

use vstd::prelude::*;

use crate::address::{self, tcp_listen_address};
use crate::text;

verus! {

/// What the gateway is told at start-up.
#[derive(Clone, Debug)]
pub struct SetupConfiguration {
    pub use_local_host: bool,
    pub gateway_listen_port: u16,
    pub unix_socket_path: Option<String>,
    pub unix_socket_file_permissions: u32,
    pub enforce_tls: bool,
}

impl SetupConfiguration {
    /// The address to listen on for TCP connections.
    pub fn tcp_address(&self) -> (address: String)
        ensures
            address@ == address::listen_host(self.use_local_host) + ":"@ + text::digits(
                self.gateway_listen_port as nat,
            ),
    {
        tcp_listen_address(self.use_local_host, self.gateway_listen_port)
    }

    /// Whether to listen on a Unix domain socket as well.
    pub fn listens_on_unix_socket(&self) -> (listens: bool)
        ensures
            listens == self.unix_socket_path is Some,
    {
        self.unix_socket_path.is_some()
    }
}

/// What came of removing the socket file of a previous run.
#[derive(Clone, Copy, Debug, PartialEq, Eq, Structural)]
pub enum StaleSocket {
    Removed,
    NotFound,
    Stuck,
}

impl StaleSocket {
    /// Whether an operator should hear of it: the file is there and could not be
    /// removed.
    pub fn deserves_warning(self) -> (warn: bool)
        ensures
            warn == (self == StaleSocket::Stuck),
    {
        match self {
            StaleSocket::Stuck => true,
            _ => false,
        }
    }
}

/// What came of the last step of setting up a Unix domain socket.
#[derive(Debug)]
pub enum UnixEvent<E> {
    StaleFile(StaleSocket),
    Bound(Result<(), E>),
    PermissionsSet(Result<(), E>),
}

/// The next step of setting up a Unix domain socket.
#[derive(Clone, Copy, Debug, PartialEq, Eq, Structural)]
pub enum UnixAction {
    /// Remove the socket file that a previous run may have left.
    RemoveStaleFile,
    /// Bind to the socket path.
    Bind,
    /// Set the permissions of the socket file.
    SetPermissions,
    /// Nothing: the socket is set up, or cannot be.
    Finish,
}

/// Setting up a Unix domain socket.
#[derive(Debug)]
pub enum UnixSetup<E> {
    RemovingStaleFile,
    Binding,
    SettingPermissions,
    Finished(Result<(), E>),
}

impl<E> UnixSetup<E> {
    /// What to do next.
    pub open spec fn spec_action(self) -> UnixAction {
        match self {
            UnixSetup::RemovingStaleFile => UnixAction::RemoveStaleFile,
            UnixSetup::Binding => UnixAction::Bind,
            UnixSetup::SettingPermissions => UnixAction::SetPermissions,
            UnixSetup::Finished(_) => UnixAction::Finish,
        }
    }

    /// The set-up after `event`. A file that could not be removed is left to the
    /// bind to fail on. An event that was not asked for changes nothing.
    pub open spec fn next(self, event: UnixEvent<E>) -> UnixSetup<E> {
        match (self, event) {
            (UnixSetup::RemovingStaleFile, UnixEvent::StaleFile(_)) => UnixSetup::Binding,
            (UnixSetup::Binding, UnixEvent::Bound(Ok(_))) => UnixSetup::SettingPermissions,
            (UnixSetup::Binding, UnixEvent::Bound(Err(error))) => UnixSetup::Finished(Err(error)),
            (UnixSetup::SettingPermissions, UnixEvent::PermissionsSet(outcome)) =>
                UnixSetup::Finished(outcome),
            _ => self,
        }
    }

    /// What to do next.
    pub fn action(&self) -> (action: UnixAction)
        ensures
            action == self.spec_action(),
    {
        match self {
            UnixSetup::RemovingStaleFile => UnixAction::RemoveStaleFile,
            UnixSetup::Binding => UnixAction::Bind,
            UnixSetup::SettingPermissions => UnixAction::SetPermissions,
            UnixSetup::Finished(_) => UnixAction::Finish,
        }
    }

    /// Takes in what came of the last action.
    pub fn step(self, event: UnixEvent<E>) -> (setup: UnixSetup<E>)
        ensures
            setup == self.next(event),
    {
        match (self, event) {
            (UnixSetup::RemovingStaleFile, UnixEvent::StaleFile(_)) => UnixSetup::Binding,
            (UnixSetup::Binding, UnixEvent::Bound(Ok(_))) => UnixSetup::SettingPermissions,
            (UnixSetup::Binding, UnixEvent::Bound(Err(error))) => UnixSetup::Finished(Err(error)),
            (UnixSetup::SettingPermissions, UnixEvent::PermissionsSet(outcome)) =>
                UnixSetup::Finished(outcome),
            (same, _) => same,
        }
    }
}

/// What came of the last thing that the gateway's main loop asked for.
#[derive(Debug)]
pub enum GatewayEvent<E> {
    TcpBound(Result<(), E>),
    TlsContextCreated(Result<(), E>),
    Unix(UnixEvent<E>),
    TcpAccepted,
    UnixAccepted,
    Cancelled,
    Dispatched,
}

/// What the gateway's main loop asks for.
#[derive(Clone, Copy, Debug, PartialEq, Eq, Structural)]
pub enum GatewayAction {
    /// Bind the TCP listener.
    BindTcp,
    /// Create the context under which clients are accepted over TLS.
    CreateTlsContext,
    /// Go on setting up the Unix domain socket.
    Unix(UnixAction),
    /// Wait for a TCP connection, for a connection on the Unix domain socket if
    /// there is one, or for cancellation.
    Listen { unix: bool },
    /// Serve the accepted TCP connection in a task of its own.
    DispatchTcp,
    /// Serve the accepted Unix domain connection in a task of its own.
    DispatchUnix,
    /// Nothing: the gateway has stopped.
    Finish,
}

/// The gateway's main loop.
#[derive(Debug)]
pub enum Gateway<E> {
    BindingTcp { unix: bool },
    CreatingTlsContext { unix: bool },
    SettingUpUnix(UnixSetup<E>),
    Listening { unix: bool },
    DispatchingTcp { unix: bool },
    DispatchingUnix,
    Finished(Result<(), E>),
}

impl<E> Gateway<E> {
    /// What to do next.
    pub open spec fn spec_action(self) -> GatewayAction {
        match self {
            Gateway::BindingTcp { .. } => GatewayAction::BindTcp,
            Gateway::CreatingTlsContext { .. } => GatewayAction::CreateTlsContext,
            Gateway::SettingUpUnix(setup) => GatewayAction::Unix(setup.spec_action()),
            Gateway::Listening { unix } => GatewayAction::Listen { unix },
            Gateway::DispatchingTcp { .. } => GatewayAction::DispatchTcp,
            Gateway::DispatchingUnix => GatewayAction::DispatchUnix,
            Gateway::Finished(_) => GatewayAction::Finish,
        }
    }

    /// The gateway once setting up the Unix domain socket has come to `setup`.
    pub open spec fn with_unix(setup: UnixSetup<E>) -> Gateway<E> {
        match setup {
            UnixSetup::Finished(Ok(_)) => Gateway::Listening { unix: true },
            UnixSetup::Finished(Err(error)) => Gateway::Finished(Err(error)),
            _ => Gateway::SettingUpUnix(setup),
        }
    }

    /// The gateway after `event`. An event that was not asked for changes nothing.
    pub open spec fn next(self, event: GatewayEvent<E>) -> Gateway<E> {
        match (self, event) {
            (Gateway::BindingTcp { .. }, GatewayEvent::TcpBound(Err(error))) => Gateway::Finished(
                Err(error),
            ),
            (Gateway::BindingTcp { unix }, GatewayEvent::TcpBound(Ok(_))) =>
                Gateway::CreatingTlsContext { unix },
            (Gateway::CreatingTlsContext { .. }, GatewayEvent::TlsContextCreated(Err(error))) =>
                Gateway::Finished(Err(error)),
            (Gateway::CreatingTlsContext { unix }, GatewayEvent::TlsContextCreated(Ok(_))) => if unix {
                Gateway::SettingUpUnix(UnixSetup::RemovingStaleFile)
            } else {
                Gateway::Listening { unix: false }
            },
            (Gateway::SettingUpUnix(setup), GatewayEvent::Unix(event)) => Self::with_unix(
                setup.next(event),
            ),
            (Gateway::Listening { unix }, GatewayEvent::TcpAccepted) => Gateway::DispatchingTcp {
                unix,
            },
            (Gateway::Listening { unix }, GatewayEvent::UnixAccepted) => if unix {
                Gateway::DispatchingUnix
            } else {
                self
            },
            (Gateway::Listening { .. }, GatewayEvent::Cancelled) => Gateway::Finished(Ok(())),
            (Gateway::DispatchingTcp { unix }, GatewayEvent::Dispatched) => Gateway::Listening {
                unix,
            },
            (Gateway::DispatchingUnix, GatewayEvent::Dispatched) => Gateway::Listening {
                unix: true,
            },
            _ => self,
        }
    }

    /// The gateway after all of `events`, in order.
    pub open spec fn after(self, events: Seq<GatewayEvent<E>>) -> Gateway<E>
        decreases events.len(),
    {
        if events.len() == 0 {
            self
        } else {
            self.after(events.drop_last()).next(events.last())
        }
    }

    /// The set-up of the Unix domain socket, while it goes on, is not over.
    pub open spec fn wf(self) -> bool {
        self matches Gateway::SettingUpUnix(setup) ==> !(setup is Finished)
    }

    /// The gateway accepts connections.
    pub open spec fn is_up(self) -> bool {
        self is Listening || self is DispatchingTcp || self is DispatchingUnix
    }

    /// A gateway that is about to bind its listeners.
    pub fn start(configuration: &SetupConfiguration) -> (gateway: Gateway<E>)
        ensures
            gateway == (Gateway::<E>::BindingTcp { unix: configuration.unix_socket_path is Some }),
            gateway.wf(),
    {
        Gateway::BindingTcp { unix: configuration.listens_on_unix_socket() }
    }

    /// What to do next.
    pub fn action(&self) -> (action: GatewayAction)
        ensures
            action == self.spec_action(),
    {
        match self {
            Gateway::BindingTcp { .. } => GatewayAction::BindTcp,
            Gateway::CreatingTlsContext { .. } => GatewayAction::CreateTlsContext,
            Gateway::SettingUpUnix(setup) => GatewayAction::Unix(setup.action()),
            Gateway::Listening { unix } => GatewayAction::Listen { unix: *unix },
            Gateway::DispatchingTcp { .. } => GatewayAction::DispatchTcp,
            Gateway::DispatchingUnix => GatewayAction::DispatchUnix,
            Gateway::Finished(_) => GatewayAction::Finish,
        }
    }

    /// Takes in what came of the last action.
    pub fn step(self, event: GatewayEvent<E>) -> (gateway: Gateway<E>)
        ensures
            gateway == self.next(event),
    {
        match (self, event) {
            (Gateway::BindingTcp { .. }, GatewayEvent::TcpBound(Err(error))) => Gateway::Finished(
                Err(error),
            ),
            (Gateway::BindingTcp { unix }, GatewayEvent::TcpBound(Ok(_))) =>
                Gateway::CreatingTlsContext { unix },
            (Gateway::CreatingTlsContext { .. }, GatewayEvent::TlsContextCreated(Err(error))) =>
                Gateway::Finished(Err(error)),
            (Gateway::CreatingTlsContext { unix }, GatewayEvent::TlsContextCreated(Ok(_))) => {
                if unix {
                    Gateway::SettingUpUnix(UnixSetup::RemovingStaleFile)
                } else {
                    Gateway::Listening { unix: false }
                }
            },
            (Gateway::SettingUpUnix(setup), GatewayEvent::Unix(event)) => match setup.step(event) {
                UnixSetup::Finished(Ok(_)) => Gateway::Listening { unix: true },
                UnixSetup::Finished(Err(error)) => Gateway::Finished(Err(error)),
                setup => Gateway::SettingUpUnix(setup),
            },
            (Gateway::Listening { unix }, GatewayEvent::TcpAccepted) => Gateway::DispatchingTcp {
                unix,
            },
            (Gateway::Listening { unix }, GatewayEvent::UnixAccepted) => {
                if unix {
                    Gateway::DispatchingUnix
                } else {
                    Gateway::Listening { unix }
                }
            },
            (Gateway::Listening { .. }, GatewayEvent::Cancelled) => Gateway::Finished(Ok(())),
            (Gateway::DispatchingTcp { unix }, GatewayEvent::Dispatched) => Gateway::Listening {
                unix,
            },
            (Gateway::DispatchingUnix, GatewayEvent::Dispatched) => Gateway::Listening {
                unix: true,
            },
            (same, _) => same,
        }
    }
}

/// Whether the gateway, once up, polls the Unix domain socket.
pub open spec fn polls_unix<E>(gateway: Gateway<E>) -> bool {
    match gateway {
        Gateway::BindingTcp { unix } => unix,
        Gateway::CreatingTlsContext { unix } => unix,
        Gateway::Listening { unix } => unix,
        Gateway::DispatchingTcp { unix } => unix,
        _ => true,
    }
}

/// A gateway that accepts connections goes on doing so, whatever becomes of
/// them, until it is cancelled, and keeps polling the same listeners.
pub proof fn gateway_runs_until_cancelled<E>(gateway: Gateway<E>, events: Seq<GatewayEvent<E>>)
    requires
        gateway.is_up(),
        forall|i: int| 0 <= i < events.len() ==> !((#[trigger] events[i]) is Cancelled),
    ensures
        gateway.after(events).is_up(),
        polls_unix(gateway.after(events)) == polls_unix(gateway),
    decreases events.len(),
{
    if events.len() > 0 {
        let before = events.drop_last();
        assert forall|i: int| 0 <= i < before.len() implies !((
        #[trigger] before[i]) is Cancelled) by {
            assert(before[i] == events[i]);
        }
        gateway_runs_until_cancelled(gateway, before);
        assert(!(events[events.len() - 1] is Cancelled));
    }
}

/// A step of bringing the gateway up has failed with `error`: binding the TCP
/// listener, creating the TLS context, binding the Unix domain socket, or setting
/// its permissions.
pub open spec fn fails_to_start<E>(gateway: Gateway<E>, event: GatewayEvent<E>, error: E) -> bool {
    ||| gateway is BindingTcp && event == GatewayEvent::<E>::TcpBound(Err(error))
    ||| gateway is CreatingTlsContext && event == GatewayEvent::<E>::TlsContextCreated(Err(error))
    ||| gateway == Gateway::<E>::SettingUpUnix(UnixSetup::Binding) && event
        == GatewayEvent::<E>::Unix(UnixEvent::Bound(Err(error)))
    ||| gateway == Gateway::<E>::SettingUpUnix(UnixSetup::SettingPermissions) && event
        == GatewayEvent::<E>::Unix(UnixEvent::PermissionsSet(Err(error)))
}

/// A gateway stops with success exactly when it is cancelled while it listens, and
/// with an error exactly when, before it listens, a listener cannot be bound, the
/// TLS context cannot be created or the permissions of the socket cannot be set;
/// the error is that of the step that failed. Otherwise it goes on towards the
/// listeners that it was configured for.
pub proof fn gateway_stops_for_cause<E>(gateway: Gateway<E>, event: GatewayEvent<E>)
    requires
        gateway.wf(),
        !(gateway is Finished),
    ensures
        gateway.next(event).wf(),
        gateway.next(event) == Gateway::<E>::Finished(Ok(())) <==> gateway is Listening
            && event is Cancelled,
        forall|error: E|
            gateway.next(event) == Gateway::<E>::Finished(Err(error)) <==> #[trigger] fails_to_start(
                gateway,
                event,
                error,
            ),
        !(gateway.next(event) is Finished) ==> polls_unix(gateway.next(event)) == polls_unix(
            gateway,
        ),
{
}

/// What bringing up a gateway comes to: it listens when every step succeeds, and
/// otherwise stops with the first error among them. The last two steps are those
/// of the Unix domain socket and count only where it is configured.
pub open spec fn start_outcome<E>(
    unix: bool,
    bound: Result<(), E>,
    context: Result<(), E>,
    unix_bound: Result<(), E>,
    permitted: Result<(), E>,
) -> Gateway<E> {
    match (bound, context, unix, unix_bound, permitted) {
        (Err(error), _, _, _, _) => Gateway::Finished(Err(error)),
        (_, Err(error), _, _, _) => Gateway::Finished(Err(error)),
        (_, _, true, Err(error), _) => Gateway::Finished(Err(error)),
        (_, _, true, _, Err(error)) => Gateway::Finished(Err(error)),
        _ => Gateway::Listening { unix },
    }
}

/// A gateway listens once the TCP listener is bound, the TLS context is created
/// and, where it is configured, the Unix domain socket is set up; otherwise the
/// run ends with the first error among these.
pub proof fn gateway_start_needs_every_step<E>(
    unix: bool,
    bound: Result<(), E>,
    context: Result<(), E>,
    stale: StaleSocket,
    unix_bound: Result<(), E>,
    permitted: Result<(), E>,
)
    ensures
        (Gateway::<E>::BindingTcp { unix }).next(GatewayEvent::TcpBound(bound)).next(
            GatewayEvent::TlsContextCreated(context),
        ).next(GatewayEvent::Unix(UnixEvent::StaleFile(stale))).next(
            GatewayEvent::Unix(UnixEvent::Bound(unix_bound)),
        ).next(GatewayEvent::Unix(UnixEvent::PermissionsSet(permitted))) == start_outcome(
            unix,
            bound,
            context,
            unix_bound,
            permitted,
        ),
{
}

/// A Unix domain socket is set up exactly when binding to its path and setting
/// its permissions both succeed, whatever became of the file of a previous run;
/// otherwise the first of the two errors is reported.
pub proof fn unix_socket_needs_bind_and_permissions<E>(
    stale: StaleSocket,
    bound: Result<(), E>,
    permitted: Result<(), E>,
)
    ensures
        UnixSetup::<E>::RemovingStaleFile.next(UnixEvent::StaleFile(stale)).next(
            UnixEvent::Bound(bound),
        ).next(UnixEvent::PermissionsSet(permitted)) == UnixSetup::Finished(
            match bound {
                Ok(_) => permitted,
                Err(error) => Err(error),
            },
        ),
{
}

/// Setting up a Unix domain socket goes from removing the file of a previous run,
/// whatever comes of that, to binding, and from a bind that succeeded to setting
/// the permissions, whose outcome is that of the whole; a bind that failed ends it.
/// It asks for the step that it is at, and what it did not ask for changes nothing.
pub proof fn unix_setup_goes_step_by_step<E>(
    setup: UnixSetup<E>,
    event: UnixEvent<E>,
    outcome: Result<(), E>,
)
    ensures
        UnixSetup::<E>::RemovingStaleFile.spec_action() == UnixAction::RemoveStaleFile,
        UnixSetup::<E>::Binding.spec_action() == UnixAction::Bind,
        UnixSetup::<E>::SettingPermissions.spec_action() == UnixAction::SetPermissions,
        UnixSetup::<E>::Finished(outcome).spec_action() == UnixAction::Finish,
        setup is RemovingStaleFile ==> setup.next(event) == (if event is StaleFile {
            UnixSetup::<E>::Binding
        } else {
            setup
        }),
        setup is Binding && event == UnixEvent::<E>::Bound(outcome) ==> setup.next(event) == (
        match outcome {
            Ok(_) => UnixSetup::<E>::SettingPermissions,
            Err(error) => UnixSetup::<E>::Finished(Err(error)),
        }),
        setup is Binding && !(event is Bound) ==> setup.next(event) == setup,
        setup is SettingPermissions && event == UnixEvent::<E>::PermissionsSet(outcome)
            ==> setup.next(event) == UnixSetup::<E>::Finished(outcome),
        setup is SettingPermissions && !(event is PermissionsSet) ==> setup.next(event) == setup,
        setup is Finished ==> setup.next(event) == setup,
{
}

/// The gateway asks for the step that it is at: for its listeners while it comes
/// up, then for connections on the listeners that it has, and for each accepted
/// connection to be served where it came from.
pub proof fn gateway_asks_for_its_step<E>(
    unix: bool,
    setup: UnixSetup<E>,
    outcome: Result<(), E>,
)
    ensures
        ({
            let binding = Gateway::<E>::BindingTcp { unix };
            let creating = Gateway::<E>::CreatingTlsContext { unix };
            let setting_up = Gateway::<E>::SettingUpUnix(setup);
            let listening = Gateway::<E>::Listening { unix };
            let dispatching = Gateway::<E>::DispatchingTcp { unix };
            &&& binding.spec_action() == GatewayAction::BindTcp
            &&& creating.spec_action() == GatewayAction::CreateTlsContext
            &&& setting_up.spec_action() == GatewayAction::Unix(setup.spec_action())
            &&& listening.spec_action() == GatewayAction::Listen { unix }
            &&& dispatching.spec_action() == GatewayAction::DispatchTcp
            &&& Gateway::<E>::DispatchingUnix.spec_action() == GatewayAction::DispatchUnix
            &&& Gateway::<E>::Finished(outcome).spec_action() == GatewayAction::Finish
        }),
{
}

/// Every accepted connection is dispatched, on TCP and, where the gateway listens
/// there, on the Unix domain socket, and after each the gateway listens again as
/// before. Cancellation while it listens ends the run with success.
pub proof fn every_connection_is_dispatched<E>(unix: bool)
    ensures
        ({
            let listening = Gateway::<E>::Listening { unix };
            let tcp = listening.next(GatewayEvent::TcpAccepted);
            let local = listening.next(GatewayEvent::UnixAccepted);
            &&& tcp == Gateway::<E>::DispatchingTcp { unix }
            &&& tcp.next(GatewayEvent::Dispatched) == listening
            &&& unix ==> local == Gateway::<E>::DispatchingUnix
            &&& unix ==> local.next(GatewayEvent::Dispatched) == listening
            &&& !unix ==> local == listening
            &&& listening.next(GatewayEvent::Cancelled) == Gateway::<E>::Finished(Ok(()))
        }),
{
}

/// While the gateway comes up, each step that succeeds leads to the next: the TCP
/// listener to the TLS context, and that to the Unix domain socket where it is
/// configured and else to listening; a set-up of the socket that goes on is gone on
/// with, and one that succeeded leads to listening on both.
pub proof fn gateway_comes_up_step_by_step<E>(
    unix: bool,
    setup: UnixSetup<E>,
    event: UnixEvent<E>,
    error: E,
)
    ensures
        ({
            let binding = Gateway::<E>::BindingTcp { unix };
            let creating = Gateway::<E>::CreatingTlsContext { unix };
            let created = creating.next(GatewayEvent::TlsContextCreated(Ok(())));
            let next = Gateway::<E>::SettingUpUnix(setup).next(GatewayEvent::Unix(event));
            &&& binding.next(GatewayEvent::TcpBound(Ok(()))) == creating
            &&& binding.next(GatewayEvent::TcpBound(Err(error))) == Gateway::<E>::Finished(
                Err(error),
            )
            &&& creating.next(GatewayEvent::TlsContextCreated(Err(error)))
                == Gateway::<E>::Finished(Err(error))
            &&& unix ==> created == Gateway::<E>::SettingUpUnix(UnixSetup::RemovingStaleFile)
            &&& !unix ==> created == Gateway::<E>::Listening { unix: false }
            &&& setup.next(event) == UnixSetup::<E>::Finished(Ok(())) ==> next
                == Gateway::<E>::Listening { unix: true }
            &&& setup.next(event) == UnixSetup::<E>::Finished(Err(error)) ==> next
                == Gateway::<E>::Finished(Err(error))
            &&& !(setup.next(event) is Finished) ==> next == Gateway::<E>::SettingUpUnix(
                setup.next(event),
            )
        }),
{
}

/// What the gateway did not ask for leaves it as it is.
pub proof fn gateway_ignores_what_it_did_not_ask_for<E>(
    gateway: Gateway<E>,
    event: GatewayEvent<E>,
)
    requires
        match gateway.spec_action() {
            GatewayAction::BindTcp => !(event is TcpBound),
            GatewayAction::CreateTlsContext => !(event is TlsContextCreated),
            GatewayAction::Unix(_) => !(event is Unix),
            GatewayAction::Listen { unix } => !(event is TcpAccepted) && !(event is Cancelled) && (
            unix ==> !(event is UnixAccepted)),
            GatewayAction::DispatchTcp | GatewayAction::DispatchUnix => !(event is Dispatched),
            GatewayAction::Finish => true,
        },
    ensures
        gateway.next(event) == gateway,
{
}

} // verus!
