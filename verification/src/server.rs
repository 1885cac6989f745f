//! The server as one unit: the running flag, the password and the
//! registry, with the operations of its control surface.

use vstd::prelude::*;
use vstd::string::*;
use crate::acceptor::{action_for, AcceptAction, AcceptEvent};
use crate::broadcast::{BroadcastError, BroadcastPass, PassView};
use crate::handshake::{decide, outcome_of, settle, HandshakeOutcome, ReadEvent};
use crate::monitor::{announcement, retained, ClipboardMonitor};
use crate::registry::{ClientRegistry, ConnId, RegistryView};
use crate::snapshot::{view_of, ClipboardSnapshot};

verus! {

/// Why a start or a stop was refused.
#[derive(Clone, Copy, Debug, PartialEq, Eq, Structural)]
pub enum LifecycleError {
    /// `start` while the server runs.
    AlreadyRunning,
    /// `stop` while the server is stopped.
    NotRunning,
}

/// The words for a refused start or stop.
pub open spec fn lifecycle_message(error: LifecycleError) -> Seq<char> {
    match error {
        LifecycleError::AlreadyRunning => "Server start failed - already running"@,
        LifecycleError::NotRunning => "Server is not running"@,
    }
}

/// The words for a broadcast that could not begin.
pub open spec fn broadcast_message() -> Seq<char> {
    "Failed to broadcast message"@
}

impl LifecycleError {
    /// The words for this error.
    pub fn message(self) -> (text: String)
        ensures
            text@ == lifecycle_message(self),
    {
        match self {
            LifecycleError::AlreadyRunning => String::from_str(
                "Server start failed - already running",
            ),
            LifecycleError::NotRunning => String::from_str("Server is not running"),
        }
    }
}

/// A call on the lifecycle.
pub enum LifecycleCall {
    Start(Seq<char>),
    Stop,
}

/// The server as a value.
pub struct ServerView {
    pub running: bool,
    pub password: Seq<char>,
    pub registry: RegistryView,
}

impl ServerView {
    pub open spec fn wf(self) -> bool {
        self.registry.wf()
    }

    /// A stopped server without connections.
    pub open spec fn initial() -> ServerView {
        ServerView { running: false, password: Seq::empty(), registry: RegistryView::empty() }
    }

    /// The server after `start`: a stopped one runs and holds the new
    /// password; a running one stays as it is.
    pub open spec fn start(self, password: Seq<char>) -> ServerView {
        if self.running {
            self
        } else {
            ServerView { running: true, password, ..self }
        }
    }

    /// The server after `stop`: a running one is stopped and its registry
    /// emptied; a stopped one stays as it is.
    pub open spec fn stop(self) -> ServerView {
        if self.running {
            ServerView { running: false, registry: self.registry.clear(), ..self }
        } else {
            self
        }
    }

    /// Whether a call is accepted in this state.
    pub open spec fn accepts(self, call: LifecycleCall) -> bool {
        match call {
            LifecycleCall::Start(_) => !self.running,
            LifecycleCall::Stop => self.running,
        }
    }

    /// The server after a call.
    pub open spec fn apply(self, call: LifecycleCall) -> ServerView {
        match call {
            LifecycleCall::Start(password) => self.start(password),
            LifecycleCall::Stop => self.stop(),
        }
    }

    /// The server after a sequence of calls.
    pub open spec fn run(self, calls: Seq<LifecycleCall>) -> ServerView
        decreases calls.len(),
    {
        if calls.len() == 0 {
            self
        } else {
            self.run(calls.drop_last()).apply(calls.last())
        }
    }

    /// The last call of a sequence that was accepted, if any was.
    pub open spec fn last_accepted(self, calls: Seq<LifecycleCall>) -> Option<LifecycleCall>
        decreases calls.len(),
    {
        if calls.len() == 0 {
            None
        } else if self.run(calls.drop_last()).accepts(calls.last()) {
            Some(calls.last())
        } else {
            self.last_accepted(calls.drop_last())
        }
    }
}

/// The running flag, the configured password and the client registry.
#[derive(Debug)]
pub struct ServerState {
    is_running: bool,
    password: String,
    registry: ClientRegistry,
}

impl View for ServerState {
    type V = ServerView;

    closed spec fn view(&self) -> ServerView {
        ServerView {
            running: self.is_running,
            password: self.password@,
            registry: self.registry@,
        }
    }
}

impl ServerState {
    pub open spec fn wf(&self) -> bool {
        self@.wf()
    }

    /// A stopped server without connections.
    pub fn new() -> (state: Self)
        ensures
            state@ == ServerView::initial(),
            state.wf(),
    {
        ServerState { is_running: false, password: String::new(), registry: ClientRegistry::new() }
    }

    /// Starts the server with `password`. Refused while it runs.
    pub fn start(&mut self, password: String) -> (result: Result<(), LifecycleError>)
        requires
            old(self).wf(),
        ensures
            final(self).wf(),
            final(self)@ == old(self)@.start(password@),
            result == if old(self)@.running {
                Err::<(), LifecycleError>(LifecycleError::AlreadyRunning)
            } else {
                Ok(())
            },
    {
        if self.is_running {
            return Err(LifecycleError::AlreadyRunning);
        }
        self.is_running = true;
        self.password = password;
        Ok(())
    }

    /// Stops the server and empties the registry. Refused while it is
    /// stopped.
    pub fn stop(&mut self) -> (result: Result<(), LifecycleError>)
        requires
            old(self).wf(),
        ensures
            final(self).wf(),
            final(self)@ == old(self)@.stop(),
            result == if old(self)@.running {
                Ok::<(), LifecycleError>(())
            } else {
                Err(LifecycleError::NotRunning)
            },
    {
        if !self.is_running {
            return Err(LifecycleError::NotRunning);
        }
        self.is_running = false;
        self.registry.clear();
        Ok(())
    }

    /// Whether the server runs.
    pub fn status(&self) -> (running: bool)
        ensures
            running == self@.running,
    {
        self.is_running
    }

    /// The registry, to look at.
    pub fn registry(&self) -> (registry: &ClientRegistry)
        ensures
            registry@ == self@.registry,
    {
        &self.registry
    }

    /// Answers one event of the accept loop. A new connection is entered
    /// in the registry, whatever the running flag says by then; a failed
    /// bind ends the loop and leaves the flag as it is.
    pub fn accept_step(&mut self, event: AcceptEvent) -> (action: AcceptAction)
        requires
            old(self).wf(),
        ensures
            final(self).wf(),
            action == action_for(event, old(self)@.running, old(self)@.registry.issued),
            final(self)@ == if event == AcceptEvent::Connected {
                ServerView { registry: old(self)@.registry.register(), ..old(self)@ }
            } else {
                old(self)@
            },
    {
        match event {
            AcceptEvent::BindFailed => AcceptAction::Exit,
            AcceptEvent::Connected => match self.registry.register() {
                Some(id) => AcceptAction::Handshake(id),
                None => AcceptAction::Refuse,
            },
            AcceptEvent::Failed => AcceptAction::Backoff,
            AcceptEvent::WaitElapsed => if self.is_running {
                AcceptAction::Continue
            } else {
                AcceptAction::Exit
            },
        }
    }

    /// Finishes the handshake of connection `id` from how its read ended:
    /// decides the outcome against the configured password and brings the
    /// registry up to date. The outcome says which line to write back.
    pub fn handle_client(&mut self, id: ConnId, event: &ReadEvent) -> (outcome: HandshakeOutcome)
        requires
            old(self).wf(),
        ensures
            final(self).wf(),
            outcome == outcome_of(*event, old(self)@.password),
            final(self)@ == (ServerView {
                registry: settle(old(self)@.registry, id, outcome),
                ..old(self)@
            }),
    {
        let outcome = decide(event, self.password.as_str());
        match outcome {
            HandshakeOutcome::Authenticated => {
                self.registry.promote(id);
            },
            HandshakeOutcome::PeerClosed => {
                self.registry.remove(id);
            },
            _ => {},
        }
        outcome
    }

    /// Begins a broadcast of `message` to the connections that are
    /// authenticated now. Fails, with no target named, while the server is
    /// stopped.
    pub fn broadcast(&self, message: &str) -> (result: Result<BroadcastPass, BroadcastError>)
        ensures
            result is Ok <==> self@.running,
            result is Ok ==> result.unwrap().wf() && result.unwrap()@ == PassView::begin(
                message.spec_bytes(),
                self@.registry.authenticated,
            ),
            result is Err ==> result.unwrap_err() == BroadcastError::NotRunning,
    {
        if !self.is_running {
            return Err(BroadcastError::NotRunning);
        }
        Ok(BroadcastPass::begin(message, self.registry.authenticated()))
    }

    /// Ends a broadcast: the connections that the pass marked leave the
    /// authenticated list, and no other does.
    pub fn finish_broadcast(&mut self, pass: &BroadcastPass)
        requires
            old(self).wf(),
        ensures
            final(self).wf(),
            final(self)@ == (ServerView {
                registry: old(self)@.registry.demote(pass@.failed),
                ..old(self)@
            }),
    {
        self.registry.demote(pass.failed());
    }

    /// One tick of the clipboard monitor: hands the reading to `monitor`
    /// and, where the content has changed, begins the broadcast of its
    /// message. While the server is stopped the change is still retained
    /// and the broadcast fails.
    pub fn monitor_clipboard(
        &self,
        monitor: &mut ClipboardMonitor,
        reading: Option<ClipboardSnapshot>,
    ) -> (result: Option<Result<BroadcastPass, BroadcastError>>)
        ensures
            final(monitor)@ == retained(old(monitor)@, view_of(reading)),
            result is Some <==> announcement(old(monitor)@, view_of(reading)) is Some,
            result is Some ==> (result.unwrap() is Ok <==> self@.running),
            result is Some && result.unwrap() is Ok ==> result.unwrap().unwrap().wf()
                && result.unwrap().unwrap()@ == PassView::begin(
                vstd::utf8::encode_utf8(announcement(old(monitor)@, view_of(reading)).unwrap()),
                self@.registry.authenticated,
            ),
            result is Some && result.unwrap() is Err ==> result.unwrap().unwrap_err()
                == BroadcastError::NotRunning,
    {
        match monitor.observe(reading) {
            Some(message) => Some(self.broadcast(message.as_str())),
            None => None,
        }
    }
}

impl Default for ServerState {
    fn default() -> (state: Self)
        ensures
            state@ == ServerView::initial(),
            state.wf(),
    {
        ServerState::new()
    }
}

/// Reports whether the server runs.
pub fn get_server_status(state: &ServerState) -> (result: Result<bool, String>)
    ensures
        result is Ok,
        result.unwrap() == state@.running,
{
    Ok(state.status())
}

/// Starts the server with `password`; the error says in words why it was
/// refused.
pub fn start_server(state: &mut ServerState, password: String) -> (result: Result<(), String>)
    requires
        old(state).wf(),
    ensures
        final(state).wf(),
        final(state)@ == old(state)@.start(password@),
        result is Err <==> old(state)@.running,
        result is Err ==> result.unwrap_err()@ == lifecycle_message(LifecycleError::AlreadyRunning),
{
    match state.start(password) {
        Ok(()) => Ok(()),
        Err(error) => Err(error.message()),
    }
}

/// Stops the server; the error says in words why it was refused.
pub fn stop_server(state: &mut ServerState) -> (result: Result<(), String>)
    requires
        old(state).wf(),
    ensures
        final(state).wf(),
        final(state)@ == old(state)@.stop(),
        result is Err <==> !old(state)@.running,
        result is Err ==> result.unwrap_err()@ == lifecycle_message(LifecycleError::NotRunning),
{
    match state.stop() {
        Ok(()) => Ok(()),
        Err(error) => Err(error.message()),
    }
}

/// Begins the broadcast of an out-of-band message; the error says in words
/// that the server is stopped.
pub fn broadcast_message_command(state: &ServerState, message: String) -> (result: Result<
    BroadcastPass,
    String,
>)
    ensures
        result is Ok <==> state@.running,
        result is Ok ==> result.unwrap().wf() && result.unwrap()@ == PassView::begin(
            vstd::utf8::encode_utf8(message@),
            state@.registry.authenticated,
        ),
        result is Err ==> result.unwrap_err()@ == broadcast_message(),
{
    match state.broadcast(message.as_str()) {
        Ok(pass) => Ok(pass),
        Err(_) => Err(String::from_str("Failed to broadcast message")),
    }
}

/// A refused call changes nothing.
pub proof fn law_refused_call_changes_nothing(server: ServerView, call: LifecycleCall)
    requires
        !server.accepts(call),
    ensures
        server.apply(call) == server,
{
}

/// After any sequence of starts and stops the status is what the last
/// accepted call made it: running after a start, stopped after a stop, and
/// the status at the beginning where no call was accepted.
pub proof fn law_status_follows_last_accepted(server: ServerView, calls: Seq<LifecycleCall>)
    ensures
        server.run(calls).running == match server.last_accepted(calls) {
            Some(LifecycleCall::Start(_)) => true,
            Some(LifecycleCall::Stop) => false,
            None => server.running,
        },
    decreases calls.len(),
{
    if calls.len() > 0 {
        law_status_follows_last_accepted(server, calls.drop_last());
    }
}

/// A stop that is accepted leaves both lists of the registry empty.
pub proof fn law_stop_clears_registry(server: ServerView)
    requires
        server.running,
    ensures
        !server.stop().running,
        server.stop().registry.all.len() == 0,
        server.stop().registry.authenticated.len() == 0,
{
}

} // verus!
