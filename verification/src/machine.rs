//! The connection machine: the one place that knows whether the client is
//! connected.

use vstd::prelude::*;
use crate::event::{Effect, LifecycleEvent, Notification};
use crate::handle::Handle;
use crate::model::{Input, Model};
use crate::transport::{transport_url, endpoint_url, ConnectError, OpenRequest};

verus! {

/// Whether the client is connected, and through which handle.
#[derive(Clone, Copy, Debug, PartialEq, Eq, Structural, Hash)]
pub enum ConnectionState {
    Disconnected,
    Connected(Handle),
}

impl View for ConnectionState {
    type V = Option<nat>;

    open spec fn view(&self) -> Option<nat> {
        match self {
            ConnectionState::Disconnected => None,
            ConnectionState::Connected(handle) => Some(handle@),
        }
    }
}

impl ConnectionState {
    /// Whether this is the connected state.
    pub fn is_connected(&self) -> (connected: bool)
        ensures
            connected <==> *self is Connected,
    {
        match self {
            ConnectionState::Disconnected => false,
            ConnectionState::Connected(_) => true,
        }
    }

    /// The handle of the connected state.
    pub fn handle(&self) -> (handle: Option<Handle>)
        ensures
            handle == match *self {
                ConnectionState::Disconnected => None::<Handle>,
                ConnectionState::Connected(h) => Some(h),
            },
    {
        match self {
            ConnectionState::Disconnected => None,
            ConnectionState::Connected(handle) => Some(*handle),
        }
    }
}

/// One input to the machine, as the surrounding program hands it over.
#[derive(Debug, PartialEq, Eq)]
pub enum Command {
    /// The user asked to connect, and this is how the transport adapter
    /// fared with the open request.
    Connect(Result<(), ConnectError>),
    /// The user asked to disconnect.
    Disconnect,
    /// The session behind the handle reported an event.
    Lifecycle(Handle, LifecycleEvent),
}

impl View for Command {
    type V = Input;

    open spec fn view(&self) -> Input {
        match self {
            Command::Connect(opened) => Input::Connect(opened is Ok),
            Command::Disconnect => Input::Disconnect,
            Command::Lifecycle(source, event) => Input::Lifecycle(source@, *event),
        }
    }
}

impl Command {
    /// The error that the command hands on: that of a connect whose
    /// transport could not be opened.
    pub open spec fn failure(&self) -> Option<ConnectError> {
        match self {
            Command::Connect(Err(error)) => Some(*error),
            _ => None,
        }
    }
}

/// The connection machine. It starts disconnected, holds at most one handle
/// at any time, and issues every handle only once.
#[derive(Debug, PartialEq, Eq)]
pub struct ConnectionMachine {
    state: ConnectionState,
    issued: u64,
}

impl View for ConnectionMachine {
    type V = Model;

    closed spec fn view(&self) -> Model {
        Model { current: self.state@, issued: self.issued as nat }
    }
}

impl Clone for ConnectionMachine {
    fn clone(&self) -> (copy: ConnectionMachine)
        ensures
            copy == *self,
    {
        proof {
            use_type_invariant(self);
        }
        ConnectionMachine { state: self.state, issued: self.issued }
    }
}

impl ConnectionMachine {
    /// Holds of every machine: the handle it holds is one it has issued.
    #[verifier::type_invariant]
    pub open spec fn inv(&self) -> bool {
        self@.wf()
    }

    /// The machine at application start.
    pub fn new() -> (machine: ConnectionMachine)
        ensures
            machine@ == Model::initial(),
    {
        ConnectionMachine { state: ConnectionState::Disconnected, issued: 0 }
    }

    /// The current state, for use in contracts.
    pub closed spec fn current_state(&self) -> ConnectionState {
        self.state
    }

    /// The current state.
    #[verifier::when_used_as_spec(current_state)]
    pub fn state(&self) -> (state: ConnectionState)
        ensures
            state == self.current_state(),
            state@ == self@.current,
    {
        self.state
    }

    /// Whether the client is connected: whether the current state is
    /// `Connected`, and nothing else.
    pub fn is_connected(&self) -> (connected: bool)
        ensures
            connected <==> self.state() is Connected,
            connected <==> self@.connected(),
    {
        self.state.is_connected()
    }

    /// The handle that the next successful connect will hold.
    pub fn next_handle(&self) -> (handle: Handle)
        ensures
            handle@ == self@.issued,
    {
        Handle::issue(self.issued)
    }

    /// Whether the machine can still issue a handle.
    pub fn can_connect(&self) -> (possible: bool)
        ensures
            possible <==> self@.issued < u64::MAX,
    {
        self.issued < u64::MAX
    }

    /// What the transport adapter has to open for a connect to `address`.
    /// The state does not change: the connect is made with `request_connect`
    /// once the adapter has tried.
    pub fn open_request(&self, address: &str) -> (request: OpenRequest)
        ensures
            request.url@ == endpoint_url(address@),
            request.handle@ == self@.issued,
    {
        OpenRequest { url: transport_url(address), handle: self.next_handle() }
    }

    fn holds(&self, handle: Handle) -> (held: bool)
        ensures
            held <==> self@.owns(handle@),
    {
        match self.state {
            ConnectionState::Disconnected => false,
            ConnectionState::Connected(current) => {
                proof {
                    current.lemma_identity(handle);
                }
                current == handle
            },
        }
    }

    fn release(&self) -> (effects: Vec<Effect>)
        ensures
            effects.deep_view() == self@.release(),
    {
        let mut effects: Vec<Effect> = Vec::new();
        match self.state {
            ConnectionState::Disconnected => {},
            ConnectionState::Connected(handle) => {
                effects.push(Effect::Close(handle));
            },
        }
        assert(effects.deep_view() =~= self@.release());
        effects
    }

    /// Connects, given how the transport adapter fared with the open request.
    ///
    /// If the transport was opened, the machine holds the next handle from
    /// now on, and a handle that it held before is to be closed. If not, the
    /// error is handed on and the machine is as it was.
    pub fn request_connect(&mut self, opened: Result<(), ConnectError>) -> (result: Result<
        Vec<Effect>,
        ConnectError,
    >)
        requires
            opened is Ok ==> old(self)@.issued < u64::MAX,
        ensures
            match opened {
                Ok(_) => {
                    &&& final(self)@ == old(self)@.connect()
                    &&& result matches Ok(effects)
                    &&& effects.deep_view() == old(self)@.release()
                },
                Err(error) => {
                    &&& final(self)@ == old(self)@
                    &&& result == Err::<Vec<Effect>, ConnectError>(error)
                },
            },
    {
        match opened {
            Ok(_) => {
                let effects = self.release();
                let handle = self.next_handle();
                *self = ConnectionMachine {
                    state: ConnectionState::Connected(handle),
                    issued: self.issued + 1,
                };
                Ok(effects)
            },
            Err(error) => Err(error),
        }
    }

    /// Disconnects. If the machine holds a handle, it lets go of it and the
    /// handle is to be closed; if not, nothing happens.
    pub fn request_disconnect(&mut self) -> (effects: Vec<Effect>)
        ensures
            final(self)@ == old(self)@.disconnect(),
            effects.deep_view() == old(self)@.release(),
    {
        let effects = self.release();
        self.state = ConnectionState::Disconnected;
        effects
    }

    /// Takes in one lifecycle event of the session `source`.
    ///
    /// An event of any session but the one that the machine holds is
    /// dropped: the machine stays as it is and nothing is to be done.
    pub fn handle_lifecycle_event(&mut self, source: Handle, event: LifecycleEvent) -> (effects:
        Vec<Effect>)
        ensures
            final(self)@ == old(self)@.after_event(source@, event),
            effects.deep_view() == old(self)@.event_actions(source@, event),
    {
        let mut effects: Vec<Effect> = Vec::new();
        if self.holds(source) {
            match event {
                LifecycleEvent::Opened => {
                    effects.push(Effect::Notify(Notification::Opened));
                },
                LifecycleEvent::Closed => {
                    effects.push(Effect::Notify(Notification::Closed));
                    effects.push(Effect::Close(source));
                    self.state = ConnectionState::Disconnected;
                },
                LifecycleEvent::Error => {
                    effects.push(Effect::Notify(Notification::Error));
                    effects.push(Effect::Close(source));
                    self.state = ConnectionState::Disconnected;
                },
                LifecycleEvent::DataReceived(_) => {
                    effects.push(Effect::Notify(Notification::MessageReceived));
                },
            }
        }
        assert(effects.deep_view() =~= old(self)@.event_actions(source@, event));
        effects
    }

    /// Takes one step: the machine moves as the model does on the input, and
    /// hands out what the step asks for. The one step that can fail is a
    /// connect whose transport could not be opened: its error is handed on.
    pub fn dispatch(&mut self, command: Command) -> (result: Result<Vec<Effect>, ConnectError>)
        requires
            command@ == Input::Connect(true) ==> old(self)@.issued < u64::MAX,
        ensures
            final(self)@ == old(self)@.step(command@),
            match command.failure() {
                Some(error) => result == Err::<Vec<Effect>, ConnectError>(error),
                None => {
                    &&& result matches Ok(effects)
                    &&& effects.deep_view() == old(self)@.actions(command@)
                },
            },
    {
        match command {
            Command::Connect(opened) => self.request_connect(opened),
            Command::Disconnect => Ok(self.request_disconnect()),
            Command::Lifecycle(source, event) => Ok(self.handle_lifecycle_event(source, event)),
        }
    }
}

} // verus!
