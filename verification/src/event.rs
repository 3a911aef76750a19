//! What goes into the connection machine and what comes out of it: user
//! intents and lifecycle events on one side, effects on the other.

use vstd::prelude::*;
use crate::handle::Handle;

verus! {

/// What the transport reports about one session.
///
/// The payload of `DataReceived` is the frame as it arrived, text or binary.
/// The machine never looks into it.
#[derive(Clone, Debug, PartialEq, Eq)]
pub enum LifecycleEvent {
    /// The transport is ready.
    Opened,
    /// The session was ended, by this side or by the remote one.
    Closed,
    /// The transport failed.
    Error,
    /// One inbound frame.
    DataReceived(Vec<u8>),
}

/// What the user asks for through the control surface.
#[derive(Clone, Debug, PartialEq, Eq)]
pub enum UserIntent {
    /// Connect to the given address, of the form `host:port`.
    RequestConnect(String),
    /// Give up the connection, if there is one.
    RequestDisconnect,
}

impl UserIntent {
    /// The address that the intent carries, if it asks for a connection.
    pub open spec fn address(&self) -> Option<Seq<char>> {
        match self {
            UserIntent::RequestConnect(address) => Some(address@),
            UserIntent::RequestDisconnect => None,
        }
    }

    /// The intent to connect to `address` as the user typed it. The only
    /// check is that something was typed: an empty address gives no intent.
    pub fn connect(address: &str) -> (intent: Option<UserIntent>)
        ensures
            intent is Some <==> address@.len() > 0,
            intent matches Some(i) ==> i.address() == Some(address@),
    {
        if address.is_empty() {
            None
        } else {
            Some(UserIntent::RequestConnect(address.to_owned()))
        }
    }
}

/// A message for the user.
#[derive(Clone, Copy, Debug, PartialEq, Eq, Structural, Hash)]
pub enum Notification {
    Opened,
    Closed,
    Error,
    MessageReceived,
}

impl Notification {
    /// The text of the notification.
    pub open spec fn text(&self) -> Seq<char> {
        match self {
            Notification::Opened => "Opened"@,
            Notification::Closed => "Closed"@,
            Notification::Error => "Error"@,
            Notification::MessageReceived => "Message received"@,
        }
    }

    /// The text to hand to the notification collaborator.
    pub fn message(&self) -> (text: &'static str)
        ensures
            text@ == self.text(),
    {
        match self {
            Notification::Opened => "Opened",
            Notification::Closed => "Closed",
            Notification::Error => "Error",
            Notification::MessageReceived => "Message received",
        }
    }
}

/// The mathematical form of an effect: the handle is given by its identity.
pub enum Action {
    /// Show the notification to the user.
    Notify(Notification),
    /// Close the transport session with this identity and let go of it.
    Close(nat),
}

/// Something the surrounding program has to carry out after the machine has
/// taken a step. Effects are handed out in the order in which they are to be
/// carried out.
#[derive(Clone, Copy, Debug, PartialEq, Eq, Structural, Hash)]
pub enum Effect {
    /// Show the notification to the user.
    Notify(Notification),
    /// Close the transport session behind the handle and let go of it.
    /// Closing a session that has ended already must do no harm.
    Close(Handle),
}

impl View for Effect {
    type V = Action;

    open spec fn view(&self) -> Action {
        match self {
            Effect::Notify(notification) => Action::Notify(*notification),
            Effect::Close(handle) => Action::Close(handle@),
        }
    }
}

impl DeepView for Effect {
    type V = Action;

    open spec fn deep_view(&self) -> Action {
        self@
    }
}

} // verus!
