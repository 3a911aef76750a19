//! The connection machine as mathematics: its state, its transitions and the
//! actions that each transition asks for. The executable machine is specified
//! against this model, and the laws of the crate are stated over it.

use vstd::prelude::*;
use crate::event::{Action, LifecycleEvent, Notification};

verus! {

/// The state of the machine.
pub struct Model {
    /// The identity of the handle that the machine holds, if it is connected.
    pub current: Option<nat>,
    /// How many handles have been issued so far. Handles are numbered in
    /// the order of their issue, so this is also the identity of the next.
    pub issued: nat,
}

/// One input to the machine.
pub enum Input {
    /// The user asked to connect; the flag says whether the transport could
    /// be opened.
    Connect(bool),
    /// The user asked to disconnect.
    Disconnect,
    /// The transport session with the given identity reported an event.
    Lifecycle(nat, LifecycleEvent),
}

impl Model {
    /// The machine at application start: disconnected, no handle issued.
    pub open spec fn initial() -> Model {
        Model { current: None, issued: 0 }
    }

    /// The handle that the machine holds has been issued.
    pub open spec fn wf(self) -> bool {
        self.current matches Some(handle) ==> handle < self.issued
    }

    /// The machine holds a handle.
    pub open spec fn connected(self) -> bool {
        self.current is Some
    }

    /// The machine holds this very handle.
    pub open spec fn owns(self, handle: nat) -> bool {
        self.current == Some(handle)
    }

    /// The handle was issued once and the machine no longer holds it.
    pub open spec fn retired(self, handle: nat) -> bool {
        handle < self.issued && !self.owns(handle)
    }

    /// What letting go of the current handle asks for: to close it, if there
    /// is one.
    pub open spec fn release(self) -> Seq<Action> {
        match self.current {
            Some(handle) => seq![Action::Close(handle)],
            None => Seq::empty(),
        }
    }

    /// The machine after a connect whose transport was opened: it holds the
    /// next handle.
    pub open spec fn connect(self) -> Model {
        Model { current: Some(self.issued), issued: self.issued + 1 }
    }

    /// The machine after a disconnect.
    pub open spec fn disconnect(self) -> Model {
        Model { current: None, issued: self.issued }
    }

    /// The machine after a lifecycle event from the session `source`. An
    /// event from any session but the current one changes nothing.
    pub open spec fn after_event(self, source: nat, event: LifecycleEvent) -> Model {
        if !self.owns(source) {
            self
        } else {
            match event {
                LifecycleEvent::Opened => self,
                LifecycleEvent::Closed => self.disconnect(),
                LifecycleEvent::Error => self.disconnect(),
                LifecycleEvent::DataReceived(_) => self,
            }
        }
    }

    /// What a lifecycle event from the session `source` asks for.
    pub open spec fn event_actions(self, source: nat, event: LifecycleEvent) -> Seq<Action> {
        if !self.owns(source) {
            Seq::empty()
        } else {
            match event {
                LifecycleEvent::Opened => seq![Action::Notify(Notification::Opened)],
                LifecycleEvent::Closed => seq![
                    Action::Notify(Notification::Closed),
                    Action::Close(source),
                ],
                LifecycleEvent::Error => seq![
                    Action::Notify(Notification::Error),
                    Action::Close(source),
                ],
                LifecycleEvent::DataReceived(_) => seq![
                    Action::Notify(Notification::MessageReceived),
                ],
            }
        }
    }

    /// The machine after one input.
    pub open spec fn step(self, input: Input) -> Model {
        match input {
            Input::Connect(opened) => if opened {
                self.connect()
            } else {
                self
            },
            Input::Disconnect => self.disconnect(),
            Input::Lifecycle(source, event) => self.after_event(source, event),
        }
    }

    /// What one input asks for.
    pub open spec fn actions(self, input: Input) -> Seq<Action> {
        match input {
            Input::Connect(opened) => if opened {
                self.release()
            } else {
                Seq::empty()
            },
            Input::Disconnect => self.release(),
            Input::Lifecycle(source, event) => self.event_actions(source, event),
        }
    }

    /// The machine after a sequence of inputs, taken in order.
    pub open spec fn run(self, inputs: Seq<Input>) -> Model
        decreases inputs.len(),
    {
        if inputs.len() == 0 {
            self
        } else {
            self.run(inputs.drop_last()).step(inputs.last())
        }
    }

    /// Everything that a sequence of inputs asks for, in order.
    pub open spec fn trace(self, inputs: Seq<Input>) -> Seq<Action>
        decreases inputs.len(),
    {
        if inputs.len() == 0 {
            Seq::empty()
        } else {
            self.trace(inputs.drop_last()) + self.run(inputs.drop_last()).actions(inputs.last())
        }
    }
}

} // verus!
