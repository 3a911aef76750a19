//! Laws of the connection machine, proved of the model for every state and
//! every sequence of inputs.

use vstd::prelude::*;
use crate::event::{Action, LifecycleEvent, Notification};
use crate::model::{Input, Model};

verus! {

/// The exact statement of what a run of inputs of one kind asks for: one
/// notification of a received message for each.
pub open spec fn message_notices(count: nat) -> Seq<Action> {
    Seq::new(count, |i: int| Action::Notify(Notification::MessageReceived))
}

/// The inputs are all received data of the session `source`.
pub open spec fn all_data_of(inputs: Seq<Input>, source: nat) -> bool {
    forall|i: int|
        0 <= i < inputs.len() ==> (#[trigger] inputs[i] matches Input::Lifecycle(from, event)
            && from == source && event is DataReceived)
}

/// Whatever the inputs, a machine that is well formed stays so, and it never
/// takes back a handle that it has issued.
pub proof fn lemma_run_keeps_wf(machine: Model, inputs: Seq<Input>)
    requires
        machine.wf(),
    ensures
        machine.run(inputs).wf(),
        machine.run(inputs).issued >= machine.issued,
    decreases inputs.len(),
{
    if inputs.len() > 0 {
        lemma_run_keeps_wf(machine, inputs.drop_last());
    }
}

/// The machine is connected exactly when it holds a handle, after every
/// sequence of inputs.
pub proof fn lemma_connected_means_handle(machine: Model, inputs: Seq<Input>)
    ensures
        machine.run(inputs).connected() <==> machine.run(inputs).current is Some,
{
}

/// There is one way into the connected state: a connect whose transport was
/// opened. The machine then holds the handle issued for that connect.
pub proof fn lemma_connected_only_by_connect(machine: Model, input: Input)
    requires
        !machine.connected(),
        machine.step(input).connected(),
    ensures
        input == Input::Connect(true),
        machine.step(input).owns(machine.issued),
{
}

/// There are three ways out of holding a handle: a disconnect, a `Closed`
/// or `Error` event of the session behind that handle, and a connect that
/// puts a new handle in its place. No other input makes the machine let go.
pub proof fn lemma_let_go_only_by_end(machine: Model, handle: nat, input: Input)
    requires
        machine.owns(handle),
        !machine.step(input).owns(handle),
    ensures
        input == Input::Disconnect || input == Input::Connect(true) || (input matches Input::Lifecycle(
            source,
            event,
        ) && source == handle && (event is Closed || event is Error)),
{
}

/// An event of a session that the machine does not hold is dropped: the
/// machine stays as it is and nothing is asked for.
pub proof fn lemma_stale_event_dropped(machine: Model, source: nat, event: LifecycleEvent)
    requires
        !machine.owns(source),
    ensures
        machine.after_event(source, event) == machine,
        machine.event_actions(source, event) == Seq::<Action>::empty(),
{
}

/// A handle that the machine has let go of never comes back, whatever
/// happens afterwards.
pub proof fn lemma_retired_for_good(machine: Model, handle: nat, inputs: Seq<Input>)
    requires
        machine.wf(),
        machine.retired(handle),
    ensures
        machine.run(inputs).retired(handle),
    decreases inputs.len(),
{
    if inputs.len() > 0 {
        lemma_retired_for_good(machine, handle, inputs.drop_last());
        lemma_run_keeps_wf(machine, inputs.drop_last());
    }
}

/// Connect, disconnect, connect again: the machine then holds the second
/// handle, which is not the first, and from then on every event of the
/// first session is dropped. This holds whatever else happens while the
/// first connection stands, between the two connections and after the
/// second connect.
pub proof fn lemma_superseded_session_ignored(
    machine: Model,
    during: Seq<Input>,
    between: Seq<Input>,
    later: Seq<Input>,
    event: LifecycleEvent,
)
    requires
        machine.wf(),
    ensures
        ({
            let first = machine.issued;
            let left = machine.connect().run(during).disconnect();
            let second = left.run(between).issued;
            let reconnected = left.run(between).connect();
            let now = reconnected.run(later);
            &&& machine.connect().owns(first)
            &&& reconnected.owns(second)
            &&& first != second
            &&& now.after_event(first, event) == now
            &&& now.event_actions(first, event) == Seq::<Action>::empty()
        }),
{
    let first = machine.issued;
    lemma_run_keeps_wf(machine.connect(), during);
    let left = machine.connect().run(during).disconnect();
    lemma_run_keeps_wf(left, between);
    lemma_retired_for_good(left, first, between);
    let reconnected = left.run(between).connect();
    lemma_retired_for_good(reconnected, first, later);
}

/// A handle is to be closed exactly when the machine lets go of it: no
/// handle is dropped without being closed, and none is closed while the
/// machine still holds it.
pub proof fn lemma_closed_exactly_when_let_go(machine: Model, handle: nat, input: Input)
    requires
        machine.wf(),
    ensures
        machine.actions(input).contains(Action::Close(handle)) <==> machine.owns(handle)
            && !machine.step(input).owns(handle),
{
    let actions = machine.actions(input);
    if machine.owns(handle) && !machine.step(input).owns(handle) {
        assert(actions[actions.len() - 1] == Action::Close(handle));
    }
}

/// Notifications come from lifecycle events alone: neither a connect,
/// whether it succeeds or fails, nor a disconnect asks for one.
pub proof fn lemma_intents_notify_nothing(machine: Model, input: Input, notification: Notification)
    requires
        input !is Lifecycle,
    ensures
        !machine.actions(input).contains(Action::Notify(notification)),
{
}

/// Disconnecting a machine that is disconnected changes nothing and asks for
/// nothing.
pub proof fn lemma_disconnect_when_disconnected(machine: Model)
    requires
        !machine.connected(),
    ensures
        machine.disconnect() == machine,
        machine.release() == Seq::<Action>::empty(),
        machine.step(Input::Disconnect) == machine,
        machine.actions(Input::Disconnect) == Seq::<Action>::empty(),
{
}

/// A connect followed at once by a disconnect leaves the machine
/// disconnected, and the handle of that connect is the one to be closed.
pub proof fn lemma_connect_then_disconnect(machine: Model)
    ensures
        !machine.connect().disconnect().connected(),
        machine.connect().disconnect().current is None,
        machine.connect().release() == seq![Action::Close(machine.issued)],
        machine.connect().disconnect().retired(machine.issued),
{
}

/// A connect whose transport could not be opened changes nothing and asks
/// for nothing.
pub proof fn lemma_failed_connect_changes_nothing(machine: Model)
    ensures
        machine.step(Input::Connect(false)) == machine,
        machine.actions(Input::Connect(false)) == Seq::<Action>::empty(),
{
}

/// What a received frame holds makes no difference to the machine.
pub proof fn lemma_payload_ignored(machine: Model, source: nat, one: Vec<u8>, other: Vec<u8>)
    ensures
        machine.after_event(source, LifecycleEvent::DataReceived(one)) == machine.after_event(
            source,
            LifecycleEvent::DataReceived(other),
        ),
        machine.event_actions(source, LifecycleEvent::DataReceived(one)) == machine.event_actions(
            source,
            LifecycleEvent::DataReceived(other),
        ),
{
}

/// While the machine is connected, received data of its session leaves it
/// connected as it is, and each frame asks for exactly one notification, in
/// the order of arrival.
pub proof fn lemma_data_notified_once_each(machine: Model, source: nat, inputs: Seq<Input>)
    requires
        machine.owns(source),
        all_data_of(inputs, source),
    ensures
        machine.run(inputs) == machine,
        machine.trace(inputs) == message_notices(inputs.len()),
    decreases inputs.len(),
{
    if inputs.len() > 0 {
        lemma_data_notified_once_each(machine, source, inputs.drop_last());
    }
    assert(machine.trace(inputs) =~= message_notices(inputs.len()));
}

} // verus!
