use client::event::{Effect, LifecycleEvent, Notification, UserIntent};
use client::machine::{ConnectionMachine, ConnectionState};
use client::screen::{DrawSurface, Screen};
use client::transport::ConnectError;

fn connected_machine() -> ConnectionMachine {
    let mut machine = ConnectionMachine::new();
    let opened = machine.request_connect(Ok(()));
    assert_eq!(opened, Ok(vec![]));
    machine
}

#[test]
fn connect_to_localhost_mounts_the_surface() {
    let mut machine = ConnectionMachine::new();
    assert_eq!(machine.state(), ConnectionState::Disconnected);
    assert!(!machine.is_connected());
    assert_eq!(Screen::of(&machine), Screen { connected: false, surface: None });

    let intent = UserIntent::connect("localhost:9000");
    assert_eq!(intent, Some(UserIntent::RequestConnect(String::from("localhost:9000"))));

    let request = machine.open_request("localhost:9000");
    assert_eq!(request.url, "ws://localhost:9000");
    assert_eq!(request.handle, machine.next_handle());
    assert_eq!(machine.state(), ConnectionState::Disconnected);

    let opened = machine.request_connect(Ok(()));
    assert_eq!(opened, Ok(vec![]));
    assert_eq!(machine.state(), ConnectionState::Connected(request.handle));
    assert!(machine.is_connected());

    let screen = Screen::of(&machine);
    assert!(screen.connected);
    assert_eq!(screen.surface, Some(DrawSurface { width: 1600, height: 900 }));
}

#[test]
fn closed_by_the_transport_disconnects_and_notifies_once() {
    let mut machine = connected_machine();
    let handle = machine.state().handle().unwrap();

    let effects = machine.handle_lifecycle_event(handle, LifecycleEvent::Closed);
    assert_eq!(effects, vec![Effect::Notify(Notification::Closed), Effect::Close(handle)]);
    let notices: Vec<&str> = effects
        .iter()
        .filter_map(|effect| match effect {
            Effect::Notify(notification) => Some(notification.message()),
            Effect::Close(_) => None,
        })
        .collect();
    assert_eq!(notices, vec!["Closed"]);

    assert_eq!(machine.state(), ConnectionState::Disconnected);
    assert!(!machine.is_connected());
    assert_eq!(Screen::of(&machine), Screen { connected: false, surface: None });

    let again = machine.handle_lifecycle_event(handle, LifecycleEvent::Closed);
    assert_eq!(again, vec![]);
}

#[test]
fn rejected_address_leaves_the_machine_disconnected() {
    let mut machine = ConnectionMachine::new();
    let before = machine.clone();
    let error = ConnectError::new(String::from("Failed to created websocket with given URL"));

    let result = machine.request_connect(Err(error.clone()));
    assert_eq!(result, Err(error));
    assert_eq!(machine, before);
    assert_eq!(machine.state(), ConnectionState::Disconnected);
    assert!(!machine.is_connected());
    assert_eq!(Screen::of(&machine).surface, None);
}

#[test]
fn rejected_address_keeps_an_existing_connection() {
    let mut machine = connected_machine();
    let before = machine.clone();
    let error = ConnectError::new(String::from("failed to build websocket"));

    let result = machine.request_connect(Err(error.clone()));
    assert_eq!(result, Err(error));
    assert_eq!(machine, before);
    assert!(machine.is_connected());
}

#[test]
fn data_received_notifies_once_per_frame_in_order() {
    let mut machine = connected_machine();
    let handle = machine.state().handle().unwrap();
    let frames: Vec<Vec<u8>> = vec![vec![1, 2, 3], vec![], b"text frame".to_vec()];

    let mut shown: Vec<&str> = Vec::new();
    for frame in frames {
        let effects = machine.handle_lifecycle_event(handle, LifecycleEvent::DataReceived(frame));
        assert_eq!(effects, vec![Effect::Notify(Notification::MessageReceived)]);
        for effect in effects {
            if let Effect::Notify(notification) = effect {
                shown.push(notification.message());
            }
        }
        assert_eq!(machine.state(), ConnectionState::Connected(handle));
    }
    assert_eq!(shown, vec!["Message received", "Message received", "Message received"]);
}

#[test]
fn events_of_a_superseded_handle_are_dropped() {
    let mut machine = ConnectionMachine::new();
    let first = machine.open_request("host:1234").handle;
    assert_eq!(machine.request_connect(Ok(())), Ok(vec![]));
    assert_eq!(machine.request_disconnect(), vec![Effect::Close(first)]);

    let second = machine.open_request("host:1234").handle;
    assert_eq!(machine.request_connect(Ok(())), Ok(vec![]));
    assert_ne!(first, second);
    assert_eq!(machine.state(), ConnectionState::Connected(second));

    let stale = vec![
        LifecycleEvent::Opened,
        LifecycleEvent::DataReceived(vec![7]),
        LifecycleEvent::Error,
        LifecycleEvent::Closed,
    ];
    for event in stale {
        let before = machine.clone();
        assert_eq!(machine.handle_lifecycle_event(first, event), vec![]);
        assert_eq!(machine, before);
        assert_eq!(machine.state(), ConnectionState::Connected(second));
    }

    assert_eq!(
        machine.handle_lifecycle_event(second, LifecycleEvent::Opened),
        vec![Effect::Notify(Notification::Opened)]
    );
    assert_eq!(machine.handle_lifecycle_event(first, LifecycleEvent::Closed), vec![]);
    assert_eq!(
        machine.handle_lifecycle_event(second, LifecycleEvent::Closed),
        vec![Effect::Notify(Notification::Closed), Effect::Close(second)]
    );
    assert_eq!(machine.state(), ConnectionState::Disconnected);
}

#[test]
fn disconnect_when_disconnected_does_nothing() {
    let mut machine = ConnectionMachine::new();
    let before = machine.clone();
    assert_eq!(machine.request_disconnect(), vec![]);
    assert_eq!(machine, before);
    assert_eq!(machine.state(), ConnectionState::Disconnected);

    let mut used = connected_machine();
    let handle = used.state().handle().unwrap();
    assert_eq!(used.request_disconnect(), vec![Effect::Close(handle)]);
    let before = used.clone();
    assert_eq!(used.request_disconnect(), vec![]);
    assert_eq!(used, before);
}

#[test]
fn connect_then_disconnect_retains_no_handle() {
    let mut machine = ConnectionMachine::new();
    let request = machine.open_request("host:1234");
    assert_eq!(request.url, "ws://host:1234");
    assert_eq!(machine.request_connect(Ok(())), Ok(vec![]));

    let effects = machine.request_disconnect();
    assert_eq!(effects, vec![Effect::Close(request.handle)]);
    assert_eq!(machine.state(), ConnectionState::Disconnected);
    assert_eq!(machine.state().handle(), None);
    assert!(!machine.is_connected());
}
