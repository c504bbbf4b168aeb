use connection_core::types::address::Address;
use connection_core::types::state::{
    ClientState, ConnectionState, StateTransition, StateTransitionResult,
};
use socket2::{Domain, Socket, Type};
use tokio::io::{AsyncReadExt, AsyncWriteExt};
use tokio::net::tcp::OwnedWriteHalf;
use tokio::net::TcpStream;
use tokio::runtime::{Builder, Runtime};

fn runtime() -> Runtime {
    Builder::new_current_thread().enable_all().build().unwrap()
}

/// The write handle of one end of a connected pair of stream sockets, and the
/// other end. The pair needs no network interface.
fn writer(runtime: &Runtime) -> (OwnedWriteHalf, TcpStream) {
    let _context = runtime.enter();
    let (near, far) = Socket::pair(Domain::UNIX, Type::STREAM, None).unwrap();
    near.set_nonblocking(true).unwrap();
    far.set_nonblocking(true).unwrap();
    let near = TcpStream::from_std(near.into()).unwrap();
    let far = TcpStream::from_std(far.into()).unwrap();
    let (_, writer) = near.into_split();
    (writer, far)
}

/// Whether `handle` writes to the socket whose other end is `far`.
fn writes_to(runtime: &Runtime, handle: &mut OwnedWriteHalf, far: &mut TcpStream) -> bool {
    runtime.block_on(async {
        handle.write_all(&[42]).await.unwrap();
        let mut byte = [0u8; 1];
        far.read_exact(&mut byte).await.unwrap();
        byte[0] == 42
    })
}

/// Whether nothing can be read from `far` as things stand.
fn is_silent(far: &TcpStream) -> bool {
    let mut byte = [0u8; 1];
    far.try_read(&mut byte).is_err()
}

fn address() -> Address {
    Address::new(String::from("host"), 1234)
}

fn connected(runtime: &Runtime) -> (ConnectionState, TcpStream) {
    let (handle, far) = writer(runtime);
    let mut state = ConnectionState::new();
    state.transition(StateTransition::ToConnecting(address()));
    state.transition(StateTransition::ToConnected(handle));
    (state, far)
}

#[test]
fn new_state_is_disconnected() {
    let state = ConnectionState::new();
    assert!(matches!(state, ConnectionState::Disconnected));
    let reported = ClientState::from(&state);
    assert!(reported.is_disconnected());
    assert_eq!(reported.to_string(), "Disconnected");
}

#[test]
fn connect_reports_connected_with_address() {
    let runtime = runtime();
    let (handle, mut far) = writer(&runtime);
    let mut state = ConnectionState::new();

    let first = state.transition(StateTransition::ToConnecting(address()));
    assert!(matches!(first, StateTransitionResult::Nothing));
    let reported = ClientState::from(&state);
    assert_eq!(reported.to_string(), "Connecting(host:1234)");
    assert!(reported.is_connecting());
    assert!(!reported.is_connected());
    assert!(!reported.is_disconnected());
    assert!(!reported.is_disconnecting());

    let second = state.transition(StateTransition::ToConnected(handle));
    assert!(matches!(second, StateTransitionResult::Nothing));
    let reported = ClientState::from(&state);
    assert_eq!(reported.to_string(), "Connected(host:1234)");
    assert!(reported.is_connected());
    assert!(!reported.is_connecting());
    assert!(!reported.is_disconnected());
    assert!(!reported.is_disconnecting());
    match &mut state {
        ConnectionState::Connected(at, held) => {
            assert_eq!(at.to_string(), "host:1234");
            assert!(writes_to(&runtime, held, &mut far));
        }
        _ => panic!("the state is not connected"),
    }
}

#[test]
fn disconnect_hands_the_writer_back_once() {
    let runtime = runtime();
    let (mut state, mut far) = connected(&runtime);

    let first = state.transition(StateTransition::ToDisconnecting);
    match first {
        StateTransitionResult::Writer(mut handle) => {
            assert!(writes_to(&runtime, &mut handle, &mut far));
        }
        StateTransitionResult::Nothing => panic!("no writer came back"),
    }
    assert!(matches!(state, ConnectionState::Disconnecting(None)));
    let reported = ClientState::from(&state);
    assert!(reported.is_disconnecting());
    assert_eq!(reported.to_string(), "Disconnecting");

    let second = state.transition(StateTransition::ToDisconnected);
    assert!(matches!(second, StateTransitionResult::Nothing));
    assert!(matches!(state, ConnectionState::Disconnected));
    let reported = ClientState::from(&state);
    assert!(reported.is_disconnected());
    assert_eq!(reported.to_string(), "Disconnected");
}

#[test]
fn cancelled_connect_hands_back_nothing() {
    let mut state = ConnectionState::new();
    state.transition(StateTransition::ToConnecting(address()));

    let first = state.transition(StateTransition::ToDisconnecting);
    assert!(matches!(first, StateTransitionResult::Nothing));
    assert!(matches!(state, ConnectionState::Disconnecting(None)));
    assert!(ClientState::from(&state).is_disconnecting());

    let second = state.transition(StateTransition::ToDisconnected);
    assert!(matches!(second, StateTransitionResult::Nothing));
    assert!(matches!(state, ConnectionState::Disconnected));
    assert!(ClientState::from(&state).is_disconnected());
}

#[test]
fn writer_still_held_while_disconnecting_comes_back() {
    let runtime = runtime();
    let (handle, mut far) = writer(&runtime);
    let mut state = ConnectionState::Disconnecting(Some(handle));
    assert!(ClientState::from(&state).is_disconnecting());

    let result = state.transition(StateTransition::ToDisconnected);
    match result {
        StateTransitionResult::Writer(mut handle) => {
            assert!(writes_to(&runtime, &mut handle, &mut far));
        }
        StateTransitionResult::Nothing => panic!("no writer came back"),
    }
    assert!(matches!(state, ConnectionState::Disconnected));
}

#[test]
fn each_cycle_hands_back_its_own_writer() {
    let runtime = runtime();
    let (first_handle, mut first_far) = writer(&runtime);
    let (second_handle, mut second_far) = writer(&runtime);
    let mut state = ConnectionState::new();

    state.transition(StateTransition::ToConnecting(Address::new(String::from("one"), 1)));
    state.transition(StateTransition::ToConnected(first_handle));
    let back = state.transition(StateTransition::ToDisconnecting);
    match back {
        StateTransitionResult::Writer(mut handle) => {
            assert!(writes_to(&runtime, &mut handle, &mut first_far));
            assert!(is_silent(&second_far));
        }
        StateTransitionResult::Nothing => panic!("no writer came back"),
    }
    let back = state.transition(StateTransition::ToDisconnected);
    assert!(matches!(back, StateTransitionResult::Nothing));

    state.transition(StateTransition::ToConnecting(Address::new(String::from("two"), 2)));
    state.transition(StateTransition::ToConnected(second_handle));
    assert_eq!(ClientState::from(&state).to_string(), "Connected(two:2)");
    let back = state.transition(StateTransition::ToDisconnecting);
    match back {
        StateTransitionResult::Writer(mut handle) => {
            assert!(writes_to(&runtime, &mut handle, &mut second_far));
        }
        StateTransitionResult::Nothing => panic!("no writer came back"),
    }
    let back = state.transition(StateTransition::ToDisconnected);
    assert!(matches!(back, StateTransitionResult::Nothing));
    assert!(matches!(state, ConnectionState::Disconnected));
}

#[test]
fn only_the_edges_of_the_lifecycle_can_be_applied() {
    let runtime = runtime();
    let (handle, _far) = writer(&runtime);
    let to_connecting = StateTransition::ToConnecting(address());
    let to_connected = StateTransition::ToConnected(handle);
    let to_disconnecting = StateTransition::ToDisconnecting;
    let to_disconnected = StateTransition::ToDisconnected;

    let disconnected = ConnectionState::Disconnected;
    assert!(disconnected.can_apply(&to_connecting));
    assert!(!disconnected.can_apply(&to_connected));
    assert!(!disconnected.can_apply(&to_disconnecting));
    assert!(!disconnected.can_apply(&to_disconnected));

    let connecting = ConnectionState::Connecting(address());
    assert!(!connecting.can_apply(&to_connecting));
    assert!(connecting.can_apply(&to_connected));
    assert!(connecting.can_apply(&to_disconnecting));
    assert!(!connecting.can_apply(&to_disconnected));

    let (connected, _connected_far) = connected(&runtime);
    assert!(!connected.can_apply(&to_connecting));
    assert!(!connected.can_apply(&to_connected));
    assert!(connected.can_apply(&to_disconnecting));
    assert!(!connected.can_apply(&to_disconnected));

    let idle = ConnectionState::Disconnecting(None);
    assert!(!idle.can_apply(&to_connecting));
    assert!(!idle.can_apply(&to_connected));
    assert!(!idle.can_apply(&to_disconnecting));
    assert!(idle.can_apply(&to_disconnected));

    let (held, _held_far) = writer(&runtime);
    let holding = ConnectionState::Disconnecting(Some(held));
    assert!(!holding.can_apply(&to_connecting));
    assert!(!holding.can_apply(&to_connected));
    assert!(!holding.can_apply(&to_disconnecting));
    assert!(holding.can_apply(&to_disconnected));
}

#[test]
fn reported_state_follows_each_variant() {
    let runtime = runtime();
    let (state, _far) = connected(&runtime);
    match ClientState::from(&state) {
        ClientState::Connected(at) => {
            assert_eq!(at.domain(), "host");
            assert_eq!(at.port(), 1234);
        }
        _ => panic!("not reported as connected"),
    }
    match ClientState::from(&ConnectionState::Connecting(address())) {
        ClientState::Connecting(at) => {
            assert_eq!(at.domain(), "host");
            assert_eq!(at.port(), 1234);
        }
        _ => panic!("not reported as connecting"),
    }
    assert!(matches!(
        ClientState::from(&ConnectionState::Disconnected),
        ClientState::Disconnected
    ));
    assert!(matches!(
        ClientState::from(&ConnectionState::Disconnecting(None)),
        ClientState::Disconnecting
    ));
    let (held, _held_far) = writer(&runtime);
    assert!(matches!(
        ClientState::from(&ConnectionState::Disconnecting(Some(held))),
        ClientState::Disconnecting
    ));
}

#[test]
fn each_stage_answers_to_one_query_only() {
    let connected = ClientState::Connected(address());
    assert!(connected.is_connected());
    assert!(!connected.is_connecting());
    assert!(!connected.is_disconnected());
    assert!(!connected.is_disconnecting());

    let connecting = ClientState::Connecting(address());
    assert!(!connecting.is_connected());
    assert!(connecting.is_connecting());
    assert!(!connecting.is_disconnected());
    assert!(!connecting.is_disconnecting());

    let disconnected = ClientState::Disconnected;
    assert!(!disconnected.is_connected());
    assert!(!disconnected.is_connecting());
    assert!(disconnected.is_disconnected());
    assert!(!disconnected.is_disconnecting());

    let disconnecting = ClientState::Disconnecting;
    assert!(!disconnecting.is_connected());
    assert!(!disconnecting.is_connecting());
    assert!(!disconnecting.is_disconnected());
    assert!(disconnecting.is_disconnecting());
}

#[test]
fn stages_are_shown_with_their_address() {
    assert_eq!(ClientState::Connected(address()).to_string(), "Connected(host:1234)");
    assert_eq!(ClientState::Connecting(address()).to_string(), "Connecting(host:1234)");
    assert_eq!(ClientState::Disconnected.to_string(), "Disconnected");
    assert_eq!(ClientState::Disconnecting.to_string(), "Disconnecting");
    let far_away = Address::new(String::from("broker.example.org"), 65535);
    assert_eq!(
        ClientState::Connected(far_away).to_string(),
        "Connected(broker.example.org:65535)"
    );
}

#[test]
fn cloned_state_shows_the_same() {
    let state = ClientState::Connecting(Address::new(String::from("10.0.0.7"), 4222));
    let copy = state.clone();
    assert!(copy.is_connecting());
    assert_eq!(copy.to_string(), "Connecting(10.0.0.7:4222)");
    assert_eq!(state.to_string(), "Connecting(10.0.0.7:4222)");
    assert!(ClientState::Disconnecting.clone().is_disconnecting());
}

#[test]
fn address_is_shown_as_host_and_port() {
    assert_eq!(Address::new(String::from("host"), 0).to_string(), "host:0");
    assert_eq!(Address::new(String::from("host"), 7).to_string(), "host:7");
    assert_eq!(Address::new(String::from("host"), 10).to_string(), "host:10");
    assert_eq!(Address::new(String::from("host"), 99).to_string(), "host:99");
    assert_eq!(Address::new(String::from("host"), 100).to_string(), "host:100");
    assert_eq!(Address::new(String::from("host"), 1234).to_string(), "host:1234");
    assert_eq!(Address::new(String::from("host"), 40960).to_string(), "host:40960");
    assert_eq!(Address::new(String::from("host"), 65535).to_string(), "host:65535");
    assert_eq!(Address::new(String::new(), 80).to_string(), ":80");
    assert_eq!(Address::new(String::from("::1"), 443).to_string(), "::1:443");
}

#[test]
fn address_keeps_its_parts() {
    let address = Address::new(String::from("example.org"), 8883);
    assert_eq!(address.domain(), "example.org");
    assert_eq!(address.port(), 8883);
    let copy = address.clone();
    assert_eq!(copy.domain(), "example.org");
    assert_eq!(copy.port(), 8883);
    assert_eq!(copy.to_string(), "example.org:8883");
}
