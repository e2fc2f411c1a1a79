use mumble_client::channel::{Channel, ChannelList};
use mumble_client::errors::{ErrorKind, ProtocolStateError};
use mumble_client::mumble::{
    ConnectionState, Dispatch, FullPolicy, MessageQueue, MumbleAction, MumbleClient, WaitStatus,
    MUMBLE_VERSION, QUEUE_CAPACITY,
};
use mumble_client::mumbleproto::{
    Authenticate, ChannelState, ControlMessage, Ping, ServerSync, UserState, Version,
};
use mumble_client::session::{SessionState, UserInfo};
use mumble_client::packet::{build_packet, MessageType, Packet};
use mumble_client::socket::{FrameReader, ReadEvent, DEFAULT_MAX_PAYLOAD};
use prost::bytes::{Buf, BufMut};
use prost::encoding::{skip_field, string, uint32, DecodeContext, WireType};
use prost::{DecodeError, Message};
use std::collections::VecDeque;
use tokio::sync::mpsc;
use tokio::sync::mpsc::error::{TryRecvError, TrySendError};

/// The body of a channel description as the server encodes it.
#[derive(Debug, Default, Clone, PartialEq)]
struct WireChannelState {
    channel_id: Option<u32>,
    parent: Option<u32>,
    name: Option<String>,
}

impl Message for WireChannelState {
    fn encode_raw(&self, buf: &mut impl BufMut) {
        if let Some(value) = &self.channel_id {
            uint32::encode(1, value, buf);
        }
        if let Some(value) = &self.parent {
            uint32::encode(2, value, buf);
        }
        if let Some(value) = &self.name {
            string::encode(3, value, buf);
        }
    }

    fn merge_field(
        &mut self,
        tag: u32,
        wire_type: WireType,
        buf: &mut impl Buf,
        ctx: DecodeContext,
    ) -> Result<(), DecodeError> {
        match tag {
            1 => uint32::merge(wire_type, self.channel_id.get_or_insert(0), buf, ctx),
            2 => uint32::merge(wire_type, self.parent.get_or_insert(0), buf, ctx),
            3 => string::merge(wire_type, self.name.get_or_insert_with(String::new), buf, ctx),
            _ => skip_field(wire_type, tag, buf, ctx),
        }
    }

    fn encoded_len(&self) -> usize {
        self.channel_id.as_ref().map_or(0, |value| uint32::encoded_len(1, value))
            + self.parent.as_ref().map_or(0, |value| uint32::encoded_len(2, value))
            + self.name.as_ref().map_or(0, |value| string::encoded_len(3, value))
    }

    fn clear(&mut self) {
        *self = WireChannelState::default();
    }
}

/// The body of a session confirmation as the server encodes it.
#[derive(Debug, Default, Clone, PartialEq)]
struct WireServerSync {
    session: Option<u32>,
}

impl Message for WireServerSync {
    fn encode_raw(&self, buf: &mut impl BufMut) {
        if let Some(value) = &self.session {
            uint32::encode(1, value, buf);
        }
    }

    fn merge_field(
        &mut self,
        tag: u32,
        wire_type: WireType,
        buf: &mut impl Buf,
        ctx: DecodeContext,
    ) -> Result<(), DecodeError> {
        match tag {
            1 => uint32::merge(wire_type, self.session.get_or_insert(0), buf, ctx),
            _ => skip_field(wire_type, tag, buf, ctx),
        }
    }

    fn encoded_len(&self) -> usize {
        self.session.as_ref().map_or(0, |value| uint32::encoded_len(1, value))
    }

    fn clear(&mut self) {
        *self = WireServerSync::default();
    }
}

fn channel(id: u32, parent: u32, name: &str) -> Channel {
    Channel { id, parent, name: name.to_string() }
}

fn channel_state(id: u32, parent: u32, name: &str) -> ControlMessage {
    ControlMessage::ChannelState(ChannelState {
        channel_id: Some(id),
        parent: Some(parent),
        name: Some(name.to_string()),
    })
}

fn server_sync(session: Option<u32>) -> ControlMessage {
    ControlMessage::ServerSync(ServerSync { session })
}

fn action(action: MumbleAction) -> MessageQueue {
    MessageQueue::Action { action }
}

fn received(message_type: MessageType, payload: &[u8]) -> MessageQueue {
    MessageQueue::PacketReceived { packet: Packet::from_message(message_type, payload).unwrap() }
}

/// A client that has authenticated as `name` and listens.
fn listening(name: &str) -> MumbleClient {
    let mut client = MumbleClient::new();
    client.set_username(name);
    client.authenticate(None, true).unwrap();
    client.listen().unwrap();
    client
}

/// A client whose session the server has confirmed under the given id.
fn live(name: &str, session: u32) -> MumbleClient {
    let mut client = listening(name);
    client.receive(server_sync(Some(session)));
    client
}

#[test]
fn protocol_constants() {
    assert_eq!(MUMBLE_VERSION, 0x1219);
    assert_eq!(QUEUE_CAPACITY, 3);
}

#[test]
fn new_client_is_connecting_and_knows_nothing() {
    let client = MumbleClient::new();
    assert_eq!(client.state(), ConnectionState::Connecting);
    assert!(!client.is_connected());
    assert!(!client.is_running());
    assert!(!client.session().is_connected());
    assert!(!client.session().has_session());
    assert_eq!(client.session().snapshot_channels(), ChannelList::default());
    assert_eq!(client.session().snapshot_user_info(), UserInfo::default());
    assert_eq!(
        UserInfo::default(),
        UserInfo { session_id: 0, name: String::new(), channel_id: 0 }
    );
    let session = SessionState::new();
    assert!(!session.is_connected());
    assert!(session.snapshot_channels().is_empty());
}

#[test]
fn authenticate_announces_version_then_credentials() {
    let mut client = MumbleClient::new();
    client
        .set_client_info(Some("bot"), Some("1.0"))
        .set_username("alice")
        .set_password(Some("secret"));
    let tokens = vec!["t1".to_string(), "t2".to_string()];
    let (version, credentials) = client.authenticate(Some(tokens), true).unwrap();
    assert_eq!(
        version,
        Version {
            version: Some(0x1219),
            release: None,
            os: Some("bot".to_string()),
            os_version: Some("1.0".to_string()),
        }
    );
    assert!(
        credentials
            == Authenticate {
                username: Some("alice".to_string()),
                password: Some("secret".to_string()),
                tokens: vec!["t1".to_string(), "t2".to_string()],
                celt_versions: vec![],
                opus: Some(true),
            }
    );
    assert_eq!(client.state(), ConnectionState::Authenticating);
    assert_eq!(client.session().snapshot_user_info().name, "alice");
}

#[test]
fn authenticate_without_configuration() {
    let mut client = MumbleClient::new();
    let (version, credentials) = client.authenticate(None, false).unwrap();
    assert_eq!(
        version,
        Version { version: Some(0x1219), release: None, os: None, os_version: None }
    );
    assert!(
        credentials
            == Authenticate {
                username: Some(String::new()),
                password: None,
                tokens: vec![],
                celt_versions: vec![],
                opus: Some(false),
            }
    );
}

#[test]
fn configuration_can_be_cleared_before_authentication() {
    let mut client = MumbleClient::new();
    client.set_client_info(Some("bot"), Some("1.0")).set_password(Some("secret"));
    client.set_client_info(None, Some("2.0")).set_password(None);
    let (version, credentials) = client.authenticate(None, false).unwrap();
    assert_eq!(version.os, None);
    assert_eq!(version.os_version, Some("2.0".to_string()));
    assert!(credentials.password.is_none());
}

#[test]
fn configuration_is_fixed_once_authentication_has_begun() {
    let mut client = MumbleClient::new();
    client.set_username("alice");
    client.authenticate(None, false).unwrap();
    client.set_username("mallory").set_password(Some("x")).set_client_info(Some("y"), None);
    assert_eq!(client.session().snapshot_user_info().name, "alice");
    client.listen().unwrap();
    client.receive(server_sync(Some(4)));
    client.set_username("mallory");
    let item = action(MumbleAction::SetComment { comment: "hi".to_string() });
    let decision = client.dispatch(item, 0);
    assert_eq!(
        decision,
        Dispatch::Send(ControlMessage::UserState(UserState {
            session: Some(4),
            name: Some("alice".to_string()),
            channel_id: None,
            comment: Some("hi".to_string()),
        }))
    );
}

#[test]
fn steps_out_of_turn_are_refused() {
    let mut client = MumbleClient::new();
    assert_eq!(client.listen(), Err(ProtocolStateError::WrongPhase));
    assert_eq!(client.state(), ConnectionState::Connecting);
    client.authenticate(None, false).unwrap();
    assert!(client.authenticate(None, false) == Err(ProtocolStateError::WrongPhase));
    assert_eq!(client.state(), ConnectionState::Authenticating);
    client.listen().unwrap();
    assert_eq!(client.state(), ConnectionState::AwaitingSync);
    assert_eq!(client.listen(), Err(ProtocolStateError::WrongPhase));
    assert!(client.authenticate(None, false) == Err(ProtocolStateError::WrongPhase));
    assert_eq!(client.state(), ConnectionState::AwaitingSync);
    assert!(client.is_running());
}

#[test]
fn server_sync_makes_the_client_live() {
    let mut client = listening("alice");
    assert_eq!(client.state(), ConnectionState::AwaitingSync);
    assert!(!client.is_connected());
    client.receive(server_sync(Some(42)));
    assert_eq!(client.state(), ConnectionState::Live);
    assert!(client.is_connected());
    assert!(client.session().is_connected());
    assert!(client.session().has_session());
    assert_eq!(
        client.session().snapshot_user_info(),
        UserInfo { session_id: 42, name: "alice".to_string(), channel_id: 0 }
    );
}

#[test]
fn first_server_sync_wins() {
    let mut client = listening("alice");
    client.receive(server_sync(Some(42)));
    client.receive(server_sync(Some(43)));
    assert_eq!(client.session().snapshot_user_info().session_id, 42);
    assert!(client.is_connected());
    client.receive(server_sync(None));
    assert_eq!(client.session().snapshot_user_info().session_id, 42);
    assert!(client.session().has_session());
    assert!(client.is_connected());
}

#[test]
fn server_sync_without_session_connects_but_is_not_ready() {
    let mut client = listening("alice");
    client.receive(server_sync(None));
    assert!(client.is_connected());
    assert!(!client.session().has_session());
    assert_eq!(client.session().snapshot_user_info().session_id, 0);
    let item = client.join_channel(channel(3, 0, "Lobby")).unwrap();
    assert_eq!(client.dispatch(item, 0), Dispatch::Refuse(ProtocolStateError::NotReady));
    let item = client.set_comment("hello").unwrap();
    assert_eq!(client.dispatch(item, 0), Dispatch::Refuse(ProtocolStateError::NotReady));
    client.receive(server_sync(Some(9)));
    assert!(!client.session().has_session());
}

#[test]
fn commands_are_refused_until_connected() {
    let mut client = MumbleClient::new();
    assert_eq!(client.join_channel(channel(1, 0, "a")), Err(ProtocolStateError::NotConnected));
    assert_eq!(client.set_comment("hi"), Err(ProtocolStateError::NotConnected));
    assert_eq!(client.get_channels(), Err(ProtocolStateError::NotConnected));
    client.authenticate(None, false).unwrap();
    assert_eq!(client.join_channel(channel(1, 0, "a")), Err(ProtocolStateError::NotConnected));
    assert_eq!(client.set_comment("hi"), Err(ProtocolStateError::NotConnected));
    assert_eq!(client.get_channels(), Err(ProtocolStateError::NotConnected));
    client.listen().unwrap();
    assert_eq!(client.join_channel(channel(1, 0, "a")), Err(ProtocolStateError::NotConnected));
    assert_eq!(client.set_comment("hi"), Err(ProtocolStateError::NotConnected));
    assert_eq!(client.get_channels(), Err(ProtocolStateError::NotConnected));
    client.receive(server_sync(Some(1)));
    assert_eq!(
        client.join_channel(channel(1, 0, "a")),
        Ok(action(MumbleAction::MoveChannel { channel: channel(1, 0, "a") }))
    );
    assert_eq!(
        client.set_comment("hi"),
        Ok(action(MumbleAction::SetComment { comment: "hi".to_string() }))
    );
    assert_eq!(client.get_channels(), Ok(ChannelList::default()));
}

#[test]
fn commands_that_reach_the_dispatcher_before_the_sync_write_nothing() {
    let client = listening("alice");
    assert_eq!(
        client.dispatch(action(MumbleAction::MoveChannel { channel: channel(1, 0, "a") }), 0),
        Dispatch::Refuse(ProtocolStateError::NotConnected)
    );
    assert_eq!(
        client.dispatch(action(MumbleAction::SetComment { comment: "hi".to_string() }), 0),
        Dispatch::Refuse(ProtocolStateError::NotConnected)
    );
    let idle = MumbleClient::new();
    assert_eq!(
        idle.dispatch(action(MumbleAction::SetComment { comment: "hi".to_string() }), 0),
        Dispatch::Refuse(ProtocolStateError::NotConnected)
    );
    assert_eq!(idle.dispatch(action(MumbleAction::Ping), 0), Dispatch::Ignore);
    assert_eq!(idle.dispatch(received(MessageType::ServerSync, &[8, 1]), 0), Dispatch::Ignore);
}

#[test]
fn heartbeat_is_stamped_with_the_time() {
    let client = listening("alice");
    assert_eq!(
        client.dispatch(action(MumbleAction::Ping), 1_700_000_000_123),
        Dispatch::Send(ControlMessage::Ping(Ping { timestamp: Some(1_700_000_000_123) }))
    );
    let client = live("alice", 1);
    assert_eq!(
        client.dispatch(action(MumbleAction::Ping), 5),
        Dispatch::Send(ControlMessage::Ping(Ping { timestamp: Some(5) }))
    );
}

#[test]
fn move_channel_addresses_the_own_session() {
    let client = live("alice", 42);
    let item = client.join_channel(channel(3, 0, "Lobby")).unwrap();
    assert_eq!(
        client.dispatch(item, 0),
        Dispatch::Send(ControlMessage::UserState(UserState {
            session: Some(42),
            name: Some("alice".to_string()),
            channel_id: Some(3),
            comment: None,
        }))
    );
}

#[test]
fn set_comment_carries_the_text() {
    let client = live("alice", 42);
    let item = client.set_comment("HELLO").unwrap();
    assert_eq!(
        client.dispatch(item, 0),
        Dispatch::Send(ControlMessage::UserState(UserState {
            session: Some(42),
            name: Some("alice".to_string()),
            channel_id: None,
            comment: Some("HELLO".to_string()),
        }))
    );
}

#[test]
fn outbound_messages_travel_under_their_type() {
    assert_eq!(ControlMessage::Ping(Ping::default()).message_type(), MessageType::Ping);
    assert_eq!(
        ControlMessage::UserState(UserState::default()).message_type(),
        MessageType::UserState
    );
    assert_eq!(
        ControlMessage::ChannelState(ChannelState::default()).message_type(),
        MessageType::ChannelState
    );
    assert_eq!(
        ControlMessage::ServerSync(ServerSync::default()).message_type(),
        MessageType::ServerSync
    );
}

#[test]
fn dispatcher_asks_for_the_bodies_it_reads() {
    let client = listening("alice");
    for message_type in [
        MessageType::ChannelState,
        MessageType::UserState,
        MessageType::ServerSync,
        MessageType::Ping,
    ] {
        assert_eq!(
            client.dispatch(received(message_type, &[1, 2]), 0),
            Dispatch::Decode(Packet::from_message(message_type, &[1, 2]).unwrap())
        );
    }
    for message_type in [
        MessageType::Version,
        MessageType::UDPTunnel,
        MessageType::Authenticate,
        MessageType::Reject,
        MessageType::ChannelRemove,
        MessageType::UserRemove,
        MessageType::TextMessage,
        MessageType::CryptSetup,
        MessageType::CodecVersion,
        MessageType::ServerConfig,
        MessageType::SuggestConfig,
    ] {
        assert_eq!(client.dispatch(received(message_type, &[1, 2]), 0), Dispatch::Ignore);
    }
}

#[test]
fn channel_states_are_recorded_by_id() {
    let mut client = live("alice", 1);
    client.receive(channel_state(0, 0, "Root"));
    client.receive(channel_state(3, 0, "Lobby"));
    client.receive(channel_state(3, 0, "Hall"));
    client.receive(ControlMessage::ChannelState(ChannelState::default()));
    let channels = client.get_channels().unwrap();
    assert_eq!(channels.len(), 2);
    assert_eq!(channels.get(0), Some(channel(0, 0, "")));
    assert_eq!(channels.get(1), Some(channel(3, 0, "Hall")));
    assert_eq!(channels.find("Lobby"), None);
    assert_eq!(channels.find("Hall"), Some(channel(3, 0, "Hall")));
}

#[test]
fn channels_are_recorded_before_the_sync_too() {
    let mut client = listening("alice");
    client.receive(channel_state(3, 0, "Lobby"));
    assert_eq!(client.get_channels(), Err(ProtocolStateError::NotConnected));
    assert_eq!(client.session().snapshot_channels().find("Lobby"), Some(channel(3, 0, "Lobby")));
    client.receive(server_sync(Some(1)));
    assert_eq!(client.get_channels().unwrap().find("Lobby"), Some(channel(3, 0, "Lobby")));
}

#[test]
fn snapshot_is_not_touched_by_later_messages() {
    let mut client = live("alice", 1);
    client.receive(channel_state(3, 0, "Lobby"));
    let before = client.get_channels().unwrap();
    client.receive(channel_state(3, 0, "Hall"));
    client.receive(channel_state(4, 0, "Attic"));
    assert_eq!(before.len(), 1);
    assert_eq!(before.find("Lobby"), Some(channel(3, 0, "Lobby")));
    assert_eq!(client.get_channels().unwrap().len(), 2);
}

#[test]
fn own_user_state_moves_the_client() {
    let mut client = live("alice", 42);
    let update = |session: Option<u32>, channel_id: Option<u32>| {
        ControlMessage::UserState(UserState {
            session,
            name: Some("someone".to_string()),
            channel_id,
            comment: None,
        })
    };
    client.receive(update(Some(7), Some(5)));
    assert_eq!(client.session().snapshot_user_info().channel_id, 0);
    client.receive(update(None, Some(5)));
    assert_eq!(client.session().snapshot_user_info().channel_id, 0);
    client.receive(update(Some(42), None));
    assert_eq!(client.session().snapshot_user_info().channel_id, 0);
    client.receive(update(Some(42), Some(5)));
    assert_eq!(
        client.session().snapshot_user_info(),
        UserInfo { session_id: 42, name: "alice".to_string(), channel_id: 5 }
    );
}

#[test]
fn user_state_before_the_session_is_known_changes_nothing() {
    let mut client = listening("alice");
    client.receive(ControlMessage::UserState(UserState {
        session: Some(0),
        name: None,
        channel_id: Some(5),
        comment: None,
    }));
    assert_eq!(client.session().snapshot_user_info().channel_id, 0);
}

#[test]
fn inbound_ping_changes_nothing() {
    let mut client = live("alice", 42);
    client.receive(ControlMessage::Ping(Ping { timestamp: Some(1) }));
    assert_eq!(client.state(), ConnectionState::Live);
    assert_eq!(
        client.session().snapshot_user_info(),
        UserInfo { session_id: 42, name: "alice".to_string(), channel_id: 0 }
    );
    assert!(client.get_channels().unwrap().is_empty());
}

#[test]
fn messages_are_not_taken_in_unless_listening() {
    let mut client = MumbleClient::new();
    client.receive(server_sync(Some(42)));
    client.receive(channel_state(3, 0, "Lobby"));
    assert_eq!(client.state(), ConnectionState::Connecting);
    assert!(!client.session().is_connected());
    assert!(client.session().snapshot_channels().is_empty());
    client.authenticate(None, false).unwrap();
    client.receive(server_sync(Some(42)));
    assert_eq!(client.state(), ConnectionState::Authenticating);
    client.listen().unwrap();
    assert_eq!(client.state(), ConnectionState::AwaitingSync);
}

#[test]
fn shutdown_stops_everything_and_can_be_repeated() {
    let mut client = live("alice", 42);
    client.receive(channel_state(3, 0, "Lobby"));
    client.shutdown().unwrap();
    assert_eq!(client.state(), ConnectionState::ShuttingDown);
    assert!(!client.is_connected());
    assert!(!client.is_running());
    client.shutdown().unwrap();
    assert_eq!(client.state(), ConnectionState::ShuttingDown);
    assert_eq!(client.dispatch(action(MumbleAction::Ping), 0), Dispatch::Ignore);
    assert_eq!(
        client.dispatch(action(MumbleAction::SetComment { comment: "x".to_string() }), 0),
        Dispatch::Refuse(ProtocolStateError::NotConnected)
    );
    assert_eq!(client.dispatch(received(MessageType::ChannelState, &[8, 1]), 0), Dispatch::Ignore);
    assert_eq!(client.set_comment("x"), Err(ProtocolStateError::NotConnected));
    assert_eq!(client.join_channel(channel(3, 0, "Lobby")), Err(ProtocolStateError::NotConnected));
    assert_eq!(client.get_channels(), Err(ProtocolStateError::NotConnected));
    client.receive(channel_state(4, 0, "Attic"));
    assert_eq!(client.session().snapshot_channels().len(), 1);
    assert_eq!(client.listen(), Err(ProtocolStateError::WrongPhase));
    client.finish_shutdown();
    assert_eq!(client.state(), ConnectionState::Closed);
    client.finish_shutdown();
    client.shutdown().unwrap();
    assert_eq!(client.state(), ConnectionState::Closed);
}

#[test]
fn finish_shutdown_needs_a_shutdown() {
    let mut client = live("alice", 42);
    client.finish_shutdown();
    assert_eq!(client.state(), ConnectionState::Live);
}

#[test]
fn transport_failure_closes_the_client() {
    let mut client = live("alice", 42);
    client.fail(ErrorKind::Codec);
    client.fail(ErrorKind::Frame);
    client.fail(ErrorKind::ProtocolState);
    client.fail(ErrorKind::QueueFull);
    assert_eq!(client.state(), ConnectionState::Live);
    client.fail(ErrorKind::Transport);
    assert_eq!(client.state(), ConnectionState::Closed);
    assert!(!client.is_connected());
    assert_eq!(client.dispatch(action(MumbleAction::Ping), 0), Dispatch::Ignore);
    assert_eq!(client.get_channels(), Err(ProtocolStateError::NotConnected));
    let mut client = MumbleClient::new();
    client.fail(ErrorKind::Transport);
    assert_eq!(client.state(), ConnectionState::Closed);
    assert!(client.authenticate(None, false) == Err(ProtocolStateError::WrongPhase));
}

#[test]
fn waiting_for_the_connection() {
    let mut client = MumbleClient::new();
    assert_eq!(client.wait_for_connection(0, None), WaitStatus::Waiting);
    client.authenticate(None, false).unwrap();
    client.listen().unwrap();
    assert_eq!(client.wait_for_connection(0, Some(5000)), WaitStatus::Waiting);
    assert_eq!(client.wait_for_connection(4999, Some(5000)), WaitStatus::Waiting);
    assert_eq!(client.wait_for_connection(5000, Some(5000)), WaitStatus::TimedOut);
    assert_eq!(client.wait_for_connection(u64::MAX, None), WaitStatus::Waiting);
    assert_eq!(client.wait_for_connection(0, Some(0)), WaitStatus::TimedOut);
    client.receive(server_sync(Some(1)));
    assert_eq!(client.wait_for_connection(9999, Some(5000)), WaitStatus::Connected);
    assert_eq!(client.wait_for_connection(0, None), WaitStatus::Connected);
    client.shutdown().unwrap();
    assert_eq!(client.wait_for_connection(0, None), WaitStatus::Closed);
    client.finish_shutdown();
    assert_eq!(client.wait_for_connection(0, Some(5000)), WaitStatus::Closed);
}

#[test]
fn full_queue_policy() {
    assert_eq!(action(MumbleAction::Ping).when_full(), FullPolicy::Drop);
    assert_eq!(
        action(MumbleAction::MoveChannel { channel: channel(1, 0, "a") }).when_full(),
        FullPolicy::Busy
    );
    assert_eq!(
        action(MumbleAction::SetComment { comment: "x".to_string() }).when_full(),
        FullPolicy::Busy
    );
    assert_eq!(received(MessageType::Ping, &[]).when_full(), FullPolicy::Wait);
}

#[test]
fn commands_are_dispatched_in_the_order_of_the_queue() {
    let client = live("alice", 42);
    let mut queue: VecDeque<MessageQueue> = VecDeque::new();
    queue.push_back(client.set_comment("one").unwrap());
    queue.push_back(action(MumbleAction::Ping));
    queue.push_back(client.join_channel(channel(2, 0, "two")).unwrap());
    queue.push_back(client.set_comment("three").unwrap());
    let mut written: Vec<Vec<u8>> = Vec::new();
    let mut now = 100;
    while let Some(item) = queue.pop_front() {
        match client.dispatch(item, now) {
            Dispatch::Send(message) => {
                // The body stands for what the message codec would give.
                let body = format!("{:?}", message).into_bytes();
                written.push(build_packet(message.message_type(), &body).unwrap());
            }
            other => panic!("nothing but a write was expected: {:?}", other),
        }
        now += 1;
    }
    assert_eq!(written.len(), 4);
    let types: Vec<MessageType> =
        written.iter().map(|frame| Packet::from_bytes(frame).unwrap().message_type()).collect();
    assert_eq!(
        types,
        vec![
            MessageType::UserState,
            MessageType::Ping,
            MessageType::UserState,
            MessageType::UserState
        ]
    );
    let bodies: Vec<String> = written
        .iter()
        .map(|frame| Packet::from_bytes(frame).unwrap().payload().to_vec())
        .map(|body| String::from_utf8(body).unwrap())
        .collect();
    assert!(bodies[0].contains("\"one\""));
    assert!(bodies[1].contains("101"));
    assert!(bodies[2].contains("channel_id: Some(2)"));
    assert!(bodies[3].contains("\"three\""));
}

#[test]
fn two_producers_one_dispatcher() {
    let client = live("alice", 42);
    let (caller, mut dispatcher) = mpsc::channel::<MessageQueue>(QUEUE_CAPACITY);
    let heartbeat = caller.clone();

    caller.try_send(client.set_comment("first").unwrap()).unwrap();
    heartbeat.try_send(action(MumbleAction::Ping)).unwrap();
    caller.try_send(client.join_channel(channel(7, 0, "seven")).unwrap()).unwrap();

    // The queue is full now: a heartbeat is given up, a command is not.
    match heartbeat.try_send(action(MumbleAction::Ping)) {
        Err(TrySendError::Full(item)) => assert_eq!(item.when_full(), FullPolicy::Drop),
        other => panic!("the queue was expected to be full: {:?}", other),
    }
    match caller.try_send(client.set_comment("late").unwrap()) {
        Err(TrySendError::Full(item)) => assert_eq!(item.when_full(), FullPolicy::Busy),
        other => panic!("the queue was expected to be full: {:?}", other),
    }

    let mut decisions: Vec<Dispatch> = Vec::new();
    loop {
        match dispatcher.try_recv() {
            Ok(item) => decisions.push(client.dispatch(item, 1000)),
            Err(TryRecvError::Empty) => break,
            Err(TryRecvError::Disconnected) => panic!("both producers are alive"),
        }
    }
    let own = |channel_id: Option<u32>, comment: Option<&str>| {
        Dispatch::Send(ControlMessage::UserState(UserState {
            session: Some(42),
            name: Some("alice".to_string()),
            channel_id,
            comment: comment.map(|text| text.to_string()),
        }))
    };
    assert_eq!(
        decisions,
        vec![
            own(None, Some("first")),
            Dispatch::Send(ControlMessage::Ping(Ping { timestamp: Some(1000) })),
            own(Some(7), None),
        ]
    );
}

#[test]
fn refused_commands_never_reach_the_queue() {
    let client = listening("alice");
    let (caller, mut dispatcher) = mpsc::channel::<MessageQueue>(QUEUE_CAPACITY);
    if let Ok(item) = client.set_comment("early") {
        caller.try_send(item).unwrap();
    }
    if let Ok(item) = client.join_channel(channel(1, 0, "one")) {
        caller.try_send(item).unwrap();
    }
    assert_eq!(dispatcher.try_recv(), Err(TryRecvError::Empty));
}

#[test]
fn channel_state_then_server_sync_from_a_byte_stream() {
    let lobby =
        WireChannelState { channel_id: Some(3), parent: Some(0), name: Some("Lobby".to_string()) };
    let channel_body = lobby.encode_to_vec();
    assert_eq!(channel_body, vec![0x08, 3, 0x10, 0, 0x1A, 5, b'L', b'o', b'b', b'b', b'y']);
    let sync_body = WireServerSync { session: Some(42) }.encode_to_vec();
    assert_eq!(sync_body, vec![0x08, 42]);
    let mut stream = build_packet(MessageType::ChannelState, &channel_body).unwrap();
    stream.extend(build_packet(MessageType::ServerSync, &sync_body).unwrap());

    let mut reader = FrameReader::new(DEFAULT_MAX_PAYLOAD);
    let mut queue: VecDeque<MessageQueue> = VecDeque::new();
    let mut at = 0;
    while at < stream.len() {
        let wanted = reader.wanted();
        match reader.accept(&stream[at..at + wanted]) {
            ReadEvent::Pending => {}
            ReadEvent::Frame(packet) => queue.push_back(MessageQueue::PacketReceived { packet }),
            other => panic!("the stream holds whole frames only: {:?}", other),
        }
        at += wanted;
    }
    assert_eq!(queue.len(), 2);

    let mut client = listening("alice");
    while let Some(item) = queue.pop_front() {
        let packet = match client.dispatch(item, 0) {
            Dispatch::Decode(packet) => packet,
            other => panic!("both frames are to be decoded: {:?}", other),
        };
        let message = match packet.message_type() {
            MessageType::ChannelState => {
                let wire = WireChannelState::decode(packet.payload()).unwrap();
                ControlMessage::ChannelState(ChannelState {
                    channel_id: wire.channel_id,
                    parent: wire.parent,
                    name: wire.name,
                })
            }
            MessageType::ServerSync => {
                let wire = WireServerSync::decode(packet.payload()).unwrap();
                ControlMessage::ServerSync(ServerSync { session: wire.session })
            }
            other => panic!("no frame of this type was sent: {:?}", other),
        };
        client.receive(message);
    }

    assert_eq!(client.get_channels().unwrap().find("Lobby"), Some(channel(3, 0, "Lobby")));
    assert_eq!(client.session().snapshot_user_info().session_id, 42);
    assert!(client.is_connected());
}
