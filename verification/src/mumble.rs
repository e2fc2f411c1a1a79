use crate::channel::{Channel, ChannelList, ChannelView};
use crate::common::MumbleResult;
use crate::errors::{ErrorKind, ProtocolStateError};
use crate::mumbleproto::{
    text_view, texts_view, Authenticate, AuthenticateView, ControlMessage, ControlMessageView,
    Ping, ServerSync, UserState, UserStateView, Version, VersionView,
};
use crate::packet::{MessageType, Packet};
use crate::session::{spec_absorb, SessionState, SessionView};
use vstd::prelude::*;

verus! {

/// The protocol version the client announces.
pub const MUMBLE_VERSION: u32 = 0x1219;

/// The stages of a connection's life, in the order in which a client passes
/// through them.
#[derive(Debug, Clone, Copy, PartialEq, Eq, Structural)]
pub enum ConnectionState {
    /// The transport is open and nothing has been said on it.
    Connecting,
    /// Version and credentials have been handed out for writing.
    Authenticating,
    /// The tasks run; the server has not yet confirmed the session.
    AwaitingSync,
    /// The server has confirmed the session.
    Live,
    /// Shutdown was asked for; the tasks are being stopped.
    ShuttingDown,
    /// Nothing runs any more.
    Closed,
}

/// What the dispatcher can be asked to do on its own or on a caller's behalf.
#[derive(Debug, PartialEq, Eq)]
pub enum MumbleAction {
    /// Send a keepalive.
    Ping,
    /// Move the client into a channel.
    MoveChannel { channel: Channel },
    /// Set the client's comment.
    SetComment { comment: String },
}

pub enum MumbleActionView {
    Ping,
    MoveChannel { channel: ChannelView },
    SetComment { comment: Seq<char> },
}

impl View for MumbleAction {
    type V = MumbleActionView;

    open spec fn view(&self) -> MumbleActionView {
        match self {
            MumbleAction::Ping => MumbleActionView::Ping,
            MumbleAction::MoveChannel { channel } => MumbleActionView::MoveChannel {
                channel: channel@,
            },
            MumbleAction::SetComment { comment } => MumbleActionView::SetComment {
                comment: comment@,
            },
        }
    }
}

/// An item of the queue that feeds the dispatcher.
#[derive(Debug, PartialEq, Eq)]
pub enum MessageQueue {
    /// Something to do.
    Action { action: MumbleAction },
    /// A frame that the reader took off the transport.
    PacketReceived { packet: Packet },
}

pub enum MessageQueueView {
    Action { action: MumbleActionView },
    PacketReceived { message_type: MessageType, payload: Seq<u8> },
}

impl View for MessageQueue {
    type V = MessageQueueView;

    open spec fn view(&self) -> MessageQueueView {
        match self {
            MessageQueue::Action { action } => MessageQueueView::Action { action: action@ },
            MessageQueue::PacketReceived { packet } => MessageQueueView::PacketReceived {
                message_type: packet.spec_message_type(),
                payload: packet.spec_payload(),
            },
        }
    }
}

/// What the dispatcher does with one item of the queue.
#[derive(Debug, PartialEq, Eq)]
pub enum Dispatch {
    /// Write this message, as one frame.
    Send(ControlMessage),
    /// Decode the body of this frame as the type its header declares, and
    /// hand the result to `receive`.
    Decode(Packet),
    /// Nothing is to be done.
    Ignore,
    /// The command cannot be carried out now. Nothing is written.
    Refuse(ProtocolStateError),
}

pub enum DispatchView {
    Send(ControlMessageView),
    Decode { message_type: MessageType, payload: Seq<u8> },
    Ignore,
    Refuse(ProtocolStateError),
}

impl View for Dispatch {
    type V = DispatchView;

    open spec fn view(&self) -> DispatchView {
        match self {
            Dispatch::Send(message) => DispatchView::Send(message@),
            Dispatch::Decode(packet) => DispatchView::Decode {
                message_type: packet.spec_message_type(),
                payload: packet.spec_payload(),
            },
            Dispatch::Ignore => DispatchView::Ignore,
            Dispatch::Refuse(e) => DispatchView::Refuse(*e),
        }
    }
}

/// How many items the queue that feeds the dispatcher holds at most.
pub const QUEUE_CAPACITY: usize = 3;

/// What a producer does with an item that the full queue cannot take.
#[derive(Debug, Clone, Copy, PartialEq, Eq, Structural)]
pub enum FullPolicy {
    /// Give the item up, with a warning.
    Drop,
    /// Tell the caller that the client is busy, so that the caller can try
    /// again.
    Busy,
    /// Wait until the queue has room.
    Wait,
}

impl MessageQueue {
    /// A keepalive that finds the queue full is given up: the next one will
    /// do. A caller's command is never given up in silence: the caller is
    /// told. A frame from the server waits for room.
    pub open spec fn spec_when_full(item: MessageQueueView) -> FullPolicy {
        match item {
            MessageQueueView::Action { action: MumbleActionView::Ping } => FullPolicy::Drop,
            MessageQueueView::Action { .. } => FullPolicy::Busy,
            MessageQueueView::PacketReceived { .. } => FullPolicy::Wait,
        }
    }

    /// What to do with this item if the queue is full.
    pub fn when_full(&self) -> (policy: FullPolicy)
        ensures
            policy == MessageQueue::spec_when_full(self@),
    {
        match self {
            MessageQueue::Action { action: MumbleAction::Ping } => FullPolicy::Drop,
            MessageQueue::Action { .. } => FullPolicy::Busy,
            MessageQueue::PacketReceived { .. } => FullPolicy::Wait,
        }
    }
}

/// Where a caller stands who waits for the server to confirm the session.
#[derive(Debug, Clone, Copy, PartialEq, Eq, Structural)]
pub enum WaitStatus {
    /// The session is confirmed.
    Connected,
    /// Not yet; wait on.
    Waiting,
    /// Not yet, and the caller has waited as long as it was ready to.
    TimedOut,
    /// The connection is over; the session will never be confirmed.
    Closed,
}

/// Where a caller stands who waits for the server to confirm the session,
/// by the state of the client and the time the caller has waited.
pub open spec fn spec_wait(
    state: ConnectionState,
    waited: u64,
    timeout: Option<u64>,
) -> WaitStatus {
    match state {
        ConnectionState::Live => WaitStatus::Connected,
        ConnectionState::ShuttingDown | ConnectionState::Closed => WaitStatus::Closed,
        _ => match timeout {
            Some(limit) => if waited >= limit {
                WaitStatus::TimedOut
            } else {
                WaitStatus::Waiting
            },
            None => WaitStatus::Waiting,
        },
    }
}

/// The steps of a connection's life that the client takes itself. Whether a
/// listening client waits for the server or is live is the server's to say.
#[derive(Debug, Clone, Copy, PartialEq, Eq, Structural)]
pub enum Phase {
    /// The transport is open and nothing has been said on it.
    Connecting,
    /// Version and credentials have been handed out for writing.
    Authenticating,
    /// The tasks run.
    Listening,
    /// Shutdown was asked for; the tasks are being stopped.
    ShuttingDown,
    /// Nothing runs any more.
    Closed,
}

/// The client without its transport: the configuration, the stage of the
/// connection's life, and the session. Every decision of the client is made
/// here; reading, writing, waiting and queueing are the caller's.
pub struct MumbleClient {
    client_name: Option<String>,
    client_version: Option<String>,
    username: String,
    password: Option<String>,
    phase: Phase,
    session: SessionState,
}

pub struct MumbleClientView {
    pub client_name: Option<Seq<char>>,
    pub client_version: Option<Seq<char>>,
    pub username: Seq<char>,
    pub password: Option<Seq<char>>,
    pub phase: Phase,
    pub session: SessionView,
}

impl View for MumbleClient {
    type V = MumbleClientView;

    closed spec fn view(&self) -> MumbleClientView {
        MumbleClientView {
            client_name: text_view(self.client_name),
            client_version: text_view(self.client_version),
            username: self.username@,
            password: text_view(self.password),
            phase: self.phase,
            session: self.session@,
        }
    }
}

impl MumbleClientView {
    /// The stage of the connection's life: a listening client is live once
    /// the server has confirmed the session, and waits for that until then.
    pub open spec fn state(self) -> ConnectionState {
        match self.phase {
            Phase::Connecting => ConnectionState::Connecting,
            Phase::Authenticating => ConnectionState::Authenticating,
            Phase::Listening => if self.session.connected {
                ConnectionState::Live
            } else {
                ConnectionState::AwaitingSync
            },
            Phase::ShuttingDown => ConnectionState::ShuttingDown,
            Phase::Closed => ConnectionState::Closed,
        }
    }

    /// The tasks run: the client reads, pings and dispatches.
    pub open spec fn is_listening(self) -> bool {
        self.phase == Phase::Listening
    }

    /// The server has confirmed the session and the client has not been shut
    /// down since.
    pub open spec fn is_connected(self) -> bool {
        self.state() == ConnectionState::Live
    }
}

/// The version announcement of a client with this configuration.
pub open spec fn spec_version(client: MumbleClientView) -> VersionView {
    VersionView {
        version: Some(MUMBLE_VERSION),
        release: None,
        os: client.client_name,
        os_version: client.client_version,
    }
}

/// The credentials of a client with this configuration. No access tokens
/// means an empty list of them.
pub open spec fn spec_credentials(
    client: MumbleClientView,
    tokens: Option<Seq<Seq<char>>>,
    opus: bool,
) -> AuthenticateView {
    AuthenticateView {
        username: Some(client.username),
        password: client.password,
        tokens: match tokens {
            Some(tokens) => tokens,
            None => Seq::empty(),
        },
        celt_versions: Seq::empty(),
        opus: Some(opus),
    }
}

/// The state update by which the client speaks of itself: addressed by its
/// session id and carrying its name.
pub open spec fn spec_own_state(session: SessionView) -> UserStateView {
    UserStateView {
        session: Some(session.user_info.session_id),
        name: Some(session.user_info.name),
        channel_id: None,
        comment: None,
    }
}

/// Whether the dispatcher looks into frames of this type. Frames of every
/// other type are passed over.
pub open spec fn spec_is_handled(message_type: MessageType) -> bool {
    message_type == MessageType::ChannelState || message_type == MessageType::UserState
        || message_type == MessageType::ServerSync || message_type == MessageType::Ping
}

/// What the dispatcher does with an action. A keepalive is stamped with the
/// current time and goes out whenever the client is listening. A state
/// update needs a confirmed session and a session id to address it by.
pub open spec fn spec_perform(
    client: MumbleClientView,
    action: MumbleActionView,
    now_millis: u64,
) -> DispatchView {
    match action {
        MumbleActionView::Ping => if client.is_listening() {
            DispatchView::Send(ControlMessageView::Ping(Ping { timestamp: Some(now_millis) }))
        } else {
            DispatchView::Ignore
        },
        MumbleActionView::MoveChannel { channel } => if !client.is_connected() {
            DispatchView::Refuse(ProtocolStateError::NotConnected)
        } else if !client.session.session_known {
            DispatchView::Refuse(ProtocolStateError::NotReady)
        } else {
            DispatchView::Send(
                ControlMessageView::UserState(
                    UserStateView {
                        channel_id: Some(channel.id),
                        ..spec_own_state(client.session)
                    },
                ),
            )
        },
        MumbleActionView::SetComment { comment } => if !client.is_connected() {
            DispatchView::Refuse(ProtocolStateError::NotConnected)
        } else if !client.session.session_known {
            DispatchView::Refuse(ProtocolStateError::NotReady)
        } else {
            DispatchView::Send(
                ControlMessageView::UserState(
                    UserStateView { comment: Some(comment), ..spec_own_state(client.session) },
                ),
            )
        },
    }
}

/// What the dispatcher does with an item of the queue.
pub open spec fn spec_dispatch(
    client: MumbleClientView,
    item: MessageQueueView,
    now_millis: u64,
) -> DispatchView {
    match item {
        MessageQueueView::Action { action } => spec_perform(client, action, now_millis),
        MessageQueueView::PacketReceived { message_type, payload } => if client.is_listening()
            && spec_is_handled(message_type) {
            DispatchView::Decode { message_type, payload }
        } else {
            DispatchView::Ignore
        },
    }
}

/// The client after a decoded message from the server. A client that is not
/// listening takes nothing in; a listening one takes it into its session.
pub open spec fn spec_receive(
    client: MumbleClientView,
    message: ControlMessageView,
) -> MumbleClientView {
    if !client.is_listening() {
        client
    } else {
        MumbleClientView { session: spec_absorb(client.session, message), ..client }
    }
}

impl MumbleClient {
    /// A client whose transport has just been opened.
    pub fn new() -> (client: Self)
        ensures
            client@ == (MumbleClientView {
                client_name: None,
                client_version: None,
                username: Seq::empty(),
                password: None,
                phase: Phase::Connecting,
                session: SessionView::empty(),
            }),
    {
        MumbleClient {
            client_name: None,
            client_version: None,
            username: String::new(),
            password: None,
            phase: Phase::Connecting,
            session: SessionState::new(),
        }
    }

    /// The stage of the connection's life the client is in.
    pub fn state(&self) -> (state: ConnectionState)
        ensures
            state == self@.state(),
    {
        match self.phase {
            Phase::Connecting => ConnectionState::Connecting,
            Phase::Authenticating => ConnectionState::Authenticating,
            Phase::Listening => if self.session.is_connected() {
                ConnectionState::Live
            } else {
                ConnectionState::AwaitingSync
            },
            Phase::ShuttingDown => ConnectionState::ShuttingDown,
            Phase::Closed => ConnectionState::Closed,
        }
    }

    /// Whether the server has confirmed the session and the client has not
    /// been shut down since.
    pub fn is_connected(&self) -> (connected: bool)
        ensures
            connected == self@.is_connected(),
    {
        self.phase == Phase::Listening && self.session.is_connected()
    }

    /// Whether the tasks are meant to run.
    pub fn is_running(&self) -> (running: bool)
        ensures
            running == self@.is_listening(),
    {
        self.phase == Phase::Listening
    }

    /// The session, for reading.
    pub fn session(&self) -> (session: &SessionState)
        ensures
            session@ == self@.session,
    {
        &self.session
    }

    /// Sets the name under which the client authenticates and speaks of
    /// itself. The configuration is fixed once authentication has begun:
    /// from then on this changes nothing.
    pub fn set_username(&mut self, username: &str) -> (client: &mut Self)
        ensures
            client@ == if old(self)@.phase == Phase::Connecting {
                MumbleClientView {
                    username: username@,
                    session: old(self)@.session.with_name(username@),
                    ..old(self)@
                }
            } else {
                old(self)@
            },
            *final(self) == *final(client),
    {
        if self.phase == Phase::Connecting {
            self.username = username.to_owned();
            self.session.set_name(username);
        }
        self
    }

    /// Sets or clears the password. The configuration is fixed once
    /// authentication has begun: from then on this changes nothing.
    pub fn set_password(&mut self, password: Option<&str>) -> (client: &mut Self)
        ensures
            client@ == if old(self)@.phase == Phase::Connecting {
                MumbleClientView {
                    password: match password {
                        Some(password) => Some(password@),
                        None => None,
                    },
                    ..old(self)@
                }
            } else {
                old(self)@
            },
            *final(self) == *final(client),
    {
        if self.phase == Phase::Connecting {
            self.password = match password {
                Some(password) => Some(password.to_owned()),
                None => None,
            };
        }
        self
    }

    /// Sets or clears the name and version the client reports of itself. The
    /// configuration is fixed once authentication has begun: from then on
    /// this changes nothing.
    pub fn set_client_info(
        &mut self,
        client_name: Option<&str>,
        client_version: Option<&str>,
    ) -> (client: &mut Self)
        ensures
            client@ == if old(self)@.phase == Phase::Connecting {
                MumbleClientView {
                    client_name: match client_name {
                        Some(client_name) => Some(client_name@),
                        None => None,
                    },
                    client_version: match client_version {
                        Some(client_version) => Some(client_version@),
                        None => None,
                    },
                    ..old(self)@
                }
            } else {
                old(self)@
            },
            *final(self) == *final(client),
    {
        if self.phase == Phase::Connecting {
            self.client_name = match client_name {
                Some(client_name) => Some(client_name.to_owned()),
                None => None,
            };
            self.client_version = match client_version {
                Some(client_version) => Some(client_version.to_owned()),
                None => None,
            };
        }
        self
    }

    /// Begins authentication: the version announcement and the credentials,
    /// to be written to the transport in this order. It can be done once,
    /// and only before anything else has been said.
    pub fn authenticate(&mut self, tokens: Option<Vec<String>>, opus: bool) -> (r: Result<
        (Version, Authenticate),
        ProtocolStateError,
    >)
        ensures
            old(self)@.phase == Phase::Connecting ==> r is Ok && r->Ok_0.0@
                == spec_version(old(self)@) && r->Ok_0.1@ == spec_credentials(
                old(self)@,
                match tokens {
                    Some(tokens) => Some(texts_view(tokens@)),
                    None => None,
                },
                opus,
            ) && final(self)@ == (MumbleClientView {
                phase: Phase::Authenticating,
                ..old(self)@
            }),
            old(self)@.phase != Phase::Connecting ==> r is Err && r->Err_0
                == ProtocolStateError::WrongPhase && final(self)@ == old(self)@,
    {
        if self.phase != Phase::Connecting {
            return Err(ProtocolStateError::WrongPhase);
        }
        let version = Version {
            version: Some(MUMBLE_VERSION),
            release: None,
            os: self.client_name.clone(),
            os_version: self.client_version.clone(),
        };
        let token = match tokens {
            Some(result) => result,
            None => Vec::new(),
        };
        let authenticate = Authenticate {
            username: Some(self.username.clone()),
            password: self.password.clone(),
            tokens: token,
            celt_versions: Vec::new(),
            opus: Some(opus),
        };
        self.phase = Phase::Authenticating;
        assert(authenticate@.tokens =~= match tokens {
            Some(tokens) => texts_view(tokens@),
            None => Seq::empty(),
        });
        Ok((version, authenticate))
    }

    /// Starts the client listening: from now on the heartbeat, the reader
    /// and the dispatcher run. It does not wait for the server to confirm
    /// the session.
    pub fn listen(&mut self) -> (r: Result<(), ProtocolStateError>)
        ensures
            old(self)@.phase == Phase::Authenticating ==> r is Ok && final(self)@ == (
            MumbleClientView { phase: Phase::Listening, ..old(self)@ }),
            old(self)@.phase != Phase::Authenticating ==> r is Err && r->Err_0
                == ProtocolStateError::WrongPhase && final(self)@ == old(self)@,
    {
        if self.phase != Phase::Authenticating {
            return Err(ProtocolStateError::WrongPhase);
        }
        self.phase = Phase::Listening;
        Ok(())
    }

    /// Asks for the end of the connection. From here on nothing is
    /// dispatched and nothing is handed out for writing. Asking again
    /// changes nothing.
    pub fn shutdown(&mut self) -> (r: MumbleResult<()>)
        ensures
            r is Ok,
            final(self)@ == (MumbleClientView {
                phase: if old(self)@.phase == Phase::Closed {
                    Phase::Closed
                } else {
                    Phase::ShuttingDown
                },
                ..old(self)@
            }),
    {
        if self.phase != Phase::Closed {
            self.phase = Phase::ShuttingDown;
        }
        Ok(())
    }

    /// Records that every task has stopped, after a shutdown was asked for.
    /// At any other time it changes nothing.
    pub fn finish_shutdown(&mut self)
        ensures
            final(self)@ == (MumbleClientView {
                phase: if old(self)@.phase == Phase::ShuttingDown {
                    Phase::Closed
                } else {
                    old(self)@.phase
                },
                ..old(self)@
            }),
    {
        if self.phase == Phase::ShuttingDown {
            self.phase = Phase::Closed;
        }
    }

    /// Records a failure of the given kind. A failure of the transport ends
    /// the connection, whatever stage it was in; a failure of any other kind
    /// touches one frame or one command and changes nothing here.
    pub fn fail(&mut self, kind: ErrorKind)
        ensures
            final(self)@ == (MumbleClientView {
                phase: if kind.spec_is_terminal() {
                    Phase::Closed
                } else {
                    old(self)@.phase
                },
                ..old(self)@
            }),
    {
        if kind.is_terminal() {
            self.phase = Phase::Closed;
        }
    }

    /// Where a caller stands who waits for the server to confirm the
    /// session and has waited for `waited` so far, being ready to wait for
    /// `timeout` at most, or for ever if there is no timeout.
    pub fn wait_for_connection(&self, waited: u64, timeout: Option<u64>) -> (status: WaitStatus)
        ensures
            status == spec_wait(self@.state(), waited, timeout),
    {
        match self.state() {
            ConnectionState::Live => WaitStatus::Connected,
            ConnectionState::ShuttingDown | ConnectionState::Closed => WaitStatus::Closed,
            _ => match timeout {
                Some(limit) => if waited >= limit {
                    WaitStatus::TimedOut
                } else {
                    WaitStatus::Waiting
                },
                None => WaitStatus::Waiting,
            },
        }
    }

    /// A copy of the channel list, once the server has confirmed the
    /// session.
    pub fn get_channels(&self) -> (r: Result<ChannelList, ProtocolStateError>)
        ensures
            self@.is_connected() ==> r is Ok && r->Ok_0@ == self@.session.channels,
            !self@.is_connected() ==> r is Err && r->Err_0 == ProtocolStateError::NotConnected,
    {
        if !self.is_connected() {
            return Err(ProtocolStateError::NotConnected);
        }
        Ok(self.session.snapshot_channels())
    }

    /// The queue item that asks the dispatcher to move the client into a
    /// channel. Before the server has confirmed the session there is none.
    pub fn join_channel(&self, channel: Channel) -> (r: Result<MessageQueue, ProtocolStateError>)
        ensures
            self@.is_connected() ==> r is Ok && r->Ok_0@ == (MessageQueueView::Action {
                action: MumbleActionView::MoveChannel { channel: channel@ },
            }),
            !self@.is_connected() ==> r is Err && r->Err_0 == ProtocolStateError::NotConnected,
    {
        if !self.is_connected() {
            return Err(ProtocolStateError::NotConnected);
        }
        Ok(MessageQueue::Action { action: MumbleAction::MoveChannel { channel } })
    }

    /// The queue item that asks the dispatcher to set the client's comment.
    /// Before the server has confirmed the session there is none.
    pub fn set_comment(&self, comment: &str) -> (r: Result<MessageQueue, ProtocolStateError>)
        ensures
            self@.is_connected() ==> r is Ok && r->Ok_0@ == (MessageQueueView::Action {
                action: MumbleActionView::SetComment { comment: comment@ },
            }),
            !self@.is_connected() ==> r is Err && r->Err_0 == ProtocolStateError::NotConnected,
    {
        if !self.is_connected() {
            return Err(ProtocolStateError::NotConnected);
        }
        let action = MumbleAction::SetComment { comment: comment.to_owned() };
        Ok(MessageQueue::Action { action })
    }

    /// Decides what to do with one item of the queue. The client itself is
    /// not changed by it.
    pub fn dispatch(&self, item: MessageQueue, now_millis: u64) -> (decision: Dispatch)
        ensures
            decision@ == spec_dispatch(self@, item@, now_millis),
    {
        match item {
            MessageQueue::Action { action } => match action {
                MumbleAction::Ping => {
                    if self.is_running() {
                        Dispatch::Send(ControlMessage::Ping(Ping { timestamp: Some(now_millis) }))
                    } else {
                        Dispatch::Ignore
                    }
                },
                MumbleAction::MoveChannel { channel } => {
                    if !self.is_connected() {
                        Dispatch::Refuse(ProtocolStateError::NotConnected)
                    } else if !self.session.has_session() {
                        Dispatch::Refuse(ProtocolStateError::NotReady)
                    } else {
                        let mut user_state = UserState::default();
                        user_state.session = Some(self.session.user_info().session_id);
                        user_state.name = Some(self.session.user_info().name.clone());
                        user_state.channel_id = Some(channel.id);
                        Dispatch::Send(ControlMessage::UserState(user_state))
                    }
                },
                MumbleAction::SetComment { comment } => {
                    if !self.is_connected() {
                        Dispatch::Refuse(ProtocolStateError::NotConnected)
                    } else if !self.session.has_session() {
                        Dispatch::Refuse(ProtocolStateError::NotReady)
                    } else {
                        let mut user_state = UserState::default();
                        user_state.session = Some(self.session.user_info().session_id);
                        user_state.comment = Some(comment);
                        user_state.name = Some(self.session.user_info().name.clone());
                        Dispatch::Send(ControlMessage::UserState(user_state))
                    }
                },
            },
            MessageQueue::PacketReceived { packet } => {
                if !self.is_running() {
                    Dispatch::Ignore
                } else {
                    match packet.message_type() {
                        MessageType::ChannelState
                        | MessageType::UserState
                        | MessageType::ServerSync
                        | MessageType::Ping => Dispatch::Decode(packet),
                        _ => Dispatch::Ignore,
                    }
                }
            },
        }
    }

    /// Takes in the decoded body of a frame that `dispatch` asked to have
    /// decoded.
    pub fn receive(&mut self, message: ControlMessage)
        ensures
            final(self)@ == spec_receive(old(self)@, message@),
    {
        if self.phase == Phase::Listening {
            self.session.absorb(message);
        }
    }
}

/// A command to move to a channel or to set the comment that reaches the
/// dispatcher while the client is not connected is refused for the state of
/// the client, and nothing is handed out for writing.
pub proof fn lemma_connected_gate(
    client: MumbleClientView,
    action: MumbleActionView,
    now_millis: u64,
)
    requires
        !client.is_connected(),
        action != MumbleActionView::Ping,
    ensures
        spec_perform(client, action, now_millis) == DispatchView::Refuse(
            ProtocolStateError::NotConnected,
        ),
{
}

/// Once the client has shut down or the transport has failed, the dispatcher
/// hands nothing out for writing, whatever the item.
pub proof fn lemma_no_write_after_shutdown(
    client: MumbleClientView,
    item: MessageQueueView,
    now_millis: u64,
)
    requires
        client.phase == Phase::ShuttingDown || client.phase == Phase::Closed,
    ensures
        !(spec_dispatch(client, item, now_millis) is Send),
        !(spec_dispatch(client, item, now_millis) is Decode),
{
}

/// Of two confirmations of the session, the first one wins: after it, a
/// second one changes nothing, whatever session id it names.
pub proof fn lemma_server_sync_first_wins(
    client: MumbleClientView,
    first: ServerSync,
    second: ServerSync,
)
    ensures
        spec_receive(
            spec_receive(client, ControlMessageView::ServerSync(first)),
            ControlMessageView::ServerSync(second),
        ) == spec_receive(client, ControlMessageView::ServerSync(first)),
        client.is_listening() && !client.session.connected ==> {
            let after = spec_receive(client, ControlMessageView::ServerSync(first));
            &&& after.is_connected()
            &&& first.session matches Some(session_id) ==> after.session.session_known
                && after.session.user_info.session_id == session_id
        },
{
}

/// Nothing that the server sends makes a connected client unconnected.
pub proof fn lemma_receive_keeps_connected(client: MumbleClientView, message: ControlMessageView)
    requires
        client.is_connected(),
    ensures
        spec_receive(client, message).is_connected(),
{
}

/// A command to move to a channel or to set the comment that reaches the
/// dispatcher while the session is confirmed and its id known is answered by
/// exactly one state update, addressed by that id.
pub proof fn lemma_live_commands_are_written(
    client: MumbleClientView,
    action: MumbleActionView,
    now_millis: u64,
)
    requires
        client.is_connected(),
        client.session.session_known,
        action != MumbleActionView::Ping,
    ensures
        spec_perform(client, action, now_millis) matches DispatchView::Send(
            ControlMessageView::UserState(update),
        ) && update.session == Some(client.session.user_info.session_id),
{
}

} // verus!
