use crate::packet::MessageType;
use vstd::prelude::*;

verus! {

/// The characters of a text that may be absent.
pub open spec fn text_view(text: Option<String>) -> Option<Seq<char>> {
    match text {
        Some(s) => Some(s@),
        None => None,
    }
}

/// The texts of a list, each by its characters.
pub open spec fn texts_view(texts: Seq<String>) -> Seq<Seq<char>> {
    texts.map_values(|s: String| s@)
}

/// The client's announcement of its protocol version and platform.
#[derive(Debug, PartialEq, Eq)]
pub struct Version {
    pub version: Option<u32>,
    pub release: Option<String>,
    pub os: Option<String>,
    pub os_version: Option<String>,
}

pub struct VersionView {
    pub version: Option<u32>,
    pub release: Option<Seq<char>>,
    pub os: Option<Seq<char>>,
    pub os_version: Option<Seq<char>>,
}

impl View for Version {
    type V = VersionView;

    open spec fn view(&self) -> VersionView {
        VersionView {
            version: self.version,
            release: text_view(self.release),
            os: text_view(self.os),
            os_version: text_view(self.os_version),
        }
    }
}

/// The client's credentials. They are never printed.
#[derive(PartialEq, Eq)]
pub struct Authenticate {
    pub username: Option<String>,
    pub password: Option<String>,
    pub tokens: Vec<String>,
    pub celt_versions: Vec<i32>,
    pub opus: Option<bool>,
}

pub struct AuthenticateView {
    pub username: Option<Seq<char>>,
    pub password: Option<Seq<char>>,
    pub tokens: Seq<Seq<char>>,
    pub celt_versions: Seq<i32>,
    pub opus: Option<bool>,
}

impl View for Authenticate {
    type V = AuthenticateView;

    open spec fn view(&self) -> AuthenticateView {
        AuthenticateView {
            username: text_view(self.username),
            password: text_view(self.password),
            tokens: texts_view(self.tokens@),
            celt_versions: self.celt_versions@,
            opus: self.opus,
        }
    }
}

/// A keepalive. Of its fields only the time stamp is ever set or read here.
#[derive(Debug, Clone, Copy, PartialEq, Eq, Structural)]
pub struct Ping {
    pub timestamp: Option<u64>,
}

/// The server's word that authentication succeeded, with the session it
/// assigned.
#[derive(Debug, Clone, Copy, PartialEq, Eq, Structural)]
pub struct ServerSync {
    pub session: Option<u32>,
}

/// What the server says of one channel. Any field may be absent.
#[derive(Debug, PartialEq, Eq)]
pub struct ChannelState {
    pub channel_id: Option<u32>,
    pub parent: Option<u32>,
    pub name: Option<String>,
}

pub struct ChannelStateView {
    pub channel_id: Option<u32>,
    pub parent: Option<u32>,
    pub name: Option<Seq<char>>,
}

impl View for ChannelState {
    type V = ChannelStateView;

    open spec fn view(&self) -> ChannelStateView {
        ChannelStateView {
            channel_id: self.channel_id,
            parent: self.parent,
            name: text_view(self.name),
        }
    }
}

/// What is said of one user, by the server or by the client of itself. Any
/// field may be absent.
#[derive(Debug, PartialEq, Eq)]
pub struct UserState {
    pub session: Option<u32>,
    pub name: Option<String>,
    pub channel_id: Option<u32>,
    pub comment: Option<String>,
}

pub struct UserStateView {
    pub session: Option<u32>,
    pub name: Option<Seq<char>>,
    pub channel_id: Option<u32>,
    pub comment: Option<Seq<char>>,
}

impl View for UserState {
    type V = UserStateView;

    open spec fn view(&self) -> UserStateView {
        UserStateView {
            session: self.session,
            name: text_view(self.name),
            channel_id: self.channel_id,
            comment: text_view(self.comment),
        }
    }
}

impl Default for UserState {
    fn default() -> (m: Self)
        ensures
            m@ == (UserStateView { session: None, name: None, channel_id: None, comment: None }),
    {
        UserState { session: None, name: None, channel_id: None, comment: None }
    }
}

impl Default for ChannelState {
    fn default() -> (m: Self)
        ensures
            m@ == (ChannelStateView { channel_id: None, parent: None, name: None }),
    {
        ChannelState { channel_id: None, parent: None, name: None }
    }
}

impl Default for Ping {
    fn default() -> (m: Self)
        ensures
            m == (Ping { timestamp: None }),
    {
        Ping { timestamp: None }
    }
}

impl Default for ServerSync {
    fn default() -> (m: Self)
        ensures
            m == (ServerSync { session: None }),
    {
        ServerSync { session: None }
    }
}

/// The body of a control message that the client reads or writes.
#[derive(Debug, PartialEq, Eq)]
pub enum ControlMessage {
    ChannelState(ChannelState),
    UserState(UserState),
    ServerSync(ServerSync),
    Ping(Ping),
}

pub enum ControlMessageView {
    ChannelState(ChannelStateView),
    UserState(UserStateView),
    ServerSync(ServerSync),
    Ping(Ping),
}

impl View for ControlMessage {
    type V = ControlMessageView;

    open spec fn view(&self) -> ControlMessageView {
        match self {
            ControlMessage::ChannelState(m) => ControlMessageView::ChannelState(m@),
            ControlMessage::UserState(m) => ControlMessageView::UserState(m@),
            ControlMessage::ServerSync(m) => ControlMessageView::ServerSync(*m),
            ControlMessage::Ping(m) => ControlMessageView::Ping(*m),
        }
    }
}

impl ControlMessage {
    /// The type under which the message travels.
    pub open spec fn spec_message_type(self) -> MessageType {
        match self {
            ControlMessage::ChannelState(_) => MessageType::ChannelState,
            ControlMessage::UserState(_) => MessageType::UserState,
            ControlMessage::ServerSync(_) => MessageType::ServerSync,
            ControlMessage::Ping(_) => MessageType::Ping,
        }
    }

    pub fn message_type(&self) -> (t: MessageType)
        ensures
            t == self.spec_message_type(),
    {
        match self {
            ControlMessage::ChannelState(_) => MessageType::ChannelState,
            ControlMessage::UserState(_) => MessageType::UserState,
            ControlMessage::ServerSync(_) => MessageType::ServerSync,
            ControlMessage::Ping(_) => MessageType::Ping,
        }
    }
}

} // verus!
