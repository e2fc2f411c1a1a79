use crate::channel::{spec_upsert, unique_ids, Channel, ChannelList, ChannelView};
use crate::mumbleproto::{ControlMessage, ControlMessageView, ServerSync, UserStateView};
use vstd::prelude::*;

verus! {

/// What the client knows of itself in the session.
#[derive(Debug, PartialEq, Eq)]
pub struct UserInfo {
    pub session_id: u32,
    pub name: String,
    pub channel_id: u32,
}

pub struct UserInfoView {
    pub session_id: u32,
    pub name: Seq<char>,
    pub channel_id: u32,
}

impl View for UserInfo {
    type V = UserInfoView;

    open spec fn view(&self) -> UserInfoView {
        UserInfoView { session_id: self.session_id, name: self.name@, channel_id: self.channel_id }
    }
}

impl Clone for UserInfo {
    fn clone(&self) -> (info: Self)
        ensures
            info == *self,
    {
        UserInfo {
            session_id: self.session_id,
            name: self.name.clone(),
            channel_id: self.channel_id,
        }
    }
}

impl Default for UserInfo {
    fn default() -> (info: Self)
        ensures
            info@ == (UserInfoView { session_id: 0, name: Seq::empty(), channel_id: 0 }),
    {
        UserInfo { session_id: 0, name: String::new(), channel_id: 0 }
    }
}

/// The session as the server has described it so far: the channels, the
/// client's own identity, and whether the server has confirmed the session.
pub struct SessionState {
    channels: ChannelList,
    user_info: UserInfo,
    session_known: bool,
    connected: bool,
}

pub struct SessionView {
    pub channels: Seq<ChannelView>,
    pub user_info: UserInfoView,
    /// Whether the server has named the client's session id.
    pub session_known: bool,
    pub connected: bool,
}

impl View for SessionState {
    type V = SessionView;

    closed spec fn view(&self) -> SessionView {
        SessionView {
            channels: self.channels@,
            user_info: self.user_info@,
            session_known: self.session_known,
            connected: self.connected,
        }
    }
}

impl SessionView {
    /// The session before the server has said anything.
    pub open spec fn empty() -> SessionView {
        SessionView {
            channels: Seq::empty(),
            user_info: UserInfoView { session_id: 0, name: Seq::empty(), channel_id: 0 },
            session_known: false,
            connected: false,
        }
    }

    pub open spec fn with_channel(self, channel: ChannelView) -> SessionView {
        SessionView { channels: spec_upsert(self.channels, channel), ..self }
    }

    pub open spec fn with_session(self, session_id: u32) -> SessionView {
        SessionView {
            user_info: UserInfoView { session_id, ..self.user_info },
            session_known: true,
            ..self
        }
    }

    pub open spec fn with_current_channel(self, channel_id: u32) -> SessionView {
        SessionView { user_info: UserInfoView { channel_id, ..self.user_info }, ..self }
    }

    pub open spec fn with_name(self, name: Seq<char>) -> SessionView {
        SessionView { user_info: UserInfoView { name, ..self.user_info }, ..self }
    }

    pub open spec fn marked_connected(self) -> SessionView {
        SessionView { connected: true, ..self }
    }
}

impl SessionState {
    pub fn new() -> (session: Self)
        ensures
            session@ == SessionView::empty(),
    {
        SessionState {
            channels: ChannelList::default(),
            user_info: UserInfo::default(),
            session_known: false,
            connected: false,
        }
    }

    /// A copy of the channel list. No two of its channels have the same id.
    pub fn snapshot_channels(&self) -> (channels: ChannelList)
        ensures
            channels@ == self@.channels,
            unique_ids(channels@),
    {
        proof {
            use_type_invariant(&self.channels);
        }
        self.channels.clone()
    }

    /// A copy of what the client knows of itself.
    pub fn snapshot_user_info(&self) -> (info: UserInfo)
        ensures
            info@ == self@.user_info,
    {
        self.user_info.clone()
    }

    pub fn is_connected(&self) -> (connected: bool)
        ensures
            connected == self@.connected,
    {
        self.connected
    }

    /// Whether the server has named the client's session id.
    pub fn has_session(&self) -> (known: bool)
        ensures
            known == self@.session_known,
    {
        self.session_known
    }

    /// What the client knows of itself, for reading.
    pub(crate) fn user_info(&self) -> (info: &UserInfo)
        ensures
            info@ == self@.user_info,
    {
        &self.user_info
    }

    pub(crate) fn set_name(&mut self, name: &str)
        ensures
            final(self)@ == old(self)@.with_name(name@),
    {
        self.user_info.name = name.to_owned();
    }

    pub(crate) fn record_channel(&mut self, channel: Channel)
        ensures
            final(self)@ == old(self)@.with_channel(channel@),
    {
        let _ = self.channels.push(channel);
    }

    pub(crate) fn set_user_session(&mut self, session_id: u32)
        ensures
            final(self)@ == old(self)@.with_session(session_id),
    {
        self.user_info.session_id = session_id;
        self.session_known = true;
    }

    pub(crate) fn mark_connected(&mut self)
        ensures
            final(self)@ == old(self)@.marked_connected(),
    {
        self.connected = true;
    }
}

/// The session after the server's confirmation. Only the first confirmation
/// counts: it marks the session connected and, if it names a session id,
/// records it. A later one changes nothing.
pub open spec fn spec_sync(session: SessionView, sync: ServerSync) -> SessionView {
    if session.connected {
        session
    } else {
        match sync.session {
            Some(session_id) => session.with_session(session_id).marked_connected(),
            None => session.marked_connected(),
        }
    }
}

/// The session after a state update. Only an update about the client's own
/// session that names a channel changes anything: the client is then in that
/// channel.
pub open spec fn spec_user_update(session: SessionView, update: UserStateView) -> SessionView {
    if session.session_known && update.session == Some(session.user_info.session_id) {
        match update.channel_id {
            Some(channel_id) => session.with_current_channel(channel_id),
            None => session,
        }
    } else {
        session
    }
}

/// The session after a decoded message from the server.
pub open spec fn spec_absorb(session: SessionView, message: ControlMessageView) -> SessionView {
    match message {
        ControlMessageView::ChannelState(state) => session.with_channel(
            Channel::spec_from_message(state),
        ),
        ControlMessageView::UserState(update) => spec_user_update(session, update),
        ControlMessageView::ServerSync(sync) => spec_sync(session, sync),
        ControlMessageView::Ping(_) => session,
    }
}

impl SessionState {
    /// Takes in a decoded message from the server.
    pub(crate) fn absorb(&mut self, message: ControlMessage)
        ensures
            final(self)@ == spec_absorb(old(self)@, message@),
    {
        match message {
            ControlMessage::ChannelState(state) => {
                match Channel::from_message(&state) {
                    Ok(channel) => self.record_channel(channel),
                    Err(_) => {},
                }
            },
            ControlMessage::UserState(update) => {
                if self.session_known && update.session == Some(self.user_info.session_id) {
                    match update.channel_id {
                        Some(channel_id) => {
                            self.user_info.channel_id = channel_id;
                        },
                        None => {},
                    }
                }
            },
            ControlMessage::ServerSync(sync) => {
                if !self.connected {
                    match sync.session {
                        Some(session_id) => self.set_user_session(session_id),
                        None => {},
                    }
                    self.mark_connected();
                }
            },
            ControlMessage::Ping(_) => {},
        }
    }
}

/// The session is marked connected by a confirmation from the server and by
/// nothing else, and nothing that the server sends takes the mark away.
pub proof fn lemma_connected_only_by_sync(session: SessionView, message: ControlMessageView)
    ensures
        session.connected ==> spec_absorb(session, message).connected,
        !session.connected && spec_absorb(session, message).connected ==> message is ServerSync,
{
}

/// Whatever the server sends, no two channels of the session come to have
/// the same id.
pub proof fn lemma_absorb_keeps_ids_unique(session: SessionView, message: ControlMessageView)
    requires
        unique_ids(session.channels),
    ensures
        unique_ids(spec_absorb(session, message).channels),
{
    if let ControlMessageView::ChannelState(state) = message {
        crate::channel::lemma_upsert_keeps_ids_unique(
            session.channels,
            Channel::spec_from_message(state),
        );
    }
}

} // verus!
