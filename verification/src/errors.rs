use vstd::prelude::*;
use vstd::string::*;

verus! {

/// The broad class a failure belongs to. The class decides whether the
/// connection survives the failure.
#[derive(Clone, Copy, Debug, PartialEq, Eq, Structural)]
pub enum ErrorKind {
    /// The byte stream itself failed: closed socket, failed handshake.
    Transport,
    /// A frame header or its length was malformed.
    Frame,
    /// A payload did not match the schema of its declared type.
    Codec,
    /// A command was issued before the session could carry it out.
    ProtocolState,
    /// The action queue had no room.
    QueueFull,
}

impl ErrorKind {
    /// Only a transport failure ends the connection; every other kind is
    /// local to one frame or one command.
    pub open spec fn spec_is_terminal(self) -> bool {
        self == ErrorKind::Transport
    }

    #[verifier::when_used_as_spec(spec_is_terminal)]
    pub fn is_terminal(self) -> (r: bool)
        ensures
            r == self.spec_is_terminal(),
    {
        match self {
            ErrorKind::Transport => true,
            _ => false,
        }
    }

    /// A caller may try the same command again later exactly when the queue
    /// was full.
    pub open spec fn spec_is_retryable(self) -> bool {
        self == ErrorKind::QueueFull
    }

    #[verifier::when_used_as_spec(spec_is_retryable)]
    pub fn is_retryable(self) -> (r: bool)
        ensures
            r == self.spec_is_retryable(),
    {
        match self {
            ErrorKind::QueueFull => true,
            _ => false,
        }
    }
}

/// What can be wrong with a frame.
#[derive(Clone, Copy, Debug, PartialEq, Eq, Structural)]
pub enum FrameError {
    /// A header was not exactly six bytes long.
    HeaderLength,
    /// The type code of a header stands for no known kind of message.
    UnknownMessageType { code: u16 },
    /// A payload is longer than a header can declare, or than the receiver
    /// is willing to accept.
    PayloadTooLarge,
    /// A payload is not as long as its header says.
    LengthMismatch,
}

impl FrameError {
    pub open spec fn spec_message(self) -> Seq<char> {
        match self {
            FrameError::HeaderLength => "Packet header length was incorrect"@,
            FrameError::UnknownMessageType { .. } => "Could not convert enum"@,
            FrameError::PayloadTooLarge => "Packet payload was too large"@,
            FrameError::LengthMismatch => "Packet payload length was incorrect"@,
        }
    }

    /// A fixed description of the error.
    pub fn message(self) -> (m: &'static str)
        ensures
            m@ == self.spec_message(),
    {
        match self {
            FrameError::HeaderLength => "Packet header length was incorrect",
            FrameError::UnknownMessageType { .. } => "Could not convert enum",
            FrameError::PayloadTooLarge => "Packet payload was too large",
            FrameError::LengthMismatch => "Packet payload length was incorrect",
        }
    }

    pub fn kind(self) -> (k: ErrorKind)
        ensures
            k == ErrorKind::Frame,
    {
        ErrorKind::Frame
    }
}

/// Why a command cannot be carried out in the state the client is in. None
/// of these ends the connection.
#[derive(Clone, Copy, Debug, PartialEq, Eq, Structural)]
pub enum ProtocolStateError {
    /// The server has not yet confirmed the session, or the client is
    /// shutting down.
    NotConnected,
    /// The session is confirmed, but the server named no session id, so the
    /// client cannot say whom a state update is about.
    NotReady,
    /// A step of the connection's life was asked for out of turn.
    WrongPhase,
}

impl ProtocolStateError {
    pub open spec fn spec_message(self) -> Seq<char> {
        match self {
            ProtocolStateError::NotConnected => "Client is not connected"@,
            ProtocolStateError::NotReady => "Session id is not known yet"@,
            ProtocolStateError::WrongPhase => "Operation is not valid in this state"@,
        }
    }

    /// A fixed description of the error.
    pub fn message(self) -> (m: &'static str)
        ensures
            m@ == self.spec_message(),
    {
        match self {
            ProtocolStateError::NotConnected => "Client is not connected",
            ProtocolStateError::NotReady => "Session id is not known yet",
            ProtocolStateError::WrongPhase => "Operation is not valid in this state",
        }
    }

    pub fn kind(self) -> (k: ErrorKind)
        ensures
            k == ErrorKind::ProtocolState,
    {
        ErrorKind::ProtocolState
    }
}

/// An error carrying a human-readable message.
#[derive(Debug, PartialEq, Eq)]
pub struct MumbleError {
    message: String,
}

impl View for MumbleError {
    type V = Seq<char>;

    closed spec fn view(&self) -> Seq<char> {
        self.message@
    }
}

impl MumbleError {
    pub fn new(message: &str) -> (e: Self)
        ensures
            e@ == message@,
    {
        Self { message: message.to_owned() }
    }

    /// The message the error was built with.
    pub fn message(&self) -> (m: &str)
        ensures
            m@ == self@,
    {
        self.message.as_str()
    }

    /// The error as it is shown to a user: the message behind a fixed
    /// prefix.
    #[allow(clippy::inherent_to_string)]
    pub fn to_string(&self) -> (s: String)
        ensures
            s@ == "Mumble Error: "@ + self@,
    {
        String::from_str("Mumble Error: ").concat(self.message.as_str())
    }
}

impl FrameError {
    /// The error as a message.
    pub fn to_error(self) -> (e: MumbleError)
        ensures
            e@ == self.spec_message(),
    {
        MumbleError::new(self.message())
    }
}

impl ProtocolStateError {
    /// The error as a message.
    pub fn to_error(self) -> (e: MumbleError)
        ensures
            e@ == self.spec_message(),
    {
        MumbleError::new(self.message())
    }
}

} // verus!
