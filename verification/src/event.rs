//! Status events: the per-tunnel stream of records handed to observers.

use vstd::prelude::*;

verus! {

/// Connection lifecycle of one supervised tunnel. `Disconnected` is the sole
/// terminal state of a supervisor; `Error` and `Reconnecting` are always
/// followed by another `Connecting` or by `Disconnected`.
#[derive(Clone, Copy, Debug, PartialEq, Eq, Structural)]
pub enum ConnectionState {
    Connecting,
    Connected,
    Error,
    Reconnecting,
    Disconnected,
}

/// One record of a tunnel's status stream.
#[derive(Clone, Debug)]
pub struct StatusEvent {
    pub id: String,
    pub status: ConnectionState,
    pub message: Option<String>,
    pub url: Option<String>,
}

/// Mathematical image of a `StatusEvent`.
#[verifier::ext_equal]
pub struct StatusEventModel {
    pub id: Seq<char>,
    pub status: ConnectionState,
    pub message: Option<Seq<char>>,
    pub url: Option<Seq<char>>,
}

impl View for StatusEvent {
    type V = StatusEventModel;

    open spec fn view(&self) -> StatusEventModel {
        StatusEventModel {
            id: self.id@,
            status: self.status,
            message: match self.message {
                Some(m) => Some(m@),
                None => None,
            },
            url: match self.url {
                Some(u) => Some(u@),
                None => None,
            },
        }
    }
}

impl DeepView for StatusEvent {
    type V = StatusEventModel;

    open spec fn deep_view(&self) -> StatusEventModel {
        self.view()
    }
}

/// An event carrying a message, as every event of this library does.
pub open spec fn msg_event(
    id: Seq<char>,
    status: ConnectionState,
    message: Seq<char>,
    url: Option<Seq<char>>,
) -> StatusEventModel {
    StatusEventModel { id, status, message: Some(message), url }
}

/// The wire name of each state, as observers of the status stream expect it.
pub open spec fn spec_wire_name(s: ConnectionState) -> Seq<char> {
    match s {
        ConnectionState::Connecting => "connecting"@,
        ConnectionState::Connected => "connected"@,
        ConnectionState::Error => "error"@,
        ConnectionState::Reconnecting => "reconnecting"@,
        ConnectionState::Disconnected => "disconnected"@,
    }
}

impl ConnectionState {
    /// Lowercase wire form of the state for serialized status records.
    pub fn wire_name(&self) -> (r: &'static str)
        ensures
            r@ == spec_wire_name(*self),
    {
        match self {
            ConnectionState::Connecting => "connecting",
            ConnectionState::Connected => "connected",
            ConnectionState::Error => "error",
            ConnectionState::Reconnecting => "reconnecting",
            ConnectionState::Disconnected => "disconnected",
        }
    }
}

} // verus!
