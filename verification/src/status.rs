//! The status record of a server, the error tags of a failed probe, and the
//! envelope that carries one or the other.

use vstd::prelude::*;

verus! {

/// What a server says of its version.
#[derive(Debug, Clone, PartialEq, Eq)]
pub struct ServerVersionDef {
    /// The version label, such as "1.15.2".
    pub name: String,
    /// The protocol number.
    pub protocol: u32,
}

/// The mathematical content of a [`ServerVersionDef`].
pub struct ServerVersionView {
    pub name: Seq<char>,
    pub protocol: nat,
}

impl View for ServerVersionDef {
    type V = ServerVersionView;

    open spec fn view(&self) -> ServerVersionView {
        ServerVersionView { name: self.name@, protocol: self.protocol as nat }
    }
}

/// One player who is online.
#[derive(Debug, Clone, PartialEq, Eq)]
pub struct ServerPlayerDef {
    /// The display name.
    pub name: String,
    /// The identifier.
    pub id: String,
}

/// The mathematical content of a [`ServerPlayerDef`].
pub struct ServerPlayerView {
    pub name: Seq<char>,
    pub id: Seq<char>,
}

impl View for ServerPlayerDef {
    type V = ServerPlayerView;

    open spec fn view(&self) -> ServerPlayerView {
        ServerPlayerView { name: self.name@, id: self.id@ }
    }
}

/// How many players a server holds, and some of them.
#[derive(Debug, Clone, PartialEq, Eq)]
pub struct ServerPlayersDef {
    /// The most players the server admits.
    pub max: u32,
    /// The number of players online.
    pub online: u32,
    /// Some of the players online, if the server has sent any.
    pub sample: Option<Vec<ServerPlayerDef>>,
}

/// The mathematical content of a [`ServerPlayersDef`].
pub struct ServerPlayersView {
    pub max: nat,
    pub online: nat,
    pub sample: Option<Seq<ServerPlayerView>>,
}

/// The contents of a list of players.
pub open spec fn player_views(players: Seq<ServerPlayerDef>) -> Seq<ServerPlayerView> {
    players.map_values(|p: ServerPlayerDef| p@)
}

impl View for ServerPlayersDef {
    type V = ServerPlayersView;

    open spec fn view(&self) -> ServerPlayersView {
        ServerPlayersView {
            max: self.max as nat,
            online: self.online as nat,
            sample: match self.sample {
                Some(players) => Some(player_views(players@)),
                None => None,
            },
        }
    }
}

/// A server's message of the day, in either of the two shapes that servers
/// send it in.
#[derive(Debug, Clone, PartialEq, Eq)]
pub enum ServerDescriptionDef {
    /// The message as a bare string.
    Plain(String),
    /// The message as the `text` field of an object.
    Object { text: String },
}

/// The mathematical content of a [`ServerDescriptionDef`].
pub enum ServerDescriptionView {
    Plain(Seq<char>),
    Object { text: Seq<char> },
}

impl ServerDescriptionView {
    /// The message itself, whatever shape it came in.
    pub open spec fn message(self) -> Seq<char> {
        match self {
            ServerDescriptionView::Plain(message) => message,
            ServerDescriptionView::Object { text } => text,
        }
    }
}

impl View for ServerDescriptionDef {
    type V = ServerDescriptionView;

    open spec fn view(&self) -> ServerDescriptionView {
        match self {
            ServerDescriptionDef::Plain(message) => ServerDescriptionView::Plain(message@),
            ServerDescriptionDef::Object { text } => ServerDescriptionView::Object { text: text@ },
        }
    }
}

impl ServerDescriptionDef {
    /// The message itself, whatever shape it came in.
    pub fn message(&self) -> (message: &str)
        ensures
            message@ == self@.message(),
    {
        match self {
            ServerDescriptionDef::Plain(message) => message.as_str(),
            ServerDescriptionDef::Object { text } => text.as_str(),
        }
    }
}

/// What one successful probe has learnt.
#[derive(Debug, Clone, PartialEq, Eq)]
pub struct StatusResponseDef {
    pub version: ServerVersionDef,
    pub players: ServerPlayersDef,
    pub description: ServerDescriptionDef,
    /// The server's icon, if it sent one.
    pub favicon: Option<String>,
}

/// The mathematical content of a [`StatusResponseDef`].
pub struct StatusResponseView {
    pub version: ServerVersionView,
    pub players: ServerPlayersView,
    pub description: ServerDescriptionView,
    pub favicon: Option<Seq<char>>,
}

impl View for StatusResponseDef {
    type V = StatusResponseView;

    open spec fn view(&self) -> StatusResponseView {
        StatusResponseView {
            version: self.version@,
            players: self.players@,
            description: self.description@,
            favicon: match self.favicon {
                Some(icon) => Some(icon@),
                None => None,
            },
        }
    }
}

/// Why a probe did not produce a status record.
#[derive(Debug, Clone, Copy, PartialEq, Eq, Structural)]
pub enum StatusError {
    /// The exchange with the server failed: a refused or reset connection,
    /// malformed data, an unexpected end of the stream.
    ProtocolError,
    /// The address names no host.
    InvalidInput,
    /// The exchange did not finish before its deadline.
    Timeout,
}

impl StatusError {
    /// The tag by which the envelope names this error.
    pub open spec fn tag_text(self) -> Seq<char> {
        match self {
            StatusError::ProtocolError => "ProtocolError"@,
            StatusError::InvalidInput => "InvalidInput"@,
            StatusError::Timeout => "Timeout"@,
        }
    }

    /// What this error says to a reader.
    pub open spec fn message_text(self) -> Seq<char> {
        match self {
            StatusError::ProtocolError => "Protocol error"@,
            StatusError::InvalidInput => "Invalid input string"@,
            StatusError::Timeout => "Timed out"@,
        }
    }

    /// The tag by which the envelope names this error.
    pub fn tag(&self) -> (tag: &'static str)
        ensures
            tag@ == self.tag_text(),
    {
        match self {
            StatusError::ProtocolError => "ProtocolError",
            StatusError::InvalidInput => "InvalidInput",
            StatusError::Timeout => "Timeout",
        }
    }

    /// What this error says to a reader.
    pub fn message(&self) -> (message: &'static str)
        ensures
            message@ == self.message_text(),
    {
        match self {
            StatusError::ProtocolError => "Protocol error",
            StatusError::InvalidInput => "Invalid input string",
            StatusError::Timeout => "Timed out",
        }
    }
}

/// The envelope of the structured answer: an error tag or a status record.
/// An envelope that a probe has shaped holds exactly one of the two.
#[derive(Debug, Clone, PartialEq, Eq)]
pub struct Response {
    pub err: Option<StatusError>,
    pub result: Option<StatusResponseDef>,
}

/// The mathematical content of a [`Response`].
pub struct ResponseView {
    pub err: Option<StatusError>,
    pub result: Option<StatusResponseView>,
}

impl ResponseView {
    /// Exactly one of the two fields is present.
    pub open spec fn exclusive(self) -> bool {
        self.err is Some <==> self.result is None
    }
}

impl View for Response {
    type V = ResponseView;

    open spec fn view(&self) -> ResponseView {
        ResponseView {
            err: self.err,
            result: match self.result {
                Some(record) => Some(record@),
                None => None,
            },
        }
    }
}

} // verus!
