//! The messages exchanged with the server thread and the log levels the console knows.

use vstd::prelude::*;
use crate::text::{spells, to_chars};

verus! {

/// Role granted to a newly added administrator.
#[derive(Clone, Copy, Debug, PartialEq, Eq, Structural)]
pub enum AdminRole {
    Moderator,
    Admin,
}

/// The role a name stands for: `mod` and `moderator` for a moderator, `admin` for an
/// administrator; no other name is a role.
pub open spec fn admin_role_named(name: Seq<char>) -> Option<AdminRole> {
    if name == "mod"@ || name == "moderator"@ {
        Some(AdminRole::Moderator)
    } else if name == "admin"@ {
        Some(AdminRole::Admin)
    } else {
        None
    }
}

impl AdminRole {
    /// The role named `name` (see [`admin_role_named`]); names are matched exactly.
    pub fn from_name(name: &str) -> (r: Option<AdminRole>)
        ensures
            r == admin_role_named(name@),
    {
        let v = to_chars(name);
        if spells(&v, "mod") || spells(&v, "moderator") {
            Some(AdminRole::Moderator)
        } else if spells(&v, "admin") {
            Some(AdminRole::Admin)
        } else {
            None
        }
    }
}

/// A command sent from the window to the server thread.
#[derive(Clone, Debug, PartialEq, Eq)]
pub enum ServerCmd {
    /// Stop the server at once.
    ShutdownImmediate,
    /// Stop the server after a countdown, announcing the reason.
    ShutdownGraceful { seconds: u64, reason: String },
    /// Send a chat message to every player.
    BroadcastMessage { msg: String },
    /// Disconnect every player.
    DisconnectAll,
    /// Grant a user an administrative role.
    AdminAdd { username: String, role: AdminRole },
}

/// Mathematical form of a [`ServerCmd`]: its strings as character sequences.
pub enum CmdView {
    ShutdownImmediate,
    ShutdownGraceful { seconds: u64, reason: Seq<char> },
    BroadcastMessage { msg: Seq<char> },
    DisconnectAll,
    AdminAdd { username: Seq<char>, role: AdminRole },
}

impl View for ServerCmd {
    type V = CmdView;

    open spec fn view(&self) -> CmdView {
        match self {
            ServerCmd::ShutdownImmediate => CmdView::ShutdownImmediate,
            ServerCmd::ShutdownGraceful { seconds, reason } => CmdView::ShutdownGraceful {
                seconds: *seconds,
                reason: reason@,
            },
            ServerCmd::BroadcastMessage { msg } => CmdView::BroadcastMessage { msg: msg@ },
            ServerCmd::DisconnectAll => CmdView::DisconnectAll,
            ServerCmd::AdminAdd { username, role } => CmdView::AdminAdd {
                username: username@,
                role: *role,
            },
        }
    }
}

/// An event reported by the server thread to the window.
#[derive(Clone, Debug, PartialEq, Eq)]
pub enum ServerEvent {
    /// The names of the players now online.
    Players(Vec<String>),
    /// The server has stopped.
    Stopped,
}

/// Severity of a console log line.
#[derive(Clone, Copy, Debug, PartialEq, Eq, Structural)]
pub enum LogLevel {
    Error,
    Warn,
    Info,
    Debug,
    Trace,
    Unknown,
}

} // verus!
