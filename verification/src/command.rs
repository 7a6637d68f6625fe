//! The command bar: a typed line turned into a server command.

use vstd::prelude::*;
use crate::protocol::{CmdView, ServerCmd};
use crate::text::{
    concat, from_chars, parse_u64, parse_u64_chars, spells, to_chars, trim, trim_chars,
};

verus! {

/// What a typed command line asks for.
#[derive(Clone, Debug, PartialEq, Eq)]
pub enum CommandAction {
    /// Send this command to the server.
    Dispatch(ServerCmd),
    /// A known command with nothing to send (`say` without a message).
    Ignore,
    /// The first word is not a known command; it is carried for the warning.
    Unknown(String),
}

/// Mathematical form of a [`CommandAction`].
pub enum ActionView {
    Dispatch(CmdView),
    Ignore,
    Unknown(Seq<char>),
}

impl View for CommandAction {
    type V = ActionView;

    open spec fn view(&self) -> ActionView {
        match self {
            CommandAction::Dispatch(cmd) => ActionView::Dispatch(cmd@),
            CommandAction::Ignore => ActionView::Ignore,
            CommandAction::Unknown(word) => ActionView::Unknown(word@),
        }
    }
}

/// `s` split at its first space, as `s.splitn(2, ' ')` gives it: the part before the
/// space, and the part after it if there is a space.
pub open spec fn split_first_space(s: Seq<char>) -> (Seq<char>, Option<Seq<char>>)
    decreases s.len(),
{
    if s.len() == 0 {
        (s, None)
    } else if s[0] == ' ' {
        (Seq::empty(), Some(s.drop_first()))
    } else {
        let (head, rest) = split_first_space(s.drop_first());
        (seq![s[0]] + head, rest)
    }
}

/// The notice broadcast when a player is kicked.
pub open spec fn kick_notice(name: Seq<char>) -> Seq<char> {
    name + " was kicked by the server"@
}

/// The reason announced by a `shutdown` typed in the command bar.
pub open spec fn command_shutdown_reason() -> Seq<char> {
    "Server is shutting down"@
}

/// The countdown used when none, or none that parses, is given.
pub open spec fn default_countdown() -> u64 {
    60
}

/// The countdown written in `arg`, or the default one.
pub open spec fn countdown_or_default(arg: Option<Seq<char>>) -> u64 {
    match arg {
        Some(a) => match parse_u64(a) {
            Some(n) => n,
            None => default_countdown(),
        },
        None => default_countdown(),
    }
}

/// What the command bar does with the line `raw`: the line is trimmed and split at its
/// first space into a command word and an argument.
/// - `say`/`msg`: broadcast the argument, when it is not empty;
/// - `kick`: broadcast that the named player (`?` without argument) was kicked;
/// - `stop`/`quit`: shut down at once;
/// - `shutdown`: shut down after the countdown given (60 seconds by default);
/// - anything else is an unknown command.
pub open spec fn command_action(raw: Seq<char>) -> ActionView {
    let (head, rest) = split_first_space(trim(raw));
    if head == "say"@ || head == "msg"@ {
        let msg = match rest {
            Some(m) => m,
            None => Seq::empty(),
        };
        if msg.len() > 0 {
            ActionView::Dispatch(CmdView::BroadcastMessage { msg })
        } else {
            ActionView::Ignore
        }
    } else if head == "kick"@ {
        let name = match rest {
            Some(n) => n,
            None => "?"@,
        };
        ActionView::Dispatch(CmdView::BroadcastMessage { msg: kick_notice(name) })
    } else if head == "stop"@ || head == "quit"@ {
        ActionView::Dispatch(CmdView::ShutdownImmediate)
    } else if head == "shutdown"@ {
        ActionView::Dispatch(
            CmdView::ShutdownGraceful {
                seconds: countdown_or_default(rest),
                reason: command_shutdown_reason(),
            },
        )
    } else {
        ActionView::Unknown(head)
    }
}

proof fn lemma_split_at(s: Seq<char>, i: int)
    requires
        0 <= i <= s.len(),
        forall|j: int| 0 <= j < i ==> s[j] != ' ',
        i < s.len() ==> s[i] == ' ',
    ensures
        split_first_space(s) == (s.take(i), if i < s.len() {
            Some(s.skip(i + 1))
        } else {
            None::<Seq<char>>
        }),
    decreases i,
{
    if i == 0 {
        if s.len() > 0 {
            assert(s.skip(1) =~= s.drop_first());
        }
        assert(s.take(0) =~= Seq::<char>::empty());
        if s.len() == 0 {
            assert(s =~= Seq::<char>::empty());
        }
    } else {
        let t = s.drop_first();
        assert forall|j: int| 0 <= j < i - 1 implies t[j] != ' ' by {
            assert(t[j] == s[j + 1]);
        }
        lemma_split_at(t, i - 1);
        assert(seq![s[0]] + t.take(i - 1) =~= s.take(i));
        if i < s.len() {
            assert(t.skip(i) =~= s.skip(i + 1));
        }
    }
}

/// Splits `s` at its first space (`s.splitn(2, ' ')`).
pub fn split_at_first_space(s: &Vec<char>) -> (r: (Vec<char>, Option<Vec<char>>))
    ensures
        r.0@ == split_first_space(s@).0,
        match (r.1, split_first_space(s@).1) {
            (Some(a), Some(b)) => a@ == b,
            (None, None) => true,
            _ => false,
        },
{
    let n = s.len();
    let mut i: usize = 0;
    while i < n && s[i] != ' '
        invariant
            i <= n == s.len(),
            forall|j: int| 0 <= j < i ==> s@[j] != ' ',
        decreases n - i,
    {
        i = i + 1;
    }
    proof {
        lemma_split_at(s@, i as int);
    }
    let mut head: Vec<char> = Vec::new();
    let mut k: usize = 0;
    while k < i
        invariant
            k <= i <= n == s.len(),
            head@ == s@.take(k as int),
        decreases i - k,
    {
        head.push(s[k]);
        assert(s@.take(k + 1) =~= s@.take(k as int).push(s@[k as int]));
        k = k + 1;
    }
    if i < n {
        let mut rest: Vec<char> = Vec::new();
        let mut m: usize = i + 1;
        while m < n
            invariant
                i < n == s.len(),
                i + 1 <= m <= n,
                rest@ == s@.subrange(i + 1, m as int),
            decreases n - m,
        {
            rest.push(s[m]);
            assert(s@.subrange(i + 1, m + 1) =~= s@.subrange(i + 1, m as int).push(s@[m as int]));
            m = m + 1;
        }
        assert(s@.subrange(i + 1, n as int) =~= s@.skip(i + 1));
        (head, Some(rest))
    } else {
        (head, None)
    }
}

/// The notice broadcast when `name` is kicked.
pub fn kick_message(name: &str) -> (r: String)
    ensures
        r@ == kick_notice(name@),
{
    concat(name, " was kicked by the server")
}

/// The warning logged for an unknown command word.
pub open spec fn unknown_command_text(word: Seq<char>) -> Seq<char> {
    "Unknown GUI command: "@ + word + ". Try: say <msg>, kick <player>, stop, shutdown [secs]"@
}

/// The warning logged for the unknown command word `word`.
pub fn unknown_command_warning(word: &str) -> (r: String)
    ensures
        r@ == unknown_command_text(word@),
{
    let head = concat("Unknown GUI command: ", word);
    concat(head.as_str(), ". Try: say <msg>, kick <player>, stop, shutdown [secs]")
}

/// Reads a command line typed in the command bar (see [`command_action`]).
pub fn parse_command(raw: &str) -> (r: CommandAction)
    ensures
        r@ == command_action(raw@),
{
    let chars = to_chars(raw);
    let input = trim_chars(&chars);
    let (head, rest) = split_at_first_space(&input);
    if spells(&head, "say") || spells(&head, "msg") {
        match rest {
            Some(m) => {
                if m.len() > 0 {
                    CommandAction::Dispatch(ServerCmd::BroadcastMessage { msg: from_chars(&m) })
                } else {
                    CommandAction::Ignore
                }
            },
            None => CommandAction::Ignore,
        }
    } else if spells(&head, "kick") {
        let name = match rest {
            Some(n) => from_chars(&n),
            None => "?".to_owned(),
        };
        CommandAction::Dispatch(ServerCmd::BroadcastMessage { msg: kick_message(name.as_str()) })
    } else if spells(&head, "stop") || spells(&head, "quit") {
        CommandAction::Dispatch(ServerCmd::ShutdownImmediate)
    } else if spells(&head, "shutdown") {
        let seconds = match rest {
            Some(a) => match parse_u64_chars(&a) {
                Some(n) => n,
                None => 60,
            },
            None => 60,
        };
        CommandAction::Dispatch(
            ServerCmd::ShutdownGraceful { seconds, reason: "Server is shutting down".to_owned() },
        )
    } else {
        CommandAction::Unknown(from_chars(&head))
    }
}

} // verus!
