//! The state of the server window and what each of its controls does to it.
//!
//! Drawing is done elsewhere; every button, text box and server event reaches the
//! state through a method here, which returns the command to send to the server, if any.

use vstd::prelude::*;
use crate::color::{from_rgb, light_gray, opaque, Rgba};
use crate::command::{
    command_action, countdown_or_default, kick_message, kick_notice, parse_command, CommandAction,
};
use crate::protocol::{admin_role_named, AdminRole, CmdView, LogLevel, ServerCmd, ServerEvent};
use crate::text::{
    concat, contains, contains_chars, decimal, decimal_string, lowered, parse_u64_str, to_chars,
    to_lowercase, trim, trim_str,
};
use crate::uptime::{elapsed_secs, format_uptime, now, uptime_text};

verus! {

/// State of the "Graceful Shutdown" dialog.
pub struct ShutdownDialog {
    pub open: bool,
    /// The countdown as typed.
    pub seconds: String,
    pub reason: String,
}

/// State of the "Broadcast Message" dialog.
pub struct BroadcastDialog {
    pub open: bool,
    pub message: String,
}

/// State of the "Add Admin" dialog.
pub struct AdminDialog {
    pub open: bool,
    pub username: String,
    /// The role as typed.
    pub role: String,
}

impl Default for ShutdownDialog {
    fn default() -> (d: Self)
        ensures
            !d.open,
            d.seconds@ == Seq::<char>::empty(),
            d.reason@ == Seq::<char>::empty(),
    {
        ShutdownDialog { open: false, seconds: String::new(), reason: String::new() }
    }
}

impl Default for BroadcastDialog {
    fn default() -> (d: Self)
        ensures
            !d.open,
            d.message@ == Seq::<char>::empty(),
    {
        BroadcastDialog { open: false, message: String::new() }
    }
}

impl Default for AdminDialog {
    fn default() -> (d: Self)
        ensures
            !d.open,
            d.username@ == Seq::<char>::empty(),
            d.role@ == Seq::<char>::empty(),
    {
        AdminDialog { open: false, username: String::new(), role: String::new() }
    }
}

/// What the user types and ticks in the server window.
pub struct WindowInputs {
    /// The line in the command bar.
    pub command_input: String,
    pub shutdown_dialog: ShutdownDialog,
    pub broadcast_dialog: BroadcastDialog,
    pub admin_add_dialog: AdminDialog,
    /// Text that console lines must contain to be shown (case is ignored).
    pub log_filter: String,
    pub show_trace: bool,
    pub show_debug: bool,
    pub scroll_to_bottom: bool,
}

/// The server window: what the server reported, which only server events change, and
/// what the user has typed and chosen.
pub struct ServerApp {
    /// Names of the players online, as last reported by the server.
    players: Vec<String>,
    /// Whether the server is running; once it has stopped it stays stopped.
    server_running: bool,
    start_time: std::time::Instant,
    ui: WindowInputs,
}

/// Colour in which console lines of a level are shown.
pub open spec fn level_color_of(level: LogLevel) -> Rgba {
    match level {
        LogLevel::Error => opaque(255, 80, 80),
        LogLevel::Warn => opaque(255, 200, 60),
        LogLevel::Info => opaque(160, 210, 255),
        LogLevel::Debug => opaque(140, 200, 140),
        LogLevel::Trace => opaque(160, 160, 160),
        LogLevel::Unknown => opaque(220, 220, 220),
    }
}

/// Countdown written in the shutdown dialog, or 60 seconds when it does not parse.
pub open spec fn dialog_countdown(typed: Seq<char>) -> u64 {
    countdown_or_default(Some(trim(typed)))
}

/// Role chosen in the admin dialog: the role the lowercased text names, else moderator.
pub open spec fn chosen_role(typed: Seq<char>) -> AdminRole {
    match admin_role_named(lowered(typed)) {
        Some(role) => role,
        None => AdminRole::Moderator,
    }
}

/// Whether the server is running after `event`, given whether it was running before.
pub open spec fn next_running(running: bool, event: ServerEvent) -> bool {
    running && !(event is Stopped)
}

/// Whether the server is running after `events`, taken in order.
pub open spec fn running_after_events(running: bool, events: Seq<ServerEvent>) -> bool
    decreases events.len(),
{
    if events.len() == 0 {
        running
    } else {
        running_after_events(next_running(running, events[0]), events.drop_first())
    }
}

impl ServerApp {
    /// Whether a console line is shown, given the lowercased filter `key`: its level must
    /// be shown, and a non-empty key must occur in the lowercased line.
    pub open spec fn line_visible(self, key: Seq<char>, level: LogLevel, text: Seq<char>) -> bool {
        self.shows_level(level) && (key.len() == 0 || contains(lowered(text), key))
    }

    /// The names of the players online, as last reported by the server.
    pub closed spec fn player_list(self) -> Vec<String> {
        self.players
    }

    /// Whether the server is running; only a `Stopped` event changes it, and only to false.
    pub closed spec fn running(self) -> bool {
        self.server_running
    }

    /// The instant the window was created.
    pub closed spec fn started_at(self) -> std::time::Instant {
        self.start_time
    }

    /// What the user has typed and ticked.
    pub closed spec fn inputs(self) -> WindowInputs {
        self.ui
    }

    /// What the user has typed and ticked.
    pub fn ui(&self) -> (r: &WindowInputs)
        ensures
            *r == self.inputs(),
    {
        &self.ui
    }

    /// What the user types and ticks, to be edited by the window's text boxes and check
    /// boxes; what the server reported stays as it is.
    pub fn ui_mut(&mut self) -> (r: &mut WindowInputs)
        ensures
            *r == old(self).inputs(),
            final(self).inputs() == *final(r),
            final(self).player_list() == old(self).player_list(),
            final(self).running() == old(self).running(),
            final(self).started_at() == old(self).started_at(),
    {
        &mut self.ui
    }

    /// The names of the players online.
    pub fn players(&self) -> (r: &Vec<String>)
        ensures
            *r == self.player_list(),
    {
        &self.players
    }

    /// Whether the server is running.
    pub fn server_running(&self) -> (b: bool)
        ensures
            b == self.running(),
    {
        self.server_running
    }

    /// The three dialogs are the same in `self` and `other`.
    pub open spec fn same_dialogs(self, other: Self) -> bool {
        &&& self.inputs().shutdown_dialog == other.inputs().shutdown_dialog
        &&& self.inputs().broadcast_dialog == other.inputs().broadcast_dialog
        &&& self.inputs().admin_add_dialog == other.inputs().admin_add_dialog
    }

    /// Whether the console shows a line of `level` with `text`: the line must be visible
    /// with the current filter, lowercased, as key.
    pub open spec fn shown(self, level: LogLevel, text: Seq<char>) -> bool {
        self.line_visible(lowered(self.inputs().log_filter@), level, text)
    }

    /// Everything but the dialogs is the same in `self` and `other`.
    pub open spec fn same_session(self, other: Self) -> bool {
        &&& self.player_list() == other.player_list()
        &&& self.running() == other.running()
        &&& self.started_at() == other.started_at()
        &&& self.inputs().command_input == other.inputs().command_input
        &&& self.inputs().log_filter == other.inputs().log_filter
        &&& self.inputs().show_trace == other.inputs().show_trace
        &&& self.inputs().show_debug == other.inputs().show_debug
        &&& self.inputs().scroll_to_bottom == other.inputs().scroll_to_bottom
    }

    /// Whether console lines of `level` are shown with the current check boxes.
    pub open spec fn shows_level(self, level: LogLevel) -> bool {
        match level {
            LogLevel::Trace => self.inputs().show_trace,
            LogLevel::Debug => self.inputs().show_debug,
            _ => true,
        }
    }

    /// A fresh window: server running, no players, empty inputs, closed dialogs,
    /// DEBUG lines shown, TRACE lines hidden, auto-scroll on.
    pub fn new() -> (app: Self)
        ensures
            app.player_list()@.len() == 0,
            app.running(),
            app.inputs().command_input@ == Seq::<char>::empty(),
            !app.inputs().shutdown_dialog.open,
            app.inputs().shutdown_dialog.seconds@ == Seq::<char>::empty(),
            app.inputs().shutdown_dialog.reason@ == Seq::<char>::empty(),
            !app.inputs().broadcast_dialog.open,
            app.inputs().broadcast_dialog.message@ == Seq::<char>::empty(),
            !app.inputs().admin_add_dialog.open,
            app.inputs().admin_add_dialog.username@ == Seq::<char>::empty(),
            app.inputs().admin_add_dialog.role@ == Seq::<char>::empty(),
            app.inputs().log_filter@ == Seq::<char>::empty(),
            !app.inputs().show_trace,
            app.inputs().show_debug,
            app.inputs().scroll_to_bottom,
    {
        ServerApp {
            players: Vec::new(),
            server_running: true,
            start_time: now(),
            ui: WindowInputs {
                command_input: String::new(),
                shutdown_dialog: ShutdownDialog::default(),
                broadcast_dialog: BroadcastDialog::default(),
                admin_add_dialog: AdminDialog::default(),
                log_filter: String::new(),
                show_trace: false,
                show_debug: true,
                scroll_to_bottom: true,
            },
        }
    }

    /// Time since the window was created, as `HH:MM:SS`; the number of seconds comes
    /// from the clock.
    pub fn formatted_uptime(&self) -> (r: String)
        ensures
            exists|secs: u64| r@ == uptime_text(secs as nat),
    {
        let secs = elapsed_secs(&self.start_time);
        format_uptime(secs)
    }

    /// Colour of console lines of `level`.
    pub fn level_color(level: LogLevel) -> (c: Rgba)
        ensures
            c == level_color_of(level),
    {
        match level {
            LogLevel::Error => from_rgb(255, 80, 80),
            LogLevel::Warn => from_rgb(255, 200, 60),
            LogLevel::Info => from_rgb(160, 210, 255),
            LogLevel::Debug => from_rgb(140, 200, 140),
            LogLevel::Trace => from_rgb(160, 160, 160),
            LogLevel::Unknown => light_gray(),
        }
    }

    /// Whether console lines of `level` are shown: TRACE and DEBUG lines follow their
    /// check boxes, all others are always shown.
    pub fn should_show_level(&self, level: LogLevel) -> (b: bool)
        ensures
            b == self.shows_level(level),
    {
        match level {
            LogLevel::Trace => self.ui.show_trace,
            LogLevel::Debug => self.ui.show_debug,
            _ => true,
        }
    }

    // ── header ──────────────────────────────────────────────────────────

    /// Colour and label of the status indicator: green "● RUNNING" or red "● STOPPED".
    pub fn status_indicator(&self) -> (r: (Rgba, String))
        ensures
            self.running() ==> r.0 == opaque(80, 200, 80) && r.1@ == "● RUNNING"@,
            !self.running() ==> r.0 == opaque(200, 80, 80) && r.1@ == "● STOPPED"@,
    {
        if self.server_running {
            (from_rgb(80, 200, 80), "● RUNNING".to_owned())
        } else {
            (from_rgb(200, 80, 80), "● STOPPED".to_owned())
        }
    }

    /// The header's uptime text, `Uptime: HH:MM:SS`.
    pub fn uptime_caption(&self) -> (r: String)
        ensures
            exists|secs: u64| r@ == "Uptime: "@ + uptime_text(secs as nat),
    {
        let up = self.formatted_uptime();
        concat("Uptime: ", up.as_str())
    }

    /// The header's player count, `Players: N`.
    pub fn players_caption(&self) -> (r: String)
        ensures
            r@ == "Players: "@ + decimal(self.player_list()@.len()),
    {
        let n = decimal_string(self.players.len() as u64);
        concat("Players: ", n.as_str())
    }

    // ── server controls ─────────────────────────────────────────────────

    /// "Stop Now": shut the server down at once; the button is disabled once it stopped.
    pub fn stop_now(&self) -> (r: Option<ServerCmd>)
        ensures
            r == (if self.running() {
                Some(ServerCmd::ShutdownImmediate)
            } else {
                None
            }),
    {
        if self.server_running {
            Some(ServerCmd::ShutdownImmediate)
        } else {
            None
        }
    }

    /// "Graceful Shutdown…": opens the dialog with a 60 second countdown and the default
    /// reason; the button is disabled once the server stopped.
    pub fn open_shutdown_dialog(&mut self)
        ensures
            final(self).same_session(*old(self)),
            final(self).inputs().broadcast_dialog == old(self).inputs().broadcast_dialog,
            final(self).inputs().admin_add_dialog == old(self).inputs().admin_add_dialog,
            old(self).running() ==> {
                &&& final(self).inputs().shutdown_dialog.open
                &&& final(self).inputs().shutdown_dialog.seconds@ == "60"@
                &&& final(self).inputs().shutdown_dialog.reason@ == "The server is shutting down"@
            },
            !old(self).running() ==> final(self).inputs().shutdown_dialog == old(
                self,
            ).inputs().shutdown_dialog,
    {
        if self.server_running {
            self.ui.shutdown_dialog.open = true;
            self.ui.shutdown_dialog.seconds = "60".to_owned();
            self.ui.shutdown_dialog.reason = "The server is shutting down".to_owned();
        }
    }

    /// "Broadcast Message…": opens the dialog with an empty message; disabled once the
    /// server stopped.
    pub fn open_broadcast_dialog(&mut self)
        ensures
            final(self).same_session(*old(self)),
            final(self).inputs().shutdown_dialog == old(self).inputs().shutdown_dialog,
            final(self).inputs().admin_add_dialog == old(self).inputs().admin_add_dialog,
            old(self).running() ==> {
                &&& final(self).inputs().broadcast_dialog.open
                &&& final(self).inputs().broadcast_dialog.message@ == Seq::<char>::empty()
            },
            !old(self).running() ==> final(self).inputs().broadcast_dialog == old(
                self,
            ).inputs().broadcast_dialog,
    {
        if self.server_running {
            self.ui.broadcast_dialog.open = true;
            self.ui.broadcast_dialog.message = String::new();
        }
    }

    /// "Disconnect All": disconnect every player; disabled once the server stopped.
    pub fn disconnect_all(&self) -> (r: Option<ServerCmd>)
        ensures
            r == (if self.running() {
                Some(ServerCmd::DisconnectAll)
            } else {
                None
            }),
    {
        if self.server_running {
            Some(ServerCmd::DisconnectAll)
        } else {
            None
        }
    }

    /// "Add Admin…": opens the dialog with an empty user name and the role `moderator`.
    pub fn open_admin_dialog(&mut self)
        ensures
            final(self).same_session(*old(self)),
            final(self).inputs().shutdown_dialog == old(self).inputs().shutdown_dialog,
            final(self).inputs().broadcast_dialog == old(self).inputs().broadcast_dialog,
            final(self).inputs().admin_add_dialog.open,
            final(self).inputs().admin_add_dialog.username@ == Seq::<char>::empty(),
            final(self).inputs().admin_add_dialog.role@ == "moderator"@,
    {
        self.ui.admin_add_dialog.open = true;
        self.ui.admin_add_dialog.username = String::new();
        self.ui.admin_add_dialog.role = "moderator".to_owned();
    }

    // ── player list ─────────────────────────────────────────────────────

    /// "Kick" beside a player: announce that the player was kicked; disabled once the
    /// server stopped.
    pub fn kick(&self, index: usize) -> (r: Option<ServerCmd>)
        requires
            index < self.player_list()@.len(),
        ensures
            r is Some <==> self.running(),
            r matches Some(cmd) ==> cmd@ == (CmdView::BroadcastMessage {
                msg: kick_notice(self.player_list()@[index as int]@),
            }),
    {
        if self.server_running {
            Some(ServerCmd::BroadcastMessage { msg: kick_message(self.players[index].as_str()) })
        } else {
            None
        }
    }

    // ── command bar ─────────────────────────────────────────────────────

    /// Whether the command bar's "Send" is enabled: something has been typed.
    pub fn can_send_command(&self) -> (b: bool)
        ensures
            b == (self.inputs().command_input@.len() > 0),
    {
        self.ui.command_input.as_str().is_empty() == false
    }

    /// The command bar after Enter (`enter_pressed`) or "Send" (`send_clicked`): when
    /// either happened and a line has been typed, the line is read and the bar emptied;
    /// otherwise nothing happens.
    pub fn submit_command(&mut self, enter_pressed: bool, send_clicked: bool) -> (r: Option<
        CommandAction,
    >)
        ensures
            (enter_pressed || send_clicked) && old(self).inputs().command_input@.len() > 0 ==> {
                &&& r matches Some(action) && action@ == command_action(old(self).inputs().command_input@)
                &&& final(self).inputs().command_input@ == Seq::<char>::empty()
            },
            !((enter_pressed || send_clicked) && old(self).inputs().command_input@.len() > 0) ==> {
                &&& r is None
                &&& final(self).inputs().command_input == old(self).inputs().command_input
            },
            final(self).same_dialogs(*old(self)),
            final(self).player_list() == old(self).player_list(),
            final(self).running() == old(self).running(),
            final(self).started_at() == old(self).started_at(),
            final(self).inputs().log_filter == old(self).inputs().log_filter,
            final(self).inputs().show_trace == old(self).inputs().show_trace,
            final(self).inputs().show_debug == old(self).inputs().show_debug,
            final(self).inputs().scroll_to_bottom == old(self).inputs().scroll_to_bottom,
    {
        if (enter_pressed || send_clicked) && self.can_send_command() {
            Some(self.handle_command_input())
        } else {
            None
        }
    }

    /// Reads the command bar's line (see [`command_action`]) and empties the bar.
    pub fn handle_command_input(&mut self) -> (r: CommandAction)
        ensures
            r@ == command_action(old(self).inputs().command_input@),
            final(self).inputs().command_input@ == Seq::<char>::empty(),
            final(self).player_list() == old(self).player_list(),
            final(self).running() == old(self).running(),
            final(self).started_at() == old(self).started_at(),
            final(self).inputs().log_filter == old(self).inputs().log_filter,
            final(self).inputs().show_trace == old(self).inputs().show_trace,
            final(self).inputs().show_debug == old(self).inputs().show_debug,
            final(self).inputs().scroll_to_bottom == old(self).inputs().scroll_to_bottom,
            final(self).inputs().shutdown_dialog == old(self).inputs().shutdown_dialog,
            final(self).inputs().broadcast_dialog == old(self).inputs().broadcast_dialog,
            final(self).inputs().admin_add_dialog == old(self).inputs().admin_add_dialog,
    {
        let r = parse_command(self.ui.command_input.as_str());
        self.ui.command_input = String::new();
        r
    }

    // ── dialogs ─────────────────────────────────────────────────────────

    /// "Confirm Shutdown": shut down after the typed countdown (60 seconds when it does
    /// not parse) with the typed reason, and mark the dialog closed. The window then
    /// writes its own open flag back ([`Self::finish_shutdown_window`]), so the dialog
    /// stays open unless the window's close button was pressed in the same frame.
    pub fn confirm_shutdown(&mut self) -> (r: ServerCmd)
        ensures
            r@ == (CmdView::ShutdownGraceful {
                seconds: dialog_countdown(old(self).inputs().shutdown_dialog.seconds@),
                reason: old(self).inputs().shutdown_dialog.reason@,
            }),
            !final(self).inputs().shutdown_dialog.open,
            final(self).inputs().shutdown_dialog.seconds == old(self).inputs().shutdown_dialog.seconds,
            final(self).inputs().shutdown_dialog.reason == old(self).inputs().shutdown_dialog.reason,
            final(self).same_session(*old(self)),
            final(self).inputs().broadcast_dialog == old(self).inputs().broadcast_dialog,
            final(self).inputs().admin_add_dialog == old(self).inputs().admin_add_dialog,
    {
        let typed = trim_str(self.ui.shutdown_dialog.seconds.as_str());
        let seconds = match parse_u64_str(typed.as_str()) {
            Some(n) => n,
            None => 60,
        };
        let reason = self.ui.shutdown_dialog.reason.clone();
        self.ui.shutdown_dialog.open = false;
        ServerCmd::ShutdownGraceful { seconds, reason }
    }

    /// "Cancel" in the shutdown dialog: mark it closed (the window's own flag, written back
    /// by [`Self::finish_shutdown_window`], has the last word).
    pub fn cancel_shutdown(&mut self)
        ensures
            !final(self).inputs().shutdown_dialog.open,
            final(self).inputs().shutdown_dialog.seconds == old(self).inputs().shutdown_dialog.seconds,
            final(self).inputs().shutdown_dialog.reason == old(self).inputs().shutdown_dialog.reason,
            final(self).same_session(*old(self)),
            final(self).inputs().broadcast_dialog == old(self).inputs().broadcast_dialog,
            final(self).inputs().admin_add_dialog == old(self).inputs().admin_add_dialog,
    {
        self.ui.shutdown_dialog.open = false;
    }

    /// Whether the broadcast dialog's "Send" is enabled: the message is not blank.
    pub fn broadcast_can_send(&self) -> (b: bool)
        ensures
            b == (trim(self.inputs().broadcast_dialog.message@).len() > 0),
    {
        let t = trim_str(self.ui.broadcast_dialog.message.as_str());
        t.as_str().is_empty() == false
    }

    /// "Send" in the broadcast dialog: broadcast the trimmed message and mark the dialog
    /// closed; a blank message sends nothing (the button is disabled). The window then
    /// writes its own open flag back ([`Self::finish_broadcast_window`]), so the dialog
    /// stays open unless the window's close button was pressed in the same frame.
    pub fn send_broadcast(&mut self) -> (r: Option<ServerCmd>)
        ensures
            final(self).same_session(*old(self)),
            final(self).inputs().shutdown_dialog == old(self).inputs().shutdown_dialog,
            final(self).inputs().admin_add_dialog == old(self).inputs().admin_add_dialog,
            final(self).inputs().broadcast_dialog.message == old(self).inputs().broadcast_dialog.message,
            trim(old(self).inputs().broadcast_dialog.message@).len() > 0 ==> {
                &&& r matches Some(cmd) && cmd@ == (CmdView::BroadcastMessage {
                    msg: trim(old(self).inputs().broadcast_dialog.message@),
                })
                &&& !final(self).inputs().broadcast_dialog.open
            },
            trim(old(self).inputs().broadcast_dialog.message@).len() == 0 ==> {
                &&& r is None
                &&& final(self).inputs().broadcast_dialog.open == old(self).inputs().broadcast_dialog.open
            },
    {
        let msg = trim_str(self.ui.broadcast_dialog.message.as_str());
        if msg.as_str().is_empty() {
            None
        } else {
            self.ui.broadcast_dialog.open = false;
            Some(ServerCmd::BroadcastMessage { msg })
        }
    }

    /// "Cancel" in the broadcast dialog: mark it closed (the window's own flag, written
    /// back by [`Self::finish_broadcast_window`], has the last word).
    pub fn cancel_broadcast(&mut self)
        ensures
            !final(self).inputs().broadcast_dialog.open,
            final(self).inputs().broadcast_dialog.message == old(self).inputs().broadcast_dialog.message,
            final(self).same_session(*old(self)),
            final(self).inputs().shutdown_dialog == old(self).inputs().shutdown_dialog,
            final(self).inputs().admin_add_dialog == old(self).inputs().admin_add_dialog,
    {
        self.ui.broadcast_dialog.open = false;
    }

    /// Whether the admin dialog's "Add" is enabled: the user name is not blank.
    pub fn admin_can_add(&self) -> (b: bool)
        ensures
            b == (trim(self.inputs().admin_add_dialog.username@).len() > 0),
    {
        let t = trim_str(self.ui.admin_add_dialog.username.as_str());
        t.as_str().is_empty() == false
    }

    /// "Add" in the admin dialog: grant the trimmed user name the typed role (matched
    /// after lowercasing; moderator when it names none) and mark the dialog closed; a
    /// blank user name sends nothing (the button is disabled). The window then writes its
    /// own open flag back ([`Self::finish_admin_window`]), so the dialog stays open
    /// unless the window's close button was pressed in the same frame.
    pub fn add_admin(&mut self) -> (r: Option<ServerCmd>)
        ensures
            final(self).same_session(*old(self)),
            final(self).inputs().shutdown_dialog == old(self).inputs().shutdown_dialog,
            final(self).inputs().broadcast_dialog == old(self).inputs().broadcast_dialog,
            final(self).inputs().admin_add_dialog.username == old(self).inputs().admin_add_dialog.username,
            final(self).inputs().admin_add_dialog.role == old(self).inputs().admin_add_dialog.role,
            trim(old(self).inputs().admin_add_dialog.username@).len() > 0 ==> {
                &&& r matches Some(cmd) && cmd@ == (CmdView::AdminAdd {
                    username: trim(old(self).inputs().admin_add_dialog.username@),
                    role: chosen_role(old(self).inputs().admin_add_dialog.role@),
                })
                &&& !final(self).inputs().admin_add_dialog.open
            },
            trim(old(self).inputs().admin_add_dialog.username@).len() == 0 ==> {
                &&& r is None
                &&& final(self).inputs().admin_add_dialog.open == old(self).inputs().admin_add_dialog.open
            },
    {
        let username = trim_str(self.ui.admin_add_dialog.username.as_str());
        if username.as_str().is_empty() {
            return None;
        }
        let typed = to_lowercase(self.ui.admin_add_dialog.role.as_str());
        let role = match AdminRole::from_name(typed.as_str()) {
            Some(role) => role,
            None => AdminRole::Moderator,
        };
        self.ui.admin_add_dialog.open = false;
        Some(ServerCmd::AdminAdd { username, role })
    }

    /// "Cancel" in the admin dialog: mark it closed (the window's own flag, written back
    /// by [`Self::finish_admin_window`], has the last word).
    pub fn cancel_admin(&mut self)
        ensures
            !final(self).inputs().admin_add_dialog.open,
            final(self).inputs().admin_add_dialog.username == old(self).inputs().admin_add_dialog.username,
            final(self).inputs().admin_add_dialog.role == old(self).inputs().admin_add_dialog.role,
            final(self).same_session(*old(self)),
            final(self).inputs().shutdown_dialog == old(self).inputs().shutdown_dialog,
            final(self).inputs().broadcast_dialog == old(self).inputs().broadcast_dialog,
    {
        self.ui.admin_add_dialog.open = false;
    }

    /// After the shutdown dialog's window was drawn: the dialog's open flag becomes the
    /// window's own flag `window_open`, which only the window's close button clears.
    pub fn finish_shutdown_window(&mut self, window_open: bool)
        ensures
            final(self).inputs().shutdown_dialog.open == window_open,
            final(self).inputs().shutdown_dialog.seconds == old(self).inputs().shutdown_dialog.seconds,
            final(self).inputs().shutdown_dialog.reason == old(self).inputs().shutdown_dialog.reason,
            final(self).same_session(*old(self)),
            final(self).inputs().broadcast_dialog == old(self).inputs().broadcast_dialog,
            final(self).inputs().admin_add_dialog == old(self).inputs().admin_add_dialog,
    {
        self.ui.shutdown_dialog.open = window_open;
    }

    /// After the broadcast dialog's window was drawn: the dialog's open flag becomes the
    /// window's own flag `window_open`, which only the window's close button clears.
    pub fn finish_broadcast_window(&mut self, window_open: bool)
        ensures
            final(self).inputs().broadcast_dialog.open == window_open,
            final(self).inputs().broadcast_dialog.message == old(self).inputs().broadcast_dialog.message,
            final(self).same_session(*old(self)),
            final(self).inputs().shutdown_dialog == old(self).inputs().shutdown_dialog,
            final(self).inputs().admin_add_dialog == old(self).inputs().admin_add_dialog,
    {
        self.ui.broadcast_dialog.open = window_open;
    }

    /// After the admin dialog's window was drawn: the dialog's open flag becomes the
    /// window's own flag `window_open`, which only the window's close button clears.
    pub fn finish_admin_window(&mut self, window_open: bool)
        ensures
            final(self).inputs().admin_add_dialog.open == window_open,
            final(self).inputs().admin_add_dialog.username == old(self).inputs().admin_add_dialog.username,
            final(self).inputs().admin_add_dialog.role == old(self).inputs().admin_add_dialog.role,
            final(self).same_session(*old(self)),
            final(self).inputs().shutdown_dialog == old(self).inputs().shutdown_dialog,
            final(self).inputs().broadcast_dialog == old(self).inputs().broadcast_dialog,
    {
        self.ui.admin_add_dialog.open = window_open;
    }

    // ── console ─────────────────────────────────────────────────────────

    /// The log filter as it is matched: lowercased.
    pub fn log_filter_key(&self) -> (r: String)
        ensures
            r@ == lowered(self.inputs().log_filter@),
    {
        to_lowercase(self.ui.log_filter.as_str())
    }

    /// Whether a console line is shown, given the lowercased filter `key`: its level must
    /// be shown, and a non-empty key must occur in the lowercased line.
    pub fn shows_log_line(&self, key: &str, level: LogLevel, text: &str) -> (b: bool)
        ensures
            b == self.line_visible(key@, level, text@),
    {
        if !self.should_show_level(level) {
            return false;
        }
        if key.is_empty() {
            return true;
        }
        let lower = to_lowercase(text);
        let hay = to_chars(lower.as_str());
        let needle = to_chars(key);
        contains_chars(&hay, &needle)
    }

    // ── server events ───────────────────────────────────────────────────

    /// Takes in an event of the server: a new player list replaces the old one; a stop
    /// marks the server stopped.
    pub fn apply_event(&mut self, event: ServerEvent)
        ensures
            final(self).running() == next_running(old(self).running(), event),
            event matches ServerEvent::Players(p) ==> final(self).player_list() == p,
            event is Stopped ==> final(self).player_list() == old(self).player_list(),
            final(self).started_at() == old(self).started_at(),
            final(self).inputs().command_input == old(self).inputs().command_input,
            final(self).inputs().log_filter == old(self).inputs().log_filter,
            final(self).inputs().show_trace == old(self).inputs().show_trace,
            final(self).inputs().show_debug == old(self).inputs().show_debug,
            final(self).inputs().scroll_to_bottom == old(self).inputs().scroll_to_bottom,
            final(self).inputs().shutdown_dialog == old(self).inputs().shutdown_dialog,
            final(self).inputs().broadcast_dialog == old(self).inputs().broadcast_dialog,
            final(self).inputs().admin_add_dialog == old(self).inputs().admin_add_dialog,
    {
        match event {
            ServerEvent::Players(p) => self.players = p,
            ServerEvent::Stopped => self.server_running = false,
        }
    }

    /// Whether the process should be told to stop: the server has stopped.
    pub fn should_signal_stop(&self) -> (b: bool)
        ensures
            b == !self.running(),
    {
        !self.server_running
    }
}

} // verus!
