use server_gui::app::ServerApp;
use server_gui::command::{kick_message, parse_command, CommandAction};
use server_gui::protocol::ServerCmd;

fn broadcast(msg: &str) -> CommandAction {
    CommandAction::Dispatch(ServerCmd::BroadcastMessage { msg: msg.to_string() })
}

#[test]
fn say_broadcasts_the_rest_of_the_line() {
    assert_eq!(parse_command("say hello world"), broadcast("hello world"));
    assert_eq!(parse_command("msg hello world"), broadcast("hello world"));
}

#[test]
fn say_keeps_inner_spaces_of_the_message() {
    assert_eq!(parse_command("say  hi"), broadcast(" hi"));
}

#[test]
fn say_without_message_sends_nothing() {
    assert_eq!(parse_command("say"), CommandAction::Ignore);
    assert_eq!(parse_command("  say   "), CommandAction::Ignore);
}

#[test]
fn kick_broadcasts_a_notice() {
    assert_eq!(parse_command("kick Alice"), broadcast("Alice was kicked by the server"));
    assert_eq!(parse_command("kick"), broadcast("? was kicked by the server"));
}

#[test]
fn kick_command_matches_kick_button() {
    let mut app = ServerApp::new();
    app.apply_event(server_gui::protocol::ServerEvent::Players(vec!["Bob Smith".to_string()]));
    let button = app.kick(0).unwrap();
    assert_eq!(parse_command("kick Bob Smith"), CommandAction::Dispatch(button));
    assert_eq!(kick_message("Bob Smith"), "Bob Smith was kicked by the server");
}

#[test]
fn stop_and_quit_shut_down_at_once() {
    assert_eq!(parse_command("stop"), CommandAction::Dispatch(ServerCmd::ShutdownImmediate));
    assert_eq!(parse_command("quit now"), CommandAction::Dispatch(ServerCmd::ShutdownImmediate));
}

#[test]
fn shutdown_reads_the_countdown() {
    let graceful = |seconds| {
        CommandAction::Dispatch(ServerCmd::ShutdownGraceful {
            seconds,
            reason: "Server is shutting down".to_string(),
        })
    };
    assert_eq!(parse_command("shutdown 30"), graceful(30));
    assert_eq!(parse_command("shutdown +45"), graceful(45));
    assert_eq!(parse_command("shutdown"), graceful(60));
    assert_eq!(parse_command("shutdown soon"), graceful(60));
    assert_eq!(parse_command("shutdown  30"), graceful(60));
    assert_eq!(parse_command("shutdown -5"), graceful(60));
    assert_eq!(parse_command("shutdown 18446744073709551615"), graceful(u64::MAX));
    assert_eq!(parse_command("shutdown 18446744073709551616"), graceful(60));
}

#[test]
fn unknown_commands_are_reported() {
    assert_eq!(parse_command("teleport me"), CommandAction::Unknown("teleport".to_string()));
    assert_eq!(parse_command(""), CommandAction::Unknown(String::new()));
    assert_eq!(parse_command("SAY hi"), CommandAction::Unknown("SAY".to_string()));
}

#[test]
fn line_is_trimmed_before_reading() {
    assert_eq!(parse_command("\t  stop \n"), CommandAction::Dispatch(ServerCmd::ShutdownImmediate));
    assert_eq!(parse_command("\u{3000}say hi\u{a0}"), broadcast("hi"));
}

#[test]
fn handling_empties_the_bar() {
    let mut app = ServerApp::new();
    app.ui_mut().command_input = "say hi".to_string();
    assert_eq!(app.handle_command_input(), broadcast("hi"));
    assert!(app.ui().command_input.is_empty());
}

#[test]
fn submit_needs_a_line_and_a_trigger() {
    let mut app = ServerApp::new();
    assert_eq!(app.submit_command(true, true), None);
    app.ui_mut().command_input = "stop".to_string();
    assert!(app.can_send_command());
    assert_eq!(app.submit_command(false, false), None);
    assert_eq!(app.ui().command_input, "stop");
    assert_eq!(
        app.submit_command(true, false),
        Some(CommandAction::Dispatch(ServerCmd::ShutdownImmediate))
    );
    assert!(!app.can_send_command());
}

#[test]
fn unknown_command_warning_text() {
    assert_eq!(
        server_gui::command::unknown_command_warning("fly"),
        "Unknown GUI command: fly. Try: say <msg>, kick <player>, stop, shutdown [secs]"
    );
}
