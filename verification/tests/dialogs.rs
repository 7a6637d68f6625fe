use server_gui::app::ServerApp;
use server_gui::color::Rgba;
use server_gui::protocol::{AdminRole, LogLevel, ServerCmd, ServerEvent};

fn stopped_app() -> ServerApp {
    let mut app = ServerApp::new();
    app.apply_event(ServerEvent::Stopped);
    app
}

#[test]
fn new_window_state() {
    let app = ServerApp::new();
    assert!(app.players().is_empty());
    assert!(app.server_running());
    assert!(!app.ui().show_trace);
    assert!(app.ui().show_debug);
    assert!(app.ui().scroll_to_bottom);
    assert!(!app.ui().shutdown_dialog.open && !app.ui().broadcast_dialog.open && !app.ui().admin_add_dialog.open);
}

#[test]
fn graceful_shutdown_defaults() {
    let mut app = ServerApp::new();
    app.open_shutdown_dialog();
    assert!(app.ui().shutdown_dialog.open);
    assert_eq!(app.ui().shutdown_dialog.seconds, "60");
    assert_eq!(app.ui().shutdown_dialog.reason, "The server is shutting down");
    let cmd = app.confirm_shutdown();
    assert_eq!(
        cmd,
        ServerCmd::ShutdownGraceful { seconds: 60, reason: "The server is shutting down".to_string() }
    );
    assert!(!app.ui().shutdown_dialog.open);
}

#[test]
fn shutdown_dialog_reads_typed_values() {
    let mut app = ServerApp::new();
    app.open_shutdown_dialog();
    app.ui_mut().shutdown_dialog.seconds = "  15 ".to_string();
    app.ui_mut().shutdown_dialog.reason = "maintenance".to_string();
    assert_eq!(
        app.confirm_shutdown(),
        ServerCmd::ShutdownGraceful { seconds: 15, reason: "maintenance".to_string() }
    );
    app.ui_mut().shutdown_dialog.seconds = "abc".to_string();
    assert_eq!(
        app.confirm_shutdown(),
        ServerCmd::ShutdownGraceful { seconds: 60, reason: "maintenance".to_string() }
    );
}

#[test]
fn cancel_closes_dialogs() {
    let mut app = ServerApp::new();
    app.open_shutdown_dialog();
    app.open_broadcast_dialog();
    app.open_admin_dialog();
    app.cancel_shutdown();
    app.cancel_broadcast();
    app.cancel_admin();
    assert!(!app.ui().shutdown_dialog.open && !app.ui().broadcast_dialog.open && !app.ui().admin_add_dialog.open);
}

#[test]
fn broadcast_sends_trimmed_message() {
    let mut app = ServerApp::new();
    app.ui_mut().broadcast_dialog.message = "old".to_string();
    app.open_broadcast_dialog();
    assert!(app.ui().broadcast_dialog.message.is_empty());
    assert!(!app.broadcast_can_send());
    assert_eq!(app.send_broadcast(), None);
    assert!(app.ui().broadcast_dialog.open);
    app.ui_mut().broadcast_dialog.message = "  Restart at noon \n".to_string();
    assert!(app.broadcast_can_send());
    assert_eq!(
        app.send_broadcast(),
        Some(ServerCmd::BroadcastMessage { msg: "Restart at noon".to_string() })
    );
    assert!(!app.ui().broadcast_dialog.open);
}

#[test]
fn admin_dialog_role_choice() {
    let mut app = ServerApp::new();
    app.open_admin_dialog();
    assert_eq!(app.ui().admin_add_dialog.role, "moderator");
    assert!(!app.admin_can_add());
    assert_eq!(app.add_admin(), None);
    app.ui_mut().admin_add_dialog.username = " alice ".to_string();
    app.ui_mut().admin_add_dialog.role = "ADMIN".to_string();
    assert_eq!(
        app.add_admin(),
        Some(ServerCmd::AdminAdd { username: "alice".to_string(), role: AdminRole::Admin })
    );
    assert!(!app.ui().admin_add_dialog.open);
    app.ui_mut().admin_add_dialog.role = "superuser".to_string();
    assert_eq!(
        app.add_admin(),
        Some(ServerCmd::AdminAdd { username: "alice".to_string(), role: AdminRole::Moderator })
    );
    app.ui_mut().admin_add_dialog.role = "Mod".to_string();
    assert_eq!(
        app.add_admin(),
        Some(ServerCmd::AdminAdd { username: "alice".to_string(), role: AdminRole::Moderator })
    );
}

#[test]
fn admin_role_names() {
    assert_eq!(AdminRole::from_name("mod"), Some(AdminRole::Moderator));
    assert_eq!(AdminRole::from_name("moderator"), Some(AdminRole::Moderator));
    assert_eq!(AdminRole::from_name("admin"), Some(AdminRole::Admin));
    assert_eq!(AdminRole::from_name("Admin"), None);
    assert_eq!(AdminRole::from_name(""), None);
}

#[test]
fn controls_send_commands_while_running() {
    let app = ServerApp::new();
    assert_eq!(app.stop_now(), Some(ServerCmd::ShutdownImmediate));
    assert_eq!(app.disconnect_all(), Some(ServerCmd::DisconnectAll));
}

#[test]
fn controls_do_nothing_once_stopped() {
    let mut app = stopped_app();
    app.apply_event(ServerEvent::Players(vec!["Carol".to_string()]));
    assert_eq!(app.stop_now(), None);
    assert_eq!(app.disconnect_all(), None);
    assert_eq!(app.kick(0), None);
    app.open_shutdown_dialog();
    app.open_broadcast_dialog();
    assert!(!app.ui().shutdown_dialog.open && !app.ui().broadcast_dialog.open);
    app.open_admin_dialog();
    assert!(app.ui().admin_add_dialog.open);
}

#[test]
fn stop_is_final() {
    let mut app = ServerApp::new();
    assert!(!app.should_signal_stop());
    app.apply_event(ServerEvent::Players(vec!["a".to_string(), "b".to_string()]));
    assert_eq!(app.players().len(), 2);
    app.apply_event(ServerEvent::Stopped);
    assert!(app.should_signal_stop());
    app.apply_event(ServerEvent::Players(vec![]));
    assert!(!app.server_running());
    assert!(app.players().is_empty());
}

#[test]
fn level_colors() {
    let rgb = |r, g, b| Rgba { r, g, b, a: 255 };
    assert_eq!(ServerApp::level_color(LogLevel::Error), rgb(255, 80, 80));
    assert_eq!(ServerApp::level_color(LogLevel::Warn), rgb(255, 200, 60));
    assert_eq!(ServerApp::level_color(LogLevel::Info), rgb(160, 210, 255));
    assert_eq!(ServerApp::level_color(LogLevel::Debug), rgb(140, 200, 140));
    assert_eq!(ServerApp::level_color(LogLevel::Trace), rgb(160, 160, 160));
    assert_eq!(ServerApp::level_color(LogLevel::Unknown), rgb(220, 220, 220));
}

#[test]
fn header_texts() {
    let mut app = ServerApp::new();
    let (color, label) = app.status_indicator();
    assert_eq!((color, label.as_str()), (Rgba { r: 80, g: 200, b: 80, a: 255 }, "● RUNNING"));
    app.apply_event(ServerEvent::Players(vec!["x".to_string(); 12]));
    assert_eq!(app.players_caption(), "Players: 12");
    app.apply_event(ServerEvent::Stopped);
    let (color, label) = app.status_indicator();
    assert_eq!((color, label.as_str()), (Rgba { r: 200, g: 80, b: 80, a: 255 }, "● STOPPED"));
    let up = app.uptime_caption();
    assert!(up.starts_with("Uptime: 00:00:"));
    assert_eq!(up.len(), "Uptime: 00:00:00".len());
}

#[test]
fn log_levels_and_filter() {
    let mut app = ServerApp::new();
    assert!(!app.should_show_level(LogLevel::Trace));
    assert!(app.should_show_level(LogLevel::Debug));
    assert!(app.should_show_level(LogLevel::Error));
    let key = app.log_filter_key();
    assert!(app.shows_log_line(&key, LogLevel::Info, "anything"));
    assert!(!app.shows_log_line(&key, LogLevel::Trace, "anything"));
    app.ui_mut().log_filter = "PlAyEr".to_string();
    let key = app.log_filter_key();
    assert_eq!(key, "player");
    assert!(app.shows_log_line(&key, LogLevel::Warn, "New PLAYER joined"));
    assert!(!app.shows_log_line(&key, LogLevel::Warn, "server tick"));
    app.ui_mut().show_debug = false;
    assert!(!app.shows_log_line(&key, LogLevel::Debug, "player debug"));
}

#[test]
fn window_flag_has_the_last_word() {
    let mut app = ServerApp::new();
    app.open_shutdown_dialog();
    let _ = app.confirm_shutdown();
    assert!(!app.ui().shutdown_dialog.open);
    app.finish_shutdown_window(true);
    assert!(app.ui().shutdown_dialog.open);
    app.open_broadcast_dialog();
    app.finish_broadcast_window(false);
    assert!(!app.ui().broadcast_dialog.open);
    app.open_admin_dialog();
    app.cancel_admin();
    app.finish_admin_window(true);
    assert!(app.ui().admin_add_dialog.open);
}

#[test]
fn filter_ignores_case_and_narrowing_only_removes() {
    let lines = [
        (LogLevel::Info, "Player joined"),
        (LogLevel::Debug, "player moved"),
        (LogLevel::Trace, "PLAYER tick"),
        (LogLevel::Warn, "server slow"),
    ];
    let shown = |app: &ServerApp| -> Vec<usize> {
        let key = app.log_filter_key();
        (0..lines.len()).filter(|&i| app.shows_log_line(&key, lines[i].0, lines[i].1)).collect()
    };
    let mut a = ServerApp::new();
    a.ui_mut().log_filter = "player".to_string();
    let mut b = ServerApp::new();
    b.ui_mut().log_filter = "PLAYER".to_string();
    assert_eq!(shown(&a), shown(&b));
    assert_eq!(shown(&a), vec![0, 1]);
    b.ui_mut().log_filter = "player m".to_string();
    assert_eq!(shown(&b), vec![1]);
    b.ui_mut().show_debug = false;
    assert_eq!(shown(&b), Vec::<usize>::new());
    let all = ServerApp::new();
    assert_eq!(shown(&all), vec![0, 1, 3]);
}
