use tgrc::auth::AuthResult;
use tgrc::cli::{
    auth_status_report, logged_out_message, login_report, logout_plan, no_chat_message,
    not_logged_in_message, read_chat, read_limit, status_report, LogoutAction, DEFAULT_MESSAGE_LIMIT,
};
use tgrc::config::ChannelConfig;

fn channel(limit: Option<i32>) -> Option<ChannelConfig> {
    Some(ChannelConfig { chat: "durov".to_string(), message_limit: limit })
}

#[test]
fn chat_and_limit_defaults() {
    assert_eq!(read_chat(Some("saved".to_string()), &channel(None)), Some("saved".to_string()));
    assert_eq!(read_chat(None, &channel(None)), Some("durov".to_string()));
    assert_eq!(read_chat(None, &None), None);
    assert_eq!(read_limit(Some(5), &channel(Some(10))), 5);
    assert_eq!(read_limit(None, &channel(Some(10))), 10);
    assert_eq!(read_limit(None, &channel(None)), 20);
    assert_eq!(read_limit(None, &None), DEFAULT_MESSAGE_LIMIT);
}

#[test]
fn reports() {
    assert_eq!(login_report(AuthResult::Ready), "Authenticated successfully!");
    assert_eq!(login_report(AuthResult::Closed), "Authentication failed.");
    assert_eq!(auth_status_report(AuthResult::Ready), vec!["logged in".to_string()]);
    assert_eq!(
        auth_status_report(AuthResult::NeedsLogin),
        vec!["not logged in".to_string(), "Run `tgrc auth login` to log in.".to_string()]
    );
    assert_eq!(auth_status_report(AuthResult::Closed), vec!["session closed".to_string()]);
    assert_eq!(no_chat_message(), "Error: No chat specified. Pass a chat name/ID or set it in config.");
    assert_eq!(not_logged_in_message(), "Not logged in. Run `tgrc auth login` first.");
    assert_eq!(logged_out_message(), "Logged out. Server session revoked and local data removed.");
}

#[test]
fn logout_actions() {
    assert_eq!(logout_plan(AuthResult::Ready), (LogoutAction::LogOut, "Logging out...".to_string()));
    assert_eq!(logout_plan(AuthResult::NeedsLogin), (LogoutAction::Shutdown, "Not logged in.".to_string()));
    assert_eq!(logout_plan(AuthResult::Closed), (LogoutAction::StopLoop, "Session already closed.".to_string()));
}

#[test]
fn status_lines() {
    let lines = status_report("0.2.0", "/home/u/.config/tgrc/config.toml", "/home/u/.local/share/tgrc/tdlib", 0, AuthResult::NeedsLogin);
    assert_eq!(
        lines,
        vec![
            "tgrc v0.2.0".to_string(),
            "Config:              /home/u/.config/tgrc/config.toml".to_string(),
            "Session data:        /home/u/.local/share/tgrc/tdlib".to_string(),
            "TDLib log verbosity: 0".to_string(),
            "Auth:                not logged in".to_string(),
        ]
    );
}
