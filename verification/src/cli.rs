//! What the commands decide and report around the library's work: which
//! chat and how many messages `read` shows, and the lines of the status
//! reports.

use vstd::prelude::*;
use crate::auth::AuthResult;
use crate::config::ChannelConfig;
use crate::decimal::{decimal_text, format_i64};
use crate::text::push_str;

verus! {

/// How many messages `read` shows when neither the command line nor the
/// configuration says.
pub const DEFAULT_MESSAGE_LIMIT: i32 = 20;

/// The chat `read` shows: the one on the command line, else the
/// configured default, else none.
pub fn read_chat(cli_chat: Option<String>, channel: &Option<ChannelConfig>) -> (res: Option<String>)
    ensures
        match cli_chat {
            Some(c) => res == Some(c),
            None => match channel {
                Some(ch) => res is Some && res->0@ == ch.chat@,
                None => res is None,
            },
        },
{
    match cli_chat {
        Some(c) => Some(c),
        None => match channel {
            Some(ch) => Some(ch.chat.clone()),
            None => None,
        },
    }
}

/// How many messages `read` shows: the command line's limit, else the
/// configured one, else `DEFAULT_MESSAGE_LIMIT`.
pub fn read_limit(cli_limit: Option<i32>, channel: &Option<ChannelConfig>) -> (res: i32)
    ensures
        res == match cli_limit {
            Some(l) => l,
            None => match channel {
                Some(ch) => match ch.message_limit {
                    Some(l) => l,
                    None => DEFAULT_MESSAGE_LIMIT,
                },
                None => DEFAULT_MESSAGE_LIMIT,
            },
        },
{
    match cli_limit {
        Some(l) => l,
        None => match channel {
            Some(ch) => match ch.message_limit {
                Some(l) => l,
                None => DEFAULT_MESSAGE_LIMIT,
            },
            None => DEFAULT_MESSAGE_LIMIT,
        },
    }
}

fn text(t: &str) -> (res: String)
    ensures
        res@ == t@,
{
    let mut s = String::new();
    push_str(&mut s, t);
    s
}

/// Reported when `read` has no chat to show.
pub fn no_chat_message() -> (res: String)
    ensures
        res@ == "Error: No chat specified. Pass a chat name/ID or set it in config."@,
{
    text("Error: No chat specified. Pass a chat name/ID or set it in config.")
}

/// Reported when `read` or `list` runs without a session.
pub fn not_logged_in_message() -> (res: String)
    ensures
        res@ == "Not logged in. Run `tgrc auth login` first."@,
{
    text("Not logged in. Run `tgrc auth login` first.")
}

/// The outcome `auth login` reports.
pub fn login_report(result: AuthResult) -> (res: String)
    ensures
        res@ == if result == AuthResult::Ready { "Authenticated successfully!"@ } else { "Authentication failed."@ },
{
    match result {
        AuthResult::Ready => text("Authenticated successfully!"),
        _ => text("Authentication failed."),
    }
}

/// How a session state is named in the reports.
pub open spec fn auth_state_text(result: AuthResult) -> Seq<char> {
    match result {
        AuthResult::Ready => "logged in"@,
        AuthResult::NeedsLogin => "not logged in"@,
        AuthResult::Closed => "session closed"@,
    }
}

pub fn auth_state_name(result: AuthResult) -> (res: String)
    ensures
        res@ == auth_state_text(result),
{
    match result {
        AuthResult::Ready => text("logged in"),
        AuthResult::NeedsLogin => text("not logged in"),
        AuthResult::Closed => text("session closed"),
    }
}

/// The lines `auth status` reports.
pub fn auth_status_report(result: AuthResult) -> (res: Vec<String>)
    ensures
        res@.len() == if result == AuthResult::NeedsLogin { 2int } else { 1int },
        res@[0]@ == auth_state_text(result),
        result == AuthResult::NeedsLogin ==> res@[1]@ == "Run `tgrc auth login` to log in."@,
{
    let mut v = Vec::new();
    v.push(auth_state_name(result));
    match result {
        AuthResult::NeedsLogin => v.push(text("Run `tgrc auth login` to log in.")),
        _ => {},
    }
    v
}

/// What `auth logout` does once the session state is known.
#[derive(Debug, Clone, Copy, PartialEq, Eq)]
pub enum LogoutAction {
    /// Log out (revoking the session) and remove the local session data.
    LogOut,
    /// There is no session: close the client.
    Shutdown,
    /// The client is already closed: stop the update loop.
    StopLoop,
}

/// The action of `auth logout` and the line it reports first.
pub fn logout_plan(result: AuthResult) -> (res: (LogoutAction, String))
    ensures
        res.0 == match result {
            AuthResult::Ready => LogoutAction::LogOut,
            AuthResult::NeedsLogin => LogoutAction::Shutdown,
            AuthResult::Closed => LogoutAction::StopLoop,
        },
        res.1@ == match result {
            AuthResult::Ready => "Logging out..."@,
            AuthResult::NeedsLogin => "Not logged in."@,
            AuthResult::Closed => "Session already closed."@,
        },
{
    match result {
        AuthResult::Ready => (LogoutAction::LogOut, text("Logging out...")),
        AuthResult::NeedsLogin => (LogoutAction::Shutdown, text("Not logged in.")),
        AuthResult::Closed => (LogoutAction::StopLoop, text("Session already closed.")),
    }
}

/// Reported after a completed logout.
pub fn logged_out_message() -> (res: String)
    ensures
        res@ == "Logged out. Server session revoked and local data removed."@,
{
    text("Logged out. Server session revoked and local data removed.")
}

/// The lines of `status`.
pub open spec fn status_report_text(version: Seq<char>, config_path: Seq<char>, session_path: Seq<char>, verbosity: i32, result: AuthResult) -> Seq<Seq<char>> {
    seq![
        "tgrc v"@ + version,
        "Config:              "@ + config_path,
        "Session data:        "@ + session_path,
        "TDLib log verbosity: "@ + decimal_text(verbosity as int),
        "Auth:                "@ + auth_state_text(result),
    ]
}

fn line(label: &str, value: &str) -> (res: String)
    ensures
        res@ == label@ + value@,
{
    let mut s = String::new();
    push_str(&mut s, label);
    push_str(&mut s, value);
    s
}

/// The words for the three session states, as `auth status` reports them.
pub proof fn lemma_auth_state_words()
    ensures
        auth_state_text(AuthResult::Ready) == "logged in"@,
        auth_state_text(AuthResult::NeedsLogin) == "not logged in"@,
        auth_state_text(AuthResult::Closed) == "session closed"@,
{
}

/// The first four lines of `status`: the version, the configuration file's
/// path, the session directory's path and the TDLib log level in decimal,
/// each after its label.
pub proof fn lemma_status_report_lines(
    version: Seq<char>,
    config_path: Seq<char>,
    session_path: Seq<char>,
    verbosity: i32,
    result: AuthResult,
)
    ensures
        ({
            let r = status_report_text(version, config_path, session_path, verbosity, result);
            &&& r[0] == "tgrc v"@ + version
            &&& r[1] == "Config:              "@ + config_path
            &&& r[2] == "Session data:        "@ + session_path
            &&& r[3] == "TDLib log verbosity: "@ + decimal_text(verbosity as int)
        }),
{
}

/// The last line of `status` names the session state in the words of
/// `auth status`: `Auth:` padded to the width of the other labels, then
/// `logged in`, `not logged in` or `session closed`, the first line of the
/// `auth status` report for the same state.
pub proof fn lemma_status_auth_line(
    version: Seq<char>,
    config_path: Seq<char>,
    session_path: Seq<char>,
    verbosity: i32,
    result: AuthResult,
)
    ensures
        status_report_text(version, config_path, session_path, verbosity, result).len() == 5,
        status_report_text(version, config_path, session_path, verbosity, result)[4] == match result {
            AuthResult::Ready => "Auth:                logged in"@,
            AuthResult::NeedsLogin => "Auth:                not logged in"@,
            AuthResult::Closed => "Auth:                session closed"@,
        },
        status_report_text(version, config_path, session_path, verbosity, result)[4]
            == "Auth:                "@ + auth_state_text(result),
{
    reveal_strlit("Auth:                ");
    reveal_strlit("logged in");
    reveal_strlit("not logged in");
    reveal_strlit("session closed");
    reveal_strlit("Auth:                logged in");
    reveal_strlit("Auth:                not logged in");
    reveal_strlit("Auth:                session closed");
    let l = status_report_text(version, config_path, session_path, verbosity, result)[4];
    match result {
        AuthResult::Ready => assert(l =~= "Auth:                logged in"@),
        AuthResult::NeedsLogin => assert(l =~= "Auth:                not logged in"@),
        AuthResult::Closed => assert(l =~= "Auth:                session closed"@),
    }
}

/// The `status` report tells the three session states apart: two results
/// whose reports have the same `Auth` line are the same result.
pub proof fn lemma_status_tells_states_apart(
    version: Seq<char>,
    config_path: Seq<char>,
    session_path: Seq<char>,
    verbosity: i32,
    a: AuthResult,
    b: AuthResult,
)
    requires
        status_report_text(version, config_path, session_path, verbosity, a)[4]
            == status_report_text(version, config_path, session_path, verbosity, b)[4],
    ensures
        a == b,
{
    lemma_status_auth_line(version, config_path, session_path, verbosity, a);
    lemma_status_auth_line(version, config_path, session_path, verbosity, b);
    reveal_strlit("Auth:                logged in");
    reveal_strlit("Auth:                not logged in");
    reveal_strlit("Auth:                session closed");
    assert("Auth:                logged in"@.len() == 30);
    assert("Auth:                not logged in"@.len() == 34);
    assert("Auth:                session closed"@.len() == 35);
}

/// The diagnostic lines of `status`.
pub fn status_report(version: &str, config_path: &str, session_path: &str, verbosity: i32, result: AuthResult) -> (res: Vec<String>)
    ensures
        res@.map_values(|l: String| l@) == status_report_text(version@, config_path@, session_path@, verbosity, result),
{
    let mut v = Vec::new();
    v.push(line("tgrc v", version));
    v.push(line("Config:              ", config_path));
    v.push(line("Session data:        ", session_path));
    let level = format_i64(verbosity as i64);
    v.push(line("TDLib log verbosity: ", level.as_str()));
    let state = auth_state_name(result);
    v.push(line("Auth:                ", state.as_str()));
    assert(v@.map_values(|l: String| l@) =~= status_report_text(version@, config_path@, session_path@, verbosity, result));
    v
}

} // verus!
