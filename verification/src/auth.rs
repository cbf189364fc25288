//! The authorization dialogue with TDLib.
//!
//! TDLib reports authorization states one after another; the dialogue
//! answers each with what to do next: send the client parameters, ask the
//! user for a credential, keep waiting, or stop with a result. Without a
//! terminal (`interactive` false) it never asks the user anything and stops
//! with `NeedsLogin` where a credential would be needed.

use vstd::prelude::*;
use crate::config::TelegramConfig;
use crate::text::push_str;

verus! {

/// Result of waiting for auth state
#[derive(Debug, Clone, Copy, PartialEq, Eq)]
pub enum AuthResult {
    Ready,
    NeedsLogin,
    Closed,
}

/// The authorization states of TDLib, as far as the dialogue tells them
/// apart (`Other` stands for the rest: logging out, closing, waiting for
/// registration or for another device).
#[derive(Debug, Clone, Copy, PartialEq, Eq)]
pub enum AuthorizationState {
    WaitTdlibParameters,
    WaitPhoneNumber,
    WaitCode,
    WaitPassword,
    WaitEmailAddress,
    WaitEmailCode,
    Ready,
    Closed,
    Other,
}

/// What the user is asked for.
#[derive(Debug, Clone, Copy, PartialEq, Eq)]
pub enum Credential {
    PhoneNumber,
    Code,
    Password,
}

/// Where the dialogue stands.
#[derive(Debug, Clone, Copy, PartialEq, Eq)]
pub enum AuthPhase {
    /// Waiting for TDLib's next authorization state.
    AwaitingState,
    /// The client parameters were sent; waiting for the reply.
    SettingParameters,
    /// A credential was submitted; waiting for the reply.
    Submitting(Credential),
    /// The dialogue is over.
    Finished(AuthResult),
}

/// What happened since the last step.
#[derive(Debug, PartialEq, Eq)]
pub enum AuthEvent {
    /// TDLib reported an authorization state.
    State(AuthorizationState),
    /// No more states will come (the update stream ended).
    StreamEnded,
    /// The reply to the client parameters: `Err` holds TDLib's message.
    ParametersSet(Result<(), String>),
    /// The reply to a submitted credential: `Err` holds TDLib's message.
    CredentialChecked(Result<(), String>),
}

/// What to do next.
#[derive(Debug, Clone, PartialEq, Eq)]
pub enum AuthCommand {
    /// Report `notice` on the error stream, if any, then wait for the next
    /// authorization state.
    AwaitState { notice: Option<String> },
    /// Send the client parameters (see `tdlib_parameters`).
    SendParameters,
    /// Report `notice`, if any, then ask the user for `credential` and
    /// submit it.
    Prompt { credential: Credential, notice: Option<String> },
    /// The dialogue is over with `result`. With `stop_client`, the update
    /// loop is to be stopped; with `email_unsupported`, the lines of
    /// `email_unsupported_notice` are to be reported first.
    Finish { result: AuthResult, stop_client: bool, email_unsupported: bool },
    /// Nothing to do: the event does not belong to the current phase.
    Idle,
}

pub enum AuthEventView {
    State(AuthorizationState),
    StreamEnded,
    ParametersSet(Result<(), Seq<char>>),
    CredentialChecked(Result<(), Seq<char>>),
}

pub enum AuthCommandView {
    AwaitState { notice: Option<Seq<char>> },
    SendParameters,
    Prompt { credential: Credential, notice: Option<Seq<char>> },
    Finish { result: AuthResult, stop_client: bool, email_unsupported: bool },
    Idle,
}

pub open spec fn unit_result_view(r: Result<(), String>) -> Result<(), Seq<char>> {
    match r {
        Ok(()) => Ok(()),
        Err(m) => Err(m@),
    }
}

pub open spec fn notice_view(n: Option<String>) -> Option<Seq<char>> {
    match n {
        Some(s) => Some(s@),
        None => None,
    }
}

impl View for AuthEvent {
    type V = AuthEventView;

    open spec fn view(&self) -> AuthEventView {
        match self {
            AuthEvent::State(s) => AuthEventView::State(*s),
            AuthEvent::StreamEnded => AuthEventView::StreamEnded,
            AuthEvent::ParametersSet(r) => AuthEventView::ParametersSet(unit_result_view(*r)),
            AuthEvent::CredentialChecked(r) => AuthEventView::CredentialChecked(unit_result_view(*r)),
        }
    }
}

impl View for AuthCommand {
    type V = AuthCommandView;

    open spec fn view(&self) -> AuthCommandView {
        match self {
            AuthCommand::AwaitState { notice } => AuthCommandView::AwaitState { notice: notice_view(*notice) },
            AuthCommand::SendParameters => AuthCommandView::SendParameters,
            AuthCommand::Prompt { credential, notice } => AuthCommandView::Prompt { credential: *credential, notice: notice_view(*notice) },
            AuthCommand::Finish { result, stop_client, email_unsupported } => AuthCommandView::Finish {
                result: *result,
                stop_client: *stop_client,
                email_unsupported: *email_unsupported,
            },
            AuthCommand::Idle => AuthCommandView::Idle,
        }
    }
}

/// The credential an authorization state asks for, if any.
pub open spec fn credential_for(s: AuthorizationState) -> Option<Credential> {
    match s {
        AuthorizationState::WaitPhoneNumber => Some(Credential::PhoneNumber),
        AuthorizationState::WaitCode => Some(Credential::Code),
        AuthorizationState::WaitPassword => Some(Credential::Password),
        _ => None,
    }
}

pub open spec fn finish(result: AuthResult, stop_client: bool, email_unsupported: bool) -> (AuthPhase, AuthCommandView) {
    (AuthPhase::Finished(result), AuthCommandView::Finish { result, stop_client, email_unsupported })
}

pub open spec fn await_state(notice: Option<Seq<char>>) -> (AuthPhase, AuthCommandView) {
    (AuthPhase::AwaitingState, AuthCommandView::AwaitState { notice })
}

/// One step of the dialogue: the next phase and what to do.
pub open spec fn auth_step(interactive: bool, phase: AuthPhase, event: AuthEventView) -> (AuthPhase, AuthCommandView) {
    match (phase, event) {
        (AuthPhase::AwaitingState, AuthEventView::State(s)) => match s {
            AuthorizationState::WaitTdlibParameters => (AuthPhase::SettingParameters, AuthCommandView::SendParameters),
            AuthorizationState::WaitPhoneNumber | AuthorizationState::WaitCode | AuthorizationState::WaitPassword =>
                if interactive {
                    (AuthPhase::Submitting(credential_for(s)->0), AuthCommandView::Prompt { credential: credential_for(s)->0, notice: None })
                } else {
                    finish(AuthResult::NeedsLogin, false, false)
                },
            AuthorizationState::WaitEmailAddress | AuthorizationState::WaitEmailCode =>
                if interactive {
                    finish(AuthResult::Closed, false, true)
                } else {
                    finish(AuthResult::NeedsLogin, false, false)
                },
            AuthorizationState::Ready => finish(AuthResult::Ready, false, false),
            AuthorizationState::Closed => finish(AuthResult::Closed, true, false),
            AuthorizationState::Other => await_state(None),
        },
        (AuthPhase::AwaitingState, AuthEventView::StreamEnded) => finish(AuthResult::Closed, false, false),
        (AuthPhase::SettingParameters, AuthEventView::ParametersSet(r)) => match r {
            Ok(()) => await_state(None),
            Err(m) => await_state(Some("Error setting TDLib parameters: "@ + m)),
        },
        (AuthPhase::Submitting(k), AuthEventView::CredentialChecked(r)) => match r {
            Ok(()) => await_state(None),
            Err(m) => (AuthPhase::Submitting(k), AuthCommandView::Prompt { credential: k, notice: Some("Error: "@ + m) }),
        },
        _ => (phase, AuthCommandView::Idle),
    }
}

/// The authorization dialogue.
#[derive(Debug, Clone, Copy, PartialEq, Eq)]
pub struct AuthFlow {
    pub interactive: bool,
    pub phase: AuthPhase,
}

fn prefixed(prefix: &str, message: String) -> (res: String)
    ensures
        res@ == prefix@ + message@,
{
    let mut s = String::new();
    push_str(&mut s, prefix);
    push_str(&mut s, message.as_str());
    s
}

impl AuthFlow {
    /// A dialogue waiting for TDLib's first authorization state.
    pub fn new(interactive: bool) -> (res: AuthFlow)
        ensures
            res.interactive == interactive,
            res.phase == AuthPhase::AwaitingState,
    {
        AuthFlow { interactive, phase: AuthPhase::AwaitingState }
    }

    /// Takes in an event and says what to do next.
    pub fn step(&mut self, event: AuthEvent) -> (res: AuthCommand)
        ensures
            final(self).interactive == old(self).interactive,
            (final(self).phase, res@) == auth_step(old(self).interactive, old(self).phase, event@),
    {
        match (self.phase, event) {
            (AuthPhase::AwaitingState, AuthEvent::State(s)) => match s {
                AuthorizationState::WaitTdlibParameters => {
                    self.phase = AuthPhase::SettingParameters;
                    AuthCommand::SendParameters
                },
                AuthorizationState::WaitPhoneNumber | AuthorizationState::WaitCode | AuthorizationState::WaitPassword => {
                    let k = match s {
                        AuthorizationState::WaitPhoneNumber => Credential::PhoneNumber,
                        AuthorizationState::WaitCode => Credential::Code,
                        _ => Credential::Password,
                    };
                    if self.interactive {
                        self.phase = AuthPhase::Submitting(k);
                        AuthCommand::Prompt { credential: k, notice: None }
                    } else {
                        self.phase = AuthPhase::Finished(AuthResult::NeedsLogin);
                        AuthCommand::Finish { result: AuthResult::NeedsLogin, stop_client: false, email_unsupported: false }
                    }
                },
                AuthorizationState::WaitEmailAddress | AuthorizationState::WaitEmailCode => {
                    if self.interactive {
                        self.phase = AuthPhase::Finished(AuthResult::Closed);
                        AuthCommand::Finish { result: AuthResult::Closed, stop_client: false, email_unsupported: true }
                    } else {
                        self.phase = AuthPhase::Finished(AuthResult::NeedsLogin);
                        AuthCommand::Finish { result: AuthResult::NeedsLogin, stop_client: false, email_unsupported: false }
                    }
                },
                AuthorizationState::Ready => {
                    self.phase = AuthPhase::Finished(AuthResult::Ready);
                    AuthCommand::Finish { result: AuthResult::Ready, stop_client: false, email_unsupported: false }
                },
                AuthorizationState::Closed => {
                    self.phase = AuthPhase::Finished(AuthResult::Closed);
                    AuthCommand::Finish { result: AuthResult::Closed, stop_client: true, email_unsupported: false }
                },
                AuthorizationState::Other => AuthCommand::AwaitState { notice: None },
            },
            (AuthPhase::AwaitingState, AuthEvent::StreamEnded) => {
                self.phase = AuthPhase::Finished(AuthResult::Closed);
                AuthCommand::Finish { result: AuthResult::Closed, stop_client: false, email_unsupported: false }
            },
            (AuthPhase::SettingParameters, AuthEvent::ParametersSet(r)) => {
                self.phase = AuthPhase::AwaitingState;
                match r {
                    Ok(()) => AuthCommand::AwaitState { notice: None },
                    Err(m) => AuthCommand::AwaitState { notice: Some(prefixed("Error setting TDLib parameters: ", m)) },
                }
            },
            (AuthPhase::Submitting(k), AuthEvent::CredentialChecked(r)) => match r {
                Ok(()) => {
                    self.phase = AuthPhase::AwaitingState;
                    AuthCommand::AwaitState { notice: None }
                },
                Err(m) => AuthCommand::Prompt { credential: k, notice: Some(prefixed("Error: ", m)) },
            },
            _ => AuthCommand::Idle,
        }
    }
}

/// The dialogue run over a sequence of events: the final phase and the
/// commands given, one per event.
pub open spec fn auth_run(interactive: bool, phase: AuthPhase, events: Seq<AuthEventView>) -> (AuthPhase, Seq<AuthCommandView>)
    decreases events.len(),
{
    if events.len() == 0 {
        (phase, Seq::empty())
    } else {
        let (next, cmd) = auth_step(interactive, phase, events[0]);
        let (last, rest) = auth_run(interactive, next, events.drop_first());
        (last, seq![cmd] + rest)
    }
}

/// Without a terminal the dialogue never asks the user for anything,
/// whatever TDLib reports.
pub proof fn lemma_non_interactive_never_prompts(phase: AuthPhase, events: Seq<AuthEventView>)
    requires
        !(phase is Submitting),
    ensures
        auth_run(false, phase, events).1.len() == events.len(),
        !(auth_run(false, phase, events).0 is Submitting),
        forall|i: int| 0 <= i < events.len() ==> !(#[trigger] auth_run(false, phase, events).1[i] is Prompt),
    decreases events.len(),
{
    if events.len() > 0 {
        let (next, cmd) = auth_step(false, phase, events[0]);
        lemma_non_interactive_never_prompts(next, events.drop_first());
        let cmds = auth_run(false, phase, events).1;
        let rest = auth_run(false, next, events.drop_first()).1;
        assert forall|i: int| 0 <= i < events.len() implies !(#[trigger] cmds[i] is Prompt) by {
            if i > 0 {
                assert(cmds[i] == rest[i - 1]);
            }
        }
    }
}

/// Once the dialogue is over it stays over: later events change nothing
/// and call for nothing.
pub proof fn lemma_finished_is_final(interactive: bool, result: AuthResult, events: Seq<AuthEventView>)
    ensures
        auth_run(interactive, AuthPhase::Finished(result), events).1.len() == events.len(),
        auth_run(interactive, AuthPhase::Finished(result), events).0 == AuthPhase::Finished(result),
        forall|i: int| 0 <= i < events.len()
            ==> #[trigger] auth_run(interactive, AuthPhase::Finished(result), events).1[i] == AuthCommandView::Idle,
    decreases events.len(),
{
    if events.len() > 0 {
        lemma_finished_is_final(interactive, result, events.drop_first());
        let cmds = auth_run(interactive, AuthPhase::Finished(result), events).1;
        let rest = auth_run(interactive, AuthPhase::Finished(result), events.drop_first()).1;
        assert forall|i: int| 0 <= i < events.len() implies #[trigger] cmds[i] == AuthCommandView::Idle by {
            if i > 0 {
                assert(cmds[i] == rest[i - 1]);
            }
        }
    }
}

/// Without a terminal, a state that needs the user (a phone number, a
/// code, a password or an email) ends the dialogue with `NeedsLogin`.
pub proof fn lemma_non_interactive_needs_login(s: AuthorizationState)
    requires
        credential_for(s) is Some || s == AuthorizationState::WaitEmailAddress || s == AuthorizationState::WaitEmailCode,
    ensures
        auth_step(false, AuthPhase::AwaitingState, AuthEventView::State(s))
            == finish(AuthResult::NeedsLogin, false, false),
{
}

/// The update loop is told to stop exactly when TDLib reports `Closed`.
pub proof fn lemma_stop_only_on_closed(interactive: bool, phase: AuthPhase, event: AuthEventView)
    ensures
        (auth_step(interactive, phase, event).1 matches AuthCommandView::Finish { stop_client: true, .. })
            <==> (phase == AuthPhase::AwaitingState && event == AuthEventView::State(AuthorizationState::Closed)),
{
}

/// With a terminal, a rejected credential is asked for again, with TDLib's
/// message, until it is accepted.
pub proof fn lemma_rejected_credential_asked_again(k: Credential, message: Seq<char>)
    ensures
        auth_step(true, AuthPhase::Submitting(k), AuthEventView::CredentialChecked(Err(message)))
            == (AuthPhase::Submitting(k), AuthCommandView::Prompt { credential: k, notice: Some("Error: "@ + message) }),
{
}

/// The reply to the client parameters never ends the dialogue, with or
/// without a terminal: the dialogue goes back to waiting for the next
/// state, silently when the parameters were accepted and with a notice when
/// they were refused.
pub proof fn lemma_parameters_reply_keeps_waiting(interactive: bool, reply: Result<(), Seq<char>>)
    ensures
        auth_step(interactive, AuthPhase::SettingParameters, AuthEventView::ParametersSet(reply)).0
            == AuthPhase::AwaitingState,
        reply is Ok ==> auth_step(interactive, AuthPhase::SettingParameters, AuthEventView::ParametersSet(reply)).1
            == (AuthCommandView::AwaitState { notice: None }),
        reply is Err ==> auth_step(interactive, AuthPhase::SettingParameters, AuthEventView::ParametersSet(reply)).1
            == (AuthCommandView::AwaitState { notice: Some("Error setting TDLib parameters: "@ + reply->Err_0) }),
{
}

/// Whether the dialogue has a terminal changes nothing except where TDLib
/// asks for something only the user can give (a phone number, a code, a
/// password or an email).
pub proof fn lemma_interactive_matters_only_for_the_user(phase: AuthPhase, event: AuthEventView)
    requires
        !(event matches AuthEventView::State(s) && (s == AuthorizationState::WaitPhoneNumber
            || s == AuthorizationState::WaitCode || s == AuthorizationState::WaitPassword
            || s == AuthorizationState::WaitEmailAddress || s == AuthorizationState::WaitEmailCode)),
    ensures
        auth_step(true, phase, event) == auth_step(false, phase, event),
{
}

/// While waiting, `Ready` ends the dialogue as logged in, and `Closed` as
/// closed with the update loop stopped, with or without a terminal.
pub proof fn lemma_ready_and_closed_decide(interactive: bool)
    ensures
        auth_step(interactive, AuthPhase::AwaitingState, AuthEventView::State(AuthorizationState::Ready))
            == (AuthPhase::Finished(AuthResult::Ready),
                AuthCommandView::Finish { result: AuthResult::Ready, stop_client: false, email_unsupported: false }),
        auth_step(interactive, AuthPhase::AwaitingState, AuthEventView::State(AuthorizationState::Closed))
            == (AuthPhase::Finished(AuthResult::Closed),
                AuthCommandView::Finish { result: AuthResult::Closed, stop_client: true, email_unsupported: false }),
{
}

/// With a terminal, a phone number, a code or a password is asked of the
/// user when TDLib waits for it, with no notice the first time.
pub proof fn lemma_interactive_asks_for_credential()
    ensures
        auth_step(true, AuthPhase::AwaitingState, AuthEventView::State(AuthorizationState::WaitPhoneNumber))
            == (AuthPhase::Submitting(Credential::PhoneNumber),
                AuthCommandView::Prompt { credential: Credential::PhoneNumber, notice: None }),
        auth_step(true, AuthPhase::AwaitingState, AuthEventView::State(AuthorizationState::WaitCode))
            == (AuthPhase::Submitting(Credential::Code),
                AuthCommandView::Prompt { credential: Credential::Code, notice: None }),
        auth_step(true, AuthPhase::AwaitingState, AuthEventView::State(AuthorizationState::WaitPassword))
            == (AuthPhase::Submitting(Credential::Password),
                AuthCommandView::Prompt { credential: Credential::Password, notice: None }),
{
}

/// An accepted credential sends the dialogue back to waiting for TDLib's
/// next state.
pub proof fn lemma_accepted_credential_waits(interactive: bool, k: Credential)
    ensures
        auth_step(interactive, AuthPhase::Submitting(k), AuthEventView::CredentialChecked(Ok(())))
            == (AuthPhase::AwaitingState, AuthCommandView::AwaitState { notice: None }),
{
}

/// With a terminal, a login by email is refused: the dialogue ends as
/// closed, with the notice that email login is not supported, and the update
/// loop is left running.
pub proof fn lemma_email_login_refused()
    ensures
        auth_step(true, AuthPhase::AwaitingState, AuthEventView::State(AuthorizationState::WaitEmailAddress))
            == (AuthPhase::Finished(AuthResult::Closed),
                AuthCommandView::Finish { result: AuthResult::Closed, stop_client: false, email_unsupported: true }),
        auth_step(true, AuthPhase::AwaitingState, AuthEventView::State(AuthorizationState::WaitEmailCode))
            == (AuthPhase::Finished(AuthResult::Closed),
                AuthCommandView::Finish { result: AuthResult::Closed, stop_client: false, email_unsupported: true }),
{
}

/// While waiting, a state that calls for nothing keeps the dialogue
/// waiting, and the end of TDLib's updates ends it as closed.
pub proof fn lemma_waiting_ends_only_on_decision(interactive: bool)
    ensures
        auth_step(interactive, AuthPhase::AwaitingState, AuthEventView::State(AuthorizationState::Other))
            == (AuthPhase::AwaitingState, AuthCommandView::AwaitState { notice: None }),
        auth_step(interactive, AuthPhase::AwaitingState, AuthEventView::StreamEnded)
            == (AuthPhase::Finished(AuthResult::Closed),
                AuthCommandView::Finish { result: AuthResult::Closed, stop_client: false, email_unsupported: false }),
{
}

/// `n` states that call for nothing.
pub open spec fn others(n: nat) -> Seq<AuthEventView> {
    Seq::new(n, |i: int| AuthEventView::State(AuthorizationState::Other))
}

proof fn lemma_others_then(interactive: bool, n: nat, rest: Seq<AuthEventView>)
    ensures
        auth_run(interactive, AuthPhase::AwaitingState, others(n) + rest).0
            == auth_run(interactive, AuthPhase::AwaitingState, rest).0,
    decreases n,
{
    if n > 0 {
        let evs = others(n) + rest;
        assert(evs[0] == AuthEventView::State(AuthorizationState::Other));
        assert(evs.drop_first() =~= others((n - 1) as nat) + rest);
        lemma_others_then(interactive, (n - 1) as nat, rest);
    } else {
        assert(others(n) + rest =~= rest);
    }
}

/// A session that is logged in is reported so, with or without a terminal:
/// once the client parameters are accepted, any number of states that call
/// for nothing and then `Ready` end the dialogue with `Ready`.
pub proof fn lemma_logged_in_session_is_ready(interactive: bool, n: nat)
    ensures
        auth_run(
            interactive,
            AuthPhase::AwaitingState,
            seq![
                AuthEventView::State(AuthorizationState::WaitTdlibParameters),
                AuthEventView::ParametersSet(Ok(())),
            ] + others(n) + seq![AuthEventView::State(AuthorizationState::Ready)],
        ).0 == AuthPhase::Finished(AuthResult::Ready),
{
    let tail = others(n) + seq![AuthEventView::State(AuthorizationState::Ready)];
    let evs = seq![
        AuthEventView::State(AuthorizationState::WaitTdlibParameters),
        AuthEventView::ParametersSet(Ok(())),
    ] + tail;
    assert(evs =~= seq![
        AuthEventView::State(AuthorizationState::WaitTdlibParameters),
        AuthEventView::ParametersSet(Ok(())),
    ] + others(n) + seq![AuthEventView::State(AuthorizationState::Ready)]);
    assert(evs[0] == AuthEventView::State(AuthorizationState::WaitTdlibParameters));
    assert(evs.drop_first()[0] == AuthEventView::ParametersSet(Ok(())));
    assert(evs.drop_first().drop_first() =~= tail);
    let last = seq![AuthEventView::State(AuthorizationState::Ready)];
    lemma_others_then(interactive, n, last);
    assert(last[0] == AuthEventView::State(AuthorizationState::Ready));
    assert(last.drop_first() =~= Seq::<AuthEventView>::empty());
    assert(auth_run(interactive, AuthPhase::Finished(AuthResult::Ready), last.drop_first()).0
        == AuthPhase::Finished(AuthResult::Ready));
    assert(auth_run(interactive, AuthPhase::AwaitingState, last).0 == AuthPhase::Finished(AuthResult::Ready));
    assert(auth_run(interactive, AuthPhase::AwaitingState, tail).0 == AuthPhase::Finished(AuthResult::Ready));
    assert(auth_run(interactive, AuthPhase::SettingParameters, evs.drop_first()).0
        == auth_run(interactive, AuthPhase::AwaitingState, evs.drop_first().drop_first()).0);
    assert(auth_run(interactive, AuthPhase::AwaitingState, evs).0
        == auth_run(interactive, AuthPhase::SettingParameters, evs.drop_first()).0);
}

impl Credential {
    /// The question put to the user.
    pub fn prompt(&self) -> (res: &'static str)
        ensures
            res@ == match self {
                Credential::PhoneNumber => "Enter your phone number (with country code, e.g. +1234567890):"@,
                Credential::Code => "Enter the verification code:"@,
                Credential::Password => "Enter your 2FA password:"@,
            },
    {
        match self {
            Credential::PhoneNumber => "Enter your phone number (with country code, e.g. +1234567890):",
            Credential::Code => "Enter the verification code:",
            Credential::Password => "Enter your 2FA password:",
        }
    }

    /// Whether the answer is read without echo.
    pub fn is_secret(&self) -> (res: bool)
        ensures
            res == (*self == Credential::Password),
    {
        match self {
            Credential::Password => true,
            _ => false,
        }
    }
}

/// The lines reported when Telegram asks for an email address or code.
pub fn email_unsupported_notice() -> (res: Vec<String>)
    ensures
        res@.len() == 2,
        res@[0]@ == "Error: Email-based authentication is not supported yet."@,
        res@[1]@ == "Please disable email login verification in Telegram settings and try again."@,
{
    let mut a = String::new();
    push_str(&mut a, "Error: Email-based authentication is not supported yet.");
    let mut b = String::new();
    push_str(&mut b, "Please disable email login verification in Telegram settings and try again.");
    let mut v = Vec::new();
    v.push(a);
    v.push(b);
    v
}

/// The TDLib log level in use: the configured one, 0 (silent) by default.
pub fn effective_verbosity(tdlib_log_verbosity: Option<i32>) -> (res: i32)
    ensures
        res == match tdlib_log_verbosity {
            Some(v) => v,
            None => 0,
        },
{
    match tdlib_log_verbosity {
        Some(v) => v,
        None => 0,
    }
}

/// Whether TDLib's log output is to be silenced: at level 0, the process's
/// error stream is held back while the client starts, and TDLib's log
/// stream is set to empty before the level is set.
pub fn is_silent(verbosity: i32) -> (res: bool)
    ensures
        res == (verbosity == 0),
{
    verbosity == 0
}

/// The parameters `set_tdlib_parameters` is called with.
#[derive(Debug, Clone, PartialEq, Eq)]
pub struct TdlibParameters {
    pub use_test_dc: bool,
    pub database_directory: String,
    pub files_directory: String,
    pub database_encryption_key: String,
    pub use_file_database: bool,
    pub use_chat_info_database: bool,
    pub use_message_database: bool,
    pub use_secret_chats: bool,
    pub api_id: i32,
    pub api_hash: String,
    pub system_language_code: String,
    pub device_model: String,
    pub system_version: String,
    pub application_version: String,
}

/// The client parameters: the configured API credentials, the session
/// directory, English, a desktop device, and no local databases beyond
/// TDLib's own.
pub fn tdlib_parameters(config: &TelegramConfig, database_directory: String, application_version: &str) -> (res: TdlibParameters)
    ensures
        !res.use_test_dc,
        res.database_directory@ == database_directory@,
        res.files_directory@ == Seq::<char>::empty(),
        res.database_encryption_key@ == Seq::<char>::empty(),
        !res.use_file_database,
        !res.use_chat_info_database,
        !res.use_message_database,
        !res.use_secret_chats,
        res.api_id == config.api_id,
        res.api_hash@ == config.api_hash@,
        res.system_language_code@ == "en"@,
        res.device_model@ == "Desktop"@,
        res.system_version@ == Seq::<char>::empty(),
        res.application_version@ == application_version@,
{
    let mut language = String::new();
    push_str(&mut language, "en");
    let mut device = String::new();
    push_str(&mut device, "Desktop");
    let mut version = String::new();
    push_str(&mut version, application_version);
    TdlibParameters {
        use_test_dc: false,
        database_directory,
        files_directory: String::new(),
        database_encryption_key: String::new(),
        use_file_database: false,
        use_chat_info_database: false,
        use_message_database: false,
        use_secret_chats: false,
        api_id: config.api_id,
        api_hash: config.api_hash.clone(),
        system_language_code: language,
        device_model: device,
        system_version: String::new(),
        application_version: version,
    }
}

/// What to do while waiting for the client to close.
#[derive(Debug, Clone, Copy, PartialEq, Eq)]
pub enum ClosingStep {
    /// The client is closed: stop the update loop; the wait is over.
    Stop,
    /// TDLib came back asking for parameters during shutdown: ask it to
    /// close again and keep waiting.
    CloseAgain,
    /// Keep waiting.
    Wait,
    /// No more states will come; the wait is over.
    Done,
}

/// Waiting for the client to close, given the next authorization state
/// (`None` when the update stream ended).
pub fn closing_step(state: Option<AuthorizationState>) -> (res: ClosingStep)
    ensures
        res == match state {
            None => ClosingStep::Done,
            Some(AuthorizationState::Closed) => ClosingStep::Stop,
            Some(AuthorizationState::WaitTdlibParameters) => ClosingStep::CloseAgain,
            Some(_) => ClosingStep::Wait,
        },
{
    match state {
        None => ClosingStep::Done,
        Some(AuthorizationState::Closed) => ClosingStep::Stop,
        Some(AuthorizationState::WaitTdlibParameters) => ClosingStep::CloseAgain,
        Some(_) => ClosingStep::Wait,
    }
}

} // verus!
