use tgrc::auth::{
    closing_step, effective_verbosity, email_unsupported_notice, is_silent, tdlib_parameters,
    AuthCommand, AuthEvent, AuthFlow, AuthPhase, AuthResult, AuthorizationState as S, ClosingStep,
    Credential,
};
use tgrc::config::TelegramConfig;

fn finish(result: AuthResult, stop_client: bool, email_unsupported: bool) -> AuthCommand {
    AuthCommand::Finish { result, stop_client, email_unsupported }
}

#[test]
fn interactive_login_dialogue() {
    let mut f = AuthFlow::new(true);
    assert_eq!(f.step(AuthEvent::State(S::WaitTdlibParameters)), AuthCommand::SendParameters);
    assert_eq!(f.step(AuthEvent::ParametersSet(Ok(()))), AuthCommand::AwaitState { notice: None });
    assert_eq!(
        f.step(AuthEvent::State(S::WaitPhoneNumber)),
        AuthCommand::Prompt { credential: Credential::PhoneNumber, notice: None }
    );
    assert_eq!(
        f.step(AuthEvent::CredentialChecked(Err("PHONE_NUMBER_INVALID".to_string()))),
        AuthCommand::Prompt { credential: Credential::PhoneNumber, notice: Some("Error: PHONE_NUMBER_INVALID".to_string()) }
    );
    assert_eq!(f.step(AuthEvent::CredentialChecked(Ok(()))), AuthCommand::AwaitState { notice: None });
    assert_eq!(
        f.step(AuthEvent::State(S::WaitCode)),
        AuthCommand::Prompt { credential: Credential::Code, notice: None }
    );
    assert_eq!(f.step(AuthEvent::CredentialChecked(Ok(()))), AuthCommand::AwaitState { notice: None });
    assert_eq!(
        f.step(AuthEvent::State(S::WaitPassword)),
        AuthCommand::Prompt { credential: Credential::Password, notice: None }
    );
    assert_eq!(f.step(AuthEvent::CredentialChecked(Ok(()))), AuthCommand::AwaitState { notice: None });
    assert_eq!(f.step(AuthEvent::State(S::Other)), AuthCommand::AwaitState { notice: None });
    assert_eq!(f.step(AuthEvent::State(S::Ready)), finish(AuthResult::Ready, false, false));
    assert_eq!(f.phase, AuthPhase::Finished(AuthResult::Ready));
    assert_eq!(f.step(AuthEvent::State(S::Closed)), AuthCommand::Idle);
}

#[test]
fn non_interactive_needs_login_instead_of_prompting() {
    for s in [S::WaitPhoneNumber, S::WaitCode, S::WaitPassword, S::WaitEmailAddress, S::WaitEmailCode] {
        let mut f = AuthFlow::new(false);
        assert_eq!(f.step(AuthEvent::State(s)), finish(AuthResult::NeedsLogin, false, false));
    }
}

#[test]
fn email_login_is_unsupported() {
    let mut f = AuthFlow::new(true);
    assert_eq!(f.step(AuthEvent::State(S::WaitEmailCode)), finish(AuthResult::Closed, false, true));
    let notice = email_unsupported_notice();
    assert_eq!(notice[0], "Error: Email-based authentication is not supported yet.");
    assert_eq!(notice[1], "Please disable email login verification in Telegram settings and try again.");
}

#[test]
fn closed_state_stops_the_client_and_end_of_stream_does_not() {
    let mut f = AuthFlow::new(false);
    assert_eq!(f.step(AuthEvent::State(S::Closed)), finish(AuthResult::Closed, true, false));
    let mut g = AuthFlow::new(false);
    assert_eq!(g.step(AuthEvent::StreamEnded), finish(AuthResult::Closed, false, false));
}

#[test]
fn parameter_errors_are_reported_and_waiting_goes_on() {
    let mut f = AuthFlow::new(false);
    f.step(AuthEvent::State(S::WaitTdlibParameters));
    assert_eq!(
        f.step(AuthEvent::ParametersSet(Err("bad".to_string()))),
        AuthCommand::AwaitState { notice: Some("Error setting TDLib parameters: bad".to_string()) }
    );
    assert_eq!(f.phase, AuthPhase::AwaitingState);
}

#[test]
fn out_of_place_events_are_ignored() {
    let mut f = AuthFlow::new(true);
    assert_eq!(f.step(AuthEvent::CredentialChecked(Ok(()))), AuthCommand::Idle);
    assert_eq!(f.phase, AuthPhase::AwaitingState);
}

#[test]
fn prompts() {
    assert_eq!(Credential::PhoneNumber.prompt(), "Enter your phone number (with country code, e.g. +1234567890):");
    assert_eq!(Credential::Code.prompt(), "Enter the verification code:");
    assert_eq!(Credential::Password.prompt(), "Enter your 2FA password:");
    assert!(Credential::Password.is_secret());
    assert!(!Credential::Code.is_secret());
}

#[test]
fn log_level_defaults_to_silent() {
    assert_eq!(effective_verbosity(None), 0);
    assert_eq!(effective_verbosity(Some(3)), 3);
    assert!(is_silent(effective_verbosity(None)));
    assert!(!is_silent(2));
}

#[test]
fn parameters_carry_the_credentials() {
    let cfg = TelegramConfig { api_id: 12345678, api_hash: "abc123".to_string(), tdlib_log_verbosity: None };
    let p = tdlib_parameters(&cfg, "/data/tgrc/tdlib".to_string(), "0.2.0");
    assert_eq!(p.api_id, 12345678);
    assert_eq!(p.api_hash, "abc123");
    assert_eq!(p.database_directory, "/data/tgrc/tdlib");
    assert_eq!(p.system_language_code, "en");
    assert_eq!(p.device_model, "Desktop");
    assert_eq!(p.application_version, "0.2.0");
    assert!(!p.use_test_dc && !p.use_message_database && !p.use_secret_chats);
    assert!(p.files_directory.is_empty() && p.system_version.is_empty());
}

#[test]
fn closing() {
    assert_eq!(closing_step(Some(S::Closed)), ClosingStep::Stop);
    assert_eq!(closing_step(Some(S::WaitTdlibParameters)), ClosingStep::CloseAgain);
    assert_eq!(closing_step(Some(S::Ready)), ClosingStep::Wait);
    assert_eq!(closing_step(None), ClosingStep::Done);
}
