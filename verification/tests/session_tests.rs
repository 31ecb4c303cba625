use xiv_otp::config::XivOtpCommands;
use xiv_otp::session::{Action, Event, Phase, Session, SessionError};

const GOOD: &str = "GEZDGNBVGY3TQOJQGEZDGNBVGY3TQOJQ";
const SHORT: &str = "GEZDGNBV";

fn is_token(a: &Action) -> bool {
    matches!(a, Action::SendOtp(t) if t.len() == 6 && t.chars().all(|c| c.is_ascii_digit()))
}

#[test]
fn delete_deletes_then_finishes() {
    let mut s = Session::new(XivOtpCommands::Delete {});
    assert!(matches!(s.step(Event::Start), Action::DeleteSecret));
    assert!(matches!(s.step(Event::Completed), Action::Finish));
    assert_eq!(s.phase(), Phase::Finished);
}

#[test]
fn delete_failure_stops() {
    let mut s = Session::new(XivOtpCommands::Delete {});
    s.step(Event::Start);
    assert!(matches!(s.step(Event::Failed), Action::Abort(SessionError::DeleteFailed)));
    assert_eq!(s.phase(), Phase::Failed);
}

#[test]
fn set_secret_deletes_asks_and_stores_unchecked() {
    let mut s = Session::new(XivOtpCommands::SetSecret {});
    assert!(matches!(s.step(Event::Start), Action::DeleteSecret));
    assert!(matches!(s.step(Event::Completed), Action::PromptSecret));
    match s.step(Event::SecretEntered("anything at all".to_string())) {
        Action::StoreSecret(t) => assert_eq!(t, "anything at all"),
        other => panic!("unexpected {:?}", other),
    }
    assert!(matches!(s.step(Event::Completed), Action::Finish));
}

#[test]
fn set_secret_store_failure_stops() {
    let mut s = Session::new(XivOtpCommands::SetSecret {});
    s.step(Event::Start);
    s.step(Event::Completed);
    s.step(Event::SecretEntered(GOOD.to_string()));
    assert!(matches!(s.step(Event::Failed), Action::Abort(SessionError::StoreFailed)));
}

#[test]
fn oneshot_with_stored_secret_sends_at_once() {
    let mut s = Session::new(XivOtpCommands::Oneshot { wait: false });
    assert!(matches!(s.step(Event::Start), Action::LoadSecret));
    assert!(is_token(&s.step(Event::SecretLoaded(Some(GOOD.to_string())))));
    assert!(matches!(s.step(Event::Completed), Action::Finish));
}

#[test]
fn oneshot_waits_when_asked() {
    let mut s = Session::new(XivOtpCommands::Oneshot { wait: true });
    s.step(Event::Start);
    assert!(matches!(s.step(Event::SecretLoaded(Some(GOOD.to_string()))), Action::WaitForListener));
    assert!(is_token(&s.step(Event::Completed)));
    assert!(matches!(s.step(Event::Completed), Action::Finish));
}

#[test]
fn empty_store_asks_and_stores_a_good_secret() {
    let mut s = Session::new(XivOtpCommands::Oneshot { wait: false });
    s.step(Event::Start);
    assert!(matches!(s.step(Event::SecretLoaded(None)), Action::PromptSecret));
    match s.step(Event::SecretEntered(GOOD.to_string())) {
        Action::StoreSecret(t) => assert_eq!(t, GOOD),
        other => panic!("unexpected {:?}", other),
    }
    // A failed store is only a warning: the password is still sent.
    assert!(is_token(&s.step(Event::Failed)));
}

#[test]
fn bad_entered_secret_falls_back_to_one_more_prompt() {
    let mut s = Session::new(XivOtpCommands::Oneshot { wait: false });
    s.step(Event::Start);
    s.step(Event::SecretLoaded(None));
    assert!(matches!(s.step(Event::SecretEntered(SHORT.to_string())), Action::PromptSecret));
    // The fallback secret is used but not stored.
    assert!(is_token(&s.step(Event::SecretEntered(GOOD.to_string()))));
}

#[test]
fn bad_stored_secret_falls_back_then_gives_up() {
    let mut s = Session::new(XivOtpCommands::Oneshot { wait: false });
    s.step(Event::Start);
    assert!(matches!(s.step(Event::SecretLoaded(Some("bad secret!".to_string()))), Action::PromptSecret));
    assert!(matches!(s.step(Event::SecretEntered("still bad!".to_string())), Action::Abort(SessionError::NoGenerator)));
}

#[test]
fn store_read_failure_falls_back_to_prompt() {
    let mut s = Session::new(XivOtpCommands::Monitor {});
    s.step(Event::Start);
    assert!(matches!(s.step(Event::Failed), Action::PromptSecret));
    assert!(matches!(s.step(Event::Failed), Action::Abort(SessionError::NoGenerator)));
}

#[test]
fn monitor_keeps_waiting_and_sending() {
    let mut s = Session::new(XivOtpCommands::Monitor {});
    s.step(Event::Start);
    assert!(matches!(s.step(Event::SecretLoaded(Some(GOOD.to_string()))), Action::WaitForListener));
    for _ in 0..3 {
        assert!(is_token(&s.step(Event::Completed)));
        assert!(matches!(s.step(Event::Completed), Action::WaitForListener));
    }
    assert!(matches!(s.step(Event::Failed), Action::Abort(SessionError::ListenerNotFound)));
}

#[test]
fn send_failure_stops() {
    let mut s = Session::new(XivOtpCommands::Monitor {});
    s.step(Event::Start);
    s.step(Event::SecretLoaded(Some(GOOD.to_string())));
    s.step(Event::Completed);
    assert!(matches!(s.step(Event::Failed), Action::Abort(SessionError::SendFailed)));
}

#[test]
fn unexpected_event_stops() {
    let mut s = Session::new(XivOtpCommands::Monitor {});
    assert!(matches!(s.step(Event::Completed), Action::Abort(SessionError::UnexpectedEvent)));
    assert!(matches!(s.step(Event::Start), Action::Abort(SessionError::UnexpectedEvent)));
    assert_eq!(s.command(), XivOtpCommands::Monitor {});
}

#[test]
fn password_is_that_of_the_given_time() {
    let mut s = Session::new(XivOtpCommands::Oneshot { wait: false });
    assert!(matches!(s.step_at(Event::Start, None), Action::LoadSecret));
    match s.step_at(Event::SecretLoaded(Some(GOOD.to_string())), Some(59)) {
        Action::SendOtp(t) => assert_eq!(t, "287082"),
        other => panic!("unexpected {:?}", other),
    }
    assert!(matches!(s.step_at(Event::Completed, Some(59)), Action::Finish));
}

#[test]
fn monitor_sends_the_password_of_each_wake_up() {
    let mut s = Session::new(XivOtpCommands::Monitor {});
    s.step_at(Event::Start, None);
    assert!(matches!(s.step_at(Event::SecretLoaded(Some(GOOD.to_string())), None), Action::WaitForListener));
    match s.step_at(Event::Completed, Some(1111111109)) {
        Action::SendOtp(t) => assert_eq!(t, "081804"),
        other => panic!("unexpected {:?}", other),
    }
    assert!(matches!(s.step_at(Event::Completed, None), Action::WaitForListener));
    match s.step_at(Event::Completed, Some(1234567890)) {
        Action::SendOtp(t) => assert_eq!(t, "005924"),
        other => panic!("unexpected {:?}", other),
    }
}

#[test]
fn clock_before_epoch_stops() {
    let mut s = Session::new(XivOtpCommands::Oneshot { wait: true });
    s.step_at(Event::Start, None);
    s.step_at(Event::SecretLoaded(Some(GOOD.to_string())), None);
    assert!(matches!(s.step_at(Event::Completed, None), Action::Abort(SessionError::ClockBeforeEpoch)));
    assert_eq!(s.phase(), Phase::Failed);
}
