use bot_template_rs::dispatch::{after_reply, respond_to_error, ErrorStep, FrameworkErrorKind};
use bot_template_rs::logging::{LogLevel, LogTarget};

fn command_error() -> FrameworkErrorKind {
    FrameworkErrorKind::Command {
        command_name: "ping".to_string(),
        error_debug: "Custom(\"boom\")".to_string(),
        error_text: "boom".to_string(),
    }
}

#[test]
fn command_error_logs_then_replies() {
    let steps = respond_to_error("Command { .. }", &command_error());
    assert_eq!(steps.len(), 3);
    match &steps[0] {
        ErrorStep::Log(r) => {
            assert_eq!(r.target, LogTarget::Error);
            assert_eq!(r.target.name(), "bot_template_rs::error");
            assert_eq!(r.message, "Command `ping` failed: Command { .. }");
        }
        ErrorStep::Reply(_) => panic!("reply before log"),
    }
    match &steps[1] {
        ErrorStep::Log(r) => {
            assert_eq!(r.target, LogTarget::Bot);
            assert_eq!(r.level, LogLevel::Error);
            assert_eq!(r.message, "Error in command `ping`: Custom(\"boom\")");
        }
        ErrorStep::Reply(_) => panic!("reply before log"),
    }
    match &steps[2] {
        ErrorStep::Reply(t) => {
            assert!(t.contains("An error occurred:"));
            assert_eq!(t, "An error occurred: boom");
        }
        ErrorStep::Log(_) => panic!("expected a reply"),
    }
}

#[test]
fn check_failure_with_error_replies() {
    let kind = FrameworkErrorKind::CommandCheckFailed {
        command_name: "ping".to_string(),
        error_debug: "Some(\"no rights\")".to_string(),
        error_text: Some("no rights".to_string()),
    };
    let steps = respond_to_error("CommandCheckFailed", &kind);
    assert_eq!(steps.len(), 3);
    match &steps[1] {
        ErrorStep::Log(r) => assert_eq!(r.message, "Command check failed: Some(\"no rights\")"),
        ErrorStep::Reply(_) => panic!("reply before log"),
    }
    match &steps[2] {
        ErrorStep::Reply(t) => assert_eq!(t, "Command check failed: no rights"),
        ErrorStep::Log(_) => panic!("expected a reply"),
    }
}

#[test]
fn check_failure_without_error_only_logs() {
    let kind = FrameworkErrorKind::CommandCheckFailed {
        command_name: "ping".to_string(),
        error_debug: "None".to_string(),
        error_text: None,
    };
    let steps = respond_to_error("CommandCheckFailed", &kind);
    assert_eq!(steps.len(), 2);
    assert!(steps.iter().all(|s| matches!(s, ErrorStep::Log(_))));
}

#[test]
fn other_error_only_logs() {
    let steps = respond_to_error("GuildOnly", &FrameworkErrorKind::Other { command: Some("ping".to_string()) });
    assert_eq!(steps.len(), 2);
    match &steps[0] {
        ErrorStep::Log(r) => assert_eq!(r.message, "Command `ping` failed: GuildOnly"),
        ErrorStep::Reply(_) => panic!("no reply expected"),
    }
    match &steps[1] {
        ErrorStep::Log(r) => assert_eq!(r.message, "Other framework error: GuildOnly"),
        ErrorStep::Reply(_) => panic!("no reply expected"),
    }
}

#[test]
fn failed_error_reply_is_logged() {
    let r = after_reply(&command_error(), &Err("Http(..)".to_string())).unwrap();
    assert_eq!(r.target, LogTarget::Bot);
    assert_eq!(r.message, "Error while sending error message: Http(..)");
    let kind = FrameworkErrorKind::CommandCheckFailed {
        command_name: "ping".to_string(),
        error_debug: "x".to_string(),
        error_text: Some("x".to_string()),
    };
    let r = after_reply(&kind, &Err("Http(..)".to_string())).unwrap();
    assert_eq!(r.message, "Error while sending check failure message: Http(..)");
}

#[test]
fn delivered_error_reply_adds_nothing() {
    assert!(after_reply(&command_error(), &Ok(())).is_none());
    assert!(after_reply(&FrameworkErrorKind::Other { command: None }, &Err("x".to_string())).is_none());
}

#[test]
fn error_without_a_command_is_logged_as_framework_error() {
    let steps = respond_to_error("Setup { .. }", &FrameworkErrorKind::Other { command: None });
    match &steps[0] {
        ErrorStep::Log(r) => {
            assert_eq!(r.target, LogTarget::Error);
            assert_eq!(r.message, "Framework error: Setup { .. }");
        }
        ErrorStep::Reply(_) => panic!("no reply expected"),
    }
}
