use bot_template_rs::logging::{log_command_end, log_command_error, log_command_start, LogLevel, LogTarget};
use bot_template_rs::{BOT_NAME, COMMAND_TARGET, ERROR_TARGET};

#[test]
fn start_record_names_the_command() {
    let r = log_command_start("ping");
    assert_eq!(r.target, LogTarget::Command);
    assert_eq!(r.level, LogLevel::Info);
    assert_eq!(r.message, "Executing command: ping");
}

#[test]
fn end_record_names_the_command() {
    let r = log_command_end("ping");
    assert_eq!(r.target, LogTarget::Command);
    assert_eq!(r.level, LogLevel::Info);
    assert_eq!(r.message, "Finished command: ping");
}

#[test]
fn error_record_carries_the_debug_form() {
    let r = log_command_error(&Some("ping".to_string()), "Command { error: \"boom\" }");
    assert_eq!(r.target, LogTarget::Error);
    assert_eq!(r.level, LogLevel::Error);
    assert_eq!(r.message, "Command `ping` failed: Command { error: \"boom\" }");
    let r = log_command_error(&None, "Setup");
    assert_eq!(r.message, "Framework error: Setup");
}

#[test]
fn target_names_are_the_fixed_labels() {
    assert_eq!(LogTarget::Bot.name(), BOT_NAME);
    assert_eq!(LogTarget::Command.name(), COMMAND_TARGET);
    assert_eq!(LogTarget::Error.name(), ERROR_TARGET);
    assert_eq!(ERROR_TARGET, "bot_template_rs::error");
    assert_eq!(COMMAND_TARGET, "bot_template_rs::command");
}

#[test]
fn logging_installs_once() {
    assert!(bot_template_rs::logging::init().is_ok());
    let second = bot_template_rs::logging::init();
    assert!(second.is_err());
    assert!(!second.err().unwrap().message.is_empty());
}
