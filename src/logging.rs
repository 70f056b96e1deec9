use vstd::prelude::*;
use vstd::string::*;

verus! {

/// The name the bot logs under by default.
pub const BOT_NAME: &'static str = "bot_template_rs";

/// The log target of command lifecycle records.
pub const COMMAND_TARGET: &'static str = "bot_template_rs::command";

/// The log target of error records.
pub const ERROR_TARGET: &'static str = "bot_template_rs::error";

/// The fixed category label a log record is tagged with.
#[derive(Clone, Copy, Debug, PartialEq, Eq, Structural)]
pub enum LogTarget {
    Bot,
    Command,
    Error,
}

#[derive(Clone, Copy, Debug, PartialEq, Eq, Structural)]
pub enum LogLevel {
    Info,
    Error,
}

pub open spec fn target_text(t: LogTarget) -> Seq<char> {
    match t {
        LogTarget::Bot => "bot_template_rs"@,
        LogTarget::Command => "bot_template_rs::command"@,
        LogTarget::Error => "bot_template_rs::error"@,
    }
}

impl LogTarget {
    /// The label as it appears in the log.
    pub fn name(&self) -> (r: &'static str)
        ensures
            r@ == target_text(*self),
    {
        match self {
            LogTarget::Bot => BOT_NAME,
            LogTarget::Command => COMMAND_TARGET,
            LogTarget::Error => ERROR_TARGET,
        }
    }
}

/// One structured log record.
pub struct LogRecord {
    pub target: LogTarget,
    pub level: LogLevel,
    pub message: String,
}

pub struct LogRecordView {
    pub target: LogTarget,
    pub level: LogLevel,
    pub message: Seq<char>,
}

impl View for LogRecord {
    type V = LogRecordView;

    open spec fn view(&self) -> LogRecordView {
        LogRecordView { target: self.target, level: self.level, message: self.message@ }
    }
}

pub open spec fn record(target: LogTarget, level: LogLevel, message: Seq<char>) -> LogRecordView {
    LogRecordView { target, level, message }
}

pub open spec fn command_start_message(command: Seq<char>) -> Seq<char> {
    "Executing command: "@ + command
}

pub open spec fn command_end_message(command: Seq<char>) -> Seq<char> {
    "Finished command: "@ + command
}

/// The message of an error record: the command it arose in, where there is
/// one, and the error's debug form.
pub open spec fn command_error_message(command: Option<Seq<char>>, error_debug: Seq<char>) -> Seq<char> {
    match command {
        Some(c) => "Command `"@ + c + "` failed: "@ + error_debug,
        None => "Framework error: "@ + error_debug,
    }
}

pub open spec fn text_opt_view(t: Option<String>) -> Option<Seq<char>> {
    match t {
        Some(x) => Some(x@),
        None => None,
    }
}

/// The record emitted before a command runs, carrying its name.
pub fn log_command_start(command: &str) -> (r: LogRecord)
    ensures
        r@ == record(LogTarget::Command, LogLevel::Info, command_start_message(command@)),
{
    LogRecord {
        target: LogTarget::Command,
        level: LogLevel::Info,
        message: String::from_str("Executing command: ").concat(command),
    }
}

/// The record emitted after a command has run, carrying its name.
pub fn log_command_end(command: &str) -> (r: LogRecord)
    ensures
        r@ == record(LogTarget::Command, LogLevel::Info, command_end_message(command@)),
{
    LogRecord {
        target: LogTarget::Command,
        level: LogLevel::Info,
        message: String::from_str("Finished command: ").concat(command),
    }
}

/// The record emitted for any framework error, carrying the name of the
/// command it arose in, where there is one, and the error's debug form.
pub fn log_command_error(command: &Option<String>, error_debug: &str) -> (r: LogRecord)
    ensures
        r@ == record(LogTarget::Error, LogLevel::Error, command_error_message(text_opt_view(*command), error_debug@)),
{
    let message = match command {
        Some(c) => String::from_str("Command `").concat(c.as_str()).concat("` failed: ").concat(error_debug),
        None => String::from_str("Framework error: ").concat(error_debug),
    };
    LogRecord { target: LogTarget::Error, level: LogLevel::Error, message }
}

/// The process-wide log sink could not be installed, most often because one
/// was installed before.
pub struct LoggingInitError {
    pub message: String,
}

/// Installs the process-wide log sink. Only the first successful call in a
/// process installs it; any later call fails. A failure always says why.
pub fn init() -> (r: Result<(), LoggingInitError>)
    ensures
        r matches Err(e) ==> e.message@.len() > 0,
{
    match install_subscriber() {
        Ok(()) => Ok(()),
        Err(message) => Err(LoggingInitError { message }),
    }
}

/// Relies on tracing_subscriber's `fmt().try_init()`: installs a formatting
/// subscriber as the global default, or fails with a reason, which is
/// handed back as text. Either failure (a global dispatcher or a `log`
/// logger already set) displays a fixed, non-empty message.
#[verifier::external_body]
fn install_subscriber() -> (r: Result<(), String>)
    ensures
        r matches Err(m) ==> m@.len() > 0,
{
    tracing_subscriber::fmt().with_target(true).try_init().map_err(|e| e.to_string())
}

} // verus!
