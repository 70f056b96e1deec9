use vstd::prelude::*;
use vstd::string::*;
use crate::commands::contains;
use crate::logging::{
    LogLevel, LogRecord, LogRecordView, LogTarget, log_command_error, record, command_error_message,
    text_opt_view,
};

verus! {

/// What the error handler knows of a framework error, as plain text: the
/// `Display` form where a user may read it, the `Debug` form where it is
/// logged.
pub enum FrameworkErrorKind {
    /// The command's handler returned an error.
    Command { command_name: String, error_debug: String, error_text: String },
    /// A check that runs before the handler rejected the invocation; it
    /// may or may not come with an error of its own.
    CommandCheckFailed { command_name: String, error_debug: String, error_text: Option<String> },
    /// Any other framework error (connection, registration, parsing ...),
    /// with the command it arose in, where there is one.
    Other { command: Option<String> },
}

/// The command a framework error arose in, where there is one.
pub open spec fn error_command(kind: FrameworkErrorKind) -> Option<Seq<char>> {
    match kind {
        FrameworkErrorKind::Command { command_name, .. } => Some(command_name@),
        FrameworkErrorKind::CommandCheckFailed { command_name, .. } => Some(command_name@),
        FrameworkErrorKind::Other { command } => text_opt_view(command),
    }
}

fn error_command_name(kind: &FrameworkErrorKind) -> (r: Option<String>)
    ensures
        text_opt_view(r) == error_command(*kind),
{
    match kind {
        FrameworkErrorKind::Command { command_name, .. } => Some(command_name.clone()),
        FrameworkErrorKind::CommandCheckFailed { command_name, .. } => Some(command_name.clone()),
        FrameworkErrorKind::Other { command } => command.clone(),
    }
}

/// One step of the response to a framework error, in the order it is taken.
pub enum ErrorStep {
    Log(LogRecord),
    Reply(String),
}

pub enum ErrorStepView {
    Log(LogRecordView),
    Reply(Seq<char>),
}

impl View for ErrorStep {
    type V = ErrorStepView;

    open spec fn view(&self) -> ErrorStepView {
        match self {
            ErrorStep::Log(r) => ErrorStepView::Log(r@),
            ErrorStep::Reply(t) => ErrorStepView::Reply(t@),
        }
    }
}

pub open spec fn steps_view(s: Seq<ErrorStep>) -> Seq<ErrorStepView> {
    s.map_values(|x: ErrorStep| x@)
}

pub open spec fn bot_error(message: Seq<char>) -> ErrorStepView {
    ErrorStepView::Log(record(LogTarget::Bot, LogLevel::Error, message))
}

/// The steps taken for a framework error whose `Debug` form is
/// `framework_debug`: the error record first, then a record of the branch,
/// then, where there is someone to tell, one reply.
pub open spec fn error_plan(framework_debug: Seq<char>, kind: FrameworkErrorKind) -> Seq<ErrorStepView> {
    let first = ErrorStepView::Log(
        record(LogTarget::Error, LogLevel::Error, command_error_message(error_command(kind), framework_debug)),
    );
    match kind {
        FrameworkErrorKind::Command { command_name, error_debug, error_text } => seq![
            first,
            bot_error("Error in command `"@ + command_name@ + "`: "@ + error_debug@),
            ErrorStepView::Reply("An error occurred: "@ + error_text@),
        ],
        FrameworkErrorKind::CommandCheckFailed { error_debug, error_text, .. } => match error_text {
            Some(t) => seq![
                first,
                bot_error("Command check failed: "@ + error_debug@),
                ErrorStepView::Reply("Command check failed: "@ + t@),
            ],
            None => seq![first, bot_error("Command check failed: "@ + error_debug@)],
        },
        FrameworkErrorKind::Other { .. } => seq![first, bot_error("Other framework error: "@ + framework_debug)],
    }
}

fn bot_error_record(message: String) -> (r: LogRecord)
    ensures
        ErrorStepView::Log(r@) == bot_error(message@),
{
    LogRecord { target: LogTarget::Bot, level: LogLevel::Error, message }
}

/// The steps that answer a framework error: log it, then reply to the
/// invoking user where the error came from an invocation.
pub fn respond_to_error(framework_debug: &str, kind: &FrameworkErrorKind) -> (r: Vec<ErrorStep>)
    ensures
        steps_view(r@) == error_plan(framework_debug@, *kind),
{
    let mut steps: Vec<ErrorStep> = Vec::new();
    let name = error_command_name(kind);
    steps.push(ErrorStep::Log(log_command_error(&name, framework_debug)));
    match kind {
        FrameworkErrorKind::Command { command_name, error_debug, error_text } => {
            let m = String::from_str("Error in command `").concat(command_name.as_str())
                .concat("`: ").concat(error_debug.as_str());
            steps.push(ErrorStep::Log(bot_error_record(m)));
            steps.push(ErrorStep::Reply(String::from_str("An error occurred: ").concat(error_text.as_str())));
        },
        FrameworkErrorKind::CommandCheckFailed { error_debug, error_text, .. } => {
            let m = String::from_str("Command check failed: ").concat(error_debug.as_str());
            steps.push(ErrorStep::Log(bot_error_record(m)));
            match error_text {
                Some(t) => {
                    steps.push(ErrorStep::Reply(String::from_str("Command check failed: ").concat(t.as_str())));
                },
                None => {},
            }
        },
        FrameworkErrorKind::Other { .. } => {
            let m = String::from_str("Other framework error: ").concat(framework_debug);
            steps.push(ErrorStep::Log(bot_error_record(m)));
        },
    }
    assert(steps_view(steps@) =~= error_plan(framework_debug@, *kind));
    steps
}

/// Whether the response to this error replies to a user.
pub open spec fn replies(kind: FrameworkErrorKind) -> bool {
    match kind {
        FrameworkErrorKind::Command { .. } => true,
        FrameworkErrorKind::CommandCheckFailed { error_text, .. } => error_text is Some,
        FrameworkErrorKind::Other { .. } => false,
    }
}

/// The record that notes a failed reply, whose error has the `Debug` form
/// `failure_debug`.
pub open spec fn reply_failure_log(kind: FrameworkErrorKind, failure_debug: Seq<char>) -> Option<LogRecordView> {
    match kind {
        FrameworkErrorKind::Command { .. } => Some(
            record(LogTarget::Bot, LogLevel::Error, "Error while sending error message: "@ + failure_debug),
        ),
        FrameworkErrorKind::CommandCheckFailed { .. } => Some(
            record(LogTarget::Bot, LogLevel::Error, "Error while sending check failure message: "@ + failure_debug),
        ),
        FrameworkErrorKind::Other { .. } => None,
    }
}

pub open spec fn record_opt_view(r: Option<LogRecord>) -> Option<LogRecordView> {
    match r {
        Some(x) => Some(x@),
        None => None,
    }
}

/// What follows the reply of an error response: nothing where it was
/// delivered; where it failed (the `Err` holds the failure's `Debug`
/// form), a record of the failure, and nothing else.
pub fn after_reply(kind: &FrameworkErrorKind, outcome: &Result<(), String>) -> (r: Option<LogRecord>)
    ensures
        record_opt_view(r) == match outcome {
            Ok(()) => None,
            Err(e) => reply_failure_log(*kind, e@),
        },
{
    match outcome {
        Ok(()) => None,
        Err(e) => match kind {
            FrameworkErrorKind::Command { .. } => Some(
                bot_error_record(String::from_str("Error while sending error message: ").concat(e.as_str())),
            ),
            FrameworkErrorKind::CommandCheckFailed { .. } => Some(
                bot_error_record(
                    String::from_str("Error while sending check failure message: ").concat(e.as_str()),
                ),
            ),
            FrameworkErrorKind::Other { .. } => None,
        },
    }
}

/// Each response to a framework error logs before it replies: it opens with
/// the error record, every reply comes after log records only, there is at
/// most one reply, and there is one exactly where an invocation is there to
/// answer. A failed reply only adds a record.
pub proof fn error_response_logs_before_replying(framework_debug: Seq<char>, kind: FrameworkErrorKind)
    ensures
        error_plan(framework_debug, kind).len() >= 2,
        error_plan(framework_debug, kind)[0] == ErrorStepView::Log(
            record(LogTarget::Error, LogLevel::Error, command_error_message(error_command(kind), framework_debug)),
        ),
        forall|i: int, j: int|
            0 <= j < i < error_plan(framework_debug, kind).len()
                && #[trigger] error_plan(framework_debug, kind)[i] is Reply
                ==> #[trigger] error_plan(framework_debug, kind)[j] is Log,
        forall|i: int, j: int|
            0 <= i < error_plan(framework_debug, kind).len()
                && 0 <= j < error_plan(framework_debug, kind).len()
                && #[trigger] error_plan(framework_debug, kind)[i] is Reply
                && #[trigger] error_plan(framework_debug, kind)[j] is Reply ==> i == j,
        replies(kind) <==> exists|i: int|
            0 <= i < error_plan(framework_debug, kind).len()
                && #[trigger] error_plan(framework_debug, kind)[i] is Reply,
        forall|e: Seq<char>| replies(kind) ==> #[trigger] reply_failure_log(kind, e) is Some,
{
    let p = error_plan(framework_debug, kind);
    if replies(kind) {
        assert(p[p.len() - 1] is Reply);
    }
}

/// An error raised by a command's handler is logged under the error
/// target with the command's name and the error's debug form, and the user
/// is answered with a message that says an error occurred.
pub proof fn command_error_is_logged_and_answered(framework_debug: Seq<char>, kind: FrameworkErrorKind)
    requires
        kind is Command,
    ensures
        error_plan(framework_debug, kind)[0] matches ErrorStepView::Log(r)
            && r.target == LogTarget::Error
            && contains(r.message, error_command(kind)->Some_0)
            && contains(r.message, framework_debug),
        error_plan(framework_debug, kind)[2] matches ErrorStepView::Reply(t)
            && contains(t, "An error occurred:"@),
{
    reveal_strlit("Command `");
    reveal_strlit("` failed: ");
    reveal_strlit("An error occurred: ");
    reveal_strlit("An error occurred:");
    let c = error_command(kind)->Some_0;
    let m = command_error_message(Some(c), framework_debug);
    let a: int = 9;
    assert(m.subrange(a, a + c.len()) =~= c);
    let b: int = a + c.len() + 10;
    assert(m.subrange(b, b + framework_debug.len()) =~= framework_debug);
    if let FrameworkErrorKind::Command { error_text, .. } = kind {
        let t = "An error occurred: "@ + error_text@;
        let z: int = 0;
        assert(t.subrange(z, z + "An error occurred:"@.len()) =~= "An error occurred:"@);
    }
}

} // verus!
