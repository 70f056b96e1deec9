use vstd::prelude::*;
use vstd::string::*;

verus! {

/// Where the startup sequence stands.
#[derive(Clone, Copy, Debug, PartialEq, Eq, Structural)]
pub enum StartupState {
    AwaitLogging,
    AwaitCredential,
    AwaitClient,
    Running,
    Done,
}

/// What the host reports back after performing an action. Errors carry the
/// `Display` form of what failed.
pub enum StartupEvent {
    LoggingInitialized(Result<(), String>),
    CredentialRead(Option<String>),
    ClientBuilt(Result<(), String>),
    ClientStopped(Result<(), String>),
}

/// What the host is to do next.
pub enum StartupAction {
    InitLogging,
    ReadCredential,
    /// Build the client with this credential, registering the commands.
    BuildClient(String),
    /// Connect to the gateway and run until the connection ends.
    StartClient,
    /// Stop the process at once, with this message.
    Abort(String),
    /// Print this message to standard error and end normally.
    Report(String),
    /// End normally.
    Exit,
    /// The event does not belong to this state: nothing to do.
    Ignore,
}

pub enum StartupEventView {
    LoggingInitialized(Result<(), Seq<char>>),
    CredentialRead(Option<Seq<char>>),
    ClientBuilt(Result<(), Seq<char>>),
    ClientStopped(Result<(), Seq<char>>),
}

pub enum StartupActionView {
    InitLogging,
    ReadCredential,
    BuildClient(Seq<char>),
    StartClient,
    Abort(Seq<char>),
    Report(Seq<char>),
    Exit,
    Ignore,
}

pub open spec fn unit_or_text(r: Result<(), String>) -> Result<(), Seq<char>> {
    match r {
        Ok(()) => Ok(()),
        Err(t) => Err(t@),
    }
}

impl View for StartupEvent {
    type V = StartupEventView;

    open spec fn view(&self) -> StartupEventView {
        match self {
            StartupEvent::LoggingInitialized(r) => StartupEventView::LoggingInitialized(unit_or_text(*r)),
            StartupEvent::CredentialRead(t) => StartupEventView::CredentialRead(
                match t {
                    Some(x) => Some(x@),
                    None => None,
                },
            ),
            StartupEvent::ClientBuilt(r) => StartupEventView::ClientBuilt(unit_or_text(*r)),
            StartupEvent::ClientStopped(r) => StartupEventView::ClientStopped(unit_or_text(*r)),
        }
    }
}

impl View for StartupAction {
    type V = StartupActionView;

    open spec fn view(&self) -> StartupActionView {
        match self {
            StartupAction::InitLogging => StartupActionView::InitLogging,
            StartupAction::ReadCredential => StartupActionView::ReadCredential,
            StartupAction::BuildClient(t) => StartupActionView::BuildClient(t@),
            StartupAction::StartClient => StartupActionView::StartClient,
            StartupAction::Abort(m) => StartupActionView::Abort(m@),
            StartupAction::Report(m) => StartupActionView::Report(m@),
            StartupAction::Exit => StartupActionView::Exit,
            StartupAction::Ignore => StartupActionView::Ignore,
        }
    }
}

pub open spec fn missing_credential_message() -> Seq<char> {
    "DISCORD_TOKEN must be set"@
}

pub open spec fn logging_failure_message(reason: Seq<char>) -> Seq<char> {
    "Failed to initialize logging: "@ + reason
}

pub open spec fn client_failure_message(reason: Seq<char>) -> Seq<char> {
    "Failed to create client: "@ + reason
}

/// The startup sequence: install logging, read the credential, build the
/// client, run it. A logging failure, a missing credential or a client that
/// cannot be built stops the process; the end of the connection is
/// reported.
pub open spec fn startup_step(s: StartupState, e: StartupEventView) -> (StartupState, StartupActionView) {
    match (s, e) {
        (StartupState::AwaitLogging, StartupEventView::LoggingInitialized(Ok(()))) =>
            (StartupState::AwaitCredential, StartupActionView::ReadCredential),
        (StartupState::AwaitLogging, StartupEventView::LoggingInitialized(Err(t))) =>
            (StartupState::Done, StartupActionView::Abort(logging_failure_message(t))),
        (StartupState::AwaitCredential, StartupEventView::CredentialRead(Some(token))) =>
            (StartupState::AwaitClient, StartupActionView::BuildClient(token)),
        (StartupState::AwaitCredential, StartupEventView::CredentialRead(None)) =>
            (StartupState::Done, StartupActionView::Abort(missing_credential_message())),
        (StartupState::AwaitClient, StartupEventView::ClientBuilt(Ok(()))) =>
            (StartupState::Running, StartupActionView::StartClient),
        (StartupState::AwaitClient, StartupEventView::ClientBuilt(Err(t))) =>
            (StartupState::Done, StartupActionView::Abort(client_failure_message(t))),
        (StartupState::Running, StartupEventView::ClientStopped(Ok(()))) =>
            (StartupState::Done, StartupActionView::Exit),
        (StartupState::Running, StartupEventView::ClientStopped(Err(t))) =>
            (StartupState::Done, StartupActionView::Report("Error starting the bot: "@ + t)),
        _ => (s, StartupActionView::Ignore),
    }
}

/// The first state and the first action.
pub fn begin() -> (r: (StartupState, StartupAction))
    ensures
        r.0 == StartupState::AwaitLogging,
        r.1@ == StartupActionView::InitLogging,
{
    (StartupState::AwaitLogging, StartupAction::InitLogging)
}

/// The next state and action once `event` has come in `state`.
pub fn step(state: StartupState, event: StartupEvent) -> (r: (StartupState, StartupAction))
    ensures
        (r.0, r.1@) == startup_step(state, event@),
{
    match (state, event) {
        (StartupState::AwaitLogging, StartupEvent::LoggingInitialized(Ok(()))) =>
            (StartupState::AwaitCredential, StartupAction::ReadCredential),
        (StartupState::AwaitLogging, StartupEvent::LoggingInitialized(Err(t))) =>
            (StartupState::Done, StartupAction::Abort(String::from_str("Failed to initialize logging: ").concat(t.as_str()))),
        (StartupState::AwaitCredential, StartupEvent::CredentialRead(Some(token))) =>
            (StartupState::AwaitClient, StartupAction::BuildClient(token)),
        (StartupState::AwaitCredential, StartupEvent::CredentialRead(None)) =>
            (StartupState::Done, StartupAction::Abort(String::from_str("DISCORD_TOKEN must be set"))),
        (StartupState::AwaitClient, StartupEvent::ClientBuilt(Ok(()))) =>
            (StartupState::Running, StartupAction::StartClient),
        (StartupState::AwaitClient, StartupEvent::ClientBuilt(Err(t))) =>
            (StartupState::Done, StartupAction::Abort(String::from_str("Failed to create client: ").concat(t.as_str()))),
        (StartupState::Running, StartupEvent::ClientStopped(Ok(()))) =>
            (StartupState::Done, StartupAction::Exit),
        (StartupState::Running, StartupEvent::ClientStopped(Err(t))) =>
            (StartupState::Done, StartupAction::Report(String::from_str("Error starting the bot: ").concat(t.as_str()))),
        (s, _) => (s, StartupAction::Ignore),
    }
}

/// The actions taken from state `s` as `events` come in one by one.
pub open spec fn run(s: StartupState, events: Seq<StartupEventView>) -> Seq<StartupActionView>
    decreases events.len(),
{
    if events.len() == 0 {
        seq![]
    } else {
        let (next, a) = startup_step(s, events[0]);
        seq![a] + run(next, events.drop_first())
    }
}

/// Whether an action reaches out to the platform.
pub open spec fn connects(a: StartupActionView) -> bool {
    a is BuildClient || a is StartClient
}

proof fn done_stays_quiet(events: Seq<StartupEventView>)
    ensures
        forall|i: int| 0 <= i < run(StartupState::Done, events).len()
            ==> #[trigger] run(StartupState::Done, events)[i] == StartupActionView::Ignore,
    decreases events.len(),
{
    if events.len() > 0 {
        done_stays_quiet(events.drop_first());
        let rest = run(StartupState::Done, events.drop_first());
        assert(run(StartupState::Done, events) == seq![StartupActionView::Ignore] + rest);
        assert forall|i: int| 0 <= i < run(StartupState::Done, events).len() implies
            #[trigger] run(StartupState::Done, events)[i] == StartupActionView::Ignore by {
            if i > 0 {
                assert(run(StartupState::Done, events)[i] == rest[i - 1]);
            }
        }
    }
}

/// A missing credential stops startup with an abort, and nothing that
/// comes in afterwards leads to a connection. The one action that builds
/// the client is taken only after a credential was read.
pub proof fn missing_credential_aborts_before_connecting(later: Seq<StartupEventView>)
    ensures
        startup_step(StartupState::AwaitCredential, StartupEventView::CredentialRead(None))
            == (StartupState::Done, StartupActionView::Abort(missing_credential_message())),
        forall|i: int|
            0 <= i < run(StartupState::AwaitCredential, seq![StartupEventView::CredentialRead(None)] + later).len()
                ==> !connects(
                #[trigger] run(StartupState::AwaitCredential, seq![StartupEventView::CredentialRead(None)] + later)[i],
            ),
        forall|s: StartupState, e: StartupEventView|
            (#[trigger] startup_step(s, e)).1 is BuildClient
                ==> s == StartupState::AwaitCredential && e matches StartupEventView::CredentialRead(Some(_)),
{
    let events = seq![StartupEventView::CredentialRead(None)] + later;
    assert(events.drop_first() =~= later);
    done_stays_quiet(later);
    let r = run(StartupState::AwaitCredential, events);
    assert(r == seq![StartupActionView::Abort(missing_credential_message())] + run(StartupState::Done, later));
    assert forall|i: int| 0 <= i < r.len() implies !connects(#[trigger] r[i]) by {
        if i > 0 {
            assert(r[i] == run(StartupState::Done, later)[i - 1]);
        }
    }
}

} // verus!
