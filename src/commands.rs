use vstd::prelude::*;
use vstd::string::*;
use poise::serenity_prelude as serenity;

verus! {

#[verifier::external_type_specification]
#[verifier::external_body]
pub struct ExCreateCommand(serenity::CreateCommand);

/// The metadata of a command, as registered with the dispatcher and with
/// the platform's command registry.
pub struct CommandDescriptor {
    pub name: String,
    pub description: Option<String>,
    pub guild_only: bool,
    pub prefix_command: bool,
    pub slash_command: bool,
}

pub open spec fn ping_name() -> Seq<char> {
    "ping"@
}

pub open spec fn ping_description() -> Seq<char> {
    "Basic ping command This command is used to check if the bot is responsive."@
}

pub open spec fn responsiveness_phrase() -> Seq<char> {
    "check if the bot is responsive"@
}

/// The text that the `ping` command replies with.
pub open spec fn pong() -> Seq<char> {
    "Pong!"@
}

/// Basic ping command: checks that the bot is responsive.
pub fn ping() -> (cmd: CommandDescriptor)
    ensures
        cmd.name@ == ping_name(),
        cmd.description matches Some(d) && d@ == ping_description(),
        cmd.guild_only,
        cmd.prefix_command,
        cmd.slash_command,
{
    CommandDescriptor {
        name: String::from_str("ping"),
        description: Some(String::from_str(
            "Basic ping command This command is used to check if the bot is responsive.",
        )),
        guild_only: true,
        prefix_command: true,
        slash_command: true,
    }
}

/// Whether `t` occurs in `s` as a contiguous run of characters.
pub open spec fn contains(s: Seq<char>, t: Seq<char>) -> bool {
    exists|k: int| 0 <= k && k + t.len() <= s.len() && #[trigger] s.subrange(k, k + t.len()) == t
}

/// The description of the `ping` command says that it checks the bot's
/// responsiveness.
pub proof fn ping_description_names_its_purpose()
    ensures
        contains(ping_description(), responsiveness_phrase()),
{
    reveal_strlit("Basic ping command This command is used to check if the bot is responsive.");
    reveal_strlit("check if the bot is responsive");
    let k: int = 43;
    assert(ping_description().subrange(k, k + responsiveness_phrase().len()) =~= responsiveness_phrase());
}

/// The name set on a slash-command builder.
pub uninterp spec fn slash_name(c: serenity::CreateCommand) -> Seq<char>;

/// The description set on a slash-command builder, if any.
pub uninterp spec fn slash_description(c: serenity::CreateCommand) -> Option<Seq<char>>;

/// Whether a slash-command builder is limited to guild contexts alone.
pub uninterp spec fn slash_guild_only(c: serenity::CreateCommand) -> bool;

/// The description a slash command is registered with: its own, or a
/// generic one where it has none (the platform asks for one).
pub open spec fn slash_description_of(description: Option<String>) -> Seq<char> {
    match description {
        Some(d) => d@,
        None => "A slash command"@,
    }
}

impl CommandDescriptor {
    /// The slash-command form of the command, for the platform's registry:
    /// present exactly when the command is declared as a slash command, with
    /// the command's name, its description and its guild restriction.
    pub fn create_as_slash_command(&self) -> (r: Option<serenity::CreateCommand>)
        ensures
            r is Some <==> self.slash_command,
            r matches Some(c) ==> slash_name(c) == self.name@
                && slash_description(c) == Some(slash_description_of(self.description))
                && slash_guild_only(c) == self.guild_only,
    {
        if !self.slash_command {
            return None;
        }
        let builder = new_slash_command(self.name.as_str());
        let builder = match &self.description {
            Some(d) => describe_slash_command(builder, d.as_str()),
            None => describe_slash_command(builder, "A slash command"),
        };
        if self.guild_only {
            Some(restrict_to_guilds(builder))
        } else {
            Some(builder)
        }
    }
}

/// Relies on serenity's `CreateCommand::new`: a builder with the given name,
/// no description and no context restriction.
#[verifier::external_body]
fn new_slash_command(name: &str) -> (r: serenity::CreateCommand)
    ensures
        slash_name(r) == name@,
        slash_description(r) == None::<Seq<char>>,
        !slash_guild_only(r),
{
    serenity::CreateCommand::new(name)
}

/// Relies on serenity's `CreateCommand::description`: sets the description
/// and nothing else.
#[verifier::external_body]
fn describe_slash_command(b: serenity::CreateCommand, description: &str) -> (r: serenity::CreateCommand)
    ensures
        slash_name(r) == slash_name(b),
        slash_description(r) == Some(description@),
        slash_guild_only(r) == slash_guild_only(b),
{
    b.description(description)
}

/// Relies on serenity's `CreateCommand::contexts`: limits the command to
/// guild contexts and changes nothing else.
#[verifier::external_body]
fn restrict_to_guilds(b: serenity::CreateCommand) -> (r: serenity::CreateCommand)
    ensures
        slash_name(r) == slash_name(b),
        slash_description(r) == slash_description(b),
        slash_guild_only(r),
{
    b.contexts(vec![serenity::InteractionContext::Guild])
}

/// The one reply of the `ping` command.
pub fn ping_reply() -> (r: String)
    ensures
        r@ == pong(),
{
    String::from_str("Pong!")
}

} // verus!
