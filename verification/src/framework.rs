//! The bot's command framework: its prefix and delimiters, and what it logs
//! and replies around each command.

use vstd::prelude::*;
use vstd::string::*;

use crate::decimal::{decimal, decimal_string, lemma_decimal_injective};
use crate::text::{contains_text, lemma_contains_middle, lemma_middle_determined};

verus! {

/// `before` + `middle` + `after`, as one string.
pub open spec fn framed(before: Seq<char>, middle: Seq<char>, after: Seq<char>) -> Seq<char> {
    before + middle + after
}

fn frame(before: &str, middle: &str, after: &str) -> (s: String)
    ensures
        s@ == framed(before@, middle@, after@),
{
    let mut s = String::from_str(before);
    s.append(middle);
    s.append(after);
    s
}

/// The text that starts a command.
pub fn command_prefix() -> (s: String)
    ensures
        s@ == "y!"@,
{
    String::from_str("y!")
}

/// The separators between a command's arguments, tried in this order.
pub fn command_delimiters() -> (d: Vec<String>)
    ensures
        d@.len() == 4,
        d@[0]@ == " / "@,
        d@[1]@ == "/ "@,
        d@[2]@ == " /"@,
        d@[3]@ == "/"@,
{
    let mut d: Vec<String> = Vec::new();
    d.push(String::from_str(" / "));
    d.push(String::from_str("/ "));
    d.push(String::from_str(" /"));
    d.push(String::from_str("/"));
    d
}

/// Whether whitespace may stand between the prefix and the command name:
/// it may not.
pub fn command_with_whitespace() -> (b: bool)
    ensures
        !b,
{
    false
}

/// The bot's owners: the owner of the application, alone.
pub fn framework_owners(application_owner: u64) -> (owners: Vec<u64>)
    ensures
        owners@ == seq![application_owner],
{
    let mut owners: Vec<u64> = Vec::new();
    owners.push(application_owner);
    owners
}

/// Whether the hook run before each command lets the command go on: it
/// always does (it only logs).
pub fn before_command_allows() -> (b: bool)
    ensures
        b,
{
    true
}

/// The log line once the bot is connected.
pub fn connected_message(bot_name: &str) -> (s: String)
    ensures
        s@ == framed(""@, bot_name@, " is connected!"@),
{
    frame("", bot_name, " is connected!")
}

/// The log line after the environment file was loaded from the path shown.
pub fn dotenv_loaded_message(path_shown: &str) -> (s: String)
    ensures
        s@ == framed("Loaded dotenv from "@, path_shown@, ""@),
{
    frame("Loaded dotenv from ", path_shown, "")
}

/// The log line before a command runs.
pub fn command_received_message(command: &str, user: &str) -> (s: String)
    ensures
        s@ == "Got command '"@ + command@ + "' by user '"@ + user@ + "'"@,
{
    let mut s = String::from_str("Got command '");
    s.append(command);
    s.append("' by user '");
    s.append(user);
    s.append("'");
    s
}

/// What the framework does after a command: it always logs a line; when the
/// command failed, the same line also goes back to the user as a reply.
#[derive(Debug, Clone, PartialEq, Eq)]
pub struct CommandReport {
    pub log: String,
    pub reply: Option<String>,
}

/// The report after `command` ran; `error_shown` is the error it returned,
/// as the debug form prints it, if it failed.
pub fn after_command_report(command: &str, error_shown: Option<&str>) -> (r: CommandReport)
    ensures
        match error_shown {
            None => r.log@ == framed("Processed command '"@, command@, "'"@) && r.reply is None,
            Some(e) => r.log@ == "Command '"@ + command@ + "' returned error "@ + e@ && r.reply
                is Some && r.reply->0@ == r.log@,
        },
{
    match error_shown {
        None => CommandReport { log: frame("Processed command '", command, "'"), reply: None },
        Some(e) => {
            let mut s = String::from_str("Command '");
            s.append(command);
            s.append("' returned error ");
            s.append(e);
            let reply = s.clone();
            CommandReport { log: s, reply: Some(reply) }
        },
    }
}

/// The reply to a command refused before it ran: only a rate limit is
/// answered, with the seconds to wait.
pub fn dispatch_error_reply(ratelimit_seconds: Option<u64>) -> (r: Option<String>)
    ensures
        match ratelimit_seconds {
            None => r is None,
            Some(secs) => r is Some && r->0@ == "Try this again in "@ + decimal(secs as nat)
                + " seconds."@,
        },
{
    match ratelimit_seconds {
        None => None,
        Some(secs) => {
            let n = decimal_string(secs);
            Some(frame("Try this again in ", n.as_str(), " seconds."))
        },
    }
}

/// The log line for a command name that no command has.
pub fn unknown_command_message(name: &str) -> (s: String)
    ensures
        s@ == framed("Could not find command named '"@, name@, "'"@),
{
    frame("Could not find command named '", name, "'")
}

/// The log line for a message that is not a command.
pub fn normal_message_log(content: &str) -> (s: String)
    ensures
        s@ == framed("Message is not a command '"@, content@, "'"@),
{
    frame("Message is not a command '", content, "'")
}


/// A framed line holds its middle, between the text before and after it;
/// lines that differ in the middle differ.
pub proof fn law_framed_names_its_middle(before: Seq<char>, middle: Seq<char>, after: Seq<char>, other: Seq<char>)
    ensures
        contains_text(framed(before, middle, after), before + middle + after),
        framed(before, middle, after).len() == before.len() + middle.len() + after.len(),
        framed(before, middle, after).subrange(
            before.len() as int,
            (before.len() + middle.len()) as int,
        ) == middle,
        other != middle ==> framed(before, other, after) != framed(before, middle, after),
{
    lemma_contains_middle(Seq::<char>::empty(), before + middle + after, Seq::<char>::empty());
    assert(Seq::<char>::empty() + (before + middle + after) + Seq::<char>::empty() =~= before
        + middle + after);
    assert(framed(before, middle, after).subrange(
        before.len() as int,
        (before.len() + middle.len()) as int,
    ) =~= middle);
    if other != middle && framed(before, other, after) == framed(before, middle, after) {
        lemma_middle_determined(before, other, middle, after);
    }
}

} // verus!
