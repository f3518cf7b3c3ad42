//! The errors that the osu! commands answer with.

use vstd::prelude::*;
use vstd::string::*;

verus! {

/// A command that cannot go on, with the message the user is shown.
#[derive(Debug, Clone, Copy, PartialEq, Eq, Structural)]
pub enum CommandError {
    /// The listing index points past the plays that were fetched.
    NoSuchPlay,
    /// `forcesave` was given an osu! username that does not exist.
    OsuUserNotFound,
    /// `beatmap` was given no link and the channel has no recent beatmap.
    NoBeatmapInChannel,
    /// `beatmap` was given a text in which no beatmap link was found.
    NoBeatmapInArgument,
}

impl CommandError {
    pub open spec fn spec_message(self) -> Seq<char> {
        match self {
            CommandError::NoSuchPlay => "no such play"@,
            CommandError::OsuUserNotFound => "osu! user not found"@,
            CommandError::NoBeatmapInChannel => "no beatmap mentioned in this channel"@,
            CommandError::NoBeatmapInArgument => "no beatmap detected in the argument"@,
        }
    }

    /// The text the user is shown.
    pub fn message(&self) -> (s: String)
        ensures
            s@ == self.spec_message(),
    {
        match self {
            CommandError::NoSuchPlay => String::from_str("no such play"),
            CommandError::OsuUserNotFound => String::from_str("osu! user not found"),
            CommandError::NoBeatmapInChannel => String::from_str("no beatmap mentioned in this channel"),
            CommandError::NoBeatmapInArgument => String::from_str("no beatmap detected in the argument"),
        }
    }
}


/// Each error has its own message, and the messages say what went wrong.
pub proof fn law_error_messages(e: CommandError, other: CommandError)
    ensures
        e == CommandError::NoSuchPlay ==> e.spec_message() == "no such play"@,
        e == CommandError::OsuUserNotFound ==> e.spec_message() == "osu! user not found"@,
        e == CommandError::NoBeatmapInChannel ==> e.spec_message()
            == "no beatmap mentioned in this channel"@,
        e == CommandError::NoBeatmapInArgument ==> e.spec_message()
            == "no beatmap detected in the argument"@,
        e != other ==> e.spec_message() != other.spec_message(),
{
    reveal_strlit("no such play");
    reveal_strlit("osu! user not found");
    reveal_strlit("no beatmap mentioned in this channel");
    reveal_strlit("no beatmap detected in the argument");
    if e != other {
        assert(e.spec_message().len() != other.spec_message().len() || e.spec_message()[0]
            != other.spec_message()[0] || e.spec_message()[13] != other.spec_message()[13]);
    }
}

} // verus!
