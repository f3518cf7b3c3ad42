//! Which osu! player a command is about, and how a score listing is drawn.

use vstd::prelude::*;

verus! {

/// The player a command names: an osu! username as typed, or a Discord user
/// (by id) whose saved osu! account is meant.
#[derive(Debug, Clone, PartialEq, Eq)]
pub enum UsernameArg {
    Raw(String),
    Tagged(u64),
}

/// The player argument of the listing and profile commands: a typed osu!
/// username wins over a Discord user; with neither, there is none and the
/// caller's own saved account is meant.
pub fn arg_from_username_or_discord(username: Option<String>, discord_id: Option<u64>) -> (r: Option<UsernameArg>)
    ensures
        match username {
            Some(v) => r == Some(UsernameArg::Raw(v)),
            None => match discord_id {
                Some(id) => r == Some(UsernameArg::Tagged(id)),
                None => r is None,
            },
        },
{
    match (username, discord_id) {
        (Some(v), _) => Some(UsernameArg::Raw(v)),
        (_, Some(id)) => Some(UsernameArg::Tagged(id)),
        (None, None) => None,
    }
}

/// How a listing of scores is drawn.
#[derive(Debug, Clone, Copy, PartialEq, Eq, Structural)]
pub enum ScoreListStyle {
    Table,
    Grid,
}

/// The style of a listing: the one asked for, else a table.
pub fn listing_style(style: Option<ScoreListStyle>) -> (s: ScoreListStyle)
    ensures
        s == match style {
            Some(v) => v,
            None => ScoreListStyle::Table,
        },
{
    match style {
        Some(v) => v,
        None => ScoreListStyle::Table,
    }
}

} // verus!
