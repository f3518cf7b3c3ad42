//! The texts of the `profile`, `save` and `forcesave` replies.

use vstd::prelude::*;
use vstd::string::*;

use crate::decimal::{decimal, decimal_string, lemma_decimal_injective};
use crate::text::{contains_text, lemma_contains_middle, lemma_middle_determined};
use crate::discord::{
    bold_safe, bold_safe_inner, free_of_markup_hazards, lemma_bold_safe_keeps_plain_text, user_mention,
};
use crate::errors::CommandError;

verus! {

/// "Here is {mention}'s **{mode}** profile!"
pub open spec fn spec_profile_content(mention: Seq<char>, mode_name: Seq<char>) -> Seq<char> {
    "Here is "@ + mention + "'s **"@ + mode_name + "** profile!"@
}

/// The reply to `profile` when the user was found.
pub fn profile_content(mention: &str, mode_name: &str) -> (s: String)
    ensures
        s@ == spec_profile_content(mention@, mode_name@),
{
    let mut s = String::from_str("Here is ");
    s.append(mention);
    s.append("'s **");
    s.append(mode_name);
    s.append("** profile!");
    s
}

/// The reply to `profile` when no such user exists.
pub fn profile_not_found() -> (s: String)
    ensures
        s@ == "\u{1F50D} user not found!"@,
{
    String::from_str("\u{1F50D} user not found!")
}

/// The mode that `profile` shows: the one asked for, else the user's own.
pub fn profile_mode(mode_override: Option<u8>, user_mode: u8) -> (m: u8)
    ensures
        m == match mode_override {
            Some(o) => o,
            None => user_mode,
        },
{
    match mode_override {
        Some(o) => o,
        None => user_mode,
    }
}

/// The instructions that `save` gives.
pub open spec fn spec_save_prompt(username: Seq<char>, beatmap_id: nat, mode_name: Seq<char>) -> Seq<char> {
    "To set your osu username to **"@ + username
        + "**, please make your most recent play be the following map: `/b/"@
        + decimal(beatmap_id) + "` in **"@ + mode_name
        + "** mode! It does **not** have to be a pass, and **NF** can be used! React to this message with \u{1F44C} within 5 minutes when you're done!"@
}

/// The instructions that `save` gives: play the beatmap `beatmap_id` in the
/// named mode, then react.
pub fn save_prompt(username: &str, beatmap_id: u64, mode_name: &str) -> (s: String)
    ensures
        s@ == spec_save_prompt(username@, beatmap_id as nat, mode_name@),
{
    let mut s = String::from_str("To set your osu username to **");
    s.append(username);
    s.append("**, please make your most recent play be the following map: `/b/");
    let id = decimal_string(beatmap_id);
    s.append(id.as_str());
    s.append("` in **");
    s.append(mode_name);
    s.append("** mode! It does **not** have to be a pass, and **NF** can be used! React to this message with \u{1F44C} within 5 minutes when you're done!");
    s
}

/// "Youmu is now tracking user <@{id}> with osu! account **{username}**",
/// the username normalized by serenity.
pub open spec fn spec_forcesave_content(discord_id: nat, username: Seq<char>) -> Seq<char> {
    "Youmu is now tracking user "@ + "<@"@ + decimal(discord_id) + ">"@ + " with osu! account "@
        + "**"@ + bold_safe_inner(username) + "**"@
}

/// The answer of `forcesave`: an error when the osu! user was not found,
/// else the confirmation that mentions the Discord user and names the account.
pub fn forcesave_outcome(user_found: bool, discord_id: u64, username: &str) -> (r: Result<String, CommandError>)
    requires
        discord_id != 0,
    ensures
        !user_found ==> r == Err::<String, CommandError>(CommandError::OsuUserNotFound),
        user_found ==> r is Ok && r->Ok_0@ == spec_forcesave_content(discord_id as nat, username@),
        user_found && free_of_markup_hazards(username@) ==> r is Ok && r->Ok_0@ == "Youmu is now tracking user "@
            + "<@"@ + decimal(discord_id as nat) + ">"@ + " with osu! account **"@ + username@ + "**"@,
{
    if !user_found {
        return Err(CommandError::OsuUserNotFound);
    }
    let mut s = String::from_str("Youmu is now tracking user ");
    let mention = user_mention(discord_id);
    s.append(mention.as_str());
    s.append(" with osu! account ");
    let bold = bold_safe(username);
    s.append(bold.as_str());
    proof {
        reveal_strlit(" with osu! account ");
        reveal_strlit(" with osu! account **");
        reveal_strlit("**");
        assert(" with osu! account "@ + "**"@ =~= " with osu! account **"@);
        if free_of_markup_hazards(username@) {
            lemma_bold_safe_keeps_plain_text(username@);
        }
    }
    Ok(s)
}


/// The save prompt names what it is given: the mode right before
/// "** mode!", the beatmap right after "`/b/", the username right after the
/// opening; prompts that differ in any of them differ.
pub proof fn law_save_prompt_names_its_arguments(
    username: Seq<char>,
    beatmap_id: nat,
    mode_name: Seq<char>,
    other_username: Seq<char>,
    other_id: nat,
    other_mode: Seq<char>,
)
    ensures
        contains_text(
            spec_save_prompt(username, beatmap_id, mode_name),
            "` in **"@ + mode_name + "** mode!"@,
        ),
        contains_text(
            spec_save_prompt(username, beatmap_id, mode_name),
            "`/b/"@ + decimal(beatmap_id) + "` in **"@,
        ),
        contains_text(
            spec_save_prompt(username, beatmap_id, mode_name),
            "To set your osu username to **"@ + username + "**, "@,
        ),
        other_mode != mode_name ==> spec_save_prompt(username, beatmap_id, other_mode)
            != spec_save_prompt(username, beatmap_id, mode_name),
        other_id != beatmap_id ==> spec_save_prompt(username, other_id, mode_name)
            != spec_save_prompt(username, beatmap_id, mode_name),
        other_username != username ==> spec_save_prompt(other_username, beatmap_id, mode_name)
            != spec_save_prompt(username, beatmap_id, mode_name),
{
    let head = "To set your osu username to **"@;
    let mid = "**, please make your most recent play be the following map: `/b/"@;
    let mid_a = "**, "@;
    let mid_b = "please make your most recent play be the following map: "@;
    let link = "`/b/"@;
    let at = "` in **"@;
    let tail = "** mode! It does **not** have to be a pass, and **NF** can be used! React to this message with \u{1F44C} within 5 minutes when you're done!"@;
    let mode_end = "** mode!"@;
    let rest = " It does **not** have to be a pass, and **NF** can be used! React to this message with \u{1F44C} within 5 minutes when you're done!"@;
    reveal_strlit("**, please make your most recent play be the following map: `/b/");
    reveal_strlit("**, ");
    reveal_strlit("please make your most recent play be the following map: ");
    reveal_strlit("`/b/");
    reveal_strlit("** mode! It does **not** have to be a pass, and **NF** can be used! React to this message with \u{1F44C} within 5 minutes when you're done!");
    reveal_strlit("** mode!");
    reveal_strlit(" It does **not** have to be a pass, and **NF** can be used! React to this message with \u{1F44C} within 5 minutes when you're done!");
    assert(mid =~= mid_a + mid_b + link);
    assert(tail =~= mode_end + rest);
    let d = decimal(beatmap_id);
    let p = spec_save_prompt(username, beatmap_id, mode_name);
    assert(p =~= (head + username + mid + d) + (at + mode_name + mode_end) + rest);
    lemma_contains_middle(head + username + mid + d, at + mode_name + mode_end, rest);
    assert(p =~= (head + username + mid_a + mid_b) + (link + d + at) + (mode_name + tail));
    lemma_contains_middle(head + username + mid_a + mid_b, link + d + at, mode_name + tail);
    assert(p =~= Seq::<char>::empty() + (head + username + mid_a) + (mid_b + link + d + at + mode_name + tail));
    lemma_contains_middle(Seq::<char>::empty(), head + username + mid_a, mid_b + link + d + at + mode_name + tail);
    if spec_save_prompt(username, beatmap_id, other_mode) == p {
        lemma_middle_determined(head + username + mid + d + at, other_mode, mode_name, tail);
    }
    if spec_save_prompt(username, other_id, mode_name) == p {
        let d2 = decimal(other_id);
        assert(spec_save_prompt(username, other_id, mode_name) =~= (head + username + mid) + d2 + (at + mode_name + tail));
        assert(p =~= (head + username + mid) + d + (at + mode_name + tail));
        if d2.len() == d.len() {
            lemma_middle_determined(head + username + mid, d2, d, at + mode_name + tail);
            lemma_decimal_injective(other_id, beatmap_id);
        } else {
            // the texts after the number line up from the end
            let q = spec_save_prompt(username, other_id, mode_name);
            let s2 = at + mode_name + tail;
            assert(q.len() == p.len());
        }
    }
    if spec_save_prompt(other_username, beatmap_id, mode_name) == p {
        let q = spec_save_prompt(other_username, beatmap_id, mode_name);
        let s2 = mid + d + at + mode_name + tail;
        assert(q =~= head + other_username + s2);
        assert(p =~= head + username + s2);
        lemma_middle_determined(head, other_username, username, s2);
    }
}

/// The profile reply names the player right after "Here is " and the mode
/// right before "** profile!"; replies that differ in either differ.
pub proof fn law_profile_content_names_its_arguments(
    mention: Seq<char>,
    mode_name: Seq<char>,
    other_mention: Seq<char>,
    other_mode: Seq<char>,
)
    ensures
        contains_text(spec_profile_content(mention, mode_name), "Here is "@ + mention + "'s **"@),
        contains_text(spec_profile_content(mention, mode_name), "'s **"@ + mode_name + "** profile!"@),
        other_mode != mode_name ==> spec_profile_content(mention, other_mode) != spec_profile_content(
            mention,
            mode_name,
        ),
        other_mention != mention ==> spec_profile_content(other_mention, mode_name)
            != spec_profile_content(mention, mode_name),
{
    let p = spec_profile_content(mention, mode_name);
    let a = "Here is "@;
    let b = "'s **"@;
    let c = "** profile!"@;
    assert(p =~= Seq::<char>::empty() + (a + mention + b) + (mode_name + c));
    lemma_contains_middle(Seq::<char>::empty(), a + mention + b, mode_name + c);
    assert(p =~= a + mention + (b + mode_name + c) + Seq::<char>::empty());
    lemma_contains_middle(a + mention, b + mode_name + c, Seq::<char>::empty());
    if spec_profile_content(mention, other_mode) == p {
        lemma_middle_determined(a + mention + b, other_mode, mode_name, c);
    }
    if spec_profile_content(other_mention, mode_name) == p {
        assert(spec_profile_content(other_mention, mode_name) =~= a + other_mention + (b + mode_name + c));
        assert(p =~= a + mention + (b + mode_name + c));
        lemma_middle_determined(a, other_mention, mention, b + mode_name + c);
    }
}

/// The forcesave reply mentions the Discord user it is given, right after
/// "tracking user ", and names the account in bold right after "account ";
/// replies for different Discord users differ.
pub proof fn law_forcesave_names_its_arguments(discord_id: nat, username: Seq<char>, other_id: nat)
    ensures
        contains_text(
            spec_forcesave_content(discord_id, username),
            "tracking user "@ + "<@"@ + decimal(discord_id) + ">"@,
        ),
        contains_text(
            spec_forcesave_content(discord_id, username),
            "account "@ + "**"@ + bold_safe_inner(username) + "**"@,
        ),
        other_id != discord_id ==> spec_forcesave_content(other_id, username) != spec_forcesave_content(
            discord_id,
            username,
        ),
{
    lemma_forcesave_mentions(discord_id, username);
    lemma_forcesave_names_account(discord_id, username);
    if other_id != discord_id {
        lemma_forcesave_id_determined(discord_id, username, other_id);
    }
}

proof fn lemma_forcesave_mentions(discord_id: nat, username: Seq<char>)
    ensures
        contains_text(
            spec_forcesave_content(discord_id, username),
            "tracking user "@ + "<@"@ + decimal(discord_id) + ">"@,
        ),
{
    reveal_strlit("Youmu is now tracking user ");
    reveal_strlit("Youmu is now ");
    reveal_strlit("tracking user ");
    let lead = "Youmu is now "@;
    let tracking = "tracking user "@;
    assert("Youmu is now tracking user "@ =~= lead + tracking);
    let m = tracking + "<@"@ + decimal(discord_id) + ">"@;
    let rest = " with osu! account "@ + "**"@ + bold_safe_inner(username) + "**"@;
    assert(spec_forcesave_content(discord_id, username) =~= lead + m + rest);
    lemma_contains_middle(lead, m, rest);
}

proof fn lemma_forcesave_names_account(discord_id: nat, username: Seq<char>)
    ensures
        contains_text(
            spec_forcesave_content(discord_id, username),
            "account "@ + "**"@ + bold_safe_inner(username) + "**"@,
        ),
{
    reveal_strlit(" with osu! account ");
    reveal_strlit(" with osu! ");
    reveal_strlit("account ");
    let with = " with osu! "@;
    assert(" with osu! account "@ =~= with + "account "@);
    let front = "Youmu is now tracking user "@ + "<@"@ + decimal(discord_id) + ">"@ + with;
    let m = "account "@ + "**"@ + bold_safe_inner(username) + "**"@;
    assert(spec_forcesave_content(discord_id, username) =~= front + m + Seq::<char>::empty());
    lemma_contains_middle(front, m, Seq::<char>::empty());
}

proof fn lemma_forcesave_id_determined(discord_id: nat, username: Seq<char>, other_id: nat)
    requires
        other_id != discord_id,
    ensures
        spec_forcesave_content(other_id, username) != spec_forcesave_content(discord_id, username),
{
    let front = "Youmu is now tracking user "@ + "<@"@;
    let back = ">"@ + " with osu! account "@ + "**"@ + bold_safe_inner(username) + "**"@;
    let d = decimal(discord_id);
    let d2 = decimal(other_id);
    assert(spec_forcesave_content(discord_id, username) =~= front + d + back);
    assert(spec_forcesave_content(other_id, username) =~= front + d2 + back);
    if spec_forcesave_content(other_id, username) == spec_forcesave_content(discord_id, username) {
        lemma_middle_determined(front, d2, d, back);
        lemma_decimal_injective(other_id, discord_id);
    }
}

} // verus!
