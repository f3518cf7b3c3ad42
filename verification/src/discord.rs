//! Message formatting that the bot takes from serenity.

use serenity::model::id::UserId;
use serenity::model::mention::Mentionable;
use serenity::utils::MessageBuilder;
use vstd::prelude::*;

use crate::decimal::decimal;

verus! {

/// `s` with every occurrence of `pat` replaced by `rep`, occurrences taken
/// left to right without overlap, as `str::replace` does (`pat` not empty).
pub open spec fn replace_all(s: Seq<char>, pat: Seq<char>, rep: Seq<char>) -> Seq<char>
    recommends
        pat.len() > 0,
    decreases s.len(),
{
    if pat.len() == 0 || s.len() < pat.len() {
        s
    } else if s.take(pat.len() as int) == pat {
        rep + replace_all(s.skip(pat.len() as int), pat, rep)
    } else {
        seq![s[0]] + replace_all(s.skip(1), pat, rep)
    }
}

/// The right-to-left and zero-width marks that serenity blanks out.
pub open spec fn is_invisible_mark(c: char) -> bool {
    c == '\u{202E}' || c == '\u{200F}' || c == '\u{202B}' || c == '\u{200B}' || c == '\u{200D}'
        || c == '\u{200C}'
}

/// serenity's `normalize`: invite links and scam sites get a one-dot leader
/// in place of their dot, the invisible marks become spaces, and
/// `@everyone`/`@here` get a zero-width space after the `@`.
pub open spec fn normalized(text: Seq<char>) -> Seq<char> {
    let t1 = replace_all(text, "discord.gg"@, "discord\u{2024}gg"@);
    let t2 = replace_all(t1, "discord.me"@, "discord\u{2024}me"@);
    let t3 = replace_all(t2, "discordlist.net"@, "discordlist\u{2024}net"@);
    let t4 = replace_all(t3, "discordservers.com"@, "discordservers\u{2024}com"@);
    let t5 = replace_all(t4, "discord.com/invite"@, "discord\u{2024}com/invite"@);
    let t6 = replace_all(t5, "discordapp.com/invite"@, "discordapp\u{2024}com/invite"@);
    let t7 = Seq::new(t6.len(), |i: int| if is_invisible_mark(t6[i]) { ' ' } else { t6[i] });
    let t8 = replace_all(t7, "@everyone"@, "@\u{200B}everyone"@);
    replace_all(t8, "@here"@, "@\u{200B}here"@)
}

/// What `push_bold_safe` puts between its `**` markers: the normalized text
/// with `**` replaced by a space.
#[verifier::opaque]
pub open spec fn bold_safe_inner(content: Seq<char>) -> Seq<char> {
    replace_all(normalized(content), "**"@, " "@)
}

/// The text holds none of the characters that serenity's safe formatting
/// rewrites or that every pattern it rewrites contains (`.`, `@`, `*`, and
/// the right-to-left and zero-width marks).
pub open spec fn free_of_markup_hazards(s: Seq<char>) -> bool {
    forall|i: int|
        0 <= i < s.len() ==> {
            let c = #[trigger] s[i];
            &&& c != '.'
            &&& c != '@'
            &&& c != '*'
            &&& !is_invisible_mark(c)
        }
}

/// Replacing a pattern leaves a text alone when one of the pattern's
/// characters occurs nowhere in it.
pub proof fn lemma_replace_absent(s: Seq<char>, pat: Seq<char>, rep: Seq<char>, k: int)
    requires
        0 <= k < pat.len(),
        forall|i: int| 0 <= i < s.len() ==> s[i] != pat[k],
    ensures
        replace_all(s, pat, rep) == s,
    decreases s.len(),
{
    if s.len() < pat.len() {
    } else {
        if s.take(pat.len() as int) == pat {
            assert(s.take(pat.len() as int)[k] == s[k]);
        }
        lemma_replace_absent(s.skip(1), pat, rep, k);
        assert(seq![s[0]] + s.skip(1) =~= s);
    }
}

/// serenity's safe bold formatting leaves a text free of markup hazards
/// unchanged between its markers.
pub proof fn lemma_bold_safe_keeps_plain_text(s: Seq<char>)
    requires
        free_of_markup_hazards(s),
    ensures
        bold_safe_inner(s) == s,
{
    reveal_strlit("discord.gg");
    reveal_strlit("discord.me");
    reveal_strlit("discordlist.net");
    reveal_strlit("discordservers.com");
    reveal_strlit("discord.com/invite");
    reveal_strlit("discordapp.com/invite");
    reveal_strlit("@everyone");
    reveal_strlit("@here");
    reveal_strlit("**");
    lemma_replace_absent(s, "discord.gg"@, "discord\u{2024}gg"@, 7);
    lemma_replace_absent(s, "discord.me"@, "discord\u{2024}me"@, 7);
    lemma_replace_absent(s, "discordlist.net"@, "discordlist\u{2024}net"@, 11);
    lemma_replace_absent(s, "discordservers.com"@, "discordservers\u{2024}com"@, 14);
    lemma_replace_absent(s, "discord.com/invite"@, "discord\u{2024}com/invite"@, 7);
    lemma_replace_absent(s, "discordapp.com/invite"@, "discordapp\u{2024}com/invite"@, 10);
    let t6 = s;
    let t7 = Seq::new(t6.len(), |i: int| if is_invisible_mark(t6[i]) { ' ' } else { t6[i] });
    assert(t7 =~= s);
    lemma_replace_absent(s, "@everyone"@, "@\u{200B}everyone"@, 0);
    lemma_replace_absent(s, "@here"@, "@\u{200B}here"@, 0);
    assert(normalized(s) == s);
    lemma_replace_absent(s, "**"@, " "@, 0);
    reveal(bold_safe_inner);
}

/// serenity's `Mention` of a user (`UserId::mention`), written out with
/// `Display`: serenity writes `<@`, the id in decimal, then `>`.
/// `UserId::new` panics on zero, so a zero id is not admitted.
#[verifier::external_body]
pub(crate) fn user_mention(id: u64) -> (s: String)
    requires
        id != 0,
    ensures
        s@ == "<@"@ + decimal(id as nat) + ">"@,
{
    UserId::new(id).mention().to_string()
}

/// serenity's `MessageBuilder::push_bold_safe` on an empty builder: serenity
/// pushes `**`, then the text put through `normalize` with `**` replaced by a
/// space, then `**`; `build` hands the result back.
#[verifier::external_body]
pub(crate) fn bold_safe(content: &str) -> (s: String)
    ensures
        s@ == "**"@ + bold_safe_inner(content@) + "**"@,
{
    MessageBuilder::new().push_bold_safe(content).build()
}

} // verus!
