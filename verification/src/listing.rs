//! The `top`, `recent` and `pinned` listings: which play to show, and the
//! text around it.

use vstd::prelude::*;
use vstd::string::*;

use crate::decimal::{decimal, decimal_string, lemma_decimal_injective};
use crate::text::{contains_text, lemma_contains_middle, lemma_middle_determined};
use crate::errors::CommandError;

verus! {

/// Which entry of a listing is asked for: one play (counted from zero), or
/// the whole listing.
#[derive(Debug, Clone, Copy, PartialEq, Eq, Structural)]
pub enum Nth {
    Nth(u8),
    All,
}

/// The three listings of a player's plays.
#[derive(Debug, Clone, Copy, PartialEq, Eq, Structural)]
pub enum ListingKind {
    /// Best plays, ordered by pp.
    Top,
    /// Most recent plays.
    Recent,
    /// Pinned plays.
    Pinned,
}

impl ListingKind {
    pub open spec fn spec_name(self) -> Seq<char> {
        match self {
            ListingKind::Top => "top"@,
            ListingKind::Recent => "recent"@,
            ListingKind::Pinned => "pinned"@,
        }
    }

    /// The word used for the listing in replies.
    pub fn name(&self) -> (s: String)
        ensures
            s@ == self.spec_name(),
    {
        match self {
            ListingKind::Top => String::from_str("top"),
            ListingKind::Recent => String::from_str("recent"),
            ListingKind::Pinned => String::from_str("pinned"),
        }
    }

    /// Whether the fetched plays are put in order of pp, largest first,
    /// before they are listed: only the best plays are; the others keep the
    /// order in which they came.
    pub fn ordered_by_pp(&self) -> (b: bool)
        ensures
            b == (*self == ListingKind::Top),
    {
        match self {
            ListingKind::Top => true,
            _ => false,
        }
    }

    /// How many plays are fetched for the listing: 100 best plays, 50
    /// recent or pinned ones.
    pub fn fetch_limit(&self) -> (l: u8)
        ensures
            l == (if *self == ListingKind::Top { 100u8 } else { 50u8 }),
    {
        match self {
            ListingKind::Top => 100,
            _ => 50,
        }
    }
}

/// What to show for a listing.
#[derive(Debug, Clone, PartialEq, Eq)]
pub enum ListingPlan {
    /// One play: the play at `index` of the fetched list, shown as number
    /// `position`; `top_record` asks the embed to mark it as that top play,
    /// `world_record` to show that global rank.
    Single {
        index: usize,
        position: u8,
        top_record: Option<u8>,
        world_record: Option<u16>,
        content: String,
    },
    /// The whole listing.
    All { content: String },
}

/// "Here is the #{position} {kind} play by {mention}!"
pub open spec fn spec_single_content(position: nat, kind: Seq<char>, mention: Seq<char>) -> Seq<char> {
    "Here is the #"@ + decimal(position) + " "@ + kind + " play by "@ + mention + "!"@
}

/// "Here are the {kind} plays by {mention}!"
pub open spec fn spec_all_content(kind: Seq<char>, mention: Seq<char>) -> Seq<char> {
    "Here are the "@ + kind + " plays by "@ + mention + "!"@
}

/// The global rank as the embed takes it: cut to 16 bits.
pub open spec fn world_record_of(rank: Option<u32>) -> Option<u16> {
    match rank {
        Some(r) => Some((r % 65536) as u16),
        None => None,
    }
}

/// Whether `plan` is the answer for listing `kind`, entry `nth`, over plays
/// whose global ranks are `ranks`, by the player that `mention` names.
pub open spec fn is_listing_plan(
    kind: ListingKind,
    nth: Nth,
    ranks: Seq<Option<u32>>,
    mention: Seq<char>,
    plan: ListingPlan,
) -> bool {
    match nth {
        Nth::All => plan matches ListingPlan::All { content } && content@ == spec_all_content(
            kind.spec_name(),
            mention,
        ),
        Nth::Nth(n) => plan matches ListingPlan::Single {
            index,
            position,
            top_record,
            world_record,
            content,
        } && index == n && position == n + 1 && top_record == (if kind == ListingKind::Top {
            Some(position)
        } else {
            None
        }) && world_record == world_record_of(ranks[n as int]) && content@ == spec_single_content(
            (n + 1) as nat,
            kind.spec_name(),
            mention,
        ),
    }
}

/// Decides what `handle_listing` shows: for one entry, the play at that
/// index (an error when there is none), its number, the marks on its embed
/// and the reply; for the whole listing, the reply. `ranks` holds the global
/// rank of each fetched play, in listing order.
pub fn plan_listing(kind: ListingKind, nth: Nth, ranks: &Vec<Option<u32>>, user_mention: &str) -> (r: Result<ListingPlan, CommandError>)
    requires
        // numbering play 256 overflows the play number
        nth matches Nth::Nth(n) ==> n < 255 || ranks@.len() <= n,
    ensures
        match nth {
            Nth::Nth(n) if n >= ranks@.len() => r == Err::<ListingPlan, CommandError>(CommandError::NoSuchPlay),
            _ => r is Ok && is_listing_plan(kind, nth, ranks@, user_mention@, r->Ok_0),
        },
{
    let kind_name = kind.name();
    match nth {
        Nth::All => {
            let mut content = String::from_str("Here are the ");
            content.append(kind_name.as_str());
            content.append(" plays by ");
            content.append(user_mention);
            content.append("!");
            Ok(ListingPlan::All { content })
        },
        Nth::Nth(n) => {
            if (n as usize) >= ranks.len() {
                return Err(CommandError::NoSuchPlay);
            }
            let position: u8 = n + 1;
            let top_record = match kind {
                ListingKind::Top => Some(position),
                _ => None,
            };
            let world_record = match ranks[n as usize] {
                Some(rank) => Some((rank % 65536) as u16),
                None => None,
            };
            let mut content = String::from_str("Here is the #");
            let number = decimal_string(position as u64);
            content.append(number.as_str());
            content.append(" ");
            content.append(kind_name.as_str());
            content.append(" play by ");
            content.append(user_mention);
            content.append("!");
            Ok(ListingPlan::Single { index: n as usize, position, top_record, world_record, content })
        },
    }
}


/// Each listing has its own word: "top", "recent" or "pinned".
pub proof fn law_kind_words(kind: ListingKind, other: ListingKind)
    ensures
        kind == ListingKind::Top ==> kind.spec_name() == "top"@,
        kind == ListingKind::Recent ==> kind.spec_name() == "recent"@,
        kind == ListingKind::Pinned ==> kind.spec_name() == "pinned"@,
        kind != other ==> kind.spec_name() != other.spec_name(),
{
    reveal_strlit("top");
    reveal_strlit("recent");
    reveal_strlit("pinned");
    if kind != other {
        assert(kind.spec_name().len() != other.spec_name().len() || kind.spec_name()[0]
            != other.spec_name()[0]);
    }
}

/// The reply for a whole listing names the listing and the player: it holds
/// "the {kind} plays by {mention}!", and replies for different listings or
/// different players differ.
pub proof fn law_all_content_names_listing_and_player(
    kind: ListingKind,
    other: ListingKind,
    mention: Seq<char>,
    other_mention: Seq<char>,
)
    ensures
        contains_text(
            spec_all_content(kind.spec_name(), mention),
            "Here are the "@ + kind.spec_name() + " plays by "@ + mention + "!"@,
        ),
        kind != other ==> spec_all_content(other.spec_name(), mention) != spec_all_content(
            kind.spec_name(),
            mention,
        ),
        other_mention != mention ==> spec_all_content(kind.spec_name(), other_mention)
            != spec_all_content(kind.spec_name(), mention),
{
    lemma_all_contains(kind.spec_name(), mention);
    if kind != other {
        law_kind_words(kind, other);
        lemma_all_kind_determined(kind.spec_name(), other.spec_name(), mention);
    }
    if other_mention != mention {
        lemma_all_mention_determined(kind.spec_name(), mention, other_mention);
    }
}

proof fn lemma_all_contains(k: Seq<char>, mention: Seq<char>)
    ensures
        contains_text(spec_all_content(k, mention), "Here are the "@ + k + " plays by "@ + mention + "!"@),
{
    let p = spec_all_content(k, mention);
    assert(p =~= Seq::<char>::empty() + p + Seq::<char>::empty());
    lemma_contains_middle(Seq::<char>::empty(), p, Seq::<char>::empty());
}

proof fn lemma_all_kind_determined(k: Seq<char>, k2: Seq<char>, mention: Seq<char>)
    requires
        k2 != k,
    ensures
        spec_all_content(k2, mention) != spec_all_content(k, mention),
{
    let a = "Here are the "@;
    let back = " plays by "@ + mention + "!"@;
    assert(spec_all_content(k2, mention) =~= a + k2 + back);
    assert(spec_all_content(k, mention) =~= a + k + back);
    if spec_all_content(k2, mention) == spec_all_content(k, mention) {
        lemma_middle_determined(a, k2, k, back);
    }
}

proof fn lemma_all_mention_determined(k: Seq<char>, mention: Seq<char>, m2: Seq<char>)
    requires
        m2 != mention,
    ensures
        spec_all_content(k, m2) != spec_all_content(k, mention),
{
    let front = "Here are the "@ + k + " plays by "@;
    assert(spec_all_content(k, m2) =~= front + m2 + "!"@);
    assert(spec_all_content(k, mention) =~= front + mention + "!"@);
    if spec_all_content(k, m2) == spec_all_content(k, mention) {
        lemma_middle_determined(front, m2, mention, "!"@);
    }
}

/// The reply for one play names its number, the listing and the player:
/// it holds "#{position} {kind} play by {mention}!", and replies that differ
/// in the number, the listing or the player differ.
pub proof fn law_single_content_names_its_arguments(
    position: nat,
    kind: ListingKind,
    mention: Seq<char>,
    other_position: nat,
    other: ListingKind,
    other_mention: Seq<char>,
)
    ensures
        contains_text(
            spec_single_content(position, kind.spec_name(), mention),
            "#"@ + decimal(position) + " "@ + kind.spec_name() + " play by "@ + mention + "!"@,
        ),
        other_position != position ==> spec_single_content(other_position, kind.spec_name(), mention)
            != spec_single_content(position, kind.spec_name(), mention),
        other != kind ==> spec_single_content(position, other.spec_name(), mention)
            != spec_single_content(position, kind.spec_name(), mention),
        other_mention != mention ==> spec_single_content(position, kind.spec_name(), other_mention)
            != spec_single_content(position, kind.spec_name(), mention),
{
    lemma_single_contains(position, kind.spec_name(), mention);
    if other_position != position {
        lemma_single_position_determined(position, other_position, kind.spec_name(), mention);
    }
    if other != kind {
        law_kind_words(kind, other);
        lemma_single_kind_determined(position, kind.spec_name(), other.spec_name(), mention);
    }
    if other_mention != mention {
        lemma_single_mention_determined(position, kind.spec_name(), mention, other_mention);
    }
}

proof fn lemma_single_contains(position: nat, k: Seq<char>, mention: Seq<char>)
    ensures
        contains_text(
            spec_single_content(position, k, mention),
            "#"@ + decimal(position) + " "@ + k + " play by "@ + mention + "!"@,
        ),
{
    reveal_strlit("Here is the #");
    reveal_strlit("Here is the ");
    reveal_strlit("#");
    assert("Here is the #"@ =~= "Here is the "@ + "#"@);
    let m = "#"@ + decimal(position) + " "@ + k + " play by "@ + mention + "!"@;
    assert(spec_single_content(position, k, mention) =~= "Here is the "@ + m + Seq::<char>::empty());
    lemma_contains_middle("Here is the "@, m, Seq::<char>::empty());
}

proof fn lemma_single_position_determined(position: nat, other_position: nat, k: Seq<char>, mention: Seq<char>)
    requires
        other_position != position,
    ensures
        spec_single_content(other_position, k, mention) != spec_single_content(position, k, mention),
{
    let a = "Here is the #"@;
    let rest = " "@ + k + " play by "@ + mention + "!"@;
    assert(spec_single_content(other_position, k, mention) =~= a + decimal(other_position) + rest);
    assert(spec_single_content(position, k, mention) =~= a + decimal(position) + rest);
    if spec_single_content(other_position, k, mention) == spec_single_content(position, k, mention) {
        lemma_middle_determined(a, decimal(other_position), decimal(position), rest);
        lemma_decimal_injective(other_position, position);
    }
}

proof fn lemma_single_kind_determined(position: nat, k: Seq<char>, k2: Seq<char>, mention: Seq<char>)
    requires
        k2 != k,
    ensures
        spec_single_content(position, k2, mention) != spec_single_content(position, k, mention),
{
    let front = "Here is the #"@ + decimal(position) + " "@;
    let back = " play by "@ + mention + "!"@;
    assert(spec_single_content(position, k2, mention) =~= front + k2 + back);
    assert(spec_single_content(position, k, mention) =~= front + k + back);
    if spec_single_content(position, k2, mention) == spec_single_content(position, k, mention) {
        lemma_middle_determined(front, k2, k, back);
    }
}

proof fn lemma_single_mention_determined(position: nat, k: Seq<char>, mention: Seq<char>, m2: Seq<char>)
    requires
        m2 != mention,
    ensures
        spec_single_content(position, k, m2) != spec_single_content(position, k, mention),
{
    let front = "Here is the #"@ + decimal(position) + " "@ + k + " play by "@;
    assert(spec_single_content(position, k, m2) =~= front + m2 + "!"@);
    assert(spec_single_content(position, k, mention) =~= front + mention + "!"@);
    if spec_single_content(position, k, m2) == spec_single_content(position, k, mention) {
        lemma_middle_determined(front, m2, mention, "!"@);
    }
}

/// For one play, the plan picks the play asked for and numbers it one
/// higher; only the best-plays listing marks it as a top play, with that
/// number; the world record is the play's own global rank, cut to 16 bits.
pub proof fn law_single_plan_relations(
    kind: ListingKind,
    n: u8,
    ranks: Seq<Option<u32>>,
    mention: Seq<char>,
    plan: ListingPlan,
)
    requires
        is_listing_plan(kind, Nth::Nth(n), ranks, mention, plan),
    ensures
        plan matches ListingPlan::Single { index, position, top_record, world_record, .. } && index
            == n && position == index + 1 && (top_record is Some <==> kind == ListingKind::Top) && (
        top_record matches Some(t) ==> t == position) && (world_record is Some <==> ranks[index as int]
            is Some) && (world_record matches Some(w) ==> w as int == ranks[index as int]->0 as int
            % 65536),
{
}

/// For the whole listing, the plan is the whole listing.
pub proof fn law_all_plan_relations(
    kind: ListingKind,
    ranks: Seq<Option<u32>>,
    mention: Seq<char>,
    plan: ListingPlan,
)
    requires
        is_listing_plan(kind, Nth::All, ranks, mention, plan),
    ensures
        plan is All,
{
}

} // verus!
