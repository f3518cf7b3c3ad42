//! The `beatmap` command: which beatmap or beatmapset to show, and with
//! which mode, as a machine that the caller drives. The caller performs each
//! action (reading the channel's last beatmap, parsing links, fetching) and
//! hands the result back as an event.

use vstd::prelude::*;
use vstd::string::*;

use crate::decimal::{decimal, decimal_string, lemma_decimal_injective};
use crate::text::{contains_text, lemma_contains_middle, lemma_middle_determined};
use crate::errors::CommandError;

verus! {

/// The arguments of `beatmap`, as far as its decisions read them. Modes are
/// the game's mode numbers.
#[derive(Debug, Clone, Copy, PartialEq, Eq, Structural)]
pub struct BeatmapRequest {
    /// A link or shortlink was given.
    pub has_map: bool,
    /// Mods to apply were given.
    pub mods_given: bool,
    /// The mode to show the beatmap in, when given.
    pub mode: Option<u8>,
    /// Whether to load the beatmapset instead.
    pub beatmapset: Option<bool>,
}

/// What was found for the command: one beatmap, or a beatmapset.
#[derive(Debug, Clone, Copy, PartialEq, Eq, Structural)]
pub enum FoundEmbed {
    /// A beatmap, with the mods it was found with: from a link, those of the
    /// link; from the channel, those stored with it, if any.
    Beatmap { beatmap_id: u64, beatmapset_id: u64, mode: u8, mods: Option<u64> },
    Beatmapset { size: usize },
}

/// The result of the last action.
#[derive(Debug, Clone, Copy, PartialEq, Eq, Structural)]
pub enum BeatmapEvent {
    /// The answer to `LoadFromChannel` or `ParseLinks`.
    Found(Option<FoundEmbed>),
    /// The answer to `FetchBeatmapset`: the number of beatmaps in the set.
    SetFetched { size: usize },
    /// The answer to `Refetch`: the mode of the beatmap fetched again, and
    /// the mods it was fetched under.
    Refetched { mode: u8, mods: u64 },
}

/// What the caller is to do next.
#[derive(Debug, Clone, Copy, PartialEq, Eq, Structural)]
pub enum BeatmapAction {
    /// Load the last beatmap mentioned in the channel, with its pp info.
    LoadFromChannel,
    /// Take the first beatmap or beatmapset found in the given links.
    ParseLinks,
    /// Fetch the beatmapset with this id.
    FetchBeatmapset { beatmapset_id: u64 },
    /// Fetch the beatmap again in `mode`, with its pp info, under `mods`;
    /// with `mods` absent, under the mods given to the command, read for
    /// that mode.
    Refetch { beatmap_id: u64, mode: u8, mods: Option<u64> },
    /// Reply with the beatmap under `mods`, its embed drawn in `embed_mode`.
    ShowBeatmap { embed_mode: u8, mods: u64 },
    /// Reply with the beatmapset.
    ShowBeatmapset,
    /// Answer with this error.
    Fail(CommandError),
    /// The event was not the one awaited: nothing to do.
    Wait,
}

/// Where the command stands.
#[derive(Debug, Clone, Copy, PartialEq, Eq, Structural)]
pub enum BeatmapStage {
    AwaitSource,
    AwaitSet,
    AwaitRefetch,
    Finished,
}

/// The state of one `beatmap` command.
#[derive(Debug, Clone, Copy, PartialEq, Eq, Structural)]
pub struct BeatmapCommand {
    pub request: BeatmapRequest,
    pub stage: BeatmapStage,
    /// The mods of the beatmap found (none until one is found).
    pub found_mods: u64,
}

/// The mods value of no mods.
pub open spec fn no_mods() -> u64 {
    0
}

/// The mods a beatmap was found with, none when it came without any.
pub open spec fn found_or_none(mods: Option<u64>) -> u64 {
    match mods {
        Some(m) => m,
        None => no_mods(),
    }
}

/// The first step: the channel's last beatmap without a link, the link's
/// beatmap with one.
pub open spec fn spec_start(request: BeatmapRequest) -> (BeatmapCommand, BeatmapAction) {
    (
        BeatmapCommand { request, stage: BeatmapStage::AwaitSource, found_mods: no_mods() },
        if request.has_map {
            BeatmapAction::ParseLinks
        } else {
            BeatmapAction::LoadFromChannel
        },
    )
}

/// The mode that an explicit mode argument, if any, puts in place of `mode`.
pub open spec fn mode_or(request: BeatmapRequest, mode: u8) -> u8 {
    match request.mode {
        Some(m) => m,
        None => mode,
    }
}

/// The beatmap can be shown as found: no mods were given, and the mode
/// given, if any, is the beatmap's own.
pub open spec fn keeps_found_beatmap(request: BeatmapRequest, mode: u8) -> bool {
    !request.mods_given && match request.mode {
        Some(m) => m == mode,
        None => true,
    }
}

/// Finished with the beatmapset reply.
pub open spec fn show_set(cmd: BeatmapCommand) -> (BeatmapCommand, BeatmapAction) {
    (BeatmapCommand { stage: BeatmapStage::Finished, ..cmd }, BeatmapAction::ShowBeatmapset)
}

/// A single beatmap was found: fetch its set when the set was asked for;
/// show it as it is when nothing overrides it; else fetch it again in the
/// mode asked for (or its own).
pub open spec fn after_beatmap(
    cmd: BeatmapCommand,
    beatmap_id: u64,
    beatmapset_id: u64,
    mode: u8,
    mods: Option<u64>,
) -> (BeatmapCommand, BeatmapAction) {
    if cmd.request.beatmapset == Some(true) {
        (
            BeatmapCommand { stage: BeatmapStage::AwaitSet, ..cmd },
            BeatmapAction::FetchBeatmapset { beatmapset_id },
        )
    } else if keeps_found_beatmap(cmd.request, mode) {
        (
            BeatmapCommand { stage: BeatmapStage::Finished, ..cmd },
            BeatmapAction::ShowBeatmap { embed_mode: mode, mods: found_or_none(mods) },
        )
    } else {
        (
            BeatmapCommand {
                stage: BeatmapStage::AwaitRefetch,
                found_mods: found_or_none(mods),
                ..cmd
            },
            BeatmapAction::Refetch {
                beatmap_id,
                mode: mode_or(cmd.request, mode),
                mods: if cmd.request.mods_given {
                    None
                } else {
                    Some(found_or_none(mods))
                },
            },
        )
    }
}

/// The event is the one the stage awaits.
pub open spec fn expects(cmd: BeatmapCommand, event: BeatmapEvent) -> bool {
    match (cmd.stage, event) {
        (BeatmapStage::AwaitSource, BeatmapEvent::Found(_)) => true,
        (BeatmapStage::AwaitSet, BeatmapEvent::SetFetched { .. }) => true,
        (BeatmapStage::AwaitRefetch, BeatmapEvent::Refetched { .. }) => true,
        _ => false,
    }
}

/// The command would show an empty beatmapset, whose first beatmap it
/// reads: it panics there.
pub open spec fn event_panics(cmd: BeatmapCommand, event: BeatmapEvent) -> bool {
    match (cmd.stage, event) {
        (BeatmapStage::AwaitSource, BeatmapEvent::Found(Some(FoundEmbed::Beatmapset { size }))) => size == 0,
        (BeatmapStage::AwaitSet, BeatmapEvent::SetFetched { size }) => size == 0,
        _ => false,
    }
}

/// One step of the command on the result of its last action.
pub open spec fn spec_next(cmd: BeatmapCommand, event: BeatmapEvent) -> (BeatmapCommand, BeatmapAction) {
    match (cmd.stage, event) {
        (BeatmapStage::AwaitSource, BeatmapEvent::Found(None)) => (
            BeatmapCommand { stage: BeatmapStage::Finished, ..cmd },
            BeatmapAction::Fail(
                if cmd.request.has_map {
                    CommandError::NoBeatmapInArgument
                } else {
                    CommandError::NoBeatmapInChannel
                },
            ),
        ),
        (BeatmapStage::AwaitSource, BeatmapEvent::Found(Some(FoundEmbed::Beatmapset { .. }))) => show_set(cmd),
        (
            BeatmapStage::AwaitSource,
            BeatmapEvent::Found(Some(FoundEmbed::Beatmap { beatmap_id, beatmapset_id, mode, mods })),
        ) => after_beatmap(cmd, beatmap_id, beatmapset_id, mode, mods),
        (BeatmapStage::AwaitSet, BeatmapEvent::SetFetched { .. }) => show_set(cmd),
        (BeatmapStage::AwaitRefetch, BeatmapEvent::Refetched { mode, mods }) => (
            BeatmapCommand { stage: BeatmapStage::Finished, ..cmd },
            BeatmapAction::ShowBeatmap {
                embed_mode: mode_or(cmd.request, mode),
                mods: if cmd.request.mods_given {
                    mods
                } else {
                    cmd.found_mods
                },
            },
        ),
        _ => (cmd, BeatmapAction::Wait),
    }
}

/// The stage only waits for a refetch when no beatmapset was asked for, and
/// only for a beatmapset when one was.
pub open spec fn well_formed(cmd: BeatmapCommand) -> bool {
    &&& cmd.stage == BeatmapStage::AwaitRefetch ==> cmd.request.beatmapset != Some(true)
    &&& cmd.stage == BeatmapStage::AwaitSet ==> cmd.request.beatmapset == Some(true)
}

/// How many outside answers the command may still wait for.
pub open spec fn stage_rank(stage: BeatmapStage) -> nat {
    match stage {
        BeatmapStage::AwaitSource => 2,
        BeatmapStage::AwaitSet => 1,
        BeatmapStage::AwaitRefetch => 1,
        BeatmapStage::Finished => 0,
    }
}

/// Every command starts well formed, and every step keeps it so.
pub proof fn lemma_well_formed_kept(request: BeatmapRequest, cmd: BeatmapCommand, event: BeatmapEvent)
    ensures
        well_formed(spec_start(request).0),
        well_formed(cmd) ==> well_formed(spec_next(cmd, event).0),
{
}

/// When the beatmapset is asked for, the reply is never a single beatmap.
pub proof fn law_beatmapset_flag_never_shows_single(cmd: BeatmapCommand, event: BeatmapEvent)
    requires
        well_formed(cmd),
        cmd.request.beatmapset == Some(true),
    ensures
        !(spec_next(cmd, event).1 is ShowBeatmap),
        !(spec_next(cmd, event).1 is Refetch),
{
}

/// A mode given as argument is the mode of every refetch and of every
/// single-beatmap embed.
pub proof fn law_mode_override_is_used(cmd: BeatmapCommand, event: BeatmapEvent)
    requires
        cmd.request.mode is Some,
    ensures
        spec_next(cmd, event).1 matches BeatmapAction::ShowBeatmap { embed_mode, .. } ==> embed_mode
            == cmd.request.mode->0,
        spec_next(cmd, event).1 matches BeatmapAction::Refetch { mode, .. } ==> mode
            == cmd.request.mode->0,
{
}

/// Without mods or mode given, the beatmap found is shown as it is, in its
/// own mode and with the mods it was found with (none if it had none),
/// without fetching it again.
pub proof fn law_no_override_no_refetch(
    cmd: BeatmapCommand,
    beatmap_id: u64,
    beatmapset_id: u64,
    mode: u8,
    mods: Option<u64>,
)
    requires
        cmd.stage == BeatmapStage::AwaitSource,
        !cmd.request.mods_given,
        cmd.request.mode is None,
        cmd.request.beatmapset != Some(true),
    ensures
        spec_next(
            cmd,
            BeatmapEvent::Found(Some(FoundEmbed::Beatmap { beatmap_id, beatmapset_id, mode, mods })),
        ).1 == (BeatmapAction::ShowBeatmap { embed_mode: mode, mods: found_or_none(mods) }),
{
}

/// The mods a single beatmap is shown with: the mods given to the command,
/// read for the mode shown, when there are any; else the mods the beatmap
/// was found with, none if it had none. Given mods are always read anew.
pub proof fn law_mods_shown(
    request: BeatmapRequest,
    beatmap_id: u64,
    beatmapset_id: u64,
    mode: u8,
    mods: Option<u64>,
    refetched_mode: u8,
    refetched_mods: u64,
)
    requires
        request.beatmapset != Some(true),
    ensures
        ({
            let c0 = spec_start(request).0;
            let found = BeatmapEvent::Found(
                Some(FoundEmbed::Beatmap { beatmap_id, beatmapset_id, mode, mods }),
            );
            let (c1, a1) = spec_next(c0, found);
            &&& request.mods_given ==> a1 == (BeatmapAction::Refetch {
                beatmap_id,
                mode: mode_or(request, mode),
                mods: None,
            })
            &&& a1 is Refetch ==> spec_next(
                c1,
                BeatmapEvent::Refetched { mode: refetched_mode, mods: refetched_mods },
            ).1 == (BeatmapAction::ShowBeatmap {
                embed_mode: mode_or(request, refetched_mode),
                mods: if request.mods_given {
                    refetched_mods
                } else {
                    found_or_none(mods)
                },
            })
            &&& a1 matches BeatmapAction::Refetch { mods: Some(m), .. } ==> m == found_or_none(mods)
            &&& a1 matches BeatmapAction::ShowBeatmap { mods: m, .. } ==> m == found_or_none(mods)
        }),
{
}

/// Each awaited answer moves the command closer to its end, and from the
/// start it ends after at most two more answers; an answer that was not
/// awaited changes nothing.
pub proof fn law_progress(cmd: BeatmapCommand, event: BeatmapEvent)
    ensures
        stage_rank(spec_start(cmd.request).0.stage) == 2,
        expects(cmd, event) ==> stage_rank(spec_next(cmd, event).0.stage) < stage_rank(cmd.stage),
        !expects(cmd, event) ==> spec_next(cmd, event) == (cmd, BeatmapAction::Wait),
        spec_next(cmd, event).0.request == cmd.request,
{
}

/// The command fails only when nothing was found, and says where it looked.
pub proof fn law_failure_only_when_nothing_found(cmd: BeatmapCommand, event: BeatmapEvent)
    ensures
        spec_next(cmd, event).1 is Fail <==> (cmd.stage == BeatmapStage::AwaitSource && event
            == BeatmapEvent::Found(None)),
        spec_next(cmd, event).1 is Fail ==> spec_next(cmd, event).1 == BeatmapAction::Fail(
            if cmd.request.has_map {
                CommandError::NoBeatmapInArgument
            } else {
                CommandError::NoBeatmapInChannel
            },
        ),
{
}


/// The first action looks only at whether a link was given: the link's
/// beatmap with one, the channel's last beatmap without, whatever mode, mods
/// or beatmapset argument came with it.
pub proof fn law_first_action_follows_link(request: BeatmapRequest, other: BeatmapRequest)
    ensures
        request.has_map ==> spec_start(request).1 == BeatmapAction::ParseLinks,
        !request.has_map ==> spec_start(request).1 == BeatmapAction::LoadFromChannel,
        other.has_map == request.has_map ==> spec_start(other).1 == spec_start(request).1,
        spec_start(request).0.stage == BeatmapStage::AwaitSource,
        spec_start(request).0.request == request,
{
}

/// Whatever is fetched is fetched for the beatmap that was found: a refetch
/// names the found beatmap's own id, and a beatmapset fetch names the found
/// beatmap's set, whether it came from a link or from the channel.
pub proof fn law_fetches_name_the_found_beatmap(cmd: BeatmapCommand, event: BeatmapEvent)
    ensures
        spec_next(cmd, event).1 matches BeatmapAction::Refetch { beatmap_id: b, .. } ==> event
            matches BeatmapEvent::Found(Some(FoundEmbed::Beatmap { beatmap_id, .. })) && b == beatmap_id,
        spec_next(cmd, event).1 matches BeatmapAction::FetchBeatmapset { beatmapset_id: s } ==> event
            matches BeatmapEvent::Found(Some(FoundEmbed::Beatmap { beatmapset_id, .. })) && s
            == beatmapset_id,
{
}

/// With the beatmapset asked for, a found beatmap leads to fetching its own
/// set; without it, never to a set fetch.
pub proof fn law_beatmapset_fetch_of_found_beatmap(
    cmd: BeatmapCommand,
    beatmap_id: u64,
    beatmapset_id: u64,
    mode: u8,
    mods: Option<u64>,
    event: BeatmapEvent,
)
    requires
        cmd.stage == BeatmapStage::AwaitSource,
    ensures
        cmd.request.beatmapset == Some(true) ==> spec_next(
            cmd,
            BeatmapEvent::Found(Some(FoundEmbed::Beatmap { beatmap_id, beatmapset_id, mode, mods })),
        ).1 == (BeatmapAction::FetchBeatmapset { beatmapset_id }),
        cmd.request.beatmapset != Some(true) ==> !(spec_next(cmd, event).1 is FetchBeatmapset),
{
}

impl BeatmapCommand {
    /// Starts the command on its arguments.
    pub fn start(request: BeatmapRequest) -> (r: (BeatmapCommand, BeatmapAction))
        ensures
            r == spec_start(request),
            r.1 == (if request.has_map {
                BeatmapAction::ParseLinks
            } else {
                BeatmapAction::LoadFromChannel
            }),
    {
        let action = if request.has_map {
            BeatmapAction::ParseLinks
        } else {
            BeatmapAction::LoadFromChannel
        };
        (BeatmapCommand { request, stage: BeatmapStage::AwaitSource, found_mods: 0 }, action)
    }

    /// Takes the result of the last action and says what comes next.
    pub fn step(&self, event: BeatmapEvent) -> (r: (BeatmapCommand, BeatmapAction))
        requires
            !event_panics(*self, event),
        ensures
            r == spec_next(*self, event),
    {
        let cmd = *self;
        match (self.stage, event) {
            (BeatmapStage::AwaitSource, BeatmapEvent::Found(None)) => {
                let err = if self.request.has_map {
                    CommandError::NoBeatmapInArgument
                } else {
                    CommandError::NoBeatmapInChannel
                };
                (BeatmapCommand { stage: BeatmapStage::Finished, ..cmd }, BeatmapAction::Fail(err))
            },
            (BeatmapStage::AwaitSource, BeatmapEvent::Found(Some(FoundEmbed::Beatmapset { .. }))) => {
                (BeatmapCommand { stage: BeatmapStage::Finished, ..cmd }, BeatmapAction::ShowBeatmapset)
            },
            (
                BeatmapStage::AwaitSource,
                BeatmapEvent::Found(Some(FoundEmbed::Beatmap { beatmap_id, beatmapset_id, mode, mods })),
            ) => {
                let found_mods = match mods {
                    Some(m) => m,
                    None => 0,
                };
                if self.request.beatmapset == Some(true) {
                    (
                        BeatmapCommand { stage: BeatmapStage::AwaitSet, ..cmd },
                        BeatmapAction::FetchBeatmapset { beatmapset_id },
                    )
                } else {
                    let keep = !self.request.mods_given && match self.request.mode {
                        Some(m) => m == mode,
                        None => true,
                    };
                    if keep {
                        (
                            BeatmapCommand { stage: BeatmapStage::Finished, ..cmd },
                            BeatmapAction::ShowBeatmap { embed_mode: mode, mods: found_mods },
                        )
                    } else {
                        let target = match self.request.mode {
                            Some(m) => m,
                            None => mode,
                        };
                        let refetch_mods = if self.request.mods_given {
                            None
                        } else {
                            Some(found_mods)
                        };
                        (
                            BeatmapCommand { stage: BeatmapStage::AwaitRefetch, found_mods, ..cmd },
                            BeatmapAction::Refetch { beatmap_id, mode: target, mods: refetch_mods },
                        )
                    }
                }
            },
            (BeatmapStage::AwaitSet, BeatmapEvent::SetFetched { .. }) => {
                (BeatmapCommand { stage: BeatmapStage::Finished, ..cmd }, BeatmapAction::ShowBeatmapset)
            },
            (BeatmapStage::AwaitRefetch, BeatmapEvent::Refetched { mode, mods }) => {
                let shown = match self.request.mode {
                    Some(m) => m,
                    None => mode,
                };
                let shown_mods = if self.request.mods_given {
                    mods
                } else {
                    self.found_mods
                };
                (
                    BeatmapCommand { stage: BeatmapStage::Finished, ..cmd },
                    BeatmapAction::ShowBeatmap { embed_mode: shown, mods: shown_mods },
                )
            },
            _ => (cmd, BeatmapAction::Wait),
        }
    }
}

/// "Information for beatmap `{short_link}`"
pub open spec fn spec_beatmap_content(short_link: Seq<char>) -> Seq<char> {
    "Information for beatmap `"@ + short_link + "`"@
}

/// The reply that goes with a single beatmap.
pub fn beatmap_content(short_link: &str) -> (s: String)
    ensures
        s@ == spec_beatmap_content(short_link@),
{
    let mut s = String::from_str("Information for beatmap `");
    s.append(short_link);
    s.append("`");
    s
}

/// "Information for beatmapset [`/s/{id}`](<{link}>)"
pub open spec fn spec_beatmapset_content(beatmapset_id: nat, link: Seq<char>) -> Seq<char> {
    "Information for beatmapset [`/s/"@ + decimal(beatmapset_id) + "`](<"@ + link + ">)"@
}

/// The reply that goes with a beatmapset, naming it by the set id and the
/// link of its first beatmap.
pub fn beatmapset_content(beatmapset_id: u64, link: &str) -> (s: String)
    ensures
        s@ == spec_beatmapset_content(beatmapset_id as nat, link@),
{
    let mut s = String::from_str("Information for beatmapset [`/s/");
    let id = decimal_string(beatmapset_id);
    s.append(id.as_str());
    s.append("`](<");
    s.append(link);
    s.append(">)");
    s
}


/// The beatmap reply quotes the link it is given; replies for different
/// links differ.
pub proof fn law_beatmap_content_quotes_link(link: Seq<char>, other: Seq<char>)
    ensures
        contains_text(spec_beatmap_content(link), "`"@ + link + "`"@),
        other != link ==> spec_beatmap_content(other) != spec_beatmap_content(link),
{
    reveal_strlit("Information for beatmap `");
    reveal_strlit("Information for beatmap ");
    reveal_strlit("`");
    let a = "Information for beatmap `"@;
    assert(a =~= "Information for beatmap "@ + "`"@);
    assert(spec_beatmap_content(link) =~= "Information for beatmap "@ + ("`"@ + link + "`"@)
        + Seq::<char>::empty());
    lemma_contains_middle("Information for beatmap "@, "`"@ + link + "`"@, Seq::<char>::empty());
    if other != link && spec_beatmap_content(other) == spec_beatmap_content(link) {
        lemma_middle_determined(a, other, link, "`"@);
    }
}

/// The beatmapset reply names the set by "/s/{id}" and links it; replies
/// for different sets or links differ.
pub proof fn law_beatmapset_content_names_set(beatmapset_id: nat, link: Seq<char>, other_id: nat, other_link: Seq<char>)
    ensures
        contains_text(spec_beatmapset_content(beatmapset_id, link), "/s/"@ + decimal(beatmapset_id) + "`"@),
        contains_text(spec_beatmapset_content(beatmapset_id, link), "(<"@ + link + ">)"@),
        other_id != beatmapset_id ==> spec_beatmapset_content(other_id, link) != spec_beatmapset_content(
            beatmapset_id,
            link,
        ),
        other_link != link ==> spec_beatmapset_content(beatmapset_id, other_link)
            != spec_beatmapset_content(beatmapset_id, link),
{
    lemma_beatmapset_contains(beatmapset_id, link);
    if other_id != beatmapset_id {
        let a = "Information for beatmapset [`/s/"@;
        let back = "`](<"@ + link + ">)"@;
        assert(spec_beatmapset_content(other_id, link) =~= a + decimal(other_id) + back);
        assert(spec_beatmapset_content(beatmapset_id, link) =~= a + decimal(beatmapset_id) + back);
        if spec_beatmapset_content(other_id, link) == spec_beatmapset_content(beatmapset_id, link) {
            lemma_middle_determined(a, decimal(other_id), decimal(beatmapset_id), back);
            lemma_decimal_injective(other_id, beatmapset_id);
        }
    }
    if other_link != link {
        let front = "Information for beatmapset [`/s/"@ + decimal(beatmapset_id) + "`](<"@;
        assert(spec_beatmapset_content(beatmapset_id, other_link) =~= front + other_link + ">)"@);
        assert(spec_beatmapset_content(beatmapset_id, link) =~= front + link + ">)"@);
        if spec_beatmapset_content(beatmapset_id, other_link) == spec_beatmapset_content(beatmapset_id, link) {
            lemma_middle_determined(front, other_link, link, ">)"@);
        }
    }
}

proof fn lemma_beatmapset_contains(beatmapset_id: nat, link: Seq<char>)
    ensures
        contains_text(spec_beatmapset_content(beatmapset_id, link), "/s/"@ + decimal(beatmapset_id) + "`"@),
        contains_text(spec_beatmapset_content(beatmapset_id, link), "(<"@ + link + ">)"@),
{
    reveal_strlit("Information for beatmapset [`/s/");
    reveal_strlit("Information for beatmapset [`");
    reveal_strlit("/s/");
    reveal_strlit("`](<");
    reveal_strlit("`](");
    reveal_strlit("<");
    reveal_strlit("(<");
    reveal_strlit("`");
    reveal_strlit("](<");
    let d = decimal(beatmapset_id);
    let p = spec_beatmapset_content(beatmapset_id, link);
    assert("Information for beatmapset [`/s/"@ =~= "Information for beatmapset [`"@ + "/s/"@);
    assert("`](<"@ =~= "`"@ + "](<"@);
    assert(p =~= "Information for beatmapset [`"@ + ("/s/"@ + d + "`"@) + ("](<"@ + link + ">)"@));
    lemma_contains_middle("Information for beatmapset [`"@, "/s/"@ + d + "`"@, "](<"@ + link + ">)"@);
    assert("`](<"@ =~= "`]"@ + "(<"@) by {
        reveal_strlit("`]");
    }
    assert(p =~= ("Information for beatmapset [`/s/"@ + d + "`]"@) + ("(<"@ + link + ">)"@)
        + Seq::<char>::empty());
    lemma_contains_middle(
        "Information for beatmapset [`/s/"@ + d + "`]"@,
        "(<"@ + link + ">)"@,
        Seq::<char>::empty(),
    );
}

/// A beatmapset is shown exactly when one was found or fetched.
pub proof fn law_beatmapset_shown_only_when_found(cmd: BeatmapCommand, event: BeatmapEvent)
    ensures
        spec_next(cmd, event).1 == BeatmapAction::ShowBeatmapset <==> (cmd.stage
            == BeatmapStage::AwaitSource && event matches BeatmapEvent::Found(
            Some(FoundEmbed::Beatmapset { .. }),
        )) || (cmd.stage == BeatmapStage::AwaitSet && event is SetFetched),
{
}

/// A beatmap found in the mode asked for, with no mods given and no set
/// asked for, is shown at once in that mode, with the mods it was found with.
pub proof fn law_same_mode_keeps_found_beatmap(
    cmd: BeatmapCommand,
    beatmap_id: u64,
    beatmapset_id: u64,
    mode: u8,
    mods: Option<u64>,
)
    requires
        cmd.stage == BeatmapStage::AwaitSource,
        !cmd.request.mods_given,
        cmd.request.mode == Some(mode),
        cmd.request.beatmapset != Some(true),
    ensures
        spec_next(
            cmd,
            BeatmapEvent::Found(Some(FoundEmbed::Beatmap { beatmap_id, beatmapset_id, mode, mods })),
        ) == (
            BeatmapCommand { stage: BeatmapStage::Finished, ..cmd },
            BeatmapAction::ShowBeatmap { embed_mode: mode, mods: found_or_none(mods) },
        ),
        found_or_none(mods) == (match mods {
            Some(m) => m,
            None => 0u64,
        }),
{
}

/// A beatmap found in another mode than the one asked for, or with mods
/// given, is fetched again in the mode asked for (else its own).
pub proof fn law_override_refetches(
    cmd: BeatmapCommand,
    beatmap_id: u64,
    beatmapset_id: u64,
    mode: u8,
    mods: Option<u64>,
)
    requires
        cmd.stage == BeatmapStage::AwaitSource,
        cmd.request.beatmapset != Some(true),
        cmd.request.mods_given || (cmd.request.mode is Some && cmd.request.mode != Some(mode)),
    ensures
        spec_next(
            cmd,
            BeatmapEvent::Found(Some(FoundEmbed::Beatmap { beatmap_id, beatmapset_id, mode, mods })),
        ).1 matches BeatmapAction::Refetch { beatmap_id: b, mode: m, .. } && b == beatmap_id && m
            == (match cmd.request.mode {
            Some(o) => o,
            None => mode,
        }),
{
}

} // verus!
