use youmubot::beatmap::{
    beatmap_content, beatmapset_content, BeatmapAction, BeatmapCommand, BeatmapEvent, BeatmapRequest, BeatmapStage,
    FoundEmbed,
};
use youmubot::errors::CommandError;

fn request(has_map: bool, mods_given: bool, mode: Option<u8>, beatmapset: Option<bool>) -> BeatmapRequest {
    BeatmapRequest { has_map, mods_given, mode, beatmapset }
}

fn found_map(mode: u8) -> BeatmapEvent {
    BeatmapEvent::Found(Some(FoundEmbed::Beatmap { beatmap_id: 2116202, beatmapset_id: 1008679, mode, mods: Some(8) }))
}

fn found_map_without_mods(mode: u8) -> BeatmapEvent {
    BeatmapEvent::Found(Some(FoundEmbed::Beatmap { beatmap_id: 2116202, beatmapset_id: 1008679, mode, mods: None }))
}

#[test]
fn start_reads_channel_or_links() {
    let (cmd, action) = BeatmapCommand::start(request(false, false, None, None));
    assert_eq!(action, BeatmapAction::LoadFromChannel);
    assert_eq!(cmd.stage, BeatmapStage::AwaitSource);
    let (_, action) = BeatmapCommand::start(request(true, false, None, None));
    assert_eq!(action, BeatmapAction::ParseLinks);
}

#[test]
fn nothing_found_fails_with_where_it_looked() {
    let (cmd, _) = BeatmapCommand::start(request(false, false, None, None));
    let (next, action) = cmd.step(BeatmapEvent::Found(None));
    assert_eq!(action, BeatmapAction::Fail(CommandError::NoBeatmapInChannel));
    assert_eq!(next.stage, BeatmapStage::Finished);
    let (cmd, _) = BeatmapCommand::start(request(true, false, None, None));
    let (_, action) = cmd.step(BeatmapEvent::Found(None));
    assert_eq!(action, BeatmapAction::Fail(CommandError::NoBeatmapInArgument));
}

#[test]
fn found_beatmap_without_overrides_is_shown_as_is() {
    let (cmd, _) = BeatmapCommand::start(request(true, false, None, None));
    let (next, action) = cmd.step(found_map(1));
    assert_eq!(action, BeatmapAction::ShowBeatmap { embed_mode: 1, mods: 8 });
    assert_eq!(next.stage, BeatmapStage::Finished);
}

#[test]
fn channel_beatmap_without_stored_mods_is_shown_without_mods() {
    let (cmd, _) = BeatmapCommand::start(request(false, false, None, None));
    let (_, action) = cmd.step(found_map_without_mods(0));
    assert_eq!(action, BeatmapAction::ShowBeatmap { embed_mode: 0, mods: 0 });
}

#[test]
fn same_mode_override_keeps_the_beatmap() {
    let (cmd, _) = BeatmapCommand::start(request(true, false, Some(2), Some(false)));
    let (_, action) = cmd.step(found_map(2));
    assert_eq!(action, BeatmapAction::ShowBeatmap { embed_mode: 2, mods: 8 });
}

#[test]
fn other_mode_refetches_in_that_mode() {
    let (cmd, _) = BeatmapCommand::start(request(true, false, Some(3), None));
    let (cmd, action) = cmd.step(found_map(0));
    assert_eq!(action, BeatmapAction::Refetch { beatmap_id: 2116202, mode: 3, mods: Some(8) });
    assert_eq!(cmd.stage, BeatmapStage::AwaitRefetch);
    let (cmd, action) = cmd.step(BeatmapEvent::Refetched { mode: 0, mods: 8 });
    assert_eq!(action, BeatmapAction::ShowBeatmap { embed_mode: 3, mods: 8 });
    assert_eq!(cmd.stage, BeatmapStage::Finished);
}

#[test]
fn mods_refetch_in_the_beatmap_mode() {
    let (cmd, _) = BeatmapCommand::start(request(false, true, None, None));
    let (cmd, action) = cmd.step(found_map(1));
    assert_eq!(action, BeatmapAction::Refetch { beatmap_id: 2116202, mode: 1, mods: None });
    let (_, action) = cmd.step(BeatmapEvent::Refetched { mode: 1, mods: 24 });
    assert_eq!(action, BeatmapAction::ShowBeatmap { embed_mode: 1, mods: 24 });
}

#[test]
fn beatmapset_flag_fetches_the_set() {
    let (cmd, _) = BeatmapCommand::start(request(true, true, Some(3), Some(true)));
    let (cmd, action) = cmd.step(found_map(0));
    assert_eq!(action, BeatmapAction::FetchBeatmapset { beatmapset_id: 1008679 });
    assert_eq!(cmd.stage, BeatmapStage::AwaitSet);
    let (cmd, action) = cmd.step(BeatmapEvent::SetFetched { size: 4 });
    assert_eq!(action, BeatmapAction::ShowBeatmapset);
    assert_eq!(cmd.stage, BeatmapStage::Finished);
}

#[test]
fn found_beatmapset_is_shown() {
    let (cmd, _) = BeatmapCommand::start(request(true, false, None, None));
    let (_, action) = cmd.step(BeatmapEvent::Found(Some(FoundEmbed::Beatmapset { size: 2 })));
    assert_eq!(action, BeatmapAction::ShowBeatmapset);
}

#[test]
fn unexpected_event_changes_nothing() {
    let (cmd, _) = BeatmapCommand::start(request(true, false, None, None));
    let (next, action) = cmd.step(BeatmapEvent::Refetched { mode: 0, mods: 0 });
    assert_eq!(action, BeatmapAction::Wait);
    assert_eq!(next, cmd);
}

#[test]
fn beatmap_replies() {
    assert_eq!(beatmap_content("/b/2116202+HD"), "Information for beatmap `/b/2116202+HD`");
    assert_eq!(
        beatmapset_content(1008679, "https://osu.ppy.sh/beatmapsets/1008679"),
        "Information for beatmapset [`/s/1008679`](<https://osu.ppy.sh/beatmapsets/1008679>)"
    );
}
