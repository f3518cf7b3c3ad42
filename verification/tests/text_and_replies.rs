use youmubot::decimal::decimal_string;
use youmubot::errors::CommandError;
use youmubot::replies::{forcesave_outcome, profile_content, profile_mode, profile_not_found, save_prompt};

#[test]
fn decimal_string_writes_digits() {
    assert_eq!(decimal_string(0), "0");
    assert_eq!(decimal_string(7), "7");
    assert_eq!(decimal_string(10), "10");
    assert_eq!(decimal_string(255), "255");
    assert_eq!(decimal_string(1234567890), "1234567890");
    assert_eq!(decimal_string(u64::MAX), u64::MAX.to_string());
}

#[test]
fn error_messages() {
    assert_eq!(CommandError::NoSuchPlay.message(), "no such play");
    assert_eq!(CommandError::OsuUserNotFound.message(), "osu! user not found");
    assert_eq!(CommandError::NoBeatmapInChannel.message(), "no beatmap mentioned in this channel");
    assert_eq!(CommandError::NoBeatmapInArgument.message(), "no beatmap detected in the argument");
}

#[test]
fn profile_replies() {
    assert_eq!(
        profile_content("[peppy](https://osu.ppy.sh/users/2)", "osu!taiko"),
        "Here is [peppy](https://osu.ppy.sh/users/2)'s **osu!taiko** profile!"
    );
    assert_eq!(profile_not_found(), "\u{1F50D} user not found!");
}

#[test]
fn profile_mode_prefers_the_override() {
    assert_eq!(profile_mode(Some(3), 0), 3);
    assert_eq!(profile_mode(None, 1), 1);
}

#[test]
fn save_prompt_text() {
    assert_eq!(
        save_prompt("cookiezi", 129891, "osu"),
        "To set your osu username to **cookiezi**, please make your most recent play be the following map: `/b/129891` in **osu** mode! It does **not** have to be a pass, and **NF** can be used! React to this message with \u{1F44C} within 5 minutes when you're done!"
    );
}

#[test]
fn forcesave_missing_user_is_an_error() {
    assert_eq!(forcesave_outcome(false, 42, "nobody"), Err(CommandError::OsuUserNotFound));
}

#[test]
fn forcesave_reply_mentions_and_bolds() {
    assert_eq!(
        forcesave_outcome(true, 123456789012345678, "WhiteCat"),
        Ok("Youmu is now tracking user <@123456789012345678> with osu! account **WhiteCat**".to_string())
    );
}

#[test]
fn forcesave_reply_defuses_mass_mentions_and_invites() {
    assert_eq!(
        forcesave_outcome(true, 7, "x@everyone"),
        Ok("Youmu is now tracking user <@7> with osu! account **x@\u{200B}everyone**".to_string())
    );
    assert_eq!(
        forcesave_outcome(true, 7, "discord.gg"),
        Ok("Youmu is now tracking user <@7> with osu! account **discord\u{2024}gg**".to_string())
    );
    assert_eq!(
        forcesave_outcome(true, 7, "a**b"),
        Ok("Youmu is now tracking user <@7> with osu! account **a b**".to_string())
    );
}
