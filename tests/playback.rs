use soundboard::audio_source::{get_path, open_clip, FileStatus, SourceError};
use soundboard::call_result::{log_error_if_any, CallResult};
use soundboard::connection_data::ConnectionData;
use soundboard::playback::{
    finish_join, join_connection, play_entrance, play_file, play_youtube, summon, EntranceStep,
    JoinPlan, PlayError, UserInfo, REJOIN_CLIP,
};
use soundboard::registry::ConnectionRegistry;

#[test]
fn play_clip_in_guild_42_joins_channel_7() {
    let mut registry = ConnectionRegistry::new();
    let target = ConnectionData { guild: 42, channel: 7 };
    let path = get_path("/clips", "Clip", 42).unwrap();
    assert_eq!(path, "/clips/42/clip.mp3");
    let source = open_clip(path, FileStatus::Present);
    assert!(source.is_ok());
    assert_eq!(join_connection(&mut registry, target), JoinPlan::NeedsTransport);
    let attempt = finish_join(&mut registry, target, Ok(())).map_err(PlayError::Join);
    let outcome = play_file("Clip", &attempt);
    assert!(outcome.underlying_error.is_none());
    assert_eq!(outcome.user_message, "Playing Clip");
    assert_eq!(registry.get(42).unwrap().current_channel, Some(7));
}

#[test]
fn missing_clip_is_a_success_shaped_outcome() {
    let outcome = play_file("nope", &Err(PlayError::Source(SourceError::NotFound)));
    assert!(outcome.underlying_error.is_none());
    assert_eq!(outcome.user_message, "Audio file not found for nope");
}

#[test]
fn traversal_is_a_failure_outcome() {
    let outcome = play_file("../x", &Err(PlayError::Source(SourceError::PermissionDenied)));
    assert_eq!(outcome.user_message, "Failed to load file for ../x");
    assert_eq!(
        outcome.underlying_error.as_deref(),
        Some("Attempt to traverse directory hierarchy")
    );
}

#[test]
fn io_and_join_failures_carry_their_cause() {
    let io = play_file("a", &Err(PlayError::Source(SourceError::Io("disk".to_string()))));
    assert_eq!(io.user_message, "Failed to load file for a");
    assert_eq!(io.underlying_error.as_deref(), Some("disk"));
    let join = play_file("a", &Err(PlayError::Join("refused".to_string())));
    assert_eq!(join.user_message, "Failed to load file for a");
    assert_eq!(join.underlying_error.as_deref(), Some("refused"));
}

#[test]
fn youtube_outcomes() {
    let ok = play_youtube("https://v", &Ok(()));
    assert_eq!(ok.user_message, "Playing https://v");
    assert!(ok.underlying_error.is_none());
    let invalid = play_youtube("ftp://v", &Err(PlayError::Source(SourceError::InvalidUrl)));
    assert_eq!(invalid.user_message, "ftp://v is not a valid URL");
    assert!(invalid.underlying_error.is_none());
    let failed = play_youtube("https://v", &Err(PlayError::Join("gone".to_string())));
    assert_eq!(failed.user_message, "Failed to load youtube content");
    assert_eq!(failed.underlying_error.as_deref(), Some("gone"));
}

#[test]
fn bot_gets_no_entrance() {
    let user = UserInfo { id: 1, name: "helper".to_string(), bot: true };
    match play_entrance(Ok(user)) {
        EntranceStep::Done(r) => {
            assert!(r.underlying_error.is_none());
            assert_eq!(r.user_message, "A bot joined a channel: helper");
        }
        other => panic!("unexpected {other:?}"),
    }
}

#[test]
fn person_gets_their_clip() {
    let user = UserInfo { id: 2, name: "alice".to_string(), bot: false };
    match play_entrance(Ok(user)) {
        EntranceStep::PlayClip(name) => assert_eq!(name, "alice"),
        other => panic!("unexpected {other:?}"),
    }
}

#[test]
fn unknown_user_entrance_fails() {
    match play_entrance(Err("no such user".to_string())) {
        EntranceStep::Done(r) => {
            assert_eq!(r.user_message, "Could not get user name");
            assert_eq!(r.underlying_error.as_deref(), Some("no such user"));
        }
        other => panic!("unexpected {other:?}"),
    }
}

#[test]
fn summon_replies() {
    assert_eq!(summon(&Ok(())), "Bot summoned");
    assert_eq!(summon(&Err("x".to_string())), "Bot failed to join your channel");
    assert_eq!(REJOIN_CLIP, "myman");
}

#[test]
fn call_results() {
    let s = CallResult::success("fine".to_string());
    assert!(s.is_success());
    assert_eq!(s.user_message, "fine");
    let f = CallResult::failure("bad".to_string(), "cause".to_string());
    assert!(!f.is_success());
    assert_eq!(f.underlying_error.as_deref(), Some("cause"));
}

#[test]
fn failures_are_logged_once() {
    let mut errors: Vec<String> = Vec::new();
    let s = log_error_if_any(CallResult::success("fine".to_string()), &mut errors);
    assert_eq!(s.user_message, "fine");
    assert!(errors.is_empty());
    let f = log_error_if_any(CallResult::failure("bad".to_string(), "boom".to_string()), &mut errors);
    assert_eq!(f.user_message, "bad");
    assert_eq!(errors, vec!["Unexpected error occured during call: boom".to_string()]);
}

#[test]
fn summon_without_channel_only_replies() {
    match soundboard::playback::summon_step(None, Ok("/clips/1/myman.mp3".to_string())) {
        soundboard::playback::SummonStep::Reply(text) => assert_eq!(text, "You are not in a voice channel!"),
        other => panic!("unexpected {other:?}"),
    }
}

#[test]
fn summon_with_clip_joins_and_plays() {
    let t = ConnectionData { guild: 1, channel: 2 };
    let path = get_path("/clips", REJOIN_CLIP, 1).unwrap();
    match soundboard::playback::summon_step(Some(t), open_clip(path, FileStatus::Present)) {
        soundboard::playback::SummonStep::JoinAndPlay { target, path } => {
            assert_eq!(target, t);
            assert_eq!(path, "/clips/1/myman.mp3");
        }
        other => panic!("unexpected {other:?}"),
    }
}

#[test]
fn summon_without_clip_joins_silently() {
    let t = ConnectionData { guild: 1, channel: 2 };
    let path = get_path("/clips", REJOIN_CLIP, 1).unwrap();
    match soundboard::playback::summon_step(Some(t), open_clip(path, FileStatus::Missing)) {
        soundboard::playback::SummonStep::JoinOnly { target } => assert_eq!(target, t),
        other => panic!("unexpected {other:?}"),
    }
    match soundboard::playback::summon_step(Some(t), Err(SourceError::Io("disk".to_string()))) {
        soundboard::playback::SummonStep::JoinOnly { target } => assert_eq!(target, t),
        other => panic!("unexpected {other:?}"),
    }
}
