use soundboard::actions::{parse_command, reply_without_target, Request, HELP_MSG};

fn reply_text(r: Request) -> String {
    match r {
        Request::Reply(m) => m,
        other => panic!("expected a reply, got {other:?}"),
    }
}

#[test]
fn commands_are_parsed() {
    assert!(matches!(parse_command("play", Some("clip".to_string())), Request::PlayClip(n) if n == "clip"));
    assert!(matches!(parse_command("youtube", Some("https://v".to_string())), Request::PlayUrl(u) if u == "https://v"));
    assert!(matches!(parse_command("list", None), Request::List));
    assert!(matches!(parse_command("stop", None), Request::Stop));
    assert!(matches!(parse_command("summon", None), Request::Summon));
    assert_eq!(reply_text(parse_command("help", None)), HELP_MSG);
}

#[test]
fn bad_commands_get_replies() {
    assert_eq!(reply_text(parse_command("play", None)), "Cannot parse file name");
    assert_eq!(reply_text(parse_command("youtube", None)), "Cannot parse YouTube URL");
    assert_eq!(reply_text(parse_command("dance", None)), "Unrecognized command!");
    assert_eq!(reply_text(parse_command("", None)), "Unrecognized command!");
}

#[test]
fn requests_without_channel() {
    assert_eq!(
        reply_without_target(&Request::Stop).as_deref(),
        Some("You are not in a guild with the bot!")
    );
    assert_eq!(
        reply_without_target(&Request::PlayClip("a".to_string())).as_deref(),
        Some("You are not in a voice channel!")
    );
    assert_eq!(
        reply_without_target(&Request::Summon).as_deref(),
        Some("You are not in a voice channel!")
    );
    assert_eq!(reply_without_target(&Request::List), None);
}
