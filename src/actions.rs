//! Commands as they come from users, and the replies that need no playback.
use vstd::prelude::*;

use crate::text::same_text;

verus! {

/// The text shown by the `help` command.
pub const HELP_MSG: &'static str = "You can type any of the following commands:
```
/list    - Returns a list of available sound files.
/play    - Plays the specified sound from the list.
/youtube - Plays the youtube link specified.
/stop    - Stops the currently playing sound(s).
/summon  - Summon the bot to your current voice channel.
```";

/// What a command asks for.
#[derive(Clone, Debug)]
pub enum Request {
    /// Play the clip of this name.
    PlayClip(String),
    /// Play the remote source at this URL.
    PlayUrl(String),
    /// List the clip collections the user can reach.
    List,
    /// Stop playback in the user's channel.
    Stop,
    /// Bring the bot to the user's channel.
    Summon,
    /// Nothing to do but answer with this text.
    Reply(String),
}

/// Whether `r` is a plain answer reading `text`.
pub open spec fn replies(r: Request, text: Seq<char>) -> bool {
    match r {
        Request::Reply(m) => m@ == text,
        _ => false,
    }
}

/// The request of command `name` with its text `argument`, if it has one.
pub fn parse_command(name: &str, argument: Option<String>) -> (r: Request)
    ensures
        name@ == "play"@ ==> match argument {
            Some(a) => r matches Request::PlayClip(n) && n@ == a@,
            None => replies(r, "Cannot parse file name"@),
        },
        name@ == "youtube"@ ==> match argument {
            Some(a) => r matches Request::PlayUrl(u) && u@ == a@,
            None => replies(r, "Cannot parse YouTube URL"@),
        },
        name@ == "help"@ ==> replies(r, HELP_MSG@),
        name@ == "list"@ ==> r is List,
        name@ == "stop"@ ==> r is Stop,
        name@ == "summon"@ ==> r is Summon,
        name@ != "play"@ && name@ != "youtube"@ && name@ != "help"@ && name@ != "list"@ && name@
            != "stop"@ && name@ != "summon"@ ==> replies(r, "Unrecognized command!"@),
{
    proof {
        reveal_strlit("play");
        reveal_strlit("youtube");
        reveal_strlit("help");
        reveal_strlit("list");
        reveal_strlit("stop");
        reveal_strlit("summon");
        assert("play"@[0] == 'p' && "youtube"@[0] == 'y' && "help"@[0] == 'h');
        assert("list"@[0] == 'l' && "stop"@[0] == 's' && "summon"@[0] == 's');
        assert("stop"@[1] == 't' && "summon"@[1] == 'u');
    }
    if same_text(name, "play") {
        match argument {
            Some(a) => Request::PlayClip(a),
            None => Request::Reply(String::from_str("Cannot parse file name")),
        }
    } else if same_text(name, "youtube") {
        match argument {
            Some(a) => Request::PlayUrl(a),
            None => Request::Reply(String::from_str("Cannot parse YouTube URL")),
        }
    } else if same_text(name, "help") {
        Request::Reply(String::from_str(HELP_MSG))
    } else if same_text(name, "list") {
        Request::List
    } else if same_text(name, "stop") {
        Request::Stop
    } else if same_text(name, "summon") {
        Request::Summon
    } else {
        Request::Reply(String::from_str("Unrecognized command!"))
    }
}

/// The reply to a request whose user is in no voice channel the bot can
/// reach; `None` for requests that need no channel.
pub fn reply_without_target(request: &Request) -> (r: Option<String>)
    ensures
        match request {
            Request::Stop => r matches Some(m) && m@ == "You are not in a guild with the bot!"@,
            Request::PlayClip(_) | Request::PlayUrl(_) | Request::Summon => r matches Some(m) && m@
                == "You are not in a voice channel!"@,
            _ => r is None,
        },
{
    match request {
        Request::Stop => Some(String::from_str("You are not in a guild with the bot!")),
        Request::PlayClip(_) | Request::PlayUrl(_) | Request::Summon => Some(
            String::from_str("You are not in a voice channel!"),
        ),
        _ => None,
    }
}

} // verus!
