//! Joining, stopping and playing against the connection registry, and the
//! outcome reported for each request.
//!
//! Talking to the voice transport is the caller's part: `join_connection`
//! says whether the transport must be asked to join, `finish_join` records
//! its answer. Both run inside the exclusive section of the target's guild.
use vstd::prelude::*;

use crate::audio_source::SourceError;
use crate::call_result::CallResult;
use crate::connection_data::ConnectionData;
use crate::registry::ConnectionRegistry;
use crate::text::joined;

verus! {

/// Whether the guild of `target` has a handle, and it is in the target's channel.
pub open spec fn in_channel(m: Map<u64, Option<u64>>, target: ConnectionData) -> bool {
    m.contains_key(target.guild) && m[target.guild] == Some(target.channel)
}

/// `m` with a handle (in no channel) for `guild` when it had none.
pub open spec fn with_handle(m: Map<u64, Option<u64>>, guild: u64) -> Map<u64, Option<u64>> {
    if m.contains_key(guild) {
        m
    } else {
        m.insert(guild, None)
    }
}

/// `m` once the transport has joined `target`.
pub open spec fn joined_to(m: Map<u64, Option<u64>>, target: ConnectionData) -> Map<u64, Option<u64>> {
    m.insert(target.guild, Some(target.channel))
}

/// What a join needs from the voice transport.
#[derive(Clone, Copy, PartialEq, Eq, Structural, Debug)]
pub enum JoinPlan {
    /// The handle is already in the target channel: nothing to do.
    AlreadyJoined,
    /// The transport must join (or move to) the target channel.
    NeedsTransport,
}

/// What a join to `target` needs, given the registry's model `m`.
pub open spec fn join_plan(m: Map<u64, Option<u64>>, target: ConnectionData) -> JoinPlan {
    if in_channel(m, target) {
        JoinPlan::AlreadyJoined
    } else {
        JoinPlan::NeedsTransport
    }
}

/// Opens a join to `connect_to`: the guild gets a handle if it had none,
/// and the plan says whether the transport must be asked to join.
pub fn join_connection(registry: &mut ConnectionRegistry, connect_to: ConnectionData) -> (plan:
    JoinPlan)
    requires
        old(registry).wf(),
    ensures
        final(registry).wf(),
        final(registry)@ == with_handle(old(registry)@, connect_to.guild),
        plan == join_plan(old(registry)@, connect_to),
{
    let handle = registry.get_or_insert(connect_to.guild);
    if handle.current_channel == Some(connect_to.channel) {
        JoinPlan::AlreadyJoined
    } else {
        JoinPlan::NeedsTransport
    }
}

/// Records the transport's answer to a join of `connect_to` and hands it
/// back: on success the guild's handle is in the target channel; on failure
/// the registry is unchanged.
pub fn finish_join(
    registry: &mut ConnectionRegistry,
    connect_to: ConnectionData,
    answer: Result<(), String>,
) -> (r: Result<(), String>)
    requires
        old(registry).wf(),
    ensures
        final(registry).wf(),
        r == answer,
        match answer {
            Ok(()) => final(registry)@ == joined_to(old(registry)@, connect_to),
            Err(_) => final(registry)@ == old(registry)@,
        },
{
    if answer.is_ok() {
        let _ = registry.get_or_insert(connect_to.guild);
        registry.set_channel(connect_to.guild, Some(connect_to.channel));
        proof {
            assert(with_handle(old(registry)@, connect_to.guild).insert(
                connect_to.guild,
                Some(connect_to.channel),
            ) =~= joined_to(old(registry)@, connect_to));
        }
    }
    answer
}

/// Joining the same target twice in a row asks the transport to join
/// exactly once when the guild was not already in that channel (and never
/// when it was), provided the first join went through: the second finds
/// the handle already in place and changes nothing.
pub proof fn lemma_join_twice_joins_once(m: Map<u64, Option<u64>>, target: ConnectionData)
    ensures
        ({
            let first = join_plan(m, target);
            let after_first = if first is NeedsTransport {
                joined_to(with_handle(m, target.guild), target)
            } else {
                with_handle(m, target.guild)
            };
            &&& first is NeedsTransport <==> !in_channel(m, target)
            &&& join_plan(after_first, target) is AlreadyJoined
            &&& with_handle(after_first, target.guild) == after_first
        }),
{
}

/// Stops playback in `connect_to`'s channel: allowed only when the guild's
/// handle is in that very channel. The registry is only read.
pub fn stop(registry: &ConnectionRegistry, connect_to: ConnectionData) -> (r: CallResult)
    requires
        registry.wf(),
    ensures
        r.underlying_error is None <==> in_channel(registry@, connect_to),
        in_channel(registry@, connect_to) ==> r.user_message@ == "Playback stopped"@,
        !in_channel(registry@, connect_to) ==> r.user_message@
            == "Bot is not currently in your channel"@ && r.fails_with("Bot in a different channel than requestor"@),
{
    if let Some(handle) = registry.get(connect_to.guild) {
        if handle.current_channel == Some(connect_to.channel) {
            return CallResult::success(String::from_str("Playback stopped"));
        }
    }
    CallResult::failure(
        String::from_str("Bot is not currently in your channel"),
        String::from_str("Bot in a different channel than requestor"),
    )
}

/// Why a playback request failed.
#[derive(Debug)]
pub enum PlayError {
    /// No source could be had.
    Source(SourceError),
    /// The transport could not join the target channel, for the reason given.
    Join(String),
}

/// The text that describes a source failure as a cause.
pub open spec fn source_cause(e: SourceError) -> Seq<char> {
    match e {
        SourceError::PermissionDenied => "Attempt to traverse directory hierarchy"@,
        SourceError::NotFound => "No such file"@,
        SourceError::InvalidUrl => "Not a valid URL"@,
        SourceError::Io(m) => m@,
    }
}

/// The text that describes a playback failure as a cause.
pub open spec fn play_cause(e: PlayError) -> Seq<char> {
    match e {
        PlayError::Source(s) => source_cause(s),
        PlayError::Join(m) => m@,
    }
}

impl SourceError {
    /// This failure described as a cause.
    pub fn describe(&self) -> (r: String)
        ensures
            r@ == source_cause(*self),
    {
        match self {
            SourceError::PermissionDenied => String::from_str(
                "Attempt to traverse directory hierarchy",
            ),
            SourceError::NotFound => String::from_str("No such file"),
            SourceError::InvalidUrl => String::from_str("Not a valid URL"),
            SourceError::Io(m) => m.clone(),
        }
    }
}

impl PlayError {
    /// This failure described as a cause.
    pub fn describe(&self) -> (r: String)
        ensures
            r@ == play_cause(*self),
    {
        match self {
            PlayError::Source(s) => s.describe(),
            PlayError::Join(m) => m.clone(),
        }
    }
}

/// The outcome of a request to play clip `name`, given how the attempt
/// went: a missing clip is a normal, success-shaped answer; every other
/// failure carries its cause.
pub fn play_file(name: &str, attempt: &Result<(), PlayError>) -> (r: CallResult)
    ensures
        match attempt {
            Ok(()) => r.underlying_error is None && r.user_message@ == "Playing "@ + name@,
            Err(PlayError::Source(SourceError::NotFound)) => r.underlying_error is None
                && r.user_message@ == "Audio file not found for "@ + name@,
            Err(e) => r.user_message@ == "Failed to load file for "@ + name@
                && r.fails_with(play_cause(*e)),
        },
{
    match attempt {
        Ok(()) => CallResult::success(joined("Playing ", name)),
        Err(PlayError::Source(SourceError::NotFound)) => CallResult::success(
            joined("Audio file not found for ", name),
        ),
        Err(e) => CallResult::failure(joined("Failed to load file for ", name), e.describe()),
    }
}

/// The outcome of a request to play the remote source `url`, given how the
/// attempt went: a refused URL is reported to the requester as such.
pub fn play_youtube(url: &str, attempt: &Result<(), PlayError>) -> (r: CallResult)
    ensures
        match attempt {
            Ok(()) => r.underlying_error is None && r.user_message@ == "Playing "@ + url@,
            Err(PlayError::Source(SourceError::InvalidUrl)) => r.underlying_error is None
                && r.user_message@ == url@ + " is not a valid URL"@,
            Err(e) => r.user_message@ == "Failed to load youtube content"@
                && r.fails_with(play_cause(*e)),
        },
{
    match attempt {
        Ok(()) => CallResult::success(joined("Playing ", url)),
        Err(PlayError::Source(SourceError::InvalidUrl)) => CallResult::success(
            joined(url, " is not a valid URL"),
        ),
        Err(e) => CallResult::failure(String::from_str("Failed to load youtube content"), e.describe()),
    }
}

/// The clip played when the bot moves to a channel of its own accord or is
/// summoned; without such a clip it joins silently.
pub const REJOIN_CLIP: &'static str = "myman";

/// The user behind a membership change, as far as an entrance needs it.
#[derive(Clone, Debug)]
pub struct UserInfo {
    pub id: u64,
    pub name: String,
    pub bot: bool,
}

/// What an entrance comes to once the arriving user is known.
#[derive(Debug)]
pub enum EntranceStep {
    /// Nothing to play; this is the outcome.
    Done(CallResult),
    /// Play the clip of this name, as `play_file` does.
    PlayClip(String),
}

/// The entrance of a user, given the lookup of that user: a bot gets
/// none, anyone else gets the clip named after them.
pub fn play_entrance(user: Result<UserInfo, String>) -> (r: EntranceStep)
    ensures
        match user {
            Err(e) => r matches EntranceStep::Done(c) && c.user_message@
                == "Could not get user name"@ && c.fails_with(e@),
            Ok(u) => if u.bot {
                r matches EntranceStep::Done(c) && c.underlying_error is None && c.user_message@
                    == "A bot joined a channel: "@ + u.name@
            } else {
                r matches EntranceStep::PlayClip(n) && n@ == u.name@
            },
        },
{
    match user {
        Err(e) => EntranceStep::Done(
            CallResult::failure(String::from_str("Could not get user name"), e),
        ),
        Ok(u) => {
            if u.bot {
                EntranceStep::Done(
                    CallResult::success(joined("A bot joined a channel: ", u.name.as_str())),
                )
            } else {
                EntranceStep::PlayClip(u.name)
            }
        },
    }
}

/// How the bot is to be brought to a channel, when summoned or when it
/// re-joins others of its own accord.
#[derive(Debug)]
pub enum SummonStep {
    /// No channel to go to: answer with this text and join nothing.
    Reply(String),
    /// Join the target and play the rejoin clip found at `path` there.
    JoinAndPlay { target: ConnectionData, path: String },
    /// Join the target silently: the guild has no usable rejoin clip.
    JoinOnly { target: ConnectionData },
}

/// The step that brings the bot to `target`, given the lookup of the
/// guild's rejoin clip (`REJOIN_CLIP`): with no target, only a reply; with
/// a clip, a join that plays it; without one, a silent join.
pub fn summon_step(target: Option<ConnectionData>, clip: Result<String, SourceError>) -> (r:
    SummonStep)
    ensures
        match target {
            None => r matches SummonStep::Reply(m) && m@ == "You are not in a voice channel!"@,
            Some(t) => match clip {
                Ok(p) => r matches SummonStep::JoinAndPlay { target: t2, path: p2 } && t2 == t
                    && p2@ == p@,
                Err(_) => r matches SummonStep::JoinOnly { target: t2 } && t2 == t,
            },
        },
{
    match target {
        None => SummonStep::Reply(String::from_str("You are not in a voice channel!")),
        Some(t) => match clip {
            Ok(path) => SummonStep::JoinAndPlay { target: t, path },
            Err(_) => SummonStep::JoinOnly { target: t },
        },
    }
}

/// The reply to a summons, given the answer of the join.
pub fn summon(joined_channel: &Result<(), String>) -> (r: String)
    ensures
        r@ == (if joined_channel is Ok {
            "Bot summoned"@
        } else {
            "Bot failed to join your channel"@
        }),
{
    if joined_channel.is_ok() {
        String::from_str("Bot summoned")
    } else {
        String::from_str("Bot failed to join your channel")
    }
}

} // verus!
