//! The presence follower: how the bot reacts when someone's voice channel
//! changes. Per guild the bot is absent (no handle) or present in a channel;
//! each membership change is judged afresh against the guild's snapshot.
use vstd::prelude::*;

use crate::connection_data::{channel_of, voice_channel_of, ConnectionData, GuildSnapshot, VoiceState};
use crate::registry::ConnectionRegistry;

verus! {

/// A change of one user's voice channel in a guild.
#[derive(Clone, Copy, PartialEq, Eq, Structural, Debug)]
pub struct VoiceStateUpdate {
    pub guild_id: u64,
    pub user_id: u64,
    pub old_channel: Option<u64>,
    pub new_channel: Option<u64>,
}

/// What the follower decided to do about a membership change.
#[derive(Clone, Copy, PartialEq, Eq, Structural, Debug)]
pub enum FollowAction {
    /// Nothing to do.
    Stay,
    /// `user` arrived in the target channel: play their entrance clip there.
    PlayEntrance { target: ConnectionData, user: u64 },
    /// Nobody is left to listen: release the guild's connection.
    Leave { guild: u64 },
    /// The bot is alone while others are active elsewhere: move there, with
    /// or without the rejoin clip as `playback::summon_step` decides.
    Rejoin { target: ConnectionData },
}

/// Whether `channel` is the AFK channel of the guild.
pub open spec fn is_afk(guild: GuildSnapshot, channel: u64) -> bool {
    guild.afk_channel_id == Some(channel)
}

/// Whether a user who went from `old` to `channel` arrived somewhere that
/// counts: they joined or moved, and not into the AFK channel.
pub open spec fn arrived(guild: GuildSnapshot, channel: u64, old: Option<u64>) -> bool {
    old != Some(channel) && !is_afk(guild, channel)
}

/// Whether everyone but `bot` is out of voice or in the AFK channel.
pub open spec fn all_idle(guild: GuildSnapshot, bot: u64) -> bool {
    forall|i: int|
        0 <= i < guild.voice_states@.len() && (#[trigger] guild.voice_states@[i]).user_id != bot
            ==> match guild.voice_states@[i].channel_id {
            Some(c) => is_afk(guild, c),
            None => true,
        }
}

/// How many entries of `states` are in `channel`.
pub open spec fn occupants(states: Seq<VoiceState>, channel: Option<u64>) -> nat
    decreases states.len(),
{
    if states.len() == 0 {
        0
    } else {
        occupants(states.drop_last(), channel) + if states.last().channel_id == channel {
            1nat
        } else {
            0nat
        }
    }
}

/// Whether `bot` is in a channel and alone in it.
pub open spec fn alone(guild: GuildSnapshot, bot: u64) -> bool {
    channel_of(guild.voice_states@, bot) is Some && occupants(
        guild.voice_states@,
        channel_of(guild.voice_states@, bot),
    ) == 1
}

/// The channel of the first entry of `states`, other than `bot`, that is in
/// a channel other than the AFK one.
pub open spec fn first_active(guild: GuildSnapshot, states: Seq<VoiceState>, bot: u64) -> Option<u64>
    decreases states.len(),
{
    if states.len() == 0 {
        None
    } else if states[0].user_id != bot && states[0].channel_id is Some && !is_afk(
        guild,
        states[0].channel_id->Some_0,
    ) {
        states[0].channel_id
    } else {
        first_active(guild, states.drop_first(), bot)
    }
}

/// What the follower does once nobody has arrived anywhere.
pub open spec fn after_departure(guild_id: u64, guild: GuildSnapshot, bot: u64) -> FollowAction {
    if all_idle(guild, bot) {
        FollowAction::Leave { guild: guild_id }
    } else if alone(guild, bot) {
        match first_active(guild, guild.voice_states@, bot) {
            Some(c) => FollowAction::Rejoin { target: ConnectionData { guild: guild_id, channel: c } },
            None => FollowAction::Stay,
        }
    } else {
        FollowAction::Stay
    }
}

/// What the follower does about `update`, `guild` being the snapshot of its
/// guild after the change and `bot` the bot's own user.
pub open spec fn follow(update: VoiceStateUpdate, guild: GuildSnapshot, bot: u64) -> FollowAction {
    match update.new_channel {
        Some(c) => if arrived(guild, c, update.old_channel) {
            FollowAction::PlayEntrance {
                target: ConnectionData { guild: update.guild_id, channel: c },
                user: update.user_id,
            }
        } else {
            after_departure(update.guild_id, guild, bot)
        },
        None => after_departure(update.guild_id, guild, bot),
    }
}

/// What the follower does about `update` when nothing is known of its
/// guild: an arrival (a join, or a move between channels) still plays the
/// entrance, no AFK channel being known; anything else is left alone.
pub open spec fn follow_unknown(update: VoiceStateUpdate) -> FollowAction {
    match update.new_channel {
        Some(c) => if update.old_channel != Some(c) {
            FollowAction::PlayEntrance {
                target: ConnectionData { guild: update.guild_id, channel: c },
                user: update.user_id,
            }
        } else {
            FollowAction::Stay
        },
        None => FollowAction::Stay,
    }
}

/// The follower's decision on `update` for a guild of which no snapshot is
/// at hand.
pub fn voice_state_update_uncached(update: VoiceStateUpdate) -> (r: FollowAction)
    ensures
        r == follow_unknown(update),
{
    match update.new_channel {
        Some(c) => {
            if update.old_channel != Some(c) {
                FollowAction::PlayEntrance {
                    target: ConnectionData { guild: update.guild_id, channel: c },
                    user: update.user_id,
                }
            } else {
                FollowAction::Stay
            }
        },
        None => FollowAction::Stay,
    }
}

/// Whether `channel` is the guild's AFK channel.
pub fn is_afk_channel(guild: &GuildSnapshot, channel: u64) -> (r: bool)
    ensures
        r == is_afk(*guild, channel),
{
    guild.afk_channel_id == Some(channel)
}

/// Whether a move from `old` into `channel` is an arrival that counts.
pub fn moved_to_non_afk(guild: &GuildSnapshot, channel: u64, old: Option<u64>) -> (r: bool)
    ensures
        r == arrived(*guild, channel, old),
{
    old != Some(channel) && !is_afk_channel(guild, channel)
}

/// Whether everyone but `bot` is out of voice or in the AFK channel.
pub fn all_afk_states(guild: &GuildSnapshot, bot: u64) -> (r: bool)
    ensures
        r == all_idle(*guild, bot),
{
    let mut i: usize = 0;
    while i < guild.voice_states.len()
        invariant
            i <= guild.voice_states@.len(),
            forall|j: int|
                0 <= j < i && (#[trigger] guild.voice_states@[j]).user_id != bot ==> match guild.voice_states@[j].channel_id {
                    Some(c) => is_afk(*guild, c),
                    None => true,
                },
        decreases guild.voice_states@.len() - i,
    {
        let state = guild.voice_states[i];
        if state.user_id != bot {
            match state.channel_id {
                Some(c) => {
                    if !is_afk_channel(guild, c) {
                        return false;
                    }
                },
                None => {},
            }
        }
        i = i + 1;
    }
    true
}

/// Whether `bot` sits alone in its channel.
pub fn only_user_in_channel(guild: &GuildSnapshot, bot: u64) -> (r: bool)
    ensures
        r == alone(*guild, bot),
{
    let mine = voice_channel_of(&guild.voice_states, bot);
    if mine.is_none() {
        return false;
    }
    let mut count: u64 = 0;
    let mut i: usize = 0;
    while i < guild.voice_states.len()
        invariant
            i <= guild.voice_states@.len(),
            count == occupants(guild.voice_states@.subrange(0, i as int), mine),
            count <= i,
            i <= usize::MAX,
        decreases guild.voice_states@.len() - i,
    {
        proof {
            let s = guild.voice_states@.subrange(0, i + 1);
            assert(s.drop_last() =~= guild.voice_states@.subrange(0, i as int));
        }
        if guild.voice_states[i].channel_id == mine {
            count = count + 1;
        }
        i = i + 1;
    }
    assert(guild.voice_states@.subrange(0, i as int) =~= guild.voice_states@);
    count == 1
}

/// The first channel, in snapshot order, where a user other than `bot` is
/// active outside the AFK channel.
pub fn first_active_channel(guild: &GuildSnapshot, bot: u64) -> (r: Option<u64>)
    ensures
        r == first_active(*guild, guild.voice_states@, bot),
{
    let mut i: usize = 0;
    let ghost all = guild.voice_states@;
    assert(all.subrange(0, all.len() as int) =~= all);
    while i < guild.voice_states.len()
        invariant
            all == guild.voice_states@,
            i <= all.len(),
            first_active(*guild, all, bot) == first_active(
                *guild,
                all.subrange(i as int, all.len() as int),
                bot,
            ),
        decreases all.len() - i,
    {
        let ghost rest = all.subrange(i as int, all.len() as int);
        assert(rest.drop_first() =~= all.subrange(i + 1, all.len() as int));
        let state = guild.voice_states[i];
        if state.user_id != bot {
            if let Some(c) = state.channel_id {
                if !is_afk_channel(guild, c) {
                    return Some(c);
                }
            }
        }
        i = i + 1;
    }
    None
}

/// Leave when nobody is left to listen; move to where others are when the
/// bot sits alone; else stay.
pub fn move_if_last_user(guild_id: u64, guild: &GuildSnapshot, bot: u64) -> (r: FollowAction)
    ensures
        r == after_departure(guild_id, *guild, bot),
{
    if all_afk_states(guild, bot) {
        FollowAction::Leave { guild: guild_id }
    } else if only_user_in_channel(guild, bot) {
        match first_active_channel(guild, bot) {
            Some(c) => FollowAction::Rejoin { target: ConnectionData { guild: guild_id, channel: c } },
            None => FollowAction::Stay,
        }
    } else {
        FollowAction::Stay
    }
}

/// The follower's decision on `update`: an entrance when a user arrived in a
/// channel that counts, else the departure rules.
pub fn voice_state_update(update: VoiceStateUpdate, guild: &GuildSnapshot, bot: u64) -> (r:
    FollowAction)
    ensures
        r == follow(update, *guild, bot),
{
    match update.new_channel {
        Some(c) => {
            if moved_to_non_afk(guild, c, update.old_channel) {
                FollowAction::PlayEntrance {
                    target: ConnectionData { guild: update.guild_id, channel: c },
                    user: update.user_id,
                }
            } else {
                move_if_last_user(update.guild_id, guild, bot)
            }
        },
        None => move_if_last_user(update.guild_id, guild, bot),
    }
}

/// Judges `update` and carries out the registry's part of the decision: on
/// `Leave` the guild's handle is released; every other decision leaves the
/// registry as it was (a move or an entrance goes through a join).
pub fn on_voice_state_update(
    registry: &mut ConnectionRegistry,
    update: VoiceStateUpdate,
    guild: &GuildSnapshot,
    bot: u64,
) -> (r: FollowAction)
    requires
        old(registry).wf(),
    ensures
        final(registry).wf(),
        r == follow(update, *guild, bot),
        match r {
            FollowAction::Leave { guild: g } => final(registry)@ == old(registry)@.remove(g),
            _ => final(registry)@ == old(registry)@,
        },
{
    let action = voice_state_update(update, guild, bot);
    if let FollowAction::Leave { guild: g } = action {
        let _ = registry.remove(g);
    }
    action
}

} // verus!
