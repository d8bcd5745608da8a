//! Which voice channel a request targets.
use vstd::prelude::*;

verus! {

/// Where a connection should be: a channel of a guild.
#[derive(Clone, Copy, PartialEq, Eq, Structural, Debug)]
pub struct ConnectionData {
    pub guild: u64,
    pub channel: u64,
}

/// One user's voice presence in a guild: the channel they are in, if any.
#[derive(Clone, Copy, PartialEq, Eq, Structural, Debug)]
pub struct VoiceState {
    pub user_id: u64,
    pub channel_id: Option<u64>,
}

/// What is known of a guild's voice channels at one moment: its AFK
/// channel, if it has one, and who is where.
#[derive(Clone, Debug)]
pub struct GuildSnapshot {
    pub id: u64,
    pub afk_channel_id: Option<u64>,
    pub voice_states: Vec<VoiceState>,
}

impl GuildSnapshot {
    /// Each user has one entry at most, as the platform reports voice states
    /// per user.
    pub open spec fn wf(&self) -> bool {
        unique_users(self.voice_states@)
    }
}

/// No two entries of `states` belong to the same user.
pub open spec fn unique_users(states: Seq<VoiceState>) -> bool {
    forall|i: int, j: int|
        0 <= i < states.len() && 0 <= j < states.len() && i != j ==> (#[trigger] states[i]).user_id
            != (#[trigger] states[j]).user_id
}

/// The channel that `user` occupies according to `states`: that of the
/// entry for the user (the first, should there be several; in a
/// well-formed snapshot there is one at most, see `lemma_channel_of_entry`).
pub open spec fn channel_of(states: Seq<VoiceState>, user: u64) -> Option<u64>
    decreases states.len(),
{
    if states.len() == 0 {
        None
    } else if states[0].user_id == user {
        states[0].channel_id
    } else {
        channel_of(states.drop_first(), user)
    }
}

/// In a snapshot where each user has one entry at most, the channel of a
/// user is that of their entry, and a user without an entry is in none.
pub proof fn lemma_channel_of_entry(states: Seq<VoiceState>, user: u64)
    requires
        unique_users(states),
    ensures
        forall|i: int|
            0 <= i < states.len() && (#[trigger] states[i]).user_id == user ==> channel_of(
                states,
                user,
            ) == states[i].channel_id,
        (forall|i: int| 0 <= i < states.len() ==> (#[trigger] states[i]).user_id != user)
            ==> channel_of(states, user) is None,
    decreases states.len(),
{
    if states.len() > 0 {
        let rest = states.drop_first();
        assert(unique_users(rest)) by {
            assert forall|i: int, j: int|
                0 <= i < rest.len() && 0 <= j < rest.len() && i != j implies (
            #[trigger] rest[i]).user_id != (#[trigger] rest[j]).user_id by {
                assert(rest[i] == states[i + 1] && rest[j] == states[j + 1]);
            }
        }
        lemma_channel_of_entry(rest, user);
        assert forall|i: int|
            0 <= i < states.len() && (#[trigger] states[i]).user_id == user implies channel_of(
            states,
            user,
        ) == states[i].channel_id by {
            if i > 0 {
                assert(states[0].user_id != states[i].user_id);
                assert(rest[i - 1] == states[i]);
            }
        }
        if forall|i: int| 0 <= i < states.len() ==> (#[trigger] states[i]).user_id != user {
            assert(states[0].user_id != user);
            assert forall|i: int| 0 <= i < rest.len() implies (#[trigger] rest[i]).user_id
                != user by {
                assert(rest[i] == states[i + 1]);
            }
        }
    }
}

/// The target of `user` within one guild, if they occupy a channel there.
pub open spec fn target_in(guild_id: u64, states: Seq<VoiceState>, user: u64) -> Option<
    ConnectionData,
> {
    match channel_of(states, user) {
        Some(c) => Some(ConnectionData { guild: guild_id, channel: c }),
        None => None,
    }
}

/// The target of `user` in the first of `guilds` where they occupy a channel.
pub open spec fn first_target(guilds: Seq<GuildSnapshot>, user: u64) -> Option<ConnectionData>
    decreases guilds.len(),
{
    if guilds.len() == 0 {
        None
    } else {
        match target_in(guilds[0].id, guilds[0].voice_states@, user) {
            Some(t) => Some(t),
            None => first_target(guilds.drop_first(), user),
        }
    }
}

/// The first of `guilds` with id `guild`, if any.
pub open spec fn snapshot_of(guilds: Seq<GuildSnapshot>, guild: u64) -> Option<GuildSnapshot>
    decreases guilds.len(),
{
    if guilds.len() == 0 {
        None
    } else if guilds[0].id == guild {
        Some(guilds[0])
    } else {
        snapshot_of(guilds.drop_first(), guild)
    }
}

/// The channel of `user` in `states`, found by a scan from the front.
pub fn voice_channel_of(states: &Vec<VoiceState>, user: u64) -> (r: Option<u64>)
    ensures
        r == channel_of(states@, user),
{
    let mut i: usize = 0;
    assert(states@.subrange(0, states@.len() as int) =~= states@);
    while i < states.len()
        invariant
            i <= states@.len(),
            channel_of(states@, user) == channel_of(states@.subrange(i as int, states@.len() as int), user),
        decreases states@.len() - i,
    {
        let ghost rest = states@.subrange(i as int, states@.len() as int);
        assert(rest.drop_first() =~= states@.subrange(i + 1, states@.len() as int));
        if states[i].user_id == user {
            return states[i].channel_id;
        }
        i = i + 1;
    }
    None
}

impl ConnectionData {
    /// The target of `user` in `guild`: the channel they occupy there.
    pub fn try_from_guild_user(guild: &GuildSnapshot, user: u64) -> (r: Option<Self>)
        ensures
            r == target_in(guild.id, guild.voice_states@, user),
    {
        match voice_channel_of(&guild.voice_states, user) {
            Some(c) => Some(ConnectionData { guild: guild.id, channel: c }),
            None => None,
        }
    }

    /// The target of `user` in the first of `guilds`, in their order, where
    /// the user occupies a channel.
    pub fn try_from_user(guilds: &Vec<GuildSnapshot>, user: u64) -> (r: Option<Self>)
        ensures
            r == first_target(guilds@, user),
    {
        let mut i: usize = 0;
        assert(guilds@.subrange(0, guilds@.len() as int) =~= guilds@);
        while i < guilds.len()
            invariant
                i <= guilds@.len(),
                first_target(guilds@, user) == first_target(guilds@.subrange(i as int, guilds@.len() as int), user),
            decreases guilds@.len() - i,
        {
            let ghost rest = guilds@.subrange(i as int, guilds@.len() as int);
            assert(rest.drop_first() =~= guilds@.subrange(i + 1, guilds@.len() as int));
            let found = Self::try_from_guild_user(&guilds[i], user);
            if found.is_some() {
                return found;
            }
            i = i + 1;
        }
        None
    }

    /// The target of a request by `user`: with `explicit_guild`, the
    /// channel the user occupies in that guild (looked up among `guilds`);
    /// without, the first guild of `guilds` where the user occupies one.
    pub fn try_from_command(guilds: &Vec<GuildSnapshot>, explicit_guild: Option<u64>, user: u64) -> (r:
        Option<Self>)
        ensures
            r == match explicit_guild {
                Some(g) => match snapshot_of(guilds@, g) {
                    Some(s) => target_in(s.id, s.voice_states@, user),
                    None => None,
                },
                None => first_target(guilds@, user),
            },
    {
        match explicit_guild {
            Some(g) => {
                let mut i: usize = 0;
                assert(guilds@.subrange(0, guilds@.len() as int) =~= guilds@);
                while i < guilds.len()
                    invariant
                        explicit_guild == Some(g),
                        i <= guilds@.len(),
                        snapshot_of(guilds@, g) == snapshot_of(
                            guilds@.subrange(i as int, guilds@.len() as int),
                            g,
                        ),
                    decreases guilds@.len() - i,
                {
                    let ghost rest = guilds@.subrange(i as int, guilds@.len() as int);
                    assert(rest.drop_first() =~= guilds@.subrange(i + 1, guilds@.len() as int));
                    assert(rest[0] == guilds@[i as int]);
                    if guilds[i].id == g {
                        return Self::try_from_guild_user(&guilds[i], user);
                    }
                    i = i + 1;
                }
                None
            },
            None => Self::try_from_user(guilds, user),
        }
    }
}

} // verus!
