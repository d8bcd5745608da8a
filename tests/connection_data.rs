use soundboard::connection_data::{voice_channel_of, ConnectionData, GuildSnapshot, VoiceState};

fn guild(id: u64, states: Vec<(u64, Option<u64>)>) -> GuildSnapshot {
    GuildSnapshot {
        id,
        afk_channel_id: None,
        voice_states: states
            .into_iter()
            .map(|(user_id, channel_id)| VoiceState { user_id, channel_id })
            .collect(),
    }
}

#[test]
fn user_in_guild_channel() {
    let g = guild(1, vec![(10, Some(100)), (11, None)]);
    assert_eq!(
        ConnectionData::try_from_guild_user(&g, 10),
        Some(ConnectionData { guild: 1, channel: 100 })
    );
    assert_eq!(ConnectionData::try_from_guild_user(&g, 11), None);
    assert_eq!(ConnectionData::try_from_guild_user(&g, 12), None);
    assert_eq!(voice_channel_of(&g.voice_states, 10), Some(100));
}

#[test]
fn first_guild_in_order_wins() {
    let guilds = vec![
        guild(1, vec![(10, None)]),
        guild(2, vec![(10, Some(200))]),
        guild(3, vec![(10, Some(300))]),
    ];
    assert_eq!(
        ConnectionData::try_from_user(&guilds, 10),
        Some(ConnectionData { guild: 2, channel: 200 })
    );
    assert_eq!(ConnectionData::try_from_user(&guilds, 11), None);
    assert_eq!(ConnectionData::try_from_user(&Vec::new(), 10), None);
}

#[test]
fn explicit_guild_is_looked_up() {
    let guilds = vec![guild(1, vec![(10, Some(100))]), guild(2, vec![(10, Some(200))])];
    assert_eq!(
        ConnectionData::try_from_command(&guilds, Some(2), 10),
        Some(ConnectionData { guild: 2, channel: 200 })
    );
    assert_eq!(ConnectionData::try_from_command(&guilds, Some(3), 10), None);
    assert_eq!(
        ConnectionData::try_from_command(&guilds, None, 10),
        Some(ConnectionData { guild: 1, channel: 100 })
    );
}

#[test]
fn explicit_guild_without_user_is_none() {
    let guilds = vec![guild(1, vec![(10, Some(100))]), guild(2, vec![(11, Some(200))])];
    assert_eq!(ConnectionData::try_from_command(&guilds, Some(2), 10), None);
}
