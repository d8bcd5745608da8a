use soundboard::connection_data::ConnectionData;
use soundboard::playback::{finish_join, join_connection, stop, JoinPlan};
use soundboard::registry::{ConnectionHandle, ConnectionRegistry};

fn target(guild: u64, channel: u64) -> ConnectionData {
    ConnectionData { guild, channel }
}

#[test]
fn new_registry_is_empty() {
    let registry = ConnectionRegistry::new();
    assert_eq!(registry.get(1), None);
}

#[test]
fn get_or_insert_makes_one_handle_per_guild() {
    let mut registry = ConnectionRegistry::new();
    let first = registry.get_or_insert(5);
    assert_eq!(first, ConnectionHandle { guild: 5, current_channel: None });
    registry.set_channel(5, Some(3));
    let again = registry.get_or_insert(5);
    assert_eq!(again, ConnectionHandle { guild: 5, current_channel: Some(3) });
    assert_eq!(registry.get(5), Some(ConnectionHandle { guild: 5, current_channel: Some(3) }));
    assert!(registry.remove(5));
    assert_eq!(registry.get(5), None);
    assert!(!registry.remove(5));
}

#[test]
fn guilds_do_not_share_handles() {
    let mut registry = ConnectionRegistry::new();
    registry.get_or_insert(1);
    registry.get_or_insert(2);
    registry.set_channel(2, Some(20));
    assert_eq!(registry.get(1).unwrap().current_channel, None);
    assert_eq!(registry.get(2).unwrap().current_channel, Some(20));
    registry.remove(1);
    assert_eq!(registry.get(2).unwrap().current_channel, Some(20));
}

#[test]
fn second_join_to_same_target_needs_no_transport() {
    let mut registry = ConnectionRegistry::new();
    let t = target(42, 7);
    let mut transport_calls = 0;
    for _ in 0..2 {
        if join_connection(&mut registry, t) == JoinPlan::NeedsTransport {
            transport_calls += 1;
            finish_join(&mut registry, t, Ok(())).unwrap();
        }
    }
    assert_eq!(transport_calls, 1);
    assert_eq!(registry.get(42).unwrap().current_channel, Some(7));
}

#[test]
fn join_to_other_channel_moves() {
    let mut registry = ConnectionRegistry::new();
    assert_eq!(join_connection(&mut registry, target(1, 10)), JoinPlan::NeedsTransport);
    finish_join(&mut registry, target(1, 10), Ok(())).unwrap();
    assert_eq!(join_connection(&mut registry, target(1, 11)), JoinPlan::NeedsTransport);
    finish_join(&mut registry, target(1, 11), Ok(())).unwrap();
    assert_eq!(registry.get(1).unwrap().current_channel, Some(11));
}

#[test]
fn failed_join_changes_nothing() {
    let mut registry = ConnectionRegistry::new();
    assert_eq!(join_connection(&mut registry, target(3, 30)), JoinPlan::NeedsTransport);
    let r = finish_join(&mut registry, target(3, 30), Err("timed out".to_string()));
    assert_eq!(r, Err("timed out".to_string()));
    assert_eq!(registry.get(3), Some(ConnectionHandle { guild: 3, current_channel: None }));
}

#[test]
fn stop_in_own_channel_succeeds() {
    let mut registry = ConnectionRegistry::new();
    join_connection(&mut registry, target(4, 40));
    finish_join(&mut registry, target(4, 40), Ok(())).unwrap();
    let r = stop(&registry, target(4, 40));
    assert!(r.underlying_error.is_none());
    assert_eq!(r.user_message, "Playback stopped");
}

#[test]
fn stop_in_other_channel_fails() {
    let mut registry = ConnectionRegistry::new();
    join_connection(&mut registry, target(4, 40));
    finish_join(&mut registry, target(4, 40), Ok(())).unwrap();
    let r = stop(&registry, target(4, 41));
    assert_eq!(r.user_message, "Bot is not currently in your channel");
    assert_eq!(r.underlying_error.as_deref(), Some("Bot in a different channel than requestor"));
    assert_eq!(registry.get(4).unwrap().current_channel, Some(40));
}

#[test]
fn stop_without_handle_fails() {
    let registry = ConnectionRegistry::new();
    let r = stop(&registry, target(9, 1));
    assert!(r.underlying_error.is_some());
    assert_eq!(registry.get(9), None);
}

#[test]
fn stop_with_handle_in_no_channel_fails() {
    let mut registry = ConnectionRegistry::new();
    registry.get_or_insert(9);
    let r = stop(&registry, target(9, 1));
    assert!(r.underlying_error.is_some());
}
