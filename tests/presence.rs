use voicebot::presence::{
    count_member, deletion_log, move_after_create, plan_creation, plan_deletion, plan_presence,
    resolve_channel, ChannelInfo, GuildSnapshot, MoveRequest, PresenceChange, VoiceStateSnapshot,
};
use voicebot::settings::Designations;

const G1: u64 = 100;
const SPAWNER: u64 = 1;
const ROOM: u64 = 2;
const LOBBY: u64 = 3;
const MEMBER: u64 = 42;

fn designations() -> Designations {
    Designations {
        spawner_name: "spawner".to_string(),
        listen_only_marker: "聞き専".to_string(),
        command_prefix: "r/".to_string(),
        spawned_channel_name: "my-test-channel".to_string(),
    }
}

fn channel(id: u64, name: &str, position: i64) -> ChannelInfo {
    ChannelInfo { id, name: name.to_string(), position }
}

fn human(user_id: u64, channel_id: Option<u64>) -> VoiceStateSnapshot {
    VoiceStateSnapshot { user_id, channel_id, member_is_bot: Some(false) }
}

fn bot(user_id: u64, channel_id: Option<u64>) -> VoiceStateSnapshot {
    VoiceStateSnapshot { user_id, channel_id, member_is_bot: Some(true) }
}

fn guild(voice_states: Vec<VoiceStateSnapshot>) -> GuildSnapshot {
    GuildSnapshot {
        channels: vec![channel(SPAWNER, "spawner", 4), channel(ROOM, "room", 5), channel(LOBBY, "lobby", 6)],
        voice_states,
    }
}

fn change(old: Option<u64>, new: Option<u64>) -> PresenceChange {
    PresenceChange {
        guild_id: Some(G1),
        old: old.map(|c| human(MEMBER, Some(c))),
        new: human(MEMBER, new),
    }
}

#[test]
fn counts_only_non_bot_members_of_the_channel() {
    let states = vec![
        human(1, Some(ROOM)),
        bot(2, Some(ROOM)),
        human(3, Some(LOBBY)),
        human(4, None),
        VoiceStateSnapshot { user_id: 5, channel_id: Some(ROOM), member_is_bot: None },
        human(6, Some(ROOM)),
    ];
    assert_eq!(count_member(&states, ROOM), 2);
    assert_eq!(count_member(&states, LOBBY), 1);
    assert_eq!(count_member(&states, SPAWNER), 0);
    assert_eq!(count_member(&Vec::new(), ROOM), 0);
}

#[test]
fn channels_resolve_by_id() {
    let g = guild(Vec::new());
    assert_eq!(resolve_channel(&g.channels, ROOM), Some(1));
    assert_eq!(resolve_channel(&g.channels, 99), None);
}

#[test]
fn joining_spawner_creates_channel_and_moves_member() {
    let d = designations();
    let snap = guild(vec![human(MEMBER, Some(SPAWNER))]);
    let plan = plan_presence(&d, &change(None, Some(SPAWNER)), Some(&snap));
    assert!(plan.delete.is_none());
    let req = plan.create.expect("a channel is created");
    assert_eq!(req.guild_id, G1);
    assert_eq!(req.name, "my-test-channel");
    assert_eq!(req.position, 4);
    assert_eq!(req.mover, MEMBER);
    let mv = move_after_create::<()>(&req, Ok(77));
    assert_eq!(mv, Some(MoveRequest { guild_id: G1, user_id: MEMBER, channel_id: 77 }));
}

#[test]
fn failed_creation_moves_nobody() {
    let d = designations();
    let snap = guild(vec![human(MEMBER, Some(SPAWNER))]);
    let req = plan_creation(&d, &change(None, Some(SPAWNER)), Some(&snap)).expect("requested");
    assert_eq!(move_after_create(&req, Err("forbidden")), None);
}

#[test]
fn joining_another_channel_creates_nothing() {
    let d = designations();
    let snap = guild(vec![human(MEMBER, Some(ROOM))]);
    assert!(plan_creation(&d, &change(None, Some(ROOM)), Some(&snap)).is_none());
}

#[test]
fn creation_shares_the_spawner_position() {
    let d = designations();
    let mut snap = guild(vec![human(MEMBER, Some(SPAWNER))]);
    snap.channels.push(channel(9, "other", 4));
    let req = plan_creation(&d, &change(None, Some(SPAWNER)), Some(&snap)).expect("requested");
    assert_eq!(req.position, 4);
}

#[test]
fn unusable_position_skips_creation() {
    let d = designations();
    let snap = GuildSnapshot {
        channels: vec![channel(SPAWNER, "spawner", -1)],
        voice_states: vec![human(MEMBER, Some(SPAWNER))],
    };
    assert!(plan_creation(&d, &change(None, Some(SPAWNER)), Some(&snap)).is_none());
}

#[test]
fn missing_snapshot_or_guild_skips_both_rules() {
    let d = designations();
    let plan = plan_presence(&d, &change(Some(ROOM), Some(SPAWNER)), None);
    assert!(plan.delete.is_none());
    assert!(plan.create.is_none());
    let snap = guild(Vec::new());
    let mut c = change(Some(ROOM), Some(SPAWNER));
    c.guild_id = None;
    let plan = plan_presence(&d, &c, Some(&snap));
    assert!(plan.delete.is_none());
    assert!(plan.create.is_none());
}

#[test]
fn unresolved_channel_skips_rules() {
    let d = designations();
    let snap = guild(Vec::new());
    let plan = plan_presence(&d, &change(Some(99), Some(98)), Some(&snap));
    assert!(plan.delete.is_none());
    assert!(plan.create.is_none());
}

#[test]
fn last_member_leaving_deletes_channel() {
    let d = designations();
    let snap = guild(vec![human(MEMBER, None)]);
    let req = plan_deletion(&d, &change(Some(ROOM), None), Some(&snap)).expect("deleted");
    assert_eq!(req.channel_id, ROOM);
    assert_eq!(req.name, "room");
    assert_eq!(deletion_log(&req.name), "Removed channel named: room due to no members left");
}

#[test]
fn channel_with_only_bots_left_is_deleted() {
    let d = designations();
    let snap = guild(vec![human(MEMBER, None), bot(7, Some(ROOM))]);
    let req = plan_deletion(&d, &change(Some(ROOM), None), Some(&snap)).expect("deleted");
    assert_eq!(req.channel_id, ROOM);
}

#[test]
fn occupied_channel_is_kept() {
    let d = designations();
    let snap = guild(vec![human(MEMBER, None), human(8, Some(ROOM))]);
    assert!(plan_deletion(&d, &change(Some(ROOM), None), Some(&snap)).is_none());
}

#[test]
fn empty_spawner_is_never_deleted() {
    let d = designations();
    let snap = guild(vec![human(MEMBER, Some(ROOM))]);
    assert!(plan_deletion(&d, &change(Some(SPAWNER), Some(ROOM)), Some(&snap)).is_none());
}

#[test]
fn moving_between_channels_applies_both_rules() {
    let d = designations();
    let snap = guild(vec![human(MEMBER, Some(SPAWNER))]);
    let plan = plan_presence(&d, &change(Some(ROOM), Some(SPAWNER)), Some(&snap));
    assert_eq!(plan.delete.expect("room emptied").channel_id, ROOM);
    assert_eq!(plan.create.expect("spawner joined").position, 4);
}

#[test]
fn repeated_notification_is_handled_again() {
    let d = designations();
    let c = change(Some(ROOM), Some(SPAWNER));
    let mut snap = guild(vec![human(MEMBER, Some(SPAWNER))]);
    let first = plan_presence(&d, &c, Some(&snap));
    snap.channels.push(channel(77, "my-test-channel", 4));
    let second = plan_presence(&d, &c, Some(&snap));
    assert_eq!(first.delete.expect("first delete").channel_id, ROOM);
    assert_eq!(second.delete.expect("second delete").channel_id, ROOM);
    assert_eq!(first.create.expect("first create").position, 4);
    assert_eq!(second.create.expect("second create").position, 4);
}
