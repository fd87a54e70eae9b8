use vstd::prelude::*;

use crate::settings::Designations;

verus! {

/// One member's voice presence in a guild snapshot.
#[derive(Clone, Copy, Debug, PartialEq, Eq, Structural)]
pub struct VoiceStateSnapshot {
    /// The member's user id.
    pub user_id: u64,
    /// The voice channel the member is in, if any.
    pub channel_id: Option<u64>,
    /// Whether the member's account is a bot; `None` when member details are missing.
    pub member_is_bot: Option<bool>,
}

/// A guild channel as seen in a snapshot.
pub struct ChannelInfo {
    pub id: u64,
    pub name: String,
    /// The channel's ordinal position in the guild's channel list.
    pub position: i64,
}

/// A read-only view of one guild's channels and voice presences.
pub struct GuildSnapshot {
    pub channels: Vec<ChannelInfo>,
    pub voice_states: Vec<VoiceStateSnapshot>,
}

/// A presence-change notification: a member's state before and after.
pub struct PresenceChange {
    pub guild_id: Option<u64>,
    pub old: Option<VoiceStateSnapshot>,
    pub new: VoiceStateSnapshot,
}

/// A request to create a voice channel and then move a member into it.
pub struct CreateRequest {
    pub guild_id: u64,
    pub name: String,
    pub position: u32,
    /// The member to move into the new channel once it exists.
    pub mover: u64,
}

/// A request to delete a channel.
pub struct DeleteRequest {
    pub channel_id: u64,
    /// The channel's name, for reporting.
    pub name: String,
}

/// A request to move a member into a voice channel.
#[derive(Clone, Copy, Debug, PartialEq, Eq, Structural)]
pub struct MoveRequest {
    pub guild_id: u64,
    pub user_id: u64,
    pub channel_id: u64,
}

/// The channel operations one presence change calls for: at most one deletion
/// and at most one creation.
pub struct PresencePlan {
    pub delete: Option<DeleteRequest>,
    pub create: Option<CreateRequest>,
}

/// Whether presence `s` is a non-bot member in channel `c`.
pub open spec fn occupies(s: VoiceStateSnapshot, c: u64) -> bool {
    s.channel_id == Some(c) && s.member_is_bot == Some(false)
}

/// The number of non-bot members present in channel `c`.
pub open spec fn non_bot_count(states: Seq<VoiceStateSnapshot>, c: u64) -> nat
    decreases states.len(),
{
    if states.len() == 0 {
        0
    } else {
        non_bot_count(states.drop_last(), c) + if occupies(states.last(), c) {
            1nat
        } else {
            0nat
        }
    }
}

/// The index of the channel with id `id` (the last one, should ids repeat).
pub open spec fn resolve(chs: Seq<ChannelInfo>, id: u64) -> Option<int>
    decreases chs.len(),
{
    if chs.len() == 0 {
        None
    } else if chs.last().id == id {
        Some(chs.len() - 1)
    } else {
        resolve(chs.drop_last(), id)
    }
}

/// The channel that rule B deletes: the member's previous channel, when the
/// snapshot resolves it, no non-bot member remains in it, and it is not the spawner.
pub open spec fn deletion_target(
    d: Designations,
    change: PresenceChange,
    snap: Option<GuildSnapshot>,
) -> Option<(u64, Seq<char>)> {
    if change.guild_id is Some && change.old is Some && change.old->Some_0.channel_id is Some
        && snap is Some {
        let c = change.old->Some_0.channel_id->Some_0;
        let s = snap->Some_0;
        match resolve(s.channels@, c) {
            Some(i) => if non_bot_count(s.voice_states@, c) == 0 && s.channels@[i].name@
                != d.spawner_name@ {
                Some((c, s.channels@[i].name@))
            } else {
                None
            },
            None => None,
        }
    } else {
        None
    }
}

/// The channel that rule A creates, as (guild, name, position, member to move):
/// when the member's new channel resolves to the spawner, a channel with the
/// spawned label at the spawner's position.
pub open spec fn creation_request(
    d: Designations,
    change: PresenceChange,
    snap: Option<GuildSnapshot>,
) -> Option<(u64, Seq<char>, u32, u64)> {
    if change.guild_id is Some && change.new.channel_id is Some && snap is Some {
        let c = change.new.channel_id->Some_0;
        let s = snap->Some_0;
        match resolve(s.channels@, c) {
            Some(i) => if s.channels@[i].name@ == d.spawner_name@ && 0 <= s.channels@[i].position
                <= u32::MAX {
                Some(
                    (
                        change.guild_id->Some_0,
                        d.spawned_channel_name@,
                        s.channels@[i].position as u32,
                        change.new.user_id,
                    ),
                )
            } else {
                None
            },
            None => None,
        }
    } else {
        None
    }
}

/// An optional borrowed snapshot as the snapshot itself.
pub open spec fn option_owned(snap: Option<&GuildSnapshot>) -> Option<GuildSnapshot> {
    match snap {
        Some(s) => Some(*s),
        None => None,
    }
}

pub open spec fn delete_view(r: Option<DeleteRequest>) -> Option<(u64, Seq<char>)> {
    match r {
        Some(q) => Some((q.channel_id, q.name@)),
        None => None,
    }
}

pub open spec fn create_view(r: Option<CreateRequest>) -> Option<(u64, Seq<char>, u32, u64)> {
    match r {
        Some(q) => Some((q.guild_id, q.name@, q.position, q.mover)),
        None => None,
    }
}

/// The move that follows a creation attempt: the member goes into the new
/// channel if it was created.
pub open spec fn move_after(
    created: Option<(u64, Seq<char>, u32, u64)>,
    new_channel: Option<u64>,
) -> Option<MoveRequest> {
    match (created, new_channel) {
        (Some(q), Some(id)) => Some(MoveRequest { guild_id: q.0, user_id: q.3, channel_id: id }),
        _ => None,
    }
}

/// Counts the non-bot members present in channel `channel_id`.
pub fn count_member(states: &Vec<VoiceStateSnapshot>, channel_id: u64) -> (r: usize)
    ensures
        r == non_bot_count(states@, channel_id),
{
    let mut n: usize = 0;
    let mut i: usize = 0;
    while i < states.len()
        invariant
            i <= states@.len(),
            n == non_bot_count(states@.subrange(0, i as int), channel_id),
            n <= i,
        decreases states.len() - i,
    {
        assert(states@.subrange(0, i + 1).drop_last() == states@.subrange(0, i as int));
        let s = states[i];
        if s.channel_id == Some(channel_id) && s.member_is_bot == Some(false) {
            n = n + 1;
        }
        i = i + 1;
    }
    assert(states@.subrange(0, states.len() as int) == states@);
    n
}

/// Finds the channel with id `id` in `chs`.
pub fn resolve_channel(chs: &Vec<ChannelInfo>, id: u64) -> (r: Option<usize>)
    ensures
        match r {
            Some(i) => resolve(chs@, id) == Some(i as int) && i < chs@.len(),
            None => resolve(chs@, id) is None,
        },
{
    let mut found: Option<usize> = None;
    let mut i: usize = 0;
    while i < chs.len()
        invariant
            i <= chs@.len(),
            match found {
                Some(k) => resolve(chs@.subrange(0, i as int), id) == Some(k as int) && k < i,
                None => resolve(chs@.subrange(0, i as int), id) is None,
            },
        decreases chs.len() - i,
    {
        assert(chs@.subrange(0, i + 1).drop_last() == chs@.subrange(0, i as int));
        if chs[i].id == id {
            found = Some(i);
        }
        i = i + 1;
    }
    assert(chs@.subrange(0, chs.len() as int) == chs@);
    found
}

/// Rule B: the deletion a presence change calls for. When the member's
/// previous channel is known and resolves in the snapshot, it is deleted if no
/// non-bot member remains in it and its name is not the spawner's. A missing
/// guild, snapshot or channel skips the rule.
pub fn plan_deletion(
    d: &Designations,
    change: &PresenceChange,
    snap: Option<&GuildSnapshot>,
) -> (r: Option<DeleteRequest>)
    ensures
        delete_view(r) == deletion_target(*d, *change, option_owned(snap)),
{
    if change.guild_id.is_none() {
        return None;
    }
    let old = match change.old {
        Some(o) => o,
        None => return None,
    };
    let c = match old.channel_id {
        Some(c) => c,
        None => return None,
    };
    let s = match snap {
        Some(s) => s,
        None => return None,
    };
    match resolve_channel(&s.channels, c) {
        Some(i) => {
            let name = &s.channels[i].name;
            if count_member(&s.voice_states, c) == 0 && *name != d.spawner_name {
                Some(DeleteRequest { channel_id: c, name: name.clone() })
            } else {
                None
            }
        },
        None => None,
    }
}

/// Rule A: the creation a presence change calls for. When the member's new
/// channel resolves to the spawner, a channel with the spawned label is
/// requested at the spawner's position, and the member is to be moved into it.
/// A missing guild, snapshot or channel, or a position outside `u32`, skips the rule.
pub fn plan_creation(
    d: &Designations,
    change: &PresenceChange,
    snap: Option<&GuildSnapshot>,
) -> (r: Option<CreateRequest>)
    ensures
        create_view(r) == creation_request(*d, *change, option_owned(snap)),
{
    let g = match change.guild_id {
        Some(g) => g,
        None => return None,
    };
    let c = match change.new.channel_id {
        Some(c) => c,
        None => return None,
    };
    let s = match snap {
        Some(s) => s,
        None => return None,
    };
    match resolve_channel(&s.channels, c) {
        Some(i) => {
            let joined = &s.channels[i];
            if joined.name == d.spawner_name && 0 <= joined.position && joined.position
                <= u32::MAX as i64 {
                Some(
                    CreateRequest {
                        guild_id: g,
                        name: d.spawned_channel_name.clone(),
                        position: joined.position as u32,
                        mover: change.new.user_id,
                    },
                )
            } else {
                None
            }
        },
        None => None,
    }
}

/// Both rules on one presence change, evaluated independently.
pub fn plan_presence(
    d: &Designations,
    change: &PresenceChange,
    snap: Option<&GuildSnapshot>,
) -> (r: PresencePlan)
    ensures
        delete_view(r.delete) == deletion_target(*d, *change, option_owned(snap)),
        create_view(r.create) == creation_request(*d, *change, option_owned(snap)),
{
    PresencePlan { delete: plan_deletion(d, change, snap), create: plan_creation(d, change, snap) }
}

/// The move that follows a creation attempt: `created` carries the new
/// channel's id, or the reason creation failed, in which case nothing is moved.
pub fn move_after_create<E>(req: &CreateRequest, created: Result<u64, E>) -> (r: Option<
    MoveRequest,
>)
    ensures
        r == move_after(
            create_view(Some(*req)),
            match created {
                Ok(id) => Some(id),
                Err(_) => None,
            },
        ),
{
    match created {
        Ok(id) => Some(MoveRequest { guild_id: req.guild_id, user_id: req.mover, channel_id: id }),
        Err(_) => None,
    }
}

/// The log line for a channel removed because it emptied.
pub fn deletion_log(name: &str) -> (r: String)
    ensures
        r@ == "Removed channel named: "@ + name@ + " due to no members left"@,
{
    let mut line = String::from_str("Removed channel named: ");
    line.append(name);
    line.append(" due to no members left");
    line
}

/// A resolved index lies in range and names a channel with the sought id.
pub proof fn lemma_resolve_found(chs: Seq<ChannelInfo>, id: u64)
    ensures
        resolve(chs, id) matches Some(i) ==> 0 <= i < chs.len() && chs[i].id == id,
    decreases chs.len(),
{
    if chs.len() > 0 && chs.last().id != id {
        lemma_resolve_found(chs.drop_last(), id);
    }
}

/// A member joining the spawner gets exactly one new channel, with the spawned
/// label and at the spawner's own position (shared positions are allowed), and
/// exactly one move, of that member into the channel once it exists.
pub proof fn lemma_spawner_join_creates_one_channel(
    d: Designations,
    change: PresenceChange,
    s: GuildSnapshot,
    new_channel: u64,
)
    requires
        change.guild_id is Some,
        change.new.channel_id is Some,
        resolve(s.channels@, change.new.channel_id->Some_0) is Some,
        s.channels@[resolve(s.channels@, change.new.channel_id->Some_0)->Some_0].name@
            == d.spawner_name@,
        0 <= s.channels@[resolve(s.channels@, change.new.channel_id->Some_0)->Some_0].position
            <= u32::MAX,
    ensures
        creation_request(d, change, Some(s)) == Some(
            (
                change.guild_id->Some_0,
                d.spawned_channel_name@,
                s.channels@[resolve(
                    s.channels@,
                    change.new.channel_id->Some_0,
                )->Some_0].position as u32,
                change.new.user_id,
            ),
        ),
        move_after(creation_request(d, change, Some(s)), Some(new_channel)) == Some(
            MoveRequest {
                guild_id: change.guild_id->Some_0,
                user_id: change.new.user_id,
                channel_id: new_channel,
            },
        ),
{
}

/// A previous channel left with no non-bot member is deleted, once, unless it
/// is the spawner; the spawner is never deleted, whatever its occupancy.
pub proof fn lemma_emptied_channel_deleted_unless_spawner(
    d: Designations,
    change: PresenceChange,
    s: GuildSnapshot,
)
    requires
        change.guild_id is Some,
        change.old is Some,
        change.old->Some_0.channel_id is Some,
        resolve(s.channels@, change.old->Some_0.channel_id->Some_0) is Some,
    ensures
        ({
            let c = change.old->Some_0.channel_id->Some_0;
            let name = s.channels@[resolve(s.channels@, c)->Some_0].name@;
            &&& (non_bot_count(s.voice_states@, c) == 0 && name != d.spawner_name@)
                ==> deletion_target(d, change, Some(s)) == Some((c, name))
            &&& name == d.spawner_name@ ==> deletion_target(d, change, Some(s)) is None
        }),
{
}

/// Only an empty channel that is not the spawner is ever deleted: a channel
/// with a non-bot member present stays.
pub proof fn lemma_deletion_only_of_empty_channels(
    d: Designations,
    change: PresenceChange,
    snap: Option<GuildSnapshot>,
)
    ensures
        deletion_target(d, change, snap) matches Some((c, name)) ==> {
            &&& snap is Some
            &&& change.old matches Some(o) && o.channel_id == Some(c)
            &&& non_bot_count(snap->Some_0.voice_states@, c) == 0
            &&& resolve(snap->Some_0.channels@, c) is Some
            &&& name == snap->Some_0.channels@[resolve(snap->Some_0.channels@, c)->Some_0].name@
            &&& name != d.spawner_name@
        },
{
}

/// The rules keep no record of earlier notifications: when the same
/// notification arrives again after a channel was added to the guild, it calls
/// for the same creation and the same deletion as the first time.
pub proof fn lemma_repeated_notification_not_deduplicated(
    d: Designations,
    change: PresenceChange,
    s1: GuildSnapshot,
    s2: GuildSnapshot,
    added: ChannelInfo,
)
    requires
        s2.channels@ == s1.channels@.push(added),
        s2.voice_states@ == s1.voice_states@,
        change.new.channel_id != Some(added.id),
        change.old matches Some(o) ==> o.channel_id != Some(added.id),
    ensures
        creation_request(d, change, Some(s2)) == creation_request(d, change, Some(s1)),
        deletion_target(d, change, Some(s2)) == deletion_target(d, change, Some(s1)),
{
    assert(s2.channels@.drop_last() == s1.channels@);
    if let Some(c) = change.new.channel_id {
        assert(resolve(s2.channels@, c) == resolve(s1.channels@, c));
        lemma_resolve_found(s1.channels@, c);
    }
    if let Some(o) = change.old {
        if let Some(c) = o.channel_id {
            assert(resolve(s2.channels@, c) == resolve(s1.channels@, c));
            lemma_resolve_found(s1.channels@, c);
        }
    }
}

} // verus!
