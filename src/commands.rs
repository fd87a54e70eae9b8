use vstd::prelude::*;

use crate::presence::VoiceStateSnapshot;

verus! {

/// The voice channel that member `user` is in, by the member's presence entry
/// (the last one, should entries repeat).
pub open spec fn voice_channel_of(states: Seq<VoiceStateSnapshot>, user: u64) -> Option<u64>
    decreases states.len(),
{
    if states.len() == 0 {
        None
    } else if states.last().user_id == user {
        states.last().channel_id
    } else {
        voice_channel_of(states.drop_last(), user)
    }
}

/// The voice channel that a command's caller is in: the channel the bot joins,
/// or the channel that is renamed. `None` means the caller must join voice first.
pub fn caller_voice_channel(states: &Vec<VoiceStateSnapshot>, user: u64) -> (r: Option<u64>)
    ensures
        r == voice_channel_of(states@, user),
{
    let mut found: Option<u64> = None;
    let mut i: usize = 0;
    while i < states.len()
        invariant
            i <= states@.len(),
            found == voice_channel_of(states@.subrange(0, i as int), user),
        decreases states.len() - i,
    {
        assert(states@.subrange(0, i + 1).drop_last() == states@.subrange(0, i as int));
        if states[i].user_id == user {
            found = states[i].channel_id;
        }
        i = i + 1;
    }
    assert(states@.subrange(0, states.len() as int) == states@);
    found
}

/// The reply to a caller who is not in a voice channel.
pub fn not_in_voice_reply() -> (r: String)
    ensures
        r@ == "先にVC入れアホ"@,
{
    String::from_str("先にVC入れアホ")
}

/// The reply confirming that the caller's channel was renamed to `new_name`.
pub fn rename_reply(new_name: &str) -> (r: String)
    ensures
        r@ == "チャンネル名を`"@ + new_name@ + "`に変更しました"@,
{
    let mut line = String::from_str("チャンネル名を`");
    line.append(new_name);
    line.append("`に変更しました");
    line
}

} // verus!
