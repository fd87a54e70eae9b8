use vstd::prelude::*;

verus! {

/// The names by which the bot recognises its special channels and commands.
pub struct Designations {
    /// A voice channel with exactly this name spawns a fresh channel on join.
    pub spawner_name: String,
    /// A text channel whose name holds this marker is read aloud.
    pub listen_only_marker: String,
    /// Messages starting with this prefix are commands, never read aloud.
    pub command_prefix: String,
    /// The fixed label given to every spawned channel.
    pub spawned_channel_name: String,
}

/// The endpoint of the speech-synthesis service; the utterance follows it.
pub open spec fn synthesis_endpoint() -> Seq<char> {
    "http://localhost:8080/voice?text="@
}

impl Designations {
    /// The designations the bot is deployed with.
    pub fn standard() -> (r: Designations)
        ensures
            r.spawner_name@ == "test"@,
            r.listen_only_marker@ == "聞き専"@,
            r.command_prefix@ == "r/"@,
            r.spawned_channel_name@ == "my-test-channel"@,
    {
        Designations {
            spawner_name: String::from_str("test"),
            listen_only_marker: String::from_str("聞き専"),
            command_prefix: String::from_str("r/"),
            spawned_channel_name: String::from_str("my-test-channel"),
        }
    }
}

/// Builds the synthesis request address for one utterance: the utterance is
/// appended to the endpoint as the `text` query parameter, unescaped.
pub fn synthesis_url(utterance: &str) -> (r: String)
    ensures
        r@ == synthesis_endpoint() + utterance@,
{
    let mut url = String::from_str("http://localhost:8080/voice?text=");
    url.append(utterance);
    url
}

} // verus!
