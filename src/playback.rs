use vstd::prelude::*;

use crate::settings::Designations;
use crate::text::{contains, seq_contains, seq_starts_with, starts_with};

verus! {

/// A chat message as the dispatcher sees it.
pub struct ChatMessage {
    /// The name of the text channel the message was posted in.
    pub channel_name: String,
    /// The message text.
    pub content: String,
    /// Whether the author is a bot account (this bot included).
    pub author_is_bot: bool,
}

/// Why fetching synthesized speech failed.
#[derive(Clone, Copy, Debug, PartialEq, Eq, Structural)]
pub enum SynthesisError {
    /// The request could not be delivered or its body could not be read.
    Unavailable,
    /// The service answered with a non-success status.
    Rejected,
}

/// Why an utterance was not played.
#[derive(Clone, Copy, Debug, PartialEq, Eq, Structural)]
pub enum PlaybackError {
    /// The synthesis service could not be reached or read.
    SynthesisUnavailable,
    /// The synthesis service refused the request.
    SynthesisRejected,
    /// The returned bytes are not audio the transport can decode.
    DecodeFailed,
    /// The guild has no voice session to play into.
    NoActiveSession,
}

/// Whether a message in channel `channel_name` with text `content` is to be read aloud.
pub open spec fn qualifies(
    d: Designations,
    channel_name: Seq<char>,
    content: Seq<char>,
    author_is_bot: bool,
) -> bool {
    &&& seq_contains(channel_name, d.listen_only_marker@)
    &&& !seq_starts_with(content, d.command_prefix@)
    &&& !author_is_bot
}

/// The playback error that a synthesis failure is reported as.
pub open spec fn synthesis_failure(e: SynthesisError) -> PlaybackError {
    match e {
        SynthesisError::Unavailable => PlaybackError::SynthesisUnavailable,
        SynthesisError::Rejected => PlaybackError::SynthesisRejected,
    }
}

/// What happens to a qualifying utterance once synthesis has answered: the
/// audio to hand to the guild's session, or the reason nothing is played.
pub open spec fn playback_outcome(
    fetched: Result<Seq<u8>, SynthesisError>,
    has_session: bool,
) -> Result<Seq<u8>, PlaybackError> {
    match fetched {
        Err(e) => Err(synthesis_failure(e)),
        Ok(audio) => if has_session {
            Ok(audio)
        } else {
            Err(PlaybackError::NoActiveSession)
        },
    }
}

/// A byte result seen through the view of its bytes.
pub open spec fn bytes_view<E>(r: Result<Vec<u8>, E>) -> Result<Seq<u8>, E> {
    match r {
        Ok(v) => Ok(v@),
        Err(e) => Err(e),
    }
}

/// The log line for an utterance that is being played.
pub open spec fn playing_line(content: Seq<char>) -> Seq<char> {
    "「"@ + content + "」を再生中"@
}

/// The log line for an utterance that could not be played.
pub open spec fn cannot_play_line(content: Seq<char>) -> Seq<char> {
    "「"@ + content + "」を再生できませんでした"@
}

/// The log line reporting how an utterance's playback ended.
pub open spec fn outcome_line<A>(content: Seq<char>, outcome: Result<A, PlaybackError>) -> Seq<
    char,
> {
    match outcome {
        Ok(_) => playing_line(content),
        Err(_) => cannot_play_line(content),
    }
}

/// Whether `msg` is to be read aloud: posted in a listen-only channel, not a
/// command, and not written by a bot.
pub fn should_speak(d: &Designations, msg: &ChatMessage) -> (r: bool)
    ensures
        r == qualifies(*d, msg.channel_name@, msg.content@, msg.author_is_bot),
{
    contains(msg.channel_name.as_str(), d.listen_only_marker.as_str())
        && !starts_with(msg.content.as_str(), d.command_prefix.as_str())
        && !msg.author_is_bot
}

/// Maps a synthesis failure to the playback error it is reported as.
pub fn from_synthesis(e: SynthesisError) -> (r: PlaybackError)
    ensures
        r == synthesis_failure(e),
{
    match e {
        SynthesisError::Unavailable => PlaybackError::SynthesisUnavailable,
        SynthesisError::Rejected => PlaybackError::SynthesisRejected,
    }
}

/// Decides what to do with the synthesis answer for one utterance: the fetched
/// bytes go to the guild's session when there is one; otherwise nothing is
/// submitted and the reason is returned. No retry, queueing or joining.
pub fn plan_playback(fetched: Result<Vec<u8>, SynthesisError>, has_session: bool) -> (r: Result<
    Vec<u8>,
    PlaybackError,
>)
    ensures
        bytes_view(r) == playback_outcome(bytes_view(fetched), has_session),
{
    match fetched {
        Err(e) => Err(from_synthesis(e)),
        Ok(audio) => if has_session {
            Ok(audio)
        } else {
            Err(PlaybackError::NoActiveSession)
        },
    }
}

/// The log line reporting how playback of `content` ended.
pub fn playback_log(content: &str, outcome: &Result<(), PlaybackError>) -> (r: String)
    ensures
        r@ == outcome_line(content@, *outcome),
{
    let mut line = String::from_str("「");
    line.append(content);
    match outcome {
        Ok(()) => line.append("」を再生中"),
        Err(_) => line.append("」を再生できませんでした"),
    }
    line
}

/// Audio handed to a guild's session is exactly what synthesis returned for
/// that utterance, and it is handed over whenever synthesis succeeded and the
/// guild has a session.
pub proof fn lemma_submitted_audio_is_synthesized_audio(
    fetched: Result<Seq<u8>, SynthesisError>,
    has_session: bool,
)
    ensures
        playback_outcome(fetched, has_session) is Ok ==> fetched == Ok::<Seq<u8>, SynthesisError>(
            playback_outcome(fetched, has_session)->Ok_0,
        ),
        (fetched is Ok && has_session) ==> playback_outcome(fetched, has_session) == Ok::<
            Seq<u8>,
            PlaybackError,
        >(fetched->Ok_0),
{
}

/// In a guild without a session a qualifying message never leads to a
/// submission, whatever synthesis answered; the only outcome is the line
/// reporting that the message could not be played.
pub proof fn lemma_no_session_never_submits(
    fetched: Result<Seq<u8>, SynthesisError>,
    content: Seq<char>,
)
    ensures
        playback_outcome(fetched, false) is Err,
        outcome_line(content, playback_outcome(fetched, false)) == cannot_play_line(content),
        fetched is Ok ==> playback_outcome(fetched, false) == Err::<Seq<u8>, PlaybackError>(
            PlaybackError::NoActiveSession,
        ),
{
}

} // verus!
