//! The device command protocol: each high-level operation becomes a remote
//! bus ("ubus") call triple of path, method and message, where the message
//! is one JSON object serialized to a string — an encoding quirk the server
//! requires.  Object members are written in sorted key order.

use vstd::prelude::*;
use vstd::string::*;

use crate::text::{append_json_escaped, dec_nat, json_escaped, u64_dec};

verus! {

/// The player transitions this client can request.
#[derive(Clone, Copy, Debug, PartialEq, Eq, Structural)]
pub enum PlayState {
    Play,
    Pause,
    Stop,
    /// Switches between playing and paused.
    Toggle,
}

impl PlayState {
    /// The action word carried in the play-operation message.
    pub open spec fn spec_action(self) -> Seq<char> {
        match self {
            PlayState::Play => "play"@,
            PlayState::Pause => "pause"@,
            PlayState::Stop => "stop"@,
            PlayState::Toggle => "toggle"@,
        }
    }
}

/// One remote bus invocation: the device-side `path` and `method`, and the
/// serialized JSON `message` handed to it.
pub struct UbusCall {
    pub path: String,
    pub method: String,
    pub message: String,
}

// ---------------------------------------------------------------------------
// Message shapes
// ---------------------------------------------------------------------------

pub open spec fn spec_tts_message(text: Seq<char>) -> Seq<char> {
    "{\"text\":\""@ + json_escaped(text) + "\"}"@
}

/// The generic play-url message.  The `type` member controls pause/stop
/// behaviour in a firmware-dependent way; `3` is the one fixed value known
/// to work best across models, a documented limitation of the service.
pub open spec fn spec_play_url_message(url: Seq<char>) -> Seq<char> {
    "{\"media\":\"app_ios\",\"type\":3,\"url\":\""@ + json_escaped(url) + "\"}"@
}

/// The structured music-item message, with its fixed placeholder list and
/// item identifiers; only the stream url varies.
pub open spec fn spec_play_music_message(url: Seq<char>) -> Seq<char> {
    "{\"music\":{\"payload\":{\"audio_items\":[{\"item_id\":{\"audio_id\":\"1582971365183456177\",\"cp\":{\"album_id\":\"-1\",\"episode_index\":0,\"id\":\"355454500\",\"name\":\"xiaowei\"}},\"stream\":{\"url\":\""@
        + json_escaped(url)
        + "\"}}],\"list_params\":{\"listId\":\"-1\",\"loadmore_offset\":0,\"origin\":\"xiaowei\",\"type\":\"MUSIC\"}},\"play_behavior\":\"REPLACE_ALL\"},\"startaudioid\":\"1582971365183456177\"}"@
}

pub open spec fn spec_volume_message(volume: nat) -> Seq<char> {
    "{\"media\":\"app_ios\",\"volume\":"@ + dec_nat(volume) + "}"@
}

pub open spec fn spec_nlp_message(text: Seq<char>) -> Seq<char> {
    "{\"nlp\":1,\"nlp_text\":\""@ + json_escaped(text) + "\",\"tts\":1}"@
}

pub open spec fn spec_status_message() -> Seq<char> {
    "{\"media\":\"app_ios\"}"@
}

pub open spec fn spec_play_operation_message(state: PlayState) -> Seq<char> {
    "{\"action\":\""@ + state.spec_action() + "\",\"media\":\"app_ios\"}"@
}

pub open spec fn spec_seek_message(position: nat) -> Seq<char> {
    "{\"media\":\"app_ios\",\"position\":"@ + dec_nat(position) + "}"@
}

// ---------------------------------------------------------------------------
// Call builders
// ---------------------------------------------------------------------------

/// Asks the device to speak `text`.
pub fn tts_call(text: &str) -> (r: UbusCall)
    ensures
        r.path@ == "mibrain"@,
        r.method@ == "text_to_speech"@,
        r.message@ == spec_tts_message(text@),
{
    let mut m = String::from_str("{\"text\":\"");
    append_json_escaped(&mut m, text);
    m.append("\"}");
    assert(m@ =~= spec_tts_message(text@));
    UbusCall {
        path: String::from_str("mibrain"),
        method: String::from_str("text_to_speech"),
        message: m,
    }
}

/// Asks the device to play `url` through the generic player call.
pub fn play_url_call(url: &str) -> (r: UbusCall)
    ensures
        r.path@ == "mediaplayer"@,
        r.method@ == "player_play_url"@,
        r.message@ == spec_play_url_message(url@),
{
    let mut m = String::from_str("{\"media\":\"app_ios\",\"type\":3,\"url\":\"");
    append_json_escaped(&mut m, url);
    m.append("\"}");
    assert(m@ =~= spec_play_url_message(url@));
    UbusCall {
        path: String::from_str("mediaplayer"),
        method: String::from_str("player_play_url"),
        message: m,
    }
}

/// Asks the device to play `url` through the structured music-item call,
/// the form some hardware models require.
pub fn play_music_call(url: &str) -> (r: UbusCall)
    ensures
        r.path@ == "mediaplayer"@,
        r.method@ == "player_play_music"@,
        r.message@ == spec_play_music_message(url@),
{
    let mut m = String::from_str(
        "{\"music\":{\"payload\":{\"audio_items\":[{\"item_id\":{\"audio_id\":\"1582971365183456177\",\"cp\":{\"album_id\":\"-1\",\"episode_index\":0,\"id\":\"355454500\",\"name\":\"xiaowei\"}},\"stream\":{\"url\":\"",
    );
    append_json_escaped(&mut m, url);
    m.append(
        "\"}}],\"list_params\":{\"listId\":\"-1\",\"loadmore_offset\":0,\"origin\":\"xiaowei\",\"type\":\"MUSIC\"}},\"play_behavior\":\"REPLACE_ALL\"},\"startaudioid\":\"1582971365183456177\"}",
    );
    assert(m@ =~= spec_play_music_message(url@));
    UbusCall {
        path: String::from_str("mediaplayer"),
        method: String::from_str("player_play_music"),
        message: m,
    }
}

/// Asks the device to set the player volume.
pub fn set_volume_call(volume: u32) -> (r: UbusCall)
    ensures
        r.path@ == "mediaplayer"@,
        r.method@ == "player_set_volume"@,
        r.message@ == spec_volume_message(volume as nat),
{
    let mut m = String::from_str("{\"media\":\"app_ios\",\"volume\":");
    let num = u64_dec(volume as u64);
    m.append(num.as_str());
    m.append("}");
    assert(m@ =~= spec_volume_message(volume as nat));
    UbusCall {
        path: String::from_str("mediaplayer"),
        method: String::from_str("player_set_volume"),
        message: m,
    }
}

/// Hands `text` to the device's assistant, as if it had been asked aloud.
pub fn nlp_call(text: &str) -> (r: UbusCall)
    ensures
        r.path@ == "mibrain"@,
        r.method@ == "ai_service"@,
        r.message@ == spec_nlp_message(text@),
{
    let mut m = String::from_str("{\"nlp\":1,\"nlp_text\":\"");
    append_json_escaped(&mut m, text);
    m.append("\",\"tts\":1}");
    assert(m@ =~= spec_nlp_message(text@));
    UbusCall {
        path: String::from_str("mibrain"),
        method: String::from_str("ai_service"),
        message: m,
    }
}

/// Asks for the player status.
pub fn player_status_call() -> (r: UbusCall)
    ensures
        r.path@ == "mediaplayer"@,
        r.method@ == "player_get_play_status"@,
        r.message@ == spec_status_message(),
{
    UbusCall {
        path: String::from_str("mediaplayer"),
        method: String::from_str("player_get_play_status"),
        message: String::from_str("{\"media\":\"app_ios\"}"),
    }
}

/// Asks the device to change the play state.
pub fn play_operation_call(state: PlayState) -> (r: UbusCall)
    ensures
        r.path@ == "mediaplayer"@,
        r.method@ == "player_play_operation"@,
        r.message@ == spec_play_operation_message(state),
{
    let mut m = String::from_str("{\"action\":\"");
    match state {
        PlayState::Play => m.append("play"),
        PlayState::Pause => m.append("pause"),
        PlayState::Stop => m.append("stop"),
        PlayState::Toggle => m.append("toggle"),
    }
    m.append("\",\"media\":\"app_ios\"}");
    assert(m@ =~= spec_play_operation_message(state));
    UbusCall {
        path: String::from_str("mediaplayer"),
        method: String::from_str("player_play_operation"),
        message: m,
    }
}

/// Asks the device to seek to `position` (milliseconds).
pub fn seek_call(position: u32) -> (r: UbusCall)
    ensures
        r.path@ == "mediaplayer"@,
        r.method@ == "player_seek"@,
        r.message@ == spec_seek_message(position as nat),
{
    let mut m = String::from_str("{\"media\":\"app_ios\",\"position\":");
    let num = u64_dec(position as u64);
    m.append(num.as_str());
    m.append("}");
    assert(m@ =~= spec_seek_message(position as nat));
    UbusCall {
        path: String::from_str("mediaplayer"),
        method: String::from_str("player_seek"),
        message: m,
    }
}

// ---------------------------------------------------------------------------
// Hardware-dependent playback routing
// ---------------------------------------------------------------------------

/// The fixed compatibility list: hardware models whose firmware honours
/// only the structured music-item form of "play this url".  This is
/// explicit, recorded compatibility data, not behaviour inferred at
/// runtime.
pub open spec fn spec_needs_music_call(hardware: Seq<char>) -> bool {
    ||| hardware == "LX04"@
    ||| hardware == "L05B"@
    ||| hardware == "L05C"@
    ||| hardware == "L06"@
    ||| hardware == "L06A"@
    ||| hardware == "X08A"@
    ||| hardware == "X10A"@
}

/// Whether `hardware` is on the compatibility list.
pub fn needs_music_call(hardware: &str) -> (r: bool)
    ensures
        r == spec_needs_music_call(hardware@),
{
    crate::text::str_eq(hardware, "LX04") || crate::text::str_eq(hardware, "L05B")
        || crate::text::str_eq(hardware, "L05C") || crate::text::str_eq(hardware, "L06")
        || crate::text::str_eq(hardware, "L06A") || crate::text::str_eq(hardware, "X08A")
        || crate::text::str_eq(hardware, "X10A")
}

/// Routes "play this url" by hardware model: a model on the compatibility
/// list always gets the structured music-item call, and any other model
/// always gets the generic play-url call.
pub fn play_url_call_for(hardware: &str, url: &str) -> (r: UbusCall)
    ensures
        r.path@ == "mediaplayer"@,
        spec_needs_music_call(hardware@) ==> r.method@ == "player_play_music"@ && r.message@
            == spec_play_music_message(url@),
        !spec_needs_music_call(hardware@) ==> r.method@ == "player_play_url"@ && r.message@
            == spec_play_url_message(url@),
{
    if needs_music_call(hardware) {
        play_music_call(url)
    } else {
        play_url_call(url)
    }
}

} // verus!
