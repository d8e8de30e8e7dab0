use miai::commands::{
    needs_music_call, nlp_call, play_music_call, play_operation_call, play_url_call,
    play_url_call_for, player_status_call, seek_call, set_volume_call, tts_call, PlayState,
};

#[test]
fn tts_message_exact() {
    let c = tts_call("hello");
    assert_eq!(c.path, "mibrain");
    assert_eq!(c.method, "text_to_speech");
    assert_eq!(c.message, "{\"text\":\"hello\"}");
}

#[test]
fn tts_escaping_matches_reference_encoder() {
    let text = "he said \"hi\\\" \u{8}\t\n\u{c}\r\u{1}\u{1f} 漢字";
    let c = tts_call(text);
    let expected = format!("{{\"text\":{}}}", serde_json::to_string(text).unwrap());
    assert_eq!(c.message, expected);
}

#[test]
fn play_url_message_exact() {
    let c = play_url_call("http://x/a.mp3");
    assert_eq!(c.path, "mediaplayer");
    assert_eq!(c.method, "player_play_url");
    assert_eq!(c.message, "{\"media\":\"app_ios\",\"type\":3,\"url\":\"http://x/a.mp3\"}");
}

#[test]
fn play_url_message_is_valid_json() {
    let c = play_url_call("http://x/\"quoted\".mp3");
    let v: serde_json::Value = serde_json::from_str(&c.message).unwrap();
    assert_eq!(v.get("media").unwrap().as_str().unwrap(), "app_ios");
    assert_eq!(v.get("type").unwrap().as_i64().unwrap(), 3);
    assert_eq!(v.get("url").unwrap().as_str().unwrap(), "http://x/\"quoted\".mp3");
}

#[test]
fn play_music_message_structure() {
    let c = play_music_call("http://song.example/s.mp3");
    assert_eq!(c.path, "mediaplayer");
    assert_eq!(c.method, "player_play_music");
    let v: serde_json::Value = serde_json::from_str(&c.message).unwrap();
    assert_eq!(
        v.get("startaudioid").unwrap().as_str().unwrap(),
        "1582971365183456177"
    );
    let music = v.get("music").unwrap();
    assert_eq!(
        music.get("play_behavior").unwrap().as_str().unwrap(),
        "REPLACE_ALL"
    );
    let payload = music.get("payload").unwrap();
    let items = payload.get("audio_items").unwrap().as_array().unwrap();
    assert_eq!(items.len(), 1);
    let item = &items[0];
    assert_eq!(
        item.get("stream").unwrap().get("url").unwrap().as_str().unwrap(),
        "http://song.example/s.mp3"
    );
    let item_id = item.get("item_id").unwrap();
    assert_eq!(
        item_id.get("audio_id").unwrap().as_str().unwrap(),
        "1582971365183456177"
    );
    let cp = item_id.get("cp").unwrap();
    assert_eq!(cp.get("album_id").unwrap().as_str().unwrap(), "-1");
    assert_eq!(cp.get("episode_index").unwrap().as_i64().unwrap(), 0);
    assert_eq!(cp.get("id").unwrap().as_str().unwrap(), "355454500");
    assert_eq!(cp.get("name").unwrap().as_str().unwrap(), "xiaowei");
    let lp = payload.get("list_params").unwrap();
    assert_eq!(lp.get("listId").unwrap().as_str().unwrap(), "-1");
    assert_eq!(lp.get("loadmore_offset").unwrap().as_i64().unwrap(), 0);
    assert_eq!(lp.get("origin").unwrap().as_str().unwrap(), "xiaowei");
    assert_eq!(lp.get("type").unwrap().as_str().unwrap(), "MUSIC");
}

#[test]
fn volume_message_exact() {
    let c = set_volume_call(25);
    assert_eq!(c.path, "mediaplayer");
    assert_eq!(c.method, "player_set_volume");
    assert_eq!(c.message, "{\"media\":\"app_ios\",\"volume\":25}");
}

#[test]
fn volume_message_zero_and_max() {
    assert_eq!(set_volume_call(0).message, "{\"media\":\"app_ios\",\"volume\":0}");
    assert_eq!(
        set_volume_call(u32::MAX).message,
        "{\"media\":\"app_ios\",\"volume\":4294967295}"
    );
}

#[test]
fn nlp_message_exact() {
    let c = nlp_call("what time is it");
    assert_eq!(c.path, "mibrain");
    assert_eq!(c.method, "ai_service");
    assert_eq!(c.message, "{\"nlp\":1,\"nlp_text\":\"what time is it\",\"tts\":1}");
}

#[test]
fn status_message_exact() {
    let c = player_status_call();
    assert_eq!(c.path, "mediaplayer");
    assert_eq!(c.method, "player_get_play_status");
    assert_eq!(c.message, "{\"media\":\"app_ios\"}");
}

#[test]
fn play_operation_messages() {
    let c = play_operation_call(PlayState::Play);
    assert_eq!(c.path, "mediaplayer");
    assert_eq!(c.method, "player_play_operation");
    assert_eq!(c.message, "{\"action\":\"play\",\"media\":\"app_ios\"}");
    assert_eq!(
        play_operation_call(PlayState::Pause).message,
        "{\"action\":\"pause\",\"media\":\"app_ios\"}"
    );
    assert_eq!(
        play_operation_call(PlayState::Stop).message,
        "{\"action\":\"stop\",\"media\":\"app_ios\"}"
    );
    assert_eq!(
        play_operation_call(PlayState::Toggle).message,
        "{\"action\":\"toggle\",\"media\":\"app_ios\"}"
    );
}

#[test]
fn seek_message_exact() {
    let c = seek_call(93000);
    assert_eq!(c.path, "mediaplayer");
    assert_eq!(c.method, "player_seek");
    assert_eq!(c.message, "{\"media\":\"app_ios\",\"position\":93000}");
}

#[test]
fn play_url_routes_listed_models_through_music_call() {
    for hw in ["LX04", "L05B", "L05C", "L06", "L06A", "X08A", "X10A"] {
        assert!(needs_music_call(hw));
        let c = play_url_call_for(hw, "http://s/a.mp3");
        assert_eq!(c.method, "player_play_music");
        assert!(c.message.contains("startaudioid"));
    }
}

#[test]
fn play_url_generic_for_unlisted_model() {
    for hw in ["L09A", "LX05", "", "lx04", "LX040"] {
        assert!(!needs_music_call(hw));
        let c = play_url_call_for(hw, "http://s/a.mp3");
        assert_eq!(c.method, "player_play_url");
        assert_eq!(c.message, "{\"media\":\"app_ios\",\"type\":3,\"url\":\"http://s/a.mp3\"}");
    }
}
