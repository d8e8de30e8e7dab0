use cookie_store::{CookieStore, RawCookie};

use miai::error::Error;
use miai::request::HttpMethod;
use miai::response::DeviceInfo;
use miai::session::Xiaoai;

fn cookie_triples(store: &CookieStore) -> Vec<(String, String, String)> {
    let mut v: Vec<(String, String, String)> = store
        .iter_any()
        .map(|c| (
            String::from(&c.domain),
            c.name().to_string(),
            c.value().to_string(),
        ))
        .collect();
    v.sort();
    v
}

fn sample_store() -> CookieStore {
    let url = reqwest::Url::parse("https://account.xiaomi.com/pass/").unwrap();
    let mut store = CookieStore::new();
    store
        .insert_raw(&RawCookie::new("serviceToken", "tok-abc123"), &url)
        .unwrap();
    store
        .insert_raw(&RawCookie::new("userId", "98765"), &url)
        .unwrap();
    let api = reqwest::Url::parse("https://api2.mina.mi.com/").unwrap();
    store
        .insert_raw(&RawCookie::new("sdkVersion", "3.9"), &api)
        .unwrap();
    store
}

#[test]
fn save_load_round_trip_preserves_cookies() {
    let session = Xiaoai::from_store(sample_store());
    let bytes = session.save().unwrap();
    let reloaded = Xiaoai::load(&bytes).unwrap();
    let before = cookie_triples(&session.into_cookie_store());
    let after = cookie_triples(&reloaded.into_cookie_store());
    assert_eq!(before, after);
    assert_eq!(before.len(), 3);
}

#[test]
fn reload_preserves_cookies() {
    let session = Xiaoai::from_store(sample_store());
    let reloaded = session.reload().unwrap();
    let before = cookie_triples(&session.into_cookie_store());
    let after = cookie_triples(&reloaded.into_cookie_store());
    assert_eq!(before, after);
}

#[test]
fn save_writes_one_json_document() {
    let session = Xiaoai::from_store(sample_store());
    let bytes = session.save().unwrap();
    let v: serde_json::Value = serde_json::from_slice(&bytes).unwrap();
    assert_eq!(v.as_array().unwrap().len(), 3);
}

#[test]
fn load_rejects_garbage() {
    let r = Xiaoai::load(b"not a cookie file");
    assert!(matches!(r, Err(Error::Cookie(_))));
}

#[test]
fn get_appends_request_id_after_existing_query() {
    let x = Xiaoai::from_store(CookieStore::new());
    let q = x.get("admin/v2/device_list?master=0");
    assert_eq!(q.method, HttpMethod::Get);
    assert!(q.form.is_empty());
    let prefix = "https://api2.mina.mi.com/admin/v2/device_list?master=0&requestId=app_ios_";
    assert!(q.url.starts_with(prefix), "url was {}", q.url);
    assert_eq!(q.url.len(), prefix.len() + 30);
    assert!(q.url[prefix.len()..].chars().all(|c| c.is_ascii_alphanumeric()));
}

#[test]
fn get_starts_query_when_path_has_none() {
    let x = Xiaoai::from_store(CookieStore::new());
    let q = x.get("remote/ubus");
    assert!(q.url.starts_with("https://api2.mina.mi.com/remote/ubus?requestId=app_ios_"));
}

#[test]
fn device_info_request_shape() {
    let x = Xiaoai::from_store(CookieStore::new());
    let q = x.device_info_request();
    assert_eq!(q.method, HttpMethod::Get);
    assert!(q.url.starts_with(
        "https://api2.mina.mi.com/admin/v2/device_list?master=0&requestId=app_ios_"
    ));
}

#[test]
fn post_appends_request_id_field() {
    let x = Xiaoai::from_store(CookieStore::new());
    let form = vec![("k".to_string(), "v".to_string())];
    let q = x.post("some/path", form);
    assert_eq!(q.method, HttpMethod::Post);
    assert_eq!(q.url, "https://api2.mina.mi.com/some/path");
    assert_eq!(q.form.len(), 2);
    assert_eq!(q.form[0], ("k".to_string(), "v".to_string()));
    assert_eq!(q.form[1].0, "requestId");
    assert!(q.form[1].1.starts_with("app_ios_"));
    assert_eq!(q.form[1].1.len(), 38);
}

#[test]
fn post_replaces_caller_request_id() {
    let x = Xiaoai::from_store(CookieStore::new());
    let form = vec![
        ("requestId".to_string(), "bogus".to_string()),
        ("k".to_string(), "v".to_string()),
    ];
    let q = x.post("some/path", form);
    assert_eq!(q.form.len(), 2);
    assert_eq!(q.form[0], ("k".to_string(), "v".to_string()));
    assert_eq!(q.form[1].0, "requestId");
    assert!(q.form[1].1.starts_with("app_ios_"));
    assert_ne!(q.form[1].1, "bogus");
    assert_eq!(q.form.iter().filter(|p| p.0 == "requestId").count(), 1);
}

#[test]
fn ubus_call_form_fields() {
    let x = Xiaoai::from_store(CookieStore::new());
    let q = x.ubus_call("dev-1", "mediaplayer", "player_play_url", "{}");
    assert_eq!(q.method, HttpMethod::Post);
    assert_eq!(q.url, "https://api2.mina.mi.com/remote/ubus");
    assert_eq!(q.form.len(), 5);
    assert_eq!(q.form[0], ("deviceId".to_string(), "dev-1".to_string()));
    assert_eq!(q.form[1], ("method".to_string(), "player_play_url".to_string()));
    assert_eq!(q.form[2], ("path".to_string(), "mediaplayer".to_string()));
    assert_eq!(q.form[3], ("message".to_string(), "{}".to_string()));
    assert_eq!(q.form[4].0, "requestId");
}

#[test]
fn tts_request_carries_message() {
    let x = Xiaoai::from_store(CookieStore::new());
    let q = x.tts("dev-1", "hi");
    assert_eq!(q.form[1], ("method".to_string(), "text_to_speech".to_string()));
    assert_eq!(q.form[2], ("path".to_string(), "mibrain".to_string()));
    assert_eq!(q.form[3], ("message".to_string(), "{\"text\":\"hi\"}".to_string()));
}

#[test]
fn routed_request_uses_device_fields() {
    let x = Xiaoai::from_store(CookieStore::new());
    let dev = DeviceInfo {
        device_id: "dev-9".to_string(),
        name: "Speaker".to_string(),
        hardware: "LX04".to_string(),
    };
    let q = x.play_url_for(&dev, "http://s/a.mp3");
    assert_eq!(q.form[0], ("deviceId".to_string(), "dev-9".to_string()));
    assert_eq!(q.form[1], ("method".to_string(), "player_play_music".to_string()));
}

#[test]
fn request_id_shape() {
    let id = miai::request::random_request_id();
    assert_eq!(id.len(), 38);
    assert!(id.starts_with("app_ios_"));
    assert!(id[8..].chars().all(|c| c.is_ascii_alphanumeric()));
}

#[test]
fn random_id_length_and_alphabet() {
    let id = miai::request::random_id(30);
    assert_eq!(id.len(), 30);
    assert!(id.chars().all(|c| c.is_ascii_alphanumeric()));
    assert_ne!(miai::request::random_id(30), miai::request::random_id(30));
}
