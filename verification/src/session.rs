//! The session: one authenticated identity, held as a cookie jar, with the
//! generic signed request builders and the persistence of the jar.

use vstd::prelude::*;
use vstd::string::*;

use crate::commands::{
    spec_nlp_message, spec_play_music_message, spec_play_operation_message,
    spec_play_url_message, spec_seek_message, spec_status_message, spec_tts_message,
    spec_volume_message, nlp_call, play_music_call, play_operation_call, play_url_call,
    play_url_call_for, player_status_call, seek_call, set_volume_call, spec_needs_music_call,
    tts_call, PlayState, UbusCall,
};
use crate::error::Error;
use crate::request::{
    form_view, is_request_id, lemma_without_request_id_free, lemma_without_request_id_identity,
    random_request_id, spec_with_param, with_param, without_request_id, HttpMethod, HttpRequest,
};
use crate::response::DeviceInfo;
use crate::text::is_trimmable_char;

verus! {

#[verifier::external_type_specification]
#[verifier::external_body]
pub struct ExCookieStore(cookie_store::CookieStore);

/// The cookies a store holds, each as its (domain, name, value) triple.
/// This is the collection's contents; every jar wrapper speaks over it.
pub uninterp spec fn cookie_set_of(store: cookie_store::CookieStore) -> Set<
    (Seq<char>, Seq<char>, Seq<char>),
>;

/// What `cookie_store::serde::json::load_all` makes of a saved jar
/// document: the cookie set the bytes denote, or `None` where the reader
/// rejects them.  A function of the bytes alone.
pub uninterp spec fn json_cookie_set(bytes: Seq<u8>) -> Option<
    Set<(Seq<char>, Seq<char>, Seq<char>)>,
>;

/// The host that login cookies are attached to.
pub open spec fn spec_login_domain() -> Seq<char> {
    "account.xiaomi.com"@
}

/// A cookie name that the saved document preserves verbatim.  The document
/// stores each cookie as its `Set-Cookie` text, and the reader splits that
/// text at `;`, cuts the name at the first `=`, rejects an empty name, and
/// trims outer whitespace — so a name survives exactly when it is
/// non-empty, free of `;` and `=`, and not wrapped in trimmable
/// whitespace.
pub open spec fn wf_cookie_name(s: Seq<char>) -> bool {
    &&& s.len() > 0
    &&& forall|i: int| 0 <= i < s.len() ==> #[trigger] s[i] != ';' && s[i] != '='
    &&& !is_trimmable_char(s[0])
    &&& !is_trimmable_char(s[s.len() - 1])
}

/// A cookie value that the saved document preserves verbatim: free of `;`
/// (the reader cuts there) and not wrapped in trimmable whitespace.
pub open spec fn wf_cookie_value(s: Seq<char>) -> bool {
    &&& forall|i: int| 0 <= i < s.len() ==> #[trigger] s[i] != ';'
    &&& s.len() > 0 ==> !is_trimmable_char(s[0]) && !is_trimmable_char(s[s.len() - 1])
}

/// A cookie set that the save format keeps faithfully.
pub open spec fn wf_cookie_set(s: Set<(Seq<char>, Seq<char>, Seq<char>)>) -> bool {
    forall|t: (Seq<char>, Seq<char>, Seq<char>)|
        #[trigger] s.contains(t) ==> wf_cookie_name(t.1) && wf_cookie_value(t.2)
}

/// Relies on `cookie_store::CookieStore::new`: a fresh store holds no
/// cookies.
#[verifier::external_body]
pub(crate) fn new_cookie_store() -> (r: cookie_store::CookieStore)
    ensures
        cookie_set_of(r) == Set::<(Seq<char>, Seq<char>, Seq<char>)>::empty(),
{
    cookie_store::CookieStore::new()
}

/// Relies on `cookie_store::CookieStore::insert_raw`: inserting a plain
/// session cookie received from the login url adds exactly that cookie,
/// keyed under the login host.  The insertion cannot be refused: the
/// cookie is host-only on the very host of the fixed https url (so the
/// scheme, domain-match, public-suffix and unspecified-domain rejections
/// are all unreachable), it carries no expiry, and the precondition rules
/// out an existing cookie of the same name, which removes the remaining
/// paths through the store's update logic.  The well-formedness bounds
/// keep the inserted pair within what the persistence format preserves.
#[verifier::external_body]
pub(crate) fn insert_login_cookie(
    store: &mut cookie_store::CookieStore,
    name: &str,
    value: &str,
) -> (r: Result<(), String>)
    requires
        wf_cookie_name(name@),
        wf_cookie_value(value@),
        forall|v: Seq<char>|
            !cookie_set_of(*old(store)).contains((spec_login_domain(), name@, v)),
    ensures
        r is Ok,
        cookie_set_of(*final(store)) == cookie_set_of(*old(store)).insert(
            (spec_login_domain(), name@, value@),
        ),
{
    let url = reqwest::Url::parse("https://account.xiaomi.com/pass/").unwrap();
    let cookie = cookie_store::RawCookie::new(name.to_owned(), value.to_owned());
    match store.insert_raw(&cookie, &url) {
        Ok(_) => Ok(()),
        Err(e) => Err(format!("{}", e)),
    }
}

/// Relies on the derived `CookieStore::clone`: the copy holds exactly the
/// cookies of the store it was taken from.
#[verifier::external_body]
pub(crate) fn clone_cookie_store(store: &cookie_store::CookieStore) -> (r:
    cookie_store::CookieStore)
    ensures
        cookie_set_of(r) == cookie_set_of(*store),
{
    store.clone()
}

/// Relies on `cookie_store::serde::json::save_incl_expired_and_nonpersistent`
/// together with `load_all`.  The writer receives one JSON document
/// listing every cookie of the store — expired and session-only ones
/// included.  Writing cannot fail: the cookies serialize through derived
/// implementations into an in-memory vector, with no failing path.  Each
/// cookie's name and value travel inside its `Set-Cookie` text, which the
/// reader re-parses; only for a store of well-formed names and values
/// (see `wf_cookie_name`) does the document denote exactly the store's
/// set — a value holding `;`, or one wrapped in whitespace, reads back
/// changed, and nothing is promised of it here.
#[verifier::external_body]
pub(crate) fn save_cookies(store: &cookie_store::CookieStore) -> (r: Result<Vec<u8>, String>)
    ensures
        r is Ok,
        r matches Ok(b) ==> wf_cookie_set(cookie_set_of(*store)) ==> json_cookie_set(b@)
            == Some(cookie_set_of(*store)),
{
    let mut out: Vec<u8> = Vec::new();
    match cookie_store::serde::json::save_incl_expired_and_nonpersistent(store, &mut out) {
        Ok(()) => Ok(out),
        Err(e) => Err(format!("{}", e)),
    }
}

/// Relies on `cookie_store::serde::json::load_all`: reading succeeds
/// exactly when the bytes denote a cookie collection, and then rebuilds a
/// store holding exactly the denoted cookies, expired ones included.  The
/// reader's own parsing leaves every name and value well-formed: names
/// are cut before `=`, both are cut at `;` and trimmed, and empty names
/// are rejected.
#[verifier::external_body]
pub(crate) fn load_cookies(bytes: &[u8]) -> (r: Result<cookie_store::CookieStore, String>)
    ensures
        r is Ok <==> json_cookie_set(bytes@) is Some,
        r matches Ok(s) ==> Some(cookie_set_of(s)) == json_cookie_set(bytes@) && wf_cookie_set(
            cookie_set_of(s),
        ),
{
    match cookie_store::serde::json::load_all(bytes) {
        Ok(s) => Ok(s),
        Err(e) => Err(format!("{}", e)),
    }
}

/// The base url of the device-control API host.
pub open spec fn spec_api_url(path: Seq<char>) -> Seq<char> {
    "https://api2.mina.mi.com/"@ + path
}

fn api_url(path: &str) -> (r: String)
    ensures
        r@ == spec_api_url(path@),
{
    let mut r = String::from_str("https://api2.mina.mi.com/");
    r.append(path);
    r
}

/// What every remote bus request looks like: a POST to `remote/ubus` whose
/// form carries the device, the call triple, and a fresh request id.
pub open spec fn spec_ubus_request(
    r: HttpRequest,
    device_id: Seq<char>,
    path: Seq<char>,
    method: Seq<char>,
    message: Seq<char>,
) -> bool {
    &&& r.method == HttpMethod::Post
    &&& r.url@ == spec_api_url("remote/ubus"@)
    &&& r.form@.len() == 5
    &&& form_view(r.form@)[0] == ("deviceId"@, device_id)
    &&& form_view(r.form@)[1] == ("method"@, method)
    &&& form_view(r.form@)[2] == ("path"@, path)
    &&& form_view(r.form@)[3] == ("message"@, message)
    &&& form_view(r.form@)[4].0 == "requestId"@
    &&& is_request_id(form_view(r.form@)[4].1)
}

/// One account's session: the cookie jar is the single source of truth for
/// the authentication state, and every request built here is meant to be
/// sent by a transport bound to that jar.
pub struct Xiaoai {
    store: cookie_store::CookieStore,
}

impl Xiaoai {
    /// The cookies of this session's jar.
    pub closed spec fn spec_cookies(&self) -> Set<(Seq<char>, Seq<char>, Seq<char>)> {
        cookie_set_of(self.store)
    }

    /// Wraps an already-authenticated jar as a session.
    pub fn from_store(store: cookie_store::CookieStore) -> (r: Xiaoai)
        ensures
            r.spec_cookies() == cookie_set_of(store),
    {
        Xiaoai { store }
    }

    /// Hands the jar back, for a transport to own.
    pub fn into_cookie_store(self) -> (r: cookie_store::CookieStore)
        ensures
            cookie_set_of(r) == self.spec_cookies(),
    {
        self.store
    }

    /// A copy of the jar with the same cookies, for a transport to own
    /// while this session keeps building requests.
    pub fn cookie_store(&self) -> (r: cookie_store::CookieStore)
        ensures
            cookie_set_of(r) == self.spec_cookies(),
    {
        clone_cookie_store(&self.store)
    }

    /// Serializes the whole jar — expired and session-only cookies included
    /// — as one plaintext JSON document, and never fails.  For a jar of
    /// well-formed cookies the document denotes exactly the jar's cookie
    /// set.  The session token is recoverable from the bytes; the caller
    /// is responsible for protecting them.
    pub fn save(&self) -> (r: Result<Vec<u8>, Error>)
        ensures
            r is Ok,
            r matches Ok(b) ==> wf_cookie_set(self.spec_cookies()) ==> json_cookie_set(b@)
                == Some(self.spec_cookies()),
    {
        match save_cookies(&self.store) {
            Ok(b) => Ok(b),
            Err(m) => Err(Error::Cookie(m)),
        }
    }

    /// Rebuilds a session from a saved jar document: it succeeds exactly
    /// when the bytes denote a cookie collection, and then holds exactly
    /// the denoted cookies.  Nothing checks that the server still accepts
    /// the session: the first real request may fail with an
    /// authentication error, which means "log in again".
    pub fn load(bytes: &[u8]) -> (r: Result<Xiaoai, Error>)
        ensures
            r is Ok <==> json_cookie_set(bytes@) is Some,
            r matches Ok(x) ==> Some(x.spec_cookies()) == json_cookie_set(bytes@)
                && wf_cookie_set(x.spec_cookies()),
            r matches Err(e) ==> e is Cookie,
    {
        match load_cookies(bytes) {
            Ok(s) => Ok(Xiaoai { store: s }),
            Err(m) => Err(Error::Cookie(m)),
        }
    }

    /// Saving and then loading reconstructs a jar with an equal set of
    /// cookies — the same domains, names and values, whatever their
    /// expiry flags were — and is owed to succeed for any jar of
    /// well-formed cookies: names non-empty and free of `;`/`=`, values
    /// free of `;`, neither wrapped in whitespace — everything the login
    /// flow ever stores.
    pub fn reload(&self) -> (r: Result<Xiaoai, Error>)
        ensures
            wf_cookie_set(self.spec_cookies()) ==> r is Ok,
            r matches Ok(x) ==> wf_cookie_set(self.spec_cookies()) ==> x.spec_cookies()
                == self.spec_cookies(),
            r matches Err(e) ==> e is Cookie,
    {
        match self.save() {
            Ok(bytes) => Xiaoai::load(bytes.as_slice()),
            Err(e) => Err(e),
        }
    }

    /// Builds the generic signed GET request: the path joined to the API
    /// host, with a fresh request identifier as query parameter.
    pub fn get(&self, uri: &str) -> (r: HttpRequest)
        ensures
            r.method == HttpMethod::Get,
            r.form@.len() == 0,
            exists|id: Seq<char>|
                #[trigger] is_request_id(id) && r.url@ == spec_with_param(
                    spec_api_url(uri@),
                    "requestId"@,
                    id,
                ),
    {
        let base = api_url(uri);
        let rid = random_request_id();
        let url = with_param(base.as_str(), "requestId", rid.as_str());
        let r = HttpRequest { method: HttpMethod::Get, url, form: Vec::new() };
        proof {
            assert(is_request_id(rid@) && r.url@ == spec_with_param(
                spec_api_url(uri@),
                "requestId"@,
                rid@,
            ));
        }
        r
    }

    /// Builds the generic signed POST request: the caller's form fields in
    /// order, then exactly one fresh request identifier field.  The
    /// request layer owns that field — a `requestId` field the caller
    /// handed in is replaced, not sent beside the fresh one.
    pub fn post(&self, uri: &str, form: Vec<(String, String)>) -> (r: HttpRequest)
        ensures
            r.method == HttpMethod::Post,
            r.url@ == spec_api_url(uri@),
            r.form@.len() == without_request_id(form@).len() + 1,
            r.form@.take(without_request_id(form@).len() as int) == without_request_id(form@),
            form_view(r.form@)[r.form@.len() - 1].0 == "requestId"@,
            is_request_id(form_view(r.form@)[r.form@.len() - 1].1),
            forall|i: int|
                0 <= i < r.form@.len() - 1 ==> form_view(r.form@)[i].0 != "requestId"@,
    {
        let mut kept: Vec<(String, String)> = Vec::new();
        let n = form.len();
        let mut i: usize = 0;
        assert(form@.skip(0) == form@);
        while i < n
            invariant
                n == form@.len(),
                i <= n,
                kept@ + without_request_id(form@.skip(i as int)) == without_request_id(form@),
            decreases n - i,
        {
            proof {
                assert(form@.skip(i as int)[0] == form@[i as int]);
                assert(form@.skip(i as int).drop_first() == form@.skip(i as int + 1));
            }
            let pair = &form[i];
            if !crate::text::str_eq(pair.0.as_str(), "requestId") {
                kept.push((pair.0.clone(), pair.1.clone()));
                assert(kept@.last() == form@[i as int]);
            }
            i = i + 1;
        }
        assert(form@.skip(n as int) =~= Seq::<(String, String)>::empty());
        assert(kept@ =~= without_request_id(form@));
        let rid = random_request_id();
        let mut f = kept;
        f.push((String::from_str("requestId"), rid));
        let r = HttpRequest { method: HttpMethod::Post, url: api_url(uri), form: f };
        proof {
            lemma_without_request_id_free(form@);
            assert(r.form@.take(without_request_id(form@).len() as int) =~= without_request_id(
                form@,
            ));
            assert forall|i: int|
                0 <= i < r.form@.len() - 1 implies form_view(r.form@)[i].0
                != "requestId"@ by {
                assert(r.form@[i] == without_request_id(form@)[i]);
            }
        }
        r
    }

    /// Builds a remote bus ("ubus") call request against one device.
    pub fn ubus_call(&self, device_id: &str, path: &str, method: &str, message: &str) -> (r:
        HttpRequest)
        ensures
            spec_ubus_request(r, device_id@, path@, method@, message@),
    {
        let mut form: Vec<(String, String)> = Vec::new();
        form.push((String::from_str("deviceId"), String::from_str(device_id)));
        form.push((String::from_str("method"), String::from_str(method)));
        form.push((String::from_str("path"), String::from_str(path)));
        form.push((String::from_str("message"), String::from_str(message)));
        proof {
            // none of the four fixed field names is the reserved one: the
            // lengths alone tell them apart
            reveal_strlit("requestId");
            reveal_strlit("deviceId");
            reveal_strlit("method");
            reveal_strlit("path");
            reveal_strlit("message");
            assert forall|i: int|
                0 <= i < form@.len() implies (#[trigger] form@[i]).0@ != "requestId"@ by {
                assert(form@[0].0@ == "deviceId"@);
                assert(form@[1].0@ == "method"@);
                assert(form@[2].0@ == "path"@);
                assert(form@[3].0@ == "message"@);
            }
            lemma_without_request_id_identity(form@);
        }
        let r = self.post("remote/ubus", form);
        assert(r.form@[0] == form@[0]);
        assert(r.form@[1] == form@[1]);
        assert(r.form@[2] == form@[2]);
        assert(r.form@[3] == form@[3]);
        r
    }

    fn ubus_send(&self, device_id: &str, call: &UbusCall) -> (r: HttpRequest)
        ensures
            spec_ubus_request(r, device_id@, call.path@, call.method@, call.message@),
    {
        self.ubus_call(device_id, call.path.as_str(), call.method.as_str(), call.message.as_str())
    }

    /// The request that lists the account's devices.
    pub fn device_info_request(&self) -> (r: HttpRequest)
        ensures
            r.method == HttpMethod::Get,
            r.form@.len() == 0,
            exists|id: Seq<char>|
                #[trigger] is_request_id(id) && r.url@ == spec_with_param(
                    spec_api_url("admin/v2/device_list?master=0"@),
                    "requestId"@,
                    id,
                ),
    {
        self.get("admin/v2/device_list?master=0")
    }

    /// The request that asks the device to speak `text`.
    pub fn tts(&self, device_id: &str, text: &str) -> (r: HttpRequest)
        ensures
            spec_ubus_request(r, device_id@, "mibrain"@, "text_to_speech"@, spec_tts_message(text@)),
    {
        let call = tts_call(text);
        self.ubus_send(device_id, &call)
    }

    /// The request that asks the device to play `url` through the generic
    /// player call.
    pub fn play_url(&self, device_id: &str, url: &str) -> (r: HttpRequest)
        ensures
            spec_ubus_request(
                r,
                device_id@,
                "mediaplayer"@,
                "player_play_url"@,
                spec_play_url_message(url@),
            ),
    {
        let call = play_url_call(url);
        self.ubus_send(device_id, &call)
    }

    /// The request that asks the device to play `url` through the
    /// structured music-item call.
    pub fn play_music(&self, device_id: &str, url: &str) -> (r: HttpRequest)
        ensures
            spec_ubus_request(
                r,
                device_id@,
                "mediaplayer"@,
                "player_play_music"@,
                spec_play_music_message(url@),
            ),
    {
        let call = play_music_call(url);
        self.ubus_send(device_id, &call)
    }

    /// The playback request for one known device, routed by its hardware
    /// model: a model on the compatibility list gets the music-item call,
    /// every other model the generic play-url call.
    pub fn play_url_for(&self, device: &DeviceInfo, url: &str) -> (r: HttpRequest)
        ensures
            spec_needs_music_call(device.hardware@) ==> spec_ubus_request(
                r,
                device.device_id@,
                "mediaplayer"@,
                "player_play_music"@,
                spec_play_music_message(url@),
            ),
            !spec_needs_music_call(device.hardware@) ==> spec_ubus_request(
                r,
                device.device_id@,
                "mediaplayer"@,
                "player_play_url"@,
                spec_play_url_message(url@),
            ),
    {
        let call = play_url_call_for(device.hardware.as_str(), url);
        self.ubus_send(device.device_id.as_str(), &call)
    }

    /// The request that sets the player volume.
    pub fn set_volume(&self, device_id: &str, volume: u32) -> (r: HttpRequest)
        ensures
            spec_ubus_request(
                r,
                device_id@,
                "mediaplayer"@,
                "player_set_volume"@,
                spec_volume_message(volume as nat),
            ),
    {
        let call = set_volume_call(volume);
        self.ubus_send(device_id, &call)
    }

    /// The request that hands `text` to the device's assistant.
    pub fn nlp(&self, device_id: &str, text: &str) -> (r: HttpRequest)
        ensures
            spec_ubus_request(r, device_id@, "mibrain"@, "ai_service"@, spec_nlp_message(text@)),
    {
        let call = nlp_call(text);
        self.ubus_send(device_id, &call)
    }

    /// The request that asks for the player status.
    pub fn player_status(&self, device_id: &str) -> (r: HttpRequest)
        ensures
            spec_ubus_request(
                r,
                device_id@,
                "mediaplayer"@,
                "player_get_play_status"@,
                spec_status_message(),
            ),
    {
        let call = player_status_call();
        self.ubus_send(device_id, &call)
    }

    /// The request that changes the play state.
    pub fn set_play_state(&self, device_id: &str, state: PlayState) -> (r: HttpRequest)
        ensures
            spec_ubus_request(
                r,
                device_id@,
                "mediaplayer"@,
                "player_play_operation"@,
                spec_play_operation_message(state),
            ),
    {
        let call = play_operation_call(state);
        self.ubus_send(device_id, &call)
    }

    /// The request that seeks to `position` (milliseconds).
    pub fn seek(&self, device_id: &str, position: u32) -> (r: HttpRequest)
        ensures
            spec_ubus_request(
                r,
                device_id@,
                "mediaplayer"@,
                "player_seek"@,
                spec_seek_message(position as nat),
            ),
    {
        let call = seek_call(position);
        self.ubus_send(device_id, &call)
    }
}

} // verus!
