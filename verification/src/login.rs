//! The login handshake: a strictly ordered three-phase state machine that
//! turns credentials into an authenticated cookie jar.
//!
//! Phase 1 discovers the login service and yields signing fields; phase 2
//! posts the credentials with those fields and yields a location, a nonce
//! and a secret; phase 3 follows the signed location, and the server's only
//! deliverable is the session token cookie it sets in the jar.  Each
//! phase's network call is the caller's; this module builds every request
//! and consumes every response body.

use vstd::prelude::*;
use vstd::slice::slice_subrange;
use vstd::string::*;

use crate::error::Error;
use crate::request::{form_view, with_param, spec_with_param, HttpMethod, HttpRequest};
use crate::session::{
    cookie_set_of, insert_login_cookie, new_cookie_store, spec_login_domain, wf_cookie_name,
    wf_cookie_set, wf_cookie_value,
};
use crate::signing::{hash_password, client_sign, spec_client_sign, spec_hash_password};
use crate::text::{
    append_pct_encoded, ascii_string, ascii_upper, is_alnum_byte, is_digit_char, pct_encoded,
    upper_byte,
};

verus! {

/// The fields of the phase-1 reply that phase 2 consumes: the query string
/// echo, the service id, the signing token, and the callback url.
pub struct LoginResponse {
    pub qs: String,
    pub sid: String,
    pub _sign: String,
    pub callback: String,
}

/// The fields of the phase-2 reply that phase 3 consumes: the location to
/// follow, and the nonce and secret that the client signature is derived
/// from.
pub struct AuthResponse {
    pub location: String,
    pub nonce: i64,
    pub ssecurity: String,
}

/// Where the handshake stands: what must be sent next, carrying the fields
/// the next request is built from.  Phases can neither be reordered nor
/// skipped: each state is reachable only by consuming the previous phase's
/// response.
pub enum Handshake {
    /// Nothing sent yet; the phase-1 discovery request is due.
    NeedLogin,
    /// Phase 1 succeeded with these fields; the credential post is due.
    NeedAuth(LoginResponse),
    /// Phase 2 succeeded with these fields; the signed token call is due.
    NeedToken(AuthResponse),
    /// Phase 3 succeeded: the jar now holds the session token.
    Done,
}

pub open spec fn is_upper_alnum_char(c: char) -> bool {
    ||| is_digit_char(c)
    ||| 65 <= (c as u32) <= 90
}

/// The shape of the pre-seeded device identifier: sixteen upper-case
/// alphanumeric characters.
pub open spec fn is_device_id(id: Seq<char>) -> bool {
    &&& id.len() == 16
    &&& forall|i: int| 0 <= i < 16 ==> is_upper_alnum_char(#[trigger] id[i])
}

/// An upper-case alphanumeric identifier is a cookie value that the
/// persistence format keeps verbatim.
proof fn lemma_device_id_is_wf_value(id: Seq<char>)
    requires
        is_device_id(id),
    ensures
        wf_cookie_value(id),
{
    assert forall|i: int| 0 <= i < id.len() implies #[trigger] id[i] != ';' by {
        assert(is_upper_alnum_char(id[i]));
    }
    assert(is_upper_alnum_char(id[0]));
    assert(is_upper_alnum_char(id[id.len() - 1]));
}

/// The phase-1 request: the login-service discovery call.
pub open spec fn spec_login_request(q: HttpRequest) -> bool {
    &&& q.method == HttpMethod::Get
    &&& q.url@ == "https://account.xiaomi.com/pass/serviceLogin?sid=micoapi&_json=true"@
    &&& q.form@.len() == 0
}

/// The phase-2 request: the credential post, echoing the phase-1 fields
/// and carrying the account name and the password hash.
pub open spec fn spec_auth_request(
    q: HttpRequest,
    f: LoginResponse,
    username: Seq<char>,
    hash: Seq<char>,
) -> bool {
    &&& q.method == HttpMethod::Post
    &&& q.url@ == "https://account.xiaomi.com/pass/serviceLoginAuth2"@
    &&& q.form@.len() == 7
    &&& form_view(q.form@)[0] == ("_json"@, "true"@)
    &&& form_view(q.form@)[1] == ("qs"@, f.qs@)
    &&& form_view(q.form@)[2] == ("sid"@, f.sid@)
    &&& form_view(q.form@)[3] == ("_sign"@, f._sign@)
    &&& form_view(q.form@)[4] == ("callback"@, f.callback@)
    &&& form_view(q.form@)[5] == ("user"@, username)
    &&& form_view(q.form@)[6] == ("hash"@, hash)
}

/// The phase-3 request: the phase-2 location with the percent-encoded
/// client signature appended as a query parameter.
pub open spec fn spec_token_request(q: HttpRequest, a: AuthResponse) -> bool {
    &&& q.method == HttpMethod::Get
    &&& q.form@.len() == 0
    &&& q.url@ == spec_with_param(
        a.location@,
        "clientSign"@,
        pct_encoded(spec_client_sign(a.nonce as int, a.ssecurity@)),
    )
}

/// What the phase-1 parse makes of a (prefix-stripped) body: the four
/// string members `qs`, `sid`, `_sign` and `callback` of a JSON object,
/// or `None` where the bytes are not JSON or a member is missing.  A
/// function of the bytes alone.
pub uninterp spec fn login_fields_of(bytes: Seq<u8>) -> Option<LoginResponse>;

/// What the phase-2 parse makes of a (prefix-stripped) body: the string
/// members `location` and `ssecurity` and the integer member `nonce`, or
/// `None` where the bytes are not JSON or a member is missing.  A
/// function of the bytes alone.
pub uninterp spec fn auth_fields_of(bytes: Seq<u8>) -> Option<AuthResponse>;

/// Relies on `serde_json::from_slice` and the `Value` accessors: reads the
/// four string members `qs`, `sid`, `_sign` and `callback` out of a JSON
/// object; `None` when the input is not JSON or any member is missing.
#[verifier::external_body]
fn login_fields(body: &[u8]) -> (r: Option<LoginResponse>)
    ensures
        r == login_fields_of(body@),
{
    let v: serde_json::Value = serde_json::from_slice(body).ok()?;
    Some(LoginResponse {
        qs: v.get("qs")?.as_str()?.to_owned(),
        sid: v.get("sid")?.as_str()?.to_owned(),
        _sign: v.get("_sign")?.as_str()?.to_owned(),
        callback: v.get("callback")?.as_str()?.to_owned(),
    })
}

/// Relies on `serde_json::from_slice` and the `Value` accessors: reads the
/// string members `location` and `ssecurity` and the integer member
/// `nonce`; `None` when the input is not JSON or any member is missing.
#[verifier::external_body]
fn auth_fields(body: &[u8]) -> (r: Option<AuthResponse>)
    ensures
        r == auth_fields_of(body@),
{
    let v: serde_json::Value = serde_json::from_slice(body).ok()?;
    Some(AuthResponse {
        location: v.get("location")?.as_str()?.to_owned(),
        nonce: v.get("nonce")?.as_i64()?,
        ssecurity: v.get("ssecurity")?.as_str()?.to_owned(),
    })
}

/// Strips the 11-byte non-JSON prefix of a login-domain body and parses
/// the phase-1 fields: exactly the parse of the remaining bytes; a body
/// too short for the prefix never parses.
pub fn parse_login_body(body: &[u8]) -> (r: Option<LoginResponse>)
    ensures
        body@.len() < 11 ==> r is None,
        body@.len() >= 11 ==> r == login_fields_of(body@.skip(11)),
{
    if body.len() < 11 {
        return None;
    }
    let tail = slice_subrange(body, 11, body.len());
    assert(tail@ =~= body@.skip(11));
    login_fields(tail)
}

/// Strips the 11-byte non-JSON prefix and parses the phase-2 fields:
/// exactly the parse of the remaining bytes; a body too short for the
/// prefix never parses.
pub fn parse_auth_body(body: &[u8]) -> (r: Option<AuthResponse>)
    ensures
        body@.len() < 11 ==> r is None,
        body@.len() >= 11 ==> r == auth_fields_of(body@.skip(11)),
{
    if body.len() < 11 {
        return None;
    }
    let tail = slice_subrange(body, 11, body.len());
    assert(tail@ =~= body@.skip(11));
    auth_fields(tail)
}

impl Handshake {
    /// Consumes the phase-1 parse outcome.  A reply missing any required
    /// field stops the handshake with a `Decode` error — there is then no
    /// state from which a phase-2 request could be built — and a complete
    /// reply moves to the credential post, with exactly those fields.
    pub fn after_login(fields: Option<LoginResponse>) -> (r: Result<Handshake, Error>)
        ensures
            fields matches Some(f) ==> r == Ok::<Handshake, Error>(Handshake::NeedAuth(f)),
            fields is None ==> (r matches Err(e) && e is Decode),
    {
        match fields {
            Some(f) => Ok(Handshake::NeedAuth(f)),
            None => Err(
                Error::Decode(String::from_str("phase-1 reply is missing required fields")),
            ),
        }
    }

    /// Consumes the phase-2 parse outcome, in the same way.
    pub fn after_auth(fields: Option<AuthResponse>) -> (r: Result<Handshake, Error>)
        ensures
            fields matches Some(a) ==> r == Ok::<Handshake, Error>(Handshake::NeedToken(a)),
            fields is None ==> (r matches Err(e) && e is Decode),
    {
        match fields {
            Some(a) => Ok(Handshake::NeedToken(a)),
            None => Err(
                Error::Decode(String::from_str("phase-2 reply is missing required fields")),
            ),
        }
    }

    /// Consumes the phase-3 outcome: the body is not the deliverable — the
    /// session token cookie in the jar is — so only the transport status
    /// decides.
    pub fn after_token(status_ok: bool) -> (r: Result<Handshake, Error>)
        ensures
            status_ok ==> r == Ok::<Handshake, Error>(Handshake::Done),
            !status_ok ==> (r matches Err(e) && e is Transport),
    {
        if status_ok {
            Ok(Handshake::Done)
        } else {
            Err(Error::Transport(String::from_str("token call failed")))
        }
    }
}

/// The credentials and the pre-seeded jar that the handshake starts from.
pub struct Login {
    username: String,
    password_hash: String,
    store: cookie_store::CookieStore,
}

impl Login {
    /// The account name sent in phase 2.
    pub closed spec fn spec_username(&self) -> Seq<char> {
        self.username@
    }

    /// The password hash sent in phase 2.
    pub closed spec fn spec_password_hash(&self) -> Seq<char> {
        self.password_hash@
    }

    /// The cookies seeded into the jar before any request.
    pub closed spec fn spec_cookies(&self) -> Set<(Seq<char>, Seq<char>, Seq<char>)> {
        cookie_set_of(self.store)
    }

    /// Prepares a handshake: hashes the password and seeds the jar with
    /// the SDK version marker and a fresh sixteen-character upper-case
    /// device identifier, both attached to the login domain — the server
    /// checks them on the very first call.
    pub fn new(username: &str, password: &str) -> (r: Result<Login, Error>)
        ensures
            r is Ok,
            r matches Ok(l) ==> {
                &&& l.spec_username() == username@
                &&& l.spec_password_hash() == spec_hash_password(password@)
                &&& wf_cookie_set(l.spec_cookies())
                &&& exists|id: Seq<char>|
                    #[trigger] is_device_id(id) && l.spec_cookies() == set![
                        (spec_login_domain(), "sdkVersion"@, "3.9"@),
                        (spec_login_domain(), "deviceId"@, id),
                    ]
            },
    {
        let mut store = new_cookie_store();
        proof {
            reveal_strlit("sdkVersion");
            reveal_strlit("deviceId");
            reveal_strlit("3.9");
            assert(wf_cookie_name("sdkVersion"@));
            assert(wf_cookie_value("3.9"@));
        }
        if let Err(m) = insert_login_cookie(&mut store, "sdkVersion", "3.9") {
            return Err(Error::Cookie(m));
        }
        let device_id = fresh_device_id();
        proof {
            assert(wf_cookie_name("deviceId"@));
            lemma_device_id_is_wf_value(device_id@);
            assert forall|v: Seq<char>|
                !cookie_set_of(store).contains((spec_login_domain(), "deviceId"@, v)) by {
                assert("deviceId"@.len() != "sdkVersion"@.len());
            }
        }
        if let Err(m) = insert_login_cookie(&mut store, "deviceId", device_id.as_str()) {
            return Err(Error::Cookie(m));
        }
        let l = Login {
            username: String::from_str(username),
            password_hash: hash_password(password),
            store,
        };
        proof {
            let ghost seeded = set![
                (spec_login_domain(), "sdkVersion"@, "3.9"@),
                (spec_login_domain(), "deviceId"@, device_id@),
            ];
            assert(l.spec_cookies() =~= seeded);
            assert(is_device_id(device_id@) && l.spec_cookies() == seeded);
            assert forall|t: (Seq<char>, Seq<char>, Seq<char>)|
                #[trigger] l.spec_cookies().contains(t) implies wf_cookie_name(t.1)
                && wf_cookie_value(t.2) by {
                assert(t == (spec_login_domain(), "sdkVersion"@, "3.9"@) || t == (
                    spec_login_domain(),
                    "deviceId"@,
                    device_id@,
                ));
            }
        }
        Ok(l)
    }

    /// Hands the seeded jar to the transport that will run the handshake.
    pub fn into_cookie_store(self) -> (r: cookie_store::CookieStore)
        ensures
            cookie_set_of(r) == self.spec_cookies(),
    {
        self.store
    }

    /// A copy of the seeded jar with the same cookies, for the transport
    /// to own while this handle keeps building the phase requests.
    pub fn cookie_store(&self) -> (r: cookie_store::CookieStore)
        ensures
            cookie_set_of(r) == self.spec_cookies(),
    {
        crate::session::clone_cookie_store(&self.store)
    }

    /// Builds the phase-1 discovery request.
    pub fn login_request(&self) -> (r: HttpRequest)
        ensures
            spec_login_request(r),
    {
        HttpRequest {
            method: HttpMethod::Get,
            url: String::from_str(
                "https://account.xiaomi.com/pass/serviceLogin?sid=micoapi&_json=true",
            ),
            form: Vec::new(),
        }
    }

    /// Builds the phase-2 credential post from the phase-1 fields.
    pub fn auth_request(&self, f: &LoginResponse) -> (r: HttpRequest)
        ensures
            spec_auth_request(r, *f, self.spec_username(), self.spec_password_hash()),
    {
        let mut form: Vec<(String, String)> = Vec::new();
        form.push((String::from_str("_json"), String::from_str("true")));
        form.push((String::from_str("qs"), f.qs.clone()));
        form.push((String::from_str("sid"), f.sid.clone()));
        form.push((String::from_str("_sign"), f._sign.clone()));
        form.push((String::from_str("callback"), f.callback.clone()));
        form.push((String::from_str("user"), self.username.clone()));
        form.push((String::from_str("hash"), self.password_hash.clone()));
        let r = HttpRequest {
            method: HttpMethod::Post,
            url: String::from_str("https://account.xiaomi.com/pass/serviceLoginAuth2"),
            form,
        };
        assert(spec_auth_request(r, *f, self.spec_username(), self.spec_password_hash()));
        r
    }

    /// Builds the phase-3 token call: the phase-2 location with the
    /// percent-encoded client signature appended.
    pub fn token_request(&self, a: &AuthResponse) -> (r: HttpRequest)
        ensures
            spec_token_request(r, *a),
    {
        let sign = client_sign(a.nonce, a.ssecurity.as_str());
        let mut enc = String::new();
        append_pct_encoded(&mut enc, sign.as_str());
        let url = with_param(a.location.as_str(), "clientSign", enc.as_str());
        HttpRequest { method: HttpMethod::Get, url, form: Vec::new() }
    }

    /// The request due at `step`, if any: each phase's request exists only
    /// once the previous phase's reply has been consumed.
    pub fn next_request(&self, step: &Handshake) -> (r: Option<HttpRequest>)
        ensures
            step is NeedLogin ==> (r matches Some(q) && spec_login_request(q)),
            step matches Handshake::NeedAuth(f) ==> (r matches Some(q) && spec_auth_request(
                q,
                *f,
                self.spec_username(),
                self.spec_password_hash(),
            )),
            step matches Handshake::NeedToken(a) ==> (r matches Some(q) && spec_token_request(
                q,
                *a,
            )),
            step is Done ==> r is None,
    {
        match step {
            Handshake::NeedLogin => Some(self.login_request()),
            Handshake::NeedAuth(f) => Some(self.auth_request(f)),
            Handshake::NeedToken(a) => Some(self.token_request(a)),
            Handshake::Done => None,
        }
    }

    /// Consumes the phase-1 response.  On a good status and a body whose
    /// stripped tail parses, the handshake is owed to move to the
    /// credential post with exactly the parsed fields.  A transport
    /// failure or a reply missing required fields aborts the attempt
    /// before any phase-2 request exists; nothing partial is returned.
    pub fn handle_login_response(&self, status_ok: bool, body: &[u8]) -> (r: Result<
        Handshake,
        Error,
    >)
        ensures
            !status_ok ==> (r matches Err(e) && e is Transport),
            status_ok && body@.len() >= 11 ==> (login_fields_of(body@.skip(11)) matches Some(f)
                ==> r == Ok::<Handshake, Error>(Handshake::NeedAuth(f))),
            status_ok && (body@.len() < 11 || login_fields_of(body@.skip(11)) is None) ==> (
            r matches Err(e) && e is Decode),
            r matches Ok(h) ==> h is NeedAuth,
    {
        if !status_ok {
            return Err(Error::Transport(String::from_str("login discovery call failed")));
        }
        Handshake::after_login(parse_login_body(body))
    }

    /// Consumes the phase-2 response, in the same way.
    pub fn handle_auth_response(&self, status_ok: bool, body: &[u8]) -> (r: Result<
        Handshake,
        Error,
    >)
        ensures
            !status_ok ==> (r matches Err(e) && e is Transport),
            status_ok && body@.len() >= 11 ==> (auth_fields_of(body@.skip(11)) matches Some(a)
                ==> r == Ok::<Handshake, Error>(Handshake::NeedToken(a))),
            status_ok && (body@.len() < 11 || auth_fields_of(body@.skip(11)) is None) ==> (
            r matches Err(e) && e is Decode),
            r matches Ok(h) ==> h is NeedToken,
    {
        if !status_ok {
            return Err(Error::Transport(String::from_str("credential post failed")));
        }
        Handshake::after_auth(parse_auth_body(body))
    }

    /// Consumes the phase-3 response status.
    pub fn handle_token_response(&self, status_ok: bool) -> (r: Result<Handshake, Error>)
        ensures
            status_ok ==> (r matches Ok(h) && h is Done),
            !status_ok ==> (r matches Err(e) && e is Transport),
    {
        Handshake::after_token(status_ok)
    }
}

/// Draws the sixteen-character upper-cased device identifier.
fn fresh_device_id() -> (r: String)
    ensures
        is_device_id(r@),
{
    let bytes = crate::request::random_alnum_bytes(16);
    let upper = ascii_upper(bytes.as_slice());
    assert forall|i: int| 0 <= i < upper@.len() implies #[trigger] upper@[i] < 128 by {
        assert(upper@[i] == upper_byte(bytes@[i]));
        assert(is_alnum_byte(bytes@[i]));
    }
    let r = ascii_string(upper.as_slice());
    assert forall|i: int| 0 <= i < 16 implies is_upper_alnum_char(#[trigger] r@[i]) by {
        assert(r@[i] == upper@[i] as char);
        assert(upper@[i] == upper_byte(bytes@[i]));
        assert((upper@[i] as char) as u32 == upper@[i] as u32);
    }
    r
}

} // verus!
