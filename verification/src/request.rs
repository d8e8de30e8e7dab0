//! The signed request layer: plain request values ready for a transport,
//! and the per-request identifier convention.

use vstd::prelude::*;
use vstd::string::*;

use rand::RngExt;

use crate::text::{ascii_string, is_alnum_byte, is_alnum_char, str_contains_char};

verus! {

/// The two request shapes the service uses.
#[derive(Clone, Copy, Debug, PartialEq, Eq, Structural)]
pub enum HttpMethod {
    Get,
    Post,
}

/// One request, ready to be sent by whatever transport the caller owns: the
/// method, the full url, and — for a POST — the form fields, in order.
pub struct HttpRequest {
    pub method: HttpMethod,
    pub url: String,
    pub form: Vec<(String, String)>,
}

/// The character views of a form: the field names and values as sequences.
pub open spec fn form_view(form: Seq<(String, String)>) -> Seq<(Seq<char>, Seq<char>)> {
    form.map_values(|p: (String, String)| (p.0@, p.1@))
}

/// The form with every `requestId` field taken out, other fields kept in
/// order.  The request layer owns that field: a caller-supplied one is
/// replaced, never sent beside the fresh one.
pub open spec fn without_request_id(form: Seq<(String, String)>) -> Seq<(String, String)>
    decreases form.len(),
{
    if form.len() == 0 {
        Seq::empty()
    } else if form[0].0@ == "requestId"@ {
        without_request_id(form.drop_first())
    } else {
        seq![form[0]] + without_request_id(form.drop_first())
    }
}

/// No `requestId` field survives the filter.
pub proof fn lemma_without_request_id_free(form: Seq<(String, String)>)
    ensures
        forall|i: int|
            0 <= i < without_request_id(form).len() ==> (#[trigger] without_request_id(
                form,
            )[i]).0@ != "requestId"@,
    decreases form.len(),
{
    if form.len() > 0 {
        lemma_without_request_id_free(form.drop_first());
        let rest = without_request_id(form.drop_first());
        if form[0].0@ != "requestId"@ {
            assert forall|i: int|
                0 <= i < without_request_id(form).len() implies (#[trigger] without_request_id(
                form,
            )[i]).0@ != "requestId"@ by {
                if i == 0 {
                    assert(without_request_id(form)[0] == form[0]);
                } else {
                    assert(without_request_id(form)[i] == rest[i - 1]);
                }
            }
        }
    }
}

/// A form that carries no `requestId` field passes the filter unchanged.
pub proof fn lemma_without_request_id_identity(form: Seq<(String, String)>)
    requires
        forall|i: int| 0 <= i < form.len() ==> (#[trigger] form[i]).0@ != "requestId"@,
    ensures
        without_request_id(form) == form,
    decreases form.len(),
{
    if form.len() > 0 {
        lemma_without_request_id_identity(form.drop_first());
        assert(without_request_id(form) =~= form);
    }
}

/// Relies on `rand::distr::Alphanumeric` sampled from the thread generator:
/// every drawn byte is one of A–Z, a–z, 0–9.  Nothing more is promised of a
/// random result.
#[verifier::external_body]
pub(crate) fn random_alnum_bytes(len: usize) -> (r: Vec<u8>)
    ensures
        r@.len() == len,
        forall|i: int| 0 <= i < r@.len() ==> is_alnum_byte(#[trigger] r@[i]),
{
    rand::rng().sample_iter(rand::distr::Alphanumeric).take(len).collect()
}

/// Draws a fresh identifier of `len` alphanumeric characters.
pub fn random_id(len: usize) -> (r: String)
    ensures
        r@.len() == len,
        forall|i: int| 0 <= i < r@.len() ==> is_alnum_char(#[trigger] r@[i]),
{
    let bytes = random_alnum_bytes(len);
    assert(forall|i: int| 0 <= i < bytes@.len() ==> #[trigger] bytes@[i] < 128);
    let r = ascii_string(bytes.as_slice());
    assert forall|i: int| 0 <= i < r@.len() implies is_alnum_char(#[trigger] r@[i]) by {
        assert(r@[i] == bytes@[i] as char);
        assert(is_alnum_byte(bytes@[i]));
        assert((bytes@[i] as char) as u32 == bytes@[i] as u32);
    }
    r
}

/// The form a fresh request identifier takes: the fixed `app_ios_` prefix
/// and thirty alphanumeric characters.
pub open spec fn is_request_id(id: Seq<char>) -> bool {
    &&& id.len() == 38
    &&& id.subrange(0, 8) == "app_ios_"@
    &&& forall|i: int| 8 <= i < 38 ==> is_alnum_char(#[trigger] id[i])
}

/// Draws the request identifier attached to every signed request.
pub fn random_request_id() -> (r: String)
    ensures
        is_request_id(r@),
{
    let mut r = String::from_str("app_ios_");
    let tail = random_id(30);
    r.append(tail.as_str());
    proof {
        reveal_strlit("app_ios_");
        assert(r@.subrange(0, 8) =~= "app_ios_"@);
    }
    r
}

/// `url` with `key=value` appended as a query parameter: after a `?` when
/// the url has none yet, after a `&` otherwise.  The value is taken as
/// already url-safe.
pub open spec fn spec_with_param(url: Seq<char>, key: Seq<char>, value: Seq<char>) -> Seq<char> {
    if url.contains('?') {
        url + "&"@ + key + "="@ + value
    } else {
        url + "?"@ + key + "="@ + value
    }
}

/// Appends a query parameter to `url`.
pub fn with_param(url: &str, key: &str, value: &str) -> (r: String)
    ensures
        r@ == spec_with_param(url@, key@, value@),
{
    let mut r = String::from_str(url);
    if str_contains_char(url, '?') {
        r.append("&");
    } else {
        r.append("?");
    }
    r.append(key);
    r.append("=");
    r.append(value);
    assert(r@ =~= spec_with_param(url@, key@, value@));
    r
}

} // verus!
