//! The uniform response envelope of the service, and the device records
//! carried in its `data` field.

use vstd::prelude::*;
use vstd::string::*;

use crate::error::Error;

verus! {

#[verifier::external_type_specification]
#[verifier::external_body]
pub struct ExValue(serde_json::Value);

/// The `{code, message, data}` wrapper every server reply uses.
///
/// `code == 0` means success; any other code is an application-level
/// failure, with `message` as diagnostic text.  `data` is kept as the raw
/// JSON value and is meaningful only on success.
pub struct XiaoaiResponse {
    pub code: i64,
    pub message: String,
    pub data: serde_json::Value,
}

impl XiaoaiResponse {
    /// Validates the envelope: a zero `code` passes the whole envelope —
    /// `data` included — through unchanged, and any other `code` becomes an
    /// `Api` error carrying exactly that `code` and `message`.
    pub fn error_for_code(self) -> (r: Result<XiaoaiResponse, Error>)
        ensures
            self.code == 0 ==> r == Ok::<XiaoaiResponse, Error>(self),
            self.code != 0 ==> r == Err::<XiaoaiResponse, Error>(
                (Error::Api { code: self.code, message: self.message }),
            ),
    {
        if self.code == 0 {
            Ok(self)
        } else {
            Err(Error::Api { code: self.code, message: self.message })
        }
    }
}

/// One device bound to the account, as listed by the device-list call.
pub struct DeviceInfo {
    /// The identifier every device-directed request names.
    pub device_id: String,
    /// The user-visible name of the device.
    pub name: String,
    /// The hardware model code; playback routing branches on it.
    pub hardware: String,
}

/// What the envelope parse makes of a body: the envelope whose `code`,
/// `message` and `data` members the bytes carry as a JSON object, or
/// `None` where a member is missing or the bytes are not JSON.  A
/// function of the bytes alone.
pub uninterp spec fn envelope_of(bytes: Seq<u8>) -> Option<XiaoaiResponse>;

/// Relies on `serde_json::from_slice` and the `Value` accessors: parses the
/// body as a JSON object and reads its integer `code`, string `message` and
/// `data` members; any missing member or malformed input gives `None`.
#[verifier::external_body]
fn envelope_fields(body: &[u8]) -> (r: Option<XiaoaiResponse>)
    ensures
        r == envelope_of(body@),
{
    let v: serde_json::Value = serde_json::from_slice(body).ok()?;
    let code = v.get("code")?.as_i64()?;
    let message = v.get("message")?.as_str()?.to_owned();
    let data = v.get("data")?.clone();
    Some(XiaoaiResponse { code, message, data })
}

/// Parses a response body as an envelope: it succeeds exactly when the
/// bytes carry the three members, returns exactly that envelope, and
/// anything else is a `Decode` error.
pub fn parse_envelope(body: &[u8]) -> (r: Result<XiaoaiResponse, Error>)
    ensures
        r is Ok <==> envelope_of(body@) is Some,
        r matches Ok(x) ==> envelope_of(body@) == Some(x),
        r matches Err(e) ==> e is Decode,
{
    match envelope_fields(body) {
        Some(resp) => Ok(resp),
        None => Err(Error::Decode(String::from_str("response body is not an envelope"))),
    }
}

/// The player status, kept loose: devices and firmware revisions disagree
/// on the reply's shape, so the raw `data` value is carried whole and the
/// caller reads what it needs.
pub struct PlayerStatus {
    pub raw: serde_json::Value,
}

/// Wraps a status envelope's `data` as a player status, unchanged.
pub fn player_status_from(resp: XiaoaiResponse) -> (r: PlayerStatus)
    ensures
        r.raw == resp.data,
{
    PlayerStatus { raw: resp.data }
}

/// What the device-list extraction makes of a `data` value: one record per
/// array element, in array order, each from the element's `deviceID`,
/// `name` and `hardware` string members — or `None` where the value is
/// not such a list.  A function of the value alone.
pub uninterp spec fn device_list_of(data: serde_json::Value) -> Option<Seq<DeviceInfo>>;

/// Relies on the `serde_json::Value` accessors: reads the device list out of
/// a `data` value, one record per array element, taking the `deviceID`,
/// `name` and `hardware` string members of each; `None` on any other shape.
#[verifier::external_body]
fn device_list_fields(data: &serde_json::Value) -> (r: Option<Vec<DeviceInfo>>)
    ensures
        r is Some <==> device_list_of(*data) is Some,
        r matches Some(v) ==> device_list_of(*data) == Some(v@),
{
    let arr = data.as_array()?;
    let mut out = Vec::with_capacity(arr.len());
    for v in arr {
        out.push(DeviceInfo {
            device_id: v.get("deviceID")?.as_str()?.to_owned(),
            name: v.get("name")?.as_str()?.to_owned(),
            hardware: v.get("hardware")?.as_str()?.to_owned(),
        });
    }
    Some(out)
}

/// Extracts the device records from a device-list envelope's `data`: it
/// succeeds exactly when `data` is a device list, returns exactly those
/// records in order, and any other shape is a `Decode` error.
pub fn device_info_from(resp: &XiaoaiResponse) -> (r: Result<Vec<DeviceInfo>, Error>)
    ensures
        r is Ok <==> device_list_of(resp.data) is Some,
        r matches Ok(v) ==> device_list_of(resp.data) == Some(v@),
        r matches Err(e) ==> e is Decode,
{
    match device_list_fields(&resp.data) {
        Some(list) => Ok(list),
        None => Err(Error::Decode(String::from_str("data is not a device list"))),
    }
}

} // verus!
