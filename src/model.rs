//! The message shapes: the envelope read from the queue, the webhook payload,
//! attachments and the endpoint's reply, and how each is read from JSON.
use vstd::prelude::*;
use crate::json::Json;
use crate::fields::field;

verus! {

/// Why handling one message failed.
#[derive(Debug, PartialEq, Eq, Structural)]
pub enum RelayError {
    /// The message is not a well-formed envelope.
    Decode,
    /// The envelope names no target and no default target is configured.
    NoTarget,
    /// An attachment part could not be built.
    PartEncoding,
    /// The request could not be sent.
    Delivery,
}

/// The log line for each failure.
pub open spec fn description(e: RelayError) -> Seq<char> {
    match e {
        RelayError::Decode => "The message is not a well-formed envelope."@,
        RelayError::NoTarget => "No webhook URI was given to the function, and no default URI is defined."@,
        RelayError::PartEncoding => "An attachment part could not be encoded."@,
        RelayError::Delivery => "The request could not be delivered."@,
    }
}

impl RelayError {
    /// A description of the failure, for logs.
    pub fn describe(&self) -> (r: String)
        ensures
            r@ == description(*self),
    {
        let s = match self {
            RelayError::Decode => "The message is not a well-formed envelope.",
            RelayError::NoTarget => "No webhook URI was given to the function, and no default URI is defined.",
            RelayError::PartEncoding => "An attachment part could not be encoded.",
            RelayError::Delivery => "The request could not be delivered.",
        };
        String::from_str(s)
    }
}

/// One attachment: a named blob.
pub struct File {
    pub filename: String,
    pub is_spoiler: Option<bool>,
    pub data: Vec<u8>,
}

/// The message forwarded to the webhook endpoint.
pub struct WebhookData {
    pub content: String,
    pub username: Option<String>,
    pub avatar_url: Option<String>,
    pub tts: Option<bool>,
    pub embeds: Option<Vec<Json>>,
}

/// One queue message: where to deliver, what, and which attachments.
pub struct IncomingTransportData {
    pub webhook_uri: Option<String>,
    pub payload: WebhookData,
    pub files: Option<Vec<File>>,
}

/// What the endpoint answers on delivery.
pub struct WebhookResponse {
    pub id: String,
}

/// An optional string member: absent, `null` or a string.
pub open spec fn opt_string_ok(f: Option<Json>) -> bool {
    match f {
        None => true,
        Some(Json::Null) => true,
        Some(Json::Str(_)) => true,
        _ => false,
    }
}

pub open spec fn opt_string(f: Option<Json>) -> Option<String> {
    match f {
        Some(Json::Str(s)) => Some(s),
        _ => None,
    }
}

/// An optional boolean member: absent, `null` or a boolean.
pub open spec fn opt_bool_ok(f: Option<Json>) -> bool {
    match f {
        None => true,
        Some(Json::Null) => true,
        Some(Json::Bool(_)) => true,
        _ => false,
    }
}

pub open spec fn opt_bool(f: Option<Json>) -> Option<bool> {
    match f {
        Some(Json::Bool(b)) => Some(b),
        _ => None,
    }
}

/// An optional array member: absent, `null` or an array.
pub open spec fn opt_array_ok(f: Option<Json>) -> bool {
    match f {
        None => true,
        Some(Json::Null) => true,
        Some(Json::Array(_)) => true,
        _ => false,
    }
}

pub open spec fn opt_array(f: Option<Json>) -> Option<Vec<Json>> {
    match f {
        Some(Json::Array(v)) => Some(v),
        _ => None,
    }
}

pub open spec fn is_string(f: Option<Json>) -> bool {
    f matches Some(Json::Str(_))
}

/// A byte: an integer from 0 to 255.
pub open spec fn is_byte(j: Json) -> bool {
    match j {
        Json::Number { number, unsigned } => unsigned matches Some(u) && u <= 255,
        _ => false,
    }
}

pub open spec fn byte_value(j: Json) -> u8 {
    match j {
        Json::Number { number, unsigned } => match unsigned {
            Some(u) => u as u8,
            None => 0,
        },
        _ => 0,
    }
}

pub open spec fn bytes_ok(v: Seq<Json>) -> bool {
    forall|i: int| 0 <= i < v.len() ==> #[trigger] is_byte(v[i])
}

pub open spec fn bytes_of(v: Seq<Json>) -> Seq<u8> {
    v.map_values(|x: Json| byte_value(x))
}

pub open spec fn file_ok(j: Json) -> bool {
    &&& j is Object
    &&& is_string(field(j, "filename"@))
    &&& opt_bool_ok(field(j, "is_spoiler"@))
    &&& field(j, "data"@) matches Some(Json::Array(v)) && bytes_ok(v@)
}

/// `f` is what `j` holds as an attachment.
pub open spec fn file_decoded(j: Json, f: File) -> bool {
    &&& field(j, "filename"@) == Some(Json::Str(f.filename))
    &&& f.is_spoiler == opt_bool(field(j, "is_spoiler"@))
    &&& field(j, "data"@) matches Some(Json::Array(v)) && f.data@ == bytes_of(v@)
}

pub open spec fn payload_ok(j: Json) -> bool {
    &&& j is Object
    &&& is_string(field(j, "content"@))
    &&& opt_string_ok(field(j, "username"@))
    &&& opt_string_ok(field(j, "avatar_url"@))
    &&& opt_bool_ok(field(j, "tts"@))
    &&& opt_array_ok(field(j, "embeds"@))
}

/// `p` is what `j` holds as a payload.
pub open spec fn payload_decoded(j: Json, p: WebhookData) -> bool {
    &&& field(j, "content"@) == Some(Json::Str(p.content))
    &&& p.username == opt_string(field(j, "username"@))
    &&& p.avatar_url == opt_string(field(j, "avatar_url"@))
    &&& p.tts == opt_bool(field(j, "tts"@))
    &&& p.embeds == opt_array(field(j, "embeds"@))
}

pub open spec fn files_ok(f: Option<Json>) -> bool {
    match f {
        None => true,
        Some(Json::Null) => true,
        Some(Json::Array(v)) => forall|i: int| 0 <= i < v.len() ==> #[trigger] file_ok(v@[i]),
        _ => false,
    }
}

pub open spec fn files_decoded(f: Option<Json>, fs: Option<Vec<File>>) -> bool {
    match f {
        Some(Json::Array(v)) => fs matches Some(x) && x.len() == v.len() && forall|i: int|
            0 <= i < v.len() ==> #[trigger] file_decoded(v@[i], x@[i]),
        _ => fs is None,
    }
}

/// `j` is a well-formed envelope: an object whose members have their types,
/// with a payload that has a string `content`.
pub open spec fn envelope_ok(j: Json) -> bool {
    &&& j is Object
    &&& opt_string_ok(field(j, "webhook_uri"@))
    &&& field(j, "payload"@) matches Some(p) && payload_ok(p)
    &&& files_ok(field(j, "files"@))
}

/// `e` is what `j` holds as an envelope.
pub open spec fn envelope_decoded(j: Json, e: IncomingTransportData) -> bool {
    &&& e.webhook_uri == opt_string(field(j, "webhook_uri"@))
    &&& field(j, "payload"@) matches Some(p) && payload_decoded(p, e.payload)
    &&& files_decoded(field(j, "files"@), e.files)
}

} // verus!
