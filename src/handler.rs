//! Handling one queue message: decode it, pick its target and build its
//! request; then read the endpoint's reply.
use vstd::prelude::*;
use crate::json::{Json, parsed_json, parse_json};
use crate::fields::{field, distinct_names, take_fields, next_field};
use crate::model::{
    RelayError, WebhookData, WebhookResponse, envelope_ok, payload_decoded, file_decoded,
    opt_string, opt_bool, opt_array, bytes_of,
};
use crate::decode::decode;
use crate::request::{OutboundRequest, FilePart, build, payload_text, part_name, octet_stream, part_of};
use crate::target::{target_of, resolve};

verus! {

/// The string held by a member that is a string.
pub open spec fn string_value(f: Option<Json>) -> String {
    match f {
        Some(Json::Str(s)) => s,
        _ => arbitrary(),
    }
}

/// The payload that the object `j` describes.
pub open spec fn payload_of(j: Json) -> WebhookData {
    WebhookData {
        content: string_value(field(j, "content"@)),
        username: opt_string(field(j, "username"@)),
        avatar_url: opt_string(field(j, "avatar_url"@)),
        tts: opt_bool(field(j, "tts"@)),
        embeds: opt_array(field(j, "embeds"@)),
    }
}

/// The attachments that the member `files` lists (none when it is absent or
/// `null`).
pub open spec fn file_items(f: Option<Json>) -> Seq<Json> {
    match f {
        Some(Json::Array(v)) => v@,
        _ => Seq::empty(),
    }
}

/// `part` carries the attachment that `item` describes, at `index`.
pub open spec fn part_from(part: FilePart, item: Json, index: nat) -> bool {
    &&& part.name@ == part_name(index)
    &&& field(item, "filename"@) == Some(Json::Str(part.filename))
    &&& part.mime@ == octet_stream()
    &&& field(item, "data"@) matches Some(Json::Array(v)) && part.data@ == bytes_of(v@)
}

/// `req` delivers the envelope `j` to `target`.
pub open spec fn request_for(req: OutboundRequest, j: Json, target: Seq<char>) -> bool {
    let body = payload_text(payload_of(field(j, "payload"@)->0));
    let items = file_items(field(j, "files"@));
    match req {
        OutboundRequest::Json { uri, content_type, body: b } => {
            &&& items.len() == 0
            &&& uri@ == target
            &&& content_type@ == "application/json"@
            &&& b@ == body
        },
        OutboundRequest::Multipart { uri, payload_json, parts } => {
            &&& items.len() > 0
            &&& uri@ == target
            &&& payload_json@ == body
            &&& parts.len() == items.len()
            &&& forall|i: int| 0 <= i < items.len() ==> #[trigger] part_from(parts@[i], items[i], i as nat)
        },
    }
}

proof fn lemma_payload_of(j: Json, p: WebhookData)
    requires
        payload_decoded(j, p),
    ensures
        p == payload_of(j),
{
}

/// Turns the text of a queue message into the request that delivers it.
/// Fails with `Decode` when the text is not a well-formed envelope, and with
/// `NoTarget` when the envelope names no target and `default_uri` is `None`.
pub fn prepare(message: &str, default_uri: &Option<String>) -> (r: Result<OutboundRequest, RelayError>)
    ensures
        match parsed_json(message@) {
            Some(j) if envelope_ok(j) => match target_of(
                opt_string(field(j, "webhook_uri"@)),
                *default_uri,
            ) {
                None => r == Err::<OutboundRequest, RelayError>(RelayError::NoTarget),
                Some(t) => r is Ok && request_for(r->Ok_0, j, t),
            },
            _ => r == Err::<OutboundRequest, RelayError>(RelayError::Decode),
        },
{
    let envelope = match decode(message) {
        Ok(e) => e,
        Err(e) => return Err(e),
    };
    let ghost j = parsed_json(message@)->0;
    proof {
        lemma_payload_of(field(j, "payload"@)->0, envelope.payload);
    }
    let target = match resolve(envelope.webhook_uri, default_uri) {
        Ok(t) => t,
        Err(e) => return Err(e),
    };
    let files = match envelope.files {
        Some(f) => f,
        None => Vec::new(),
    };
    let ghost fs = files@;
    assert(fs.len() == file_items(field(j, "files"@)).len());
    assert(forall|i: int| 0 <= i < fs.len() ==> #[trigger] file_decoded(file_items(field(j, "files"@))[i], fs[i]));
    let req = build(target, envelope.payload, files);
    proof {
        if fs.len() > 0 {
            let items = file_items(field(j, "files"@));
            let parts = req->Multipart_parts;
            assert forall|i: int| 0 <= i < items.len() implies #[trigger] part_from(parts@[i], items[i], i as nat) by {
                assert(part_of(parts@[i], fs[i], i as nat));
                assert(file_decoded(items[i], fs[i]));
            }
        }
    }
    Ok(req)
}

/// The outcome of a delivery whose request was sent.
pub enum Outcome {
    /// The endpoint answered with the identifier of the delivered message.
    Identified(String),
    /// The endpoint's answer could not be read; the message was delivered
    /// all the same.
    Unidentified,
}

/// The identifier in an endpoint reply `j`, where there is one.
pub open spec fn reply_id(j: Json) -> Option<String> {
    match field(j, "id"@) {
        Some(Json::Str(s)) => Some(s),
        _ => None,
    }
}

/// Reads the endpoint's reply: an object with a string member `id`.
pub fn read_response(body: &str) -> (r: Option<WebhookResponse>)
    ensures
        match parsed_json(body@) {
            Some(j) => match reply_id(j) {
                Some(id) => r matches Some(w) && w.id == id,
                None => r is None,
            },
            None => r is None,
        },
{
    match parse_json(body) {
        Some(Json::Object(ms)) => {
            let ghost whole = Json::Object(ms);
            let names = vec![String::from_str("id")];
            proof {
                assert(distinct_names(names@));
            }
            let mut got = take_fields(ms, &names);
            let id = next_field(&mut got);
            assert(id == field(whole, "id"@));
            match id {
                Some(Json::Str(s)) => Some(WebhookResponse { id: s }),
                _ => None,
            }
        },
        _ => None,
    }
}

/// Classifies the reply to a sent request: identified when it carries an
/// `id`, else unidentified. An unreadable reply is no failure.
pub fn outcome(body: &str) -> (r: Outcome)
    ensures
        match parsed_json(body@) {
            Some(j) => match reply_id(j) {
                Some(id) => r == Outcome::Identified(id),
                None => r is Unidentified,
            },
            None => r is Unidentified,
        },
{
    match read_response(body) {
        Some(w) => Outcome::Identified(w.id),
        None => Outcome::Unidentified,
    }
}

} // verus!
