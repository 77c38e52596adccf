//! Reading an envelope from the text of a queue message.
use vstd::prelude::*;
use crate::json::{Json, parsed_json, parse_json};
use crate::fields::{field, distinct_names, take_fields, next_field};
use crate::model::{
    RelayError, File, WebhookData, IncomingTransportData, opt_string_ok, opt_string, opt_bool_ok,
    opt_bool, opt_array_ok, opt_array, is_string, is_byte, bytes_ok, bytes_of, file_ok,
    file_decoded, payload_ok, payload_decoded, files_ok, files_decoded, envelope_ok,
    envelope_decoded,
};

verus! {

fn opt_string_from(f: Option<Json>) -> (r: Result<Option<String>, RelayError>)
    ensures
        r is Ok <==> opt_string_ok(f),
        r is Ok ==> r->Ok_0 == opt_string(f),
        r is Err ==> r->Err_0 == RelayError::Decode,
{
    match f {
        None => Ok(None),
        Some(Json::Null) => Ok(None),
        Some(Json::Str(s)) => Ok(Some(s)),
        _ => Err(RelayError::Decode),
    }
}

fn opt_bool_from(f: Option<Json>) -> (r: Result<Option<bool>, RelayError>)
    ensures
        r is Ok <==> opt_bool_ok(f),
        r is Ok ==> r->Ok_0 == opt_bool(f),
        r is Err ==> r->Err_0 == RelayError::Decode,
{
    match f {
        None => Ok(None),
        Some(Json::Null) => Ok(None),
        Some(Json::Bool(b)) => Ok(Some(b)),
        _ => Err(RelayError::Decode),
    }
}

fn opt_array_from(f: Option<Json>) -> (r: Result<Option<Vec<Json>>, RelayError>)
    ensures
        r is Ok <==> opt_array_ok(f),
        r is Ok ==> r->Ok_0 == opt_array(f),
        r is Err ==> r->Err_0 == RelayError::Decode,
{
    match f {
        None => Ok(None),
        Some(Json::Null) => Ok(None),
        Some(Json::Array(v)) => Ok(Some(v)),
        _ => Err(RelayError::Decode),
    }
}

fn string_from(f: Option<Json>) -> (r: Result<String, RelayError>)
    ensures
        r is Ok <==> is_string(f),
        r is Ok ==> f == Some(Json::Str(r->Ok_0)),
        r is Err ==> r->Err_0 == RelayError::Decode,
{
    match f {
        Some(Json::Str(s)) => Ok(s),
        _ => Err(RelayError::Decode),
    }
}

fn bytes_from(v: &Vec<Json>) -> (r: Result<Vec<u8>, RelayError>)
    ensures
        r is Ok <==> bytes_ok(v@),
        r is Ok ==> r->Ok_0@ == bytes_of(v@),
        r is Err ==> r->Err_0 == RelayError::Decode,
{
    let mut out: Vec<u8> = Vec::new();
    let mut i: usize = 0;
    while i < v.len()
        invariant
            i <= v.len(),
            out@ == bytes_of(v@).take(i as int),
            forall|t: int| 0 <= t < i ==> #[trigger] is_byte(v@[t]),
        decreases v.len() - i,
    {
        match &v[i] {
            Json::Number { number, unsigned: Some(u) } => {
                if *u <= 255 {
                    out.push(*u as u8);
                } else {
                    assert(!is_byte(v@[i as int]));
                    return Err(RelayError::Decode);
                }
            },
            _ => {
                assert(!is_byte(v@[i as int]));
                return Err(RelayError::Decode);
            },
        }
        i = i + 1;
        assert(out@ =~= bytes_of(v@).take(i as int));
    }
    assert(out@ =~= bytes_of(v@));
    Ok(out)
}

fn key(s: &str) -> (r: String)
    ensures
        r@ == s@,
{
    String::from_str(s)
}

/// Reads an attachment.
pub fn file_from(j: Json) -> (r: Result<File, RelayError>)
    ensures
        r is Ok <==> file_ok(j),
        r is Ok ==> file_decoded(j, r->Ok_0),
        r is Err ==> r->Err_0 == RelayError::Decode,
{
    match j {
        Json::Object(ms) => {
            let ghost whole = Json::Object(ms);
            let names = vec![key("filename"), key("is_spoiler"), key("data")];
            proof {
                reveal_strlit("filename");
                reveal_strlit("is_spoiler");
                reveal_strlit("data");
                assert(names@[0]@.len() == 8 && names@[1]@.len() == 10 && names@[2]@.len() == 4);
                assert(distinct_names(names@));
            }
            let mut got = take_fields(ms, &names);
            let data = next_field(&mut got);
            let spoiler = next_field(&mut got);
            let name = next_field(&mut got);
            assert(name == field(whole, "filename"@));
            assert(spoiler == field(whole, "is_spoiler"@));
            assert(data == field(whole, "data"@));
            let filename = match string_from(name) {
                Ok(s) => s,
                Err(e) => return Err(e),
            };
            let is_spoiler = match opt_bool_from(spoiler) {
                Ok(b) => b,
                Err(e) => return Err(e),
            };
            match data {
                Some(Json::Array(items)) => {
                    match bytes_from(&items) {
                        Ok(bytes) => Ok(File { filename, is_spoiler, data: bytes }),
                        Err(e) => Err(e),
                    }
                },
                _ => Err(RelayError::Decode),
            }
        },
        _ => Err(RelayError::Decode),
    }
}

/// Reads a webhook payload.
pub fn payload_from(j: Json) -> (r: Result<WebhookData, RelayError>)
    ensures
        r is Ok <==> payload_ok(j),
        r is Ok ==> payload_decoded(j, r->Ok_0),
        r is Err ==> r->Err_0 == RelayError::Decode,
{
    match j {
        Json::Object(ms) => {
            let ghost whole = Json::Object(ms);
            let names = vec![
                key("content"),
                key("username"),
                key("avatar_url"),
                key("tts"),
                key("embeds"),
            ];
            proof {
                reveal_strlit("content");
                reveal_strlit("username");
                reveal_strlit("avatar_url");
                reveal_strlit("tts");
                reveal_strlit("embeds");
                assert(names@[0]@.len() == 7 && names@[1]@.len() == 8 && names@[2]@.len() == 10
                    && names@[3]@.len() == 3 && names@[4]@.len() == 6);
                assert(distinct_names(names@));
            }
            let mut got = take_fields(ms, &names);
            let embeds = next_field(&mut got);
            let tts = next_field(&mut got);
            let avatar_url = next_field(&mut got);
            let username = next_field(&mut got);
            let content = next_field(&mut got);
            assert(content == field(whole, "content"@));
            assert(username == field(whole, "username"@));
            assert(avatar_url == field(whole, "avatar_url"@));
            assert(tts == field(whole, "tts"@));
            assert(embeds == field(whole, "embeds"@));
            let content = match string_from(content) {
                Ok(s) => s,
                Err(e) => return Err(e),
            };
            let username = match opt_string_from(username) {
                Ok(s) => s,
                Err(e) => return Err(e),
            };
            let avatar_url = match opt_string_from(avatar_url) {
                Ok(s) => s,
                Err(e) => return Err(e),
            };
            let tts = match opt_bool_from(tts) {
                Ok(b) => b,
                Err(e) => return Err(e),
            };
            let embeds = match opt_array_from(embeds) {
                Ok(v) => v,
                Err(e) => return Err(e),
            };
            Ok(WebhookData { content, username, avatar_url, tts, embeds })
        },
        _ => Err(RelayError::Decode),
    }
}

/// Reads the attachments of an array, in order.
fn files_from_items(items: Vec<Json>) -> (r: Result<Vec<File>, RelayError>)
    ensures
        r is Ok <==> forall|i: int| 0 <= i < items.len() ==> #[trigger] file_ok(items@[i]),
        r is Ok ==> r->Ok_0.len() == items.len() && forall|i: int|
            0 <= i < items.len() ==> #[trigger] file_decoded(items@[i], r->Ok_0@[i]),
        r is Err ==> r->Err_0 == RelayError::Decode,
{
    let ghost orig = items@;
    let mut rest = items;
    let mut out: Vec<File> = Vec::new();
    while rest.len() > 0
        invariant
            orig == items@,
            out.len() + rest.len() == orig.len(),
            rest@ == orig.subrange(out.len() as int, orig.len() as int),
            forall|i: int| 0 <= i < out.len() ==> #[trigger] file_ok(orig[i]),
            forall|i: int| 0 <= i < out.len() ==> file_decoded(orig[i], #[trigger] out@[i]),
        decreases rest.len(),
    {
        let item = rest.remove(0);
        assert(item == orig[out.len() as int]);
        assert(rest@ =~= orig.subrange(out.len() + 1, orig.len() as int));
        match file_from(item) {
            Ok(f) => {
                let ghost prev = out@;
                assert(file_ok(item));
                assert(file_decoded(item, f));
                out.push(f);
                assert(out@[prev.len() as int] == f);
                assert forall|i: int| 0 <= i < out.len() implies file_decoded(orig[i], #[trigger] out@[i]) by {
                    if i < prev.len() {
                        assert(out@[i] == prev[i]);
                    }
                }
            },
            Err(e) => {
                assert(!file_ok(orig[out.len() as int]));
                return Err(e);
            },
        }
    }
    assert(forall|i: int| 0 <= i < items.len() ==> #[trigger] file_ok(items@[i]) == file_ok(orig[i]));
    Ok(out)
}

fn files_from(f: Option<Json>) -> (r: Result<Option<Vec<File>>, RelayError>)
    ensures
        r is Ok <==> files_ok(f),
        r is Ok ==> files_decoded(f, r->Ok_0),
        r is Err ==> r->Err_0 == RelayError::Decode,
{
    match f {
        None => Ok(None),
        Some(Json::Null) => Ok(None),
        Some(Json::Array(items)) => match files_from_items(items) {
            Ok(v) => Ok(Some(v)),
            Err(e) => Err(e),
        },
        _ => Err(RelayError::Decode),
    }
}

/// Reads an envelope from a JSON value.
pub fn envelope_from(j: Json) -> (r: Result<IncomingTransportData, RelayError>)
    ensures
        r is Ok <==> envelope_ok(j),
        r is Ok ==> envelope_decoded(j, r->Ok_0),
        r is Err ==> r->Err_0 == RelayError::Decode,
{
    match j {
        Json::Object(ms) => {
            let ghost whole = Json::Object(ms);
            let names = vec![key("webhook_uri"), key("payload"), key("files")];
            proof {
                reveal_strlit("webhook_uri");
                reveal_strlit("payload");
                reveal_strlit("files");
                assert(names@[0]@.len() == 11 && names@[1]@.len() == 7 && names@[2]@.len() == 5);
                assert(distinct_names(names@));
            }
            let mut got = take_fields(ms, &names);
            let files = next_field(&mut got);
            let payload = next_field(&mut got);
            let uri = next_field(&mut got);
            assert(uri == field(whole, "webhook_uri"@));
            assert(payload == field(whole, "payload"@));
            assert(files == field(whole, "files"@));
            let webhook_uri = match opt_string_from(uri) {
                Ok(s) => s,
                Err(e) => return Err(e),
            };
            let payload = match payload {
                Some(p) => match payload_from(p) {
                    Ok(p) => p,
                    Err(e) => return Err(e),
                },
                None => return Err(RelayError::Decode),
            };
            let files = match files_from(files) {
                Ok(f) => f,
                Err(e) => return Err(e),
            };
            Ok(IncomingTransportData { webhook_uri, payload, files })
        },
        _ => Err(RelayError::Decode),
    }
}

/// Reads an envelope from the text of a queue message. It fails with
/// `Decode` exactly when the text is not a JSON document or that document is
/// not a well-formed envelope.
pub fn decode(text: &str) -> (r: Result<IncomingTransportData, RelayError>)
    ensures
        r is Ok <==> (parsed_json(text@) matches Some(j) && envelope_ok(j)),
        r is Ok ==> envelope_decoded(parsed_json(text@)->0, r->Ok_0),
        r is Err ==> r->Err_0 == RelayError::Decode,
{
    match parse_json(text) {
        Some(j) => envelope_from(j),
        None => Err(RelayError::Decode),
    }
}

} // verus!
