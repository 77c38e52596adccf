//! Building the outbound request: a JSON body, or a multipart form when the
//! message carries attachments.
use vstd::prelude::*;
use crate::json::{Json, object_text, member_views, object_to_text};
use crate::model::{File, WebhookData};

verus! {

/// One attachment part of a multipart form.
pub struct FilePart {
    /// The form field name.
    pub name: String,
    pub filename: String,
    pub mime: String,
    pub data: Vec<u8>,
}

/// The request to send to the webhook endpoint.
pub enum OutboundRequest {
    /// A POST whose body is the payload's JSON text.
    Json { uri: String, content_type: String, body: String },
    /// A POST of a multipart form: the payload's JSON text in the field
    /// `payload_json`, then one part per attachment.
    Multipart { uri: String, payload_json: String, parts: Vec<FilePart> },
}

pub open spec fn string_member(key: Seq<char>, v: Option<String>) -> Seq<(Seq<char>, Json)> {
    match v {
        Some(s) => seq![(key, Json::Str(s))],
        None => Seq::empty(),
    }
}

pub open spec fn bool_member(key: Seq<char>, v: Option<bool>) -> Seq<(Seq<char>, Json)> {
    match v {
        Some(b) => seq![(key, Json::Bool(b))],
        None => Seq::empty(),
    }
}

pub open spec fn array_member(key: Seq<char>, v: Option<Vec<Json>>) -> Seq<(Seq<char>, Json)> {
    match v {
        Some(items) => seq![(key, Json::Array(items))],
        None => Seq::empty(),
    }
}

/// The members of a payload's JSON object: `content`, then each optional
/// field that is present; an absent field gives no member.
pub open spec fn payload_members(p: WebhookData) -> Seq<(Seq<char>, Json)> {
    seq![("content"@, Json::Str(p.content))]
        + string_member("username"@, p.username)
        + string_member("avatar_url"@, p.avatar_url)
        + bool_member("tts"@, p.tts)
        + array_member("embeds"@, p.embeds)
}

/// The JSON text of a payload.
pub open spec fn payload_text(p: WebhookData) -> Seq<char> {
    object_text(payload_members(p))
}

fn push_member(members: &mut Vec<(String, Json)>, key: &str, value: Json)
    ensures
        member_views(final(members)@) == member_views(old(members)@) + seq![(key@, value)],
{
    members.push((String::from_str(key), value));
    assert(member_views(final(members)@) =~= member_views(old(members)@) + seq![(key@, value)]);
}

/// Serializes a payload to JSON, leaving out the optional fields that are
/// absent.
pub fn payload_json(p: WebhookData) -> (r: String)
    ensures
        r@ == payload_text(p),
{
    let ghost whole = p;
    let mut members: Vec<(String, Json)> = Vec::new();
    push_member(&mut members, "content", Json::Str(p.content));
    assert(member_views(members@) =~= seq![("content"@, Json::Str(whole.content))]);
    let ghost m0 = member_views(members@);
    match p.username {
        Some(s) => push_member(&mut members, "username", Json::Str(s)),
        None => {},
    }
    assert(member_views(members@) =~= m0 + string_member("username"@, whole.username));
    let ghost m1 = member_views(members@);
    match p.avatar_url {
        Some(s) => push_member(&mut members, "avatar_url", Json::Str(s)),
        None => {},
    }
    assert(member_views(members@) =~= m1 + string_member("avatar_url"@, whole.avatar_url));
    let ghost m2 = member_views(members@);
    match p.tts {
        Some(b) => push_member(&mut members, "tts", Json::Bool(b)),
        None => {},
    }
    assert(member_views(members@) =~= m2 + bool_member("tts"@, whole.tts));
    let ghost m3 = member_views(members@);
    match p.embeds {
        Some(items) => push_member(&mut members, "embeds", Json::Array(items)),
        None => {},
    }
    assert(member_views(members@) =~= m3 + array_member("embeds"@, whole.embeds));
    assert(member_views(members@) =~= payload_members(whole));
    object_to_text(members)
}

pub open spec fn digit_char(d: nat) -> char {
    if d == 0 { '0' }
    else if d == 1 { '1' }
    else if d == 2 { '2' }
    else if d == 3 { '3' }
    else if d == 4 { '4' }
    else if d == 5 { '5' }
    else if d == 6 { '6' }
    else if d == 7 { '7' }
    else if d == 8 { '8' }
    else { '9' }
}

/// The decimal digits of `n`, without leading zeros.
pub open spec fn decimal(n: nat) -> Seq<char>
    decreases n,
{
    if n < 10 {
        seq![digit_char(n)]
    } else {
        decimal(n / 10) + seq![digit_char(n % 10)]
    }
}

/// The form field name of the attachment at `index`: `file0`, `file1`, ...
pub open spec fn part_name(index: nat) -> Seq<char> {
    "file"@ + decimal(index)
}

pub open spec fn octet_stream() -> Seq<char> {
    "application/octet-stream"@
}

fn append_digit(out: &mut String, d: usize)
    requires
        d < 10,
    ensures
        final(out)@ == old(out)@ + seq![digit_char(d as nat)],
{
    let s = if d == 0 { "0" } else if d == 1 { "1" } else if d == 2 { "2" } else if d == 3 {
        "3"
    } else if d == 4 { "4" } else if d == 5 { "5" } else if d == 6 { "6" } else if d == 7 {
        "7"
    } else if d == 8 { "8" } else { "9" };
    proof {
        reveal_strlit("0");
        reveal_strlit("1");
        reveal_strlit("2");
        reveal_strlit("3");
        reveal_strlit("4");
        reveal_strlit("5");
        reveal_strlit("6");
        reveal_strlit("7");
        reveal_strlit("8");
        reveal_strlit("9");
    }
    out.append(s);
    assert(s@ =~= seq![digit_char(d as nat)]);
}

/// Appends the decimal digits of `n` to `out`.
pub fn append_decimal(out: &mut String, n: usize)
    ensures
        final(out)@ == old(out)@ + decimal(n as nat),
    decreases n,
{
    if n < 10 {
        append_digit(out, n);
    } else {
        append_decimal(out, n / 10);
        append_digit(out, n % 10);
        assert(final(out)@ =~= old(out)@ + decimal(n as nat));
    }
}

/// The form field name of the attachment at `index`.
pub fn file_part_name(index: usize) -> (r: String)
    ensures
        r@ == part_name(index as nat),
{
    let mut name = String::from_str("file");
    append_decimal(&mut name, index);
    name
}

/// `part` carries the attachment `f` at position `index`.
pub open spec fn part_of(part: FilePart, f: File, index: nat) -> bool {
    &&& part.name@ == part_name(index)
    &&& part.filename == f.filename
    &&& part.mime@ == octet_stream()
    &&& part.data == f.data
}

/// Builds the request for `payload` and `files` to `uri`: a JSON POST when
/// there is no attachment, else a multipart form with `payload_json` and one
/// part `file<i>` per attachment, in order.
pub fn build(uri: String, payload: WebhookData, files: Vec<File>) -> (r: OutboundRequest)
    ensures
        files.len() == 0 <==> r is Json,
        files.len() == 0 ==> r->Json_uri == uri && r->Json_content_type@ == "application/json"@
            && r->Json_body@ == payload_text(payload),
        files.len() > 0 ==> r->Multipart_uri == uri && r->Multipart_payload_json@ == payload_text(payload) && r->Multipart_parts.len() == files.len() && forall|i: int|
            0 <= i < files.len() ==> #[trigger] part_of(r->Multipart_parts@[i], files@[i], i as nat),
{
    let body = payload_json(payload);
    if files.len() == 0 {
        return OutboundRequest::Json {
            uri,
            content_type: String::from_str("application/json"),
            body,
        };
    }
    let ghost orig = files@;
    let mut rest = files;
    let mut parts: Vec<FilePart> = Vec::new();
    while rest.len() > 0
        invariant
            parts.len() + rest.len() == orig.len(),
            rest@ == orig.subrange(parts.len() as int, orig.len() as int),
            forall|i: int| 0 <= i < parts.len() ==> #[trigger] part_of(parts@[i], orig[i], i as nat),
        decreases rest.len(),
    {
        let f = rest.remove(0);
        assert(f == orig[parts.len() as int]);
        assert(rest@ =~= orig.subrange(parts.len() + 1, orig.len() as int));
        let name = file_part_name(parts.len());
        let part = FilePart {
            name,
            filename: f.filename,
            mime: String::from_str("application/octet-stream"),
            data: f.data,
        };
        let ghost prev = parts@;
        parts.push(part);
        assert forall|i: int| 0 <= i < parts.len() implies #[trigger] part_of(parts@[i], orig[i], i as nat) by {
            if i < prev.len() {
                assert(parts@[i] == prev[i]);
            }
        }
    }
    OutboundRequest::Multipart { uri, payload_json: body, parts }
}

} // verus!
