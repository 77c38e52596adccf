//! Properties that tie the pieces together.
use vstd::prelude::*;
use crate::json::{Json, object_text};
use crate::fields::field;
use crate::model::{
    WebhookData, envelope_ok, files_ok, is_string, opt_string_ok, opt_bool_ok,
    opt_array_ok,
};
use crate::request::{OutboundRequest, payload_members, payload_text, part_name};
use crate::target::target_of;
use crate::handler::{request_for, file_items};

verus! {

/// A message's own non-empty URI wins over any default; without one the
/// default is used; with neither there is no target.
pub proof fn lemma_target_resolution(uri: String, default_uri: Option<String>, d: String)
    requires
        uri@.len() > 0,
    ensures
        target_of(Some(uri), default_uri) == Some(uri@),
        target_of(None, Some(d)) == Some(d@),
        target_of(None, None) is None,
{
}

/// A payload whose optional fields are all absent is written as an object
/// with its content alone: no member, and so no `null`, for the absent fields.
pub proof fn lemma_absent_fields_omitted(p: WebhookData)
    requires
        p.username is None,
        p.avatar_url is None,
        p.tts is None,
        p.embeds is None,
    ensures
        payload_members(p) == seq![("content"@, Json::Str(p.content))],
        payload_text(p) == object_text(seq![("content"@, Json::Str(p.content))]),
{
    assert(payload_members(p) =~= seq![("content"@, Json::Str(p.content))]);
}

/// A document whose payload lacks a string `content` is no envelope; an
/// object with such a payload, whose other members have their types, is one,
/// whatever the content (the empty string too).
pub proof fn lemma_content_decides(j: Json)
    ensures
        !(field(j, "payload"@) matches Some(p) && is_string(field(p, "content"@))) ==> !envelope_ok(j),
        j is Object && opt_string_ok(field(j, "webhook_uri"@)) && files_ok(field(j, "files"@))
            && field(j, "payload"@) is Some && field(j, "payload"@)->0 is Object
            && is_string(field(field(j, "payload"@)->0, "content"@))
            && opt_string_ok(field(field(j, "payload"@)->0, "username"@))
            && opt_string_ok(field(field(j, "payload"@)->0, "avatar_url"@))
            && opt_bool_ok(field(field(j, "payload"@)->0, "tts"@))
            && opt_array_ok(field(field(j, "payload"@)->0, "embeds"@)) ==> envelope_ok(j),
{
}

/// The request for an envelope without attachments is a JSON request; the
/// request for one with `n` attachments is a multipart form with the payload
/// and exactly `n` parts, named `file0` to `file<n-1>` in order.
pub proof fn lemma_request_shape(req: OutboundRequest, j: Json, target: Seq<char>)
    requires
        request_for(req, j, target),
    ensures
        file_items(field(j, "files"@)).len() == 0 ==> req is Json,
        file_items(field(j, "files"@)).len() > 0 ==> req is Multipart
            && req->Multipart_parts.len() == file_items(field(j, "files"@)).len()
            && forall|i: int| 0 <= i < req->Multipart_parts.len()
                ==> (#[trigger] req->Multipart_parts@[i]).name@ == part_name(i as nat),
{
    if file_items(field(j, "files"@)).len() > 0 {
        let items = file_items(field(j, "files"@));
        assert forall|i: int| 0 <= i < req->Multipart_parts.len()
            implies (#[trigger] req->Multipart_parts@[i]).name@ == part_name(i as nat) by {
            assert(crate::handler::part_from(req->Multipart_parts@[i], items[i], i as nat));
        }
    }
}

} // verus!
