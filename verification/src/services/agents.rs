//! Conversational AI agents: paths with optional query parameters, and the
//! multipart bodies of the avatar and knowledge base file uploads.

use vstd::prelude::*;

use crate::multipart;
use crate::multipart::{
    append_closing, append_file_part, append_opt_str_field, build_single_file_multipart,
    multipart_boundary, multipart_content_type, MultipartUpload,
};
use crate::query;
use crate::query::append_query;

verus! {

/// The `(key, value)` pairs whose value is present, in order.
pub open spec fn present_pairs(params: Seq<(&str, Option<&str>)>) -> Seq<(Seq<char>, Seq<char>)>
    decreases params.len(),
{
    if params.len() == 0 {
        seq![]
    } else {
        let rest = present_pairs(params.drop_last());
        let (k, v) = params.last();
        match v {
            Some(value) => rest.push((k@, value@)),
            None => rest,
        }
    }
}

/// `base` with `key=value` appended by [`append_query`] for each parameter
/// whose value is present, in order. When `base` has no query string yet,
/// that is `base`, `?`, and the parameters joined with `&`.
pub fn optional_query_path(base: &str, params: &Vec<(&str, Option<&str>)>) -> (p: String)
    ensures
        p@ == query::appended(base@, present_pairs(params@)),
        !query::has_question_mark(base@) ==> p@ == query::with_query(
            base@,
            query::pair_params(present_pairs(params@)),
        ),
{
    let mut path = base.to_owned();
    let mut i: usize = 0;
    while i < params.len()
        invariant
            i <= params@.len(),
            path@ == query::appended(base@, present_pairs(params@.subrange(0, i as int))),
        decreases params@.len() - i,
    {
        let (key, value) = params[i];
        proof {
            let next = params@.subrange(0, i + 1);
            assert(next.drop_last() =~= params@.subrange(0, i as int));
            assert(next.last() == params@[i as int]);
        }
        let ghost prev = present_pairs(params@.subrange(0, i as int));
        match value {
            Some(v) => {
                append_query(&mut path, key, v);
                proof {
                    let next = prev.push((key@, v@));
                    assert(present_pairs(params@.subrange(0, i + 1)) == next);
                    assert(next.drop_last() =~= prev);
                }
            },
            None => {
                assert(present_pairs(params@.subrange(0, i + 1)) == prev);
            },
        }
        i = i + 1;
    }
    assert(params@.subrange(0, params@.len() as int) =~= params@);
    proof {
        if !query::has_question_mark(base@) {
            query::lemma_append_query_builds_query(base@, present_pairs(params@));
        }
    }
    path
}

/// `/v1/convai/agents/{agent_id}/avatar`.
pub open spec fn avatar_path(agent_id: Seq<char>) -> Seq<char> {
    "/v1/convai/agents/"@ + agent_id + "/avatar"@
}

/// The request that `upload_avatar` sends: the `avatar` file for a fresh
/// boundary, to `/v1/convai/agents/{agent_id}/avatar`.
pub fn avatar_upload(agent_id: &str, filename: &str, content_type_value: &str, data: &[u8]) -> (u: MultipartUpload)
    ensures
        exists|b: Seq<char>|
            multipart::is_sdk_boundary(b) && multipart::is_upload(
                u,
                avatar_path(agent_id@),
                b,
                multipart::file_part_bytes(b, "avatar"@, filename@, content_type_value@, data@)
                    + multipart::closing_bytes(b),
            ),
{
    let mut path = "/v1/convai/agents/".to_owned();
    path.append(agent_id);
    path.append("/avatar");
    let boundary = multipart_boundary();
    let body = build_single_file_multipart(
        boundary.as_str(),
        "avatar",
        filename,
        content_type_value,
        data,
    );
    let ct = multipart_content_type(boundary.as_str());
    MultipartUpload { path, content_type: ct, body }
}

/// Body of a knowledge base file upload: `name` and `parent_folder_id`
/// when given, then the `file`.
pub open spec fn knowledge_base_file_body(
    b: Seq<char>,
    filename: Seq<char>,
    content_type_value: Seq<char>,
    data: Seq<u8>,
    name: Option<Seq<char>>,
    parent_folder_id: Option<Seq<char>>,
) -> Seq<u8> {
    multipart::opt_field_bytes(b, "name"@, name) + multipart::opt_field_bytes(
        b,
        "parent_folder_id"@,
        parent_folder_id,
    ) + multipart::file_part_bytes(b, "file"@, filename, content_type_value, data)
        + multipart::closing_bytes(b)
}

/// Law: a knowledge-base upload sends `name` and `parent_folder_id` when
/// given, and the document as the `file` part right before the closing
/// delimiter, which ends the body.
pub proof fn lemma_knowledge_base_file_body_sends_fields(b: Seq<char>,
    filename: Seq<char>,
    content_type_value: Seq<char>,
    data: Seq<u8>,
    name: Option<Seq<char>>,
    parent_folder_id: Option<Seq<char>>,)
    ensures
        ({
            let body = knowledge_base_file_body(b, filename, content_type_value, data, name, parent_folder_id);
            &&& name matches Some(v) ==> multipart::holds_part(body, multipart::text_field_bytes(b, "name"@, v))
            &&& parent_folder_id matches Some(v) ==> multipart::holds_part(body, multipart::text_field_bytes(b, "parent_folder_id"@, v))
            &&& multipart::ends_with(
                body,
                multipart::file_part_bytes(b, "file"@, filename, content_type_value, data) + multipart::closing_bytes(b),
            )
        }),
{
    broadcast use multipart::lemma_holds_part_self, multipart::lemma_holds_part_concat;

    multipart::lemma_ends_with_last_two(
        multipart::opt_field_bytes(b, "name"@, name) + multipart::opt_field_bytes(b, "parent_folder_id"@, parent_folder_id),
        multipart::file_part_bytes(b, "file"@, filename, content_type_value, data),
        multipart::closing_bytes(b),
    );
}

/// Builds the body of a knowledge base file upload.
pub fn build_knowledge_base_file_multipart(
    boundary: &str,
    filename: &str,
    content_type_value: &str,
    data: &[u8],
    name: Option<&str>,
    parent_folder_id: Option<&str>,
) -> (body: Vec<u8>)
    ensures
        body@ == knowledge_base_file_body(
            boundary@,
            filename@,
            content_type_value@,
            data@,
            multipart::opt_str_view(name),
            multipart::opt_str_view(parent_folder_id),
        ),
{
    let mut buf = Vec::new();
    append_opt_str_field(&mut buf, boundary, "name", name);
    append_opt_str_field(&mut buf, boundary, "parent_folder_id", parent_folder_id);
    append_file_part(&mut buf, boundary, "file", filename, content_type_value, data);
    append_closing(&mut buf, boundary);
    assert(buf@ =~= knowledge_base_file_body(
        boundary@,
        filename@,
        content_type_value@,
        data@,
        multipart::opt_str_view(name),
        multipart::opt_str_view(parent_folder_id),
    ));
    buf
}

/// The request that `create_knowledge_base_file` sends: the body for a
/// fresh boundary, to `/v1/convai/knowledge-base/file`.
pub fn knowledge_base_file_upload(
    filename: &str,
    content_type_value: &str,
    data: &[u8],
    name: Option<&str>,
    parent_folder_id: Option<&str>,
) -> (u: MultipartUpload)
    ensures
        exists|b: Seq<char>|
            multipart::is_sdk_boundary(b) && multipart::is_upload(
                u,
                "/v1/convai/knowledge-base/file"@,
                b,
                knowledge_base_file_body(
                    b,
                    filename@,
                    content_type_value@,
                    data@,
                    multipart::opt_str_view(name),
                    multipart::opt_str_view(parent_folder_id),
                ),
            ),
{
    let boundary = multipart_boundary();
    let body = build_knowledge_base_file_multipart(
        boundary.as_str(),
        filename,
        content_type_value,
        data,
        name,
        parent_folder_id,
    );
    let ct = multipart_content_type(boundary.as_str());
    MultipartUpload { path: "/v1/convai/knowledge-base/file".to_owned(), content_type: ct, body }
}

} // verus!
