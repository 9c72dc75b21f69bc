//! Forced alignment: the multipart body of `POST /v1/forced-alignment`.

use vstd::prelude::*;

use crate::multipart;
use crate::multipart::{
    append_closing, append_file_part, append_text_field, multipart_content_type, uuid_v4_simple,
    MultipartUpload,
};
use crate::text;

verus! {

/// Body of a forced alignment request: the audio as `file` (sent as
/// `application/octet-stream`), then the `text`.
pub open spec fn alignment_body(b: Seq<char>, audio_data: Seq<u8>, file_name: Seq<char>, transcript: Seq<char>) -> Seq<u8> {
    multipart::file_part_bytes(b, "file"@, file_name, "application/octet-stream"@, audio_data)
        + multipart::text_field_bytes(b, "text"@, transcript) + multipart::closing_bytes(b)
}

/// Law: an alignment body sends the audio as the `file` part typed
/// `application/octet-stream`, the transcript as `text`, and ends with the
/// closing delimiter.
pub proof fn lemma_alignment_body_sends_fields(b: Seq<char>, audio_data: Seq<u8>, file_name: Seq<char>, transcript: Seq<char>)
    ensures
        ({
            let body = alignment_body(b, audio_data, file_name, transcript);
            &&& multipart::holds_part(body, multipart::text_field_bytes(b, "text"@, transcript))
            &&& multipart::holds_part(body, multipart::file_part_bytes(b, "file"@, file_name, "application/octet-stream"@, audio_data))
            &&& multipart::ends_with(body, multipart::closing_bytes(b))
        }),
{
    broadcast use multipart::lemma_holds_part_self, multipart::lemma_holds_part_concat;

    broadcast use multipart::lemma_ends_with_last, multipart::lemma_ends_with_concat;
}

/// Builds the body of a forced alignment request.
pub fn build_alignment_multipart(boundary: &str, audio_data: &[u8], file_name: &str, transcript: &str) -> (body: Vec<u8>)
    ensures
        body@ == alignment_body(boundary@, audio_data@, file_name@, transcript@),
{
    let mut body = Vec::new();
    append_file_part(&mut body, boundary, "file", file_name, "application/octet-stream", audio_data);
    append_text_field(&mut body, boundary, "text", transcript);
    append_closing(&mut body, boundary);
    assert(body@ =~= alignment_body(boundary@, audio_data@, file_name@, transcript@));
    body
}

/// The request that `create` sends: the body framed by a fresh 32-digit
/// hexadecimal boundary, to `/v1/forced-alignment`.
pub fn alignment_upload(audio_data: &[u8], file_name: &str, transcript: &str) -> (u: MultipartUpload)
    ensures
        exists|v: nat|
            multipart::is_upload(
                u,
                "/v1/forced-alignment"@,
                text::hex_text(v, 32),
                alignment_body(text::hex_text(v, 32), audio_data@, file_name@, transcript@),
            ),
{
    let boundary = uuid_v4_simple();
    let body = build_alignment_multipart(boundary.as_str(), audio_data, file_name, transcript);
    let ct = multipart_content_type(boundary.as_str());
    MultipartUpload { path: "/v1/forced-alignment".to_owned(), content_type: ct, body }
}

} // verus!
