//! Audio isolation: the multipart bodies of `POST /v1/audio-isolation` and
//! `POST /v1/audio-isolation/stream`.

use vstd::prelude::*;

use crate::multipart;
use crate::multipart::{
    append_closing, append_file_part, append_opt_str_field, append_opt_text_field,
    multipart_boundary, multipart_content_type, MultipartUpload,
};
use crate::types::InputFileFormat;

verus! {

/// Configuration fields of an audio isolation request.
pub struct AudioIsolationRequest {
    /// Encoding of the uploaded audio, when it is raw PCM.
    pub file_format: Option<InputFileFormat>,
    /// Base64-encoded preview image, if any.
    pub preview_b64: Option<String>,
}

/// Configuration fields of a streaming audio isolation request.
pub struct AudioIsolationStreamRequest {
    /// Encoding of the uploaded audio, when it is raw PCM.
    pub file_format: Option<InputFileFormat>,
}

impl Default for AudioIsolationRequest {
    fn default() -> (r: Self)
        ensures
            r.file_format is None,
            r.preview_b64 is None,
    {
        AudioIsolationRequest { file_format: None, preview_b64: None }
    }
}

impl Default for AudioIsolationStreamRequest {
    fn default() -> (r: Self)
        ensures
            r.file_format is None,
    {
        AudioIsolationStreamRequest { file_format: None }
    }
}

/// The wire name of an optional file format.
pub open spec fn format_wire(f: Option<InputFileFormat>) -> Option<Seq<char>> {
    match f {
        Some(v) => Some(v.wire()),
        None => None,
    }
}

/// The wire name of an optional file format.
pub fn format_str(f: &Option<InputFileFormat>) -> (s: Option<&'static str>)
    ensures
        multipart::opt_str_view(s) == format_wire(*f),
{
    match f {
        Some(v) => Some(v.as_str()),
        None => None,
    }
}

/// Body of `POST /v1/audio-isolation`: the `audio` file, then `file_format`
/// and `preview_b64` when set.
pub open spec fn audio_isolation_body(
    boundary: Seq<char>,
    request: AudioIsolationRequest,
    audio_data: Seq<u8>,
    filename: Seq<char>,
    content_type: Seq<char>,
) -> Seq<u8> {
    multipart::file_part_bytes(boundary, "audio"@, filename, content_type, audio_data)
        + multipart::opt_field_bytes(boundary, "file_format"@, format_wire(request.file_format))
        + multipart::opt_field_bytes(boundary, "preview_b64"@, multipart::opt_view(request.preview_b64))
        + multipart::closing_bytes(boundary)
}

/// Law: an audio isolation body sends the audio as the `audio` part,
/// `file_format` and `preview_b64` when set, and ends with the closing
/// delimiter.
pub proof fn lemma_audio_isolation_body_sends_fields(boundary: Seq<char>,
    request: AudioIsolationRequest,
    audio_data: Seq<u8>,
    filename: Seq<char>,
    content_type: Seq<char>,)
    ensures
        ({
            let body = audio_isolation_body(boundary, request, audio_data, filename, content_type);
            &&& request.file_format matches Some(w) ==> multipart::holds_part(body, multipart::text_field_bytes(boundary, "file_format"@, w.wire()))
            &&& request.preview_b64 matches Some(v) ==> multipart::holds_part(body, multipart::text_field_bytes(boundary, "preview_b64"@, v@))
            &&& multipart::holds_part(body, multipart::file_part_bytes(boundary, "audio"@, filename, content_type, audio_data))
            &&& multipart::ends_with(body, multipart::closing_bytes(boundary))
        }),
{
    broadcast use multipart::lemma_holds_part_self, multipart::lemma_holds_part_concat;

    broadcast use multipart::lemma_ends_with_last, multipart::lemma_ends_with_concat;
}

/// Body of `POST /v1/audio-isolation/stream`: the `audio` file, then
/// `file_format` when set.
pub open spec fn audio_isolation_stream_body(
    boundary: Seq<char>,
    request: AudioIsolationStreamRequest,
    audio_data: Seq<u8>,
    filename: Seq<char>,
    content_type: Seq<char>,
) -> Seq<u8> {
    multipart::file_part_bytes(boundary, "audio"@, filename, content_type, audio_data)
        + multipart::opt_field_bytes(boundary, "file_format"@, format_wire(request.file_format))
        + multipart::closing_bytes(boundary)
}

/// Law: a streaming audio isolation body sends the audio as the `audio`
/// part, `file_format` when set, and ends with the closing delimiter.
pub proof fn lemma_audio_isolation_stream_body_sends_fields(boundary: Seq<char>,
    request: AudioIsolationStreamRequest,
    audio_data: Seq<u8>,
    filename: Seq<char>,
    content_type: Seq<char>,)
    ensures
        ({
            let body = audio_isolation_stream_body(boundary, request, audio_data, filename, content_type);
            &&& request.file_format matches Some(w) ==> multipart::holds_part(body, multipart::text_field_bytes(boundary, "file_format"@, w.wire()))
            &&& multipart::holds_part(body, multipart::file_part_bytes(boundary, "audio"@, filename, content_type, audio_data))
            &&& multipart::ends_with(body, multipart::closing_bytes(boundary))
        }),
{
    broadcast use multipart::lemma_holds_part_self, multipart::lemma_holds_part_concat;

    broadcast use multipart::lemma_ends_with_last, multipart::lemma_ends_with_concat;
}

/// Builds the multipart body for `POST /v1/audio-isolation`.
pub fn build_audio_isolation_multipart(
    boundary: &str,
    request: &AudioIsolationRequest,
    audio_data: &[u8],
    filename: &str,
    content_type: &str,
) -> (body: Vec<u8>)
    ensures
        body@ == audio_isolation_body(boundary@, *request, audio_data@, filename@, content_type@),
{
    let mut buf = Vec::new();
    append_file_part(&mut buf, boundary, "audio", filename, content_type, audio_data);
    append_opt_str_field(&mut buf, boundary, "file_format", format_str(&request.file_format));
    append_opt_text_field(&mut buf, boundary, "preview_b64", &request.preview_b64);
    append_closing(&mut buf, boundary);
    assert(buf@ =~= audio_isolation_body(boundary@, *request, audio_data@, filename@, content_type@));
    buf
}

/// Builds the multipart body for `POST /v1/audio-isolation/stream`.
pub fn build_audio_isolation_stream_multipart(
    boundary: &str,
    request: &AudioIsolationStreamRequest,
    audio_data: &[u8],
    filename: &str,
    content_type: &str,
) -> (body: Vec<u8>)
    ensures
        body@ == audio_isolation_stream_body(
            boundary@,
            *request,
            audio_data@,
            filename@,
            content_type@,
        ),
{
    let mut buf = Vec::new();
    append_file_part(&mut buf, boundary, "audio", filename, content_type, audio_data);
    append_opt_str_field(&mut buf, boundary, "file_format", format_str(&request.file_format));
    append_closing(&mut buf, boundary);
    assert(buf@ =~= audio_isolation_stream_body(
        boundary@,
        *request,
        audio_data@,
        filename@,
        content_type@,
    ));
    buf
}

/// The request that `isolate` sends: the body for a fresh boundary, to
/// `/v1/audio-isolation`.
pub fn isolate_upload(
    request: &AudioIsolationRequest,
    audio_data: &[u8],
    filename: &str,
    content_type: &str,
) -> (u: MultipartUpload)
    ensures
        exists|b: Seq<char>|
            multipart::is_sdk_boundary(b) && multipart::is_upload(
                u,
                "/v1/audio-isolation"@,
                b,
                audio_isolation_body(b, *request, audio_data@, filename@, content_type@),
            ),
{
    let boundary = multipart_boundary();
    let body = build_audio_isolation_multipart(
        boundary.as_str(),
        request,
        audio_data,
        filename,
        content_type,
    );
    let ct = multipart_content_type(boundary.as_str());
    MultipartUpload { path: "/v1/audio-isolation".to_owned(), content_type: ct, body }
}

/// The request that `isolate_stream` sends: the body for a fresh boundary,
/// to `/v1/audio-isolation/stream`.
pub fn isolate_stream_upload(
    request: &AudioIsolationStreamRequest,
    audio_data: &[u8],
    filename: &str,
    content_type: &str,
) -> (u: MultipartUpload)
    ensures
        exists|b: Seq<char>|
            multipart::is_sdk_boundary(b) && multipart::is_upload(
                u,
                "/v1/audio-isolation/stream"@,
                b,
                audio_isolation_stream_body(b, *request, audio_data@, filename@, content_type@),
            ),
{
    let boundary = multipart_boundary();
    let body = build_audio_isolation_stream_multipart(
        boundary.as_str(),
        request,
        audio_data,
        filename,
        content_type,
    );
    let ct = multipart_content_type(boundary.as_str());
    MultipartUpload { path: "/v1/audio-isolation/stream".to_owned(), content_type: ct, body }
}

} // verus!
