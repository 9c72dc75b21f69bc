//! Music: the multipart body of `POST /v1/music/stem-separation`.

use vstd::prelude::*;

use crate::multipart;
use crate::multipart::{
    append_closing, append_file_part, append_text_field, multipart_boundary,
    multipart_content_type, MultipartUpload,
};
use crate::text;
use crate::types::StemVariation;

verus! {

/// Fields of a stem separation request.
pub struct MusicStemSeparationRequest {
    /// How many stems to separate into.
    pub stem_variation_id: StemVariation,
    /// Whether to sign the output with C2PA.
    pub sign_with_c2pa: bool,
}

/// Body of `POST /v1/music/stem-separation`: the `audio` file, then
/// `stem_variation_id` and `sign_with_c2pa`.
pub open spec fn stem_separation_body(
    b: Seq<char>,
    r: MusicStemSeparationRequest,
    audio_data: Seq<u8>,
    filename: Seq<char>,
    content_type: Seq<char>,
) -> Seq<u8> {
    multipart::file_part_bytes(b, "audio"@, filename, content_type, audio_data)
        + multipart::text_field_bytes(b, "stem_variation_id"@, r.stem_variation_id.wire())
        + multipart::text_field_bytes(b, "sign_with_c2pa"@, text::bool_text(r.sign_with_c2pa))
        + multipart::closing_bytes(b)
}

/// Law: a stem separation body sends the audio as the `audio` part, the
/// stem variation by its wire name, `sign_with_c2pa` as `true`/`false`, and
/// ends with the closing delimiter.
pub proof fn lemma_stem_separation_body_sends_fields(b: Seq<char>,
    r: MusicStemSeparationRequest,
    audio_data: Seq<u8>,
    filename: Seq<char>,
    content_type: Seq<char>,)
    ensures
        ({
            let body = stem_separation_body(b, r, audio_data, filename, content_type);
            &&& multipart::holds_part(body, multipart::text_field_bytes(b, "stem_variation_id"@, r.stem_variation_id.wire()))
            &&& multipart::holds_part(body, multipart::text_field_bytes(b, "sign_with_c2pa"@, text::bool_text(r.sign_with_c2pa)))
            &&& multipart::holds_part(body, multipart::file_part_bytes(b, "audio"@, filename, content_type, audio_data))
            &&& multipart::ends_with(body, multipart::closing_bytes(b))
        }),
{
    broadcast use multipart::lemma_holds_part_self, multipart::lemma_holds_part_concat;

    broadcast use multipart::lemma_ends_with_last, multipart::lemma_ends_with_concat;
}

/// Builds the multipart body for `POST /v1/music/stem-separation`.
pub fn build_stem_separation_multipart(
    boundary: &str,
    request: &MusicStemSeparationRequest,
    audio_data: &[u8],
    filename: &str,
    content_type: &str,
) -> (body: Vec<u8>)
    ensures
        body@ == stem_separation_body(boundary@, *request, audio_data@, filename@, content_type@),
{
    let mut buf = Vec::new();
    append_file_part(&mut buf, boundary, "audio", filename, content_type, audio_data);
    append_text_field(&mut buf, boundary, "stem_variation_id", request.stem_variation_id.as_str());
    append_text_field(&mut buf, boundary, "sign_with_c2pa", text::bool_str(request.sign_with_c2pa));
    append_closing(&mut buf, boundary);
    assert(buf@ =~= stem_separation_body(boundary@, *request, audio_data@, filename@, content_type@));
    buf
}

/// The request that `separate_stems` sends: the body for a fresh boundary,
/// to `/v1/music/stem-separation`.
pub fn separate_stems_upload(
    request: &MusicStemSeparationRequest,
    audio_data: &[u8],
    filename: &str,
    content_type: &str,
) -> (u: MultipartUpload)
    ensures
        exists|b: Seq<char>|
            multipart::is_sdk_boundary(b) && multipart::is_upload(
                u,
                "/v1/music/stem-separation"@,
                b,
                stem_separation_body(b, *request, audio_data@, filename@, content_type@),
            ),
{
    let boundary = multipart_boundary();
    let body = build_stem_separation_multipart(
        boundary.as_str(),
        request,
        audio_data,
        filename,
        content_type,
    );
    let ct = multipart_content_type(boundary.as_str());
    MultipartUpload { path: "/v1/music/stem-separation".to_owned(), content_type: ct, body }
}

} // verus!
