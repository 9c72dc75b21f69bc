//! Speech-to-speech: the paths and multipart bodies of
//! `POST /v1/speech-to-speech/{voice_id}` and its `/stream` variant.

use vstd::prelude::*;

use crate::multipart;
use crate::multipart::{
    append_closing, append_file_part, append_opt_number_field, append_opt_str_field,
    append_opt_text_field, append_text_field, multipart_boundary, multipart_content_type,
    MultipartUpload,
};
use crate::query;
use crate::services::audio_isolation;
use crate::text;
use crate::types::{InputFileFormat, OutputFormat};

verus! {

/// Fields of a speech-to-speech request.
pub struct SpeechToSpeechRequest {
    /// Model to convert with.
    pub model_id: String,
    /// Voice settings as JSON text, when overriding the voice's own.
    pub voice_settings: Option<String>,
    /// Seed for deterministic sampling.
    pub seed: Option<u32>,
    /// Whether to remove background noise from the input.
    pub remove_background_noise: bool,
    /// Encoding of the uploaded audio, when it is raw PCM.
    pub file_format: Option<InputFileFormat>,
}

pub open spec fn format_param(output_format: Option<OutputFormat>) -> Option<Seq<char>> {
    match output_format {
        Some(f) => Some(query::param_text("output_format"@, f.wire())),
        None => None,
    }
}

/// `/v1/speech-to-speech/{voice_id}{suffix}`, with `?output_format=` when
/// given.
pub open spec fn build_path_spec(
    voice_id: Seq<char>,
    suffix: Seq<char>,
    output_format: Option<OutputFormat>,
) -> Seq<char> {
    query::with_query(
        "/v1/speech-to-speech/"@ + voice_id + suffix,
        query::present(seq![format_param(output_format)]),
    )
}

/// Law: a conversion path starts with `/v1/speech-to-speech/{voice_id}{suffix}`,
/// is exactly that without an output format, and carries
/// `output_format=<wire name>` when one is given.
pub proof fn lemma_build_path_carries_format(voice_id: Seq<char>,
    suffix: Seq<char>,
    output_format: Option<OutputFormat>,)
    ensures
        ({
            let p = build_path_spec(voice_id, suffix, output_format);
            let base = "/v1/speech-to-speech/"@ + voice_id + suffix;
            &&& base.len() <= p.len() && p.subrange(0, base.len() as int) == base
            &&& output_format is None ==> p == base
            &&& output_format matches Some(f) ==> query::holds_text(p, "output_format"@ + "="@ + f.wire())
        }),
{
    let opts = seq![format_param(output_format)];
    query::lemma_query_of_options("/v1/speech-to-speech/"@ + voice_id + suffix, opts);
    assert(opts[0] is Some || opts[0] is None);
}

/// The path of a conversion request for a voice; `suffix` is `` or
/// `/stream`.
pub fn build_path(voice_id: &str, suffix: &str, output_format: Option<OutputFormat>) -> (p: String)
    ensures
        p@ == build_path_spec(voice_id@, suffix@, output_format),
{
    let mut base = "/v1/speech-to-speech/".to_owned();
    base.append(voice_id);
    base.append(suffix);
    let fmt: Option<String> = match output_format {
        Some(f) => Some(query::param("output_format", f.as_str())),
        None => None,
    };
    let opts = vec![fmt];
    assert(query::opt_views(opts@) =~= seq![format_param(output_format)]);
    let params = query::collect_present(opts);
    query::path_with_query(base.as_str(), &params)
}

pub open spec fn seed_text(seed: Option<u32>) -> Option<Seq<char>> {
    match seed {
        Some(s) => Some(text::decimal_text(s as nat)),
        None => None,
    }
}

/// Body of a speech-to-speech request: the `audio` file, `model_id`,
/// `voice_settings` and `seed` when set, `remove_background_noise`, and
/// `file_format` when set.
pub open spec fn s2s_body(
    b: Seq<char>,
    r: SpeechToSpeechRequest,
    audio_data: Seq<u8>,
    filename: Seq<char>,
    content_type: Seq<char>,
) -> Seq<u8> {
    multipart::file_part_bytes(b, "audio"@, filename, content_type, audio_data)
        + multipart::text_field_bytes(b, "model_id"@, r.model_id@) + multipart::opt_field_bytes(
        b,
        "voice_settings"@,
        multipart::opt_view(r.voice_settings),
    ) + multipart::opt_field_bytes(b, "seed"@, seed_text(r.seed)) + multipart::text_field_bytes(
        b,
        "remove_background_noise"@,
        text::bool_text(r.remove_background_noise),
    ) + multipart::opt_field_bytes(b, "file_format"@, audio_isolation::format_wire(r.file_format))
        + multipart::closing_bytes(b)
}

/// Law: a speech-to-speech body sends the audio as the `audio` part,
/// `model_id`, `remove_background_noise` as `true`/`false`, every optional
/// field that is set, and ends with the closing delimiter.
pub proof fn lemma_s2s_body_sends_fields(b: Seq<char>,
    r: SpeechToSpeechRequest,
    audio_data: Seq<u8>,
    filename: Seq<char>,
    content_type: Seq<char>,)
    ensures
        ({
            let body = s2s_body(b, r, audio_data, filename, content_type);
            &&& multipart::holds_part(body, multipart::text_field_bytes(b, "model_id"@, r.model_id@))
            &&& r.voice_settings matches Some(v) ==> multipart::holds_part(body, multipart::text_field_bytes(b, "voice_settings"@, v@))
            &&& r.seed matches Some(n) ==> multipart::holds_part(body, multipart::text_field_bytes(b, "seed"@, text::decimal_text(n as nat)))
            &&& multipart::holds_part(body, multipart::text_field_bytes(b, "remove_background_noise"@, text::bool_text(r.remove_background_noise)))
            &&& r.file_format matches Some(w) ==> multipart::holds_part(body, multipart::text_field_bytes(b, "file_format"@, w.wire()))
            &&& multipart::holds_part(body, multipart::file_part_bytes(b, "audio"@, filename, content_type, audio_data))
            &&& multipart::ends_with(body, multipart::closing_bytes(b))
        }),
{
    broadcast use multipart::lemma_holds_part_self, multipart::lemma_holds_part_concat;

    broadcast use multipart::lemma_ends_with_last, multipart::lemma_ends_with_concat;
}

/// Builds the multipart body of a speech-to-speech request.
pub fn build_s2s_multipart(
    boundary: &str,
    request: &SpeechToSpeechRequest,
    audio_data: &[u8],
    filename: &str,
    content_type: &str,
) -> (body: Vec<u8>)
    ensures
        body@ == s2s_body(boundary@, *request, audio_data@, filename@, content_type@),
{
    let mut buf = Vec::new();
    append_file_part(&mut buf, boundary, "audio", filename, content_type, audio_data);
    append_text_field(&mut buf, boundary, "model_id", request.model_id.as_str());
    append_opt_text_field(&mut buf, boundary, "voice_settings", &request.voice_settings);
    let seed: Option<u64> = match request.seed {
        Some(s) => Some(s as u64),
        None => None,
    };
    append_opt_number_field(&mut buf, boundary, "seed", seed);
    append_text_field(
        &mut buf,
        boundary,
        "remove_background_noise",
        text::bool_str(request.remove_background_noise),
    );
    append_opt_str_field(&mut buf, boundary, "file_format", audio_isolation::format_str(&request.file_format));
    append_closing(&mut buf, boundary);
    assert(buf@ =~= s2s_body(boundary@, *request, audio_data@, filename@, content_type@));
    buf
}

/// The request that `convert` (`suffix` empty) or `convert_stream`
/// (`suffix` `/stream`) sends: the body for a fresh boundary, to the
/// conversion path.
pub fn convert_upload(
    voice_id: &str,
    suffix: &str,
    request: &SpeechToSpeechRequest,
    audio_data: &[u8],
    filename: &str,
    content_type: &str,
    output_format: Option<OutputFormat>,
) -> (u: MultipartUpload)
    ensures
        exists|b: Seq<char>|
            multipart::is_sdk_boundary(b) && multipart::is_upload(
                u,
                build_path_spec(voice_id@, suffix@, output_format),
                b,
                s2s_body(b, *request, audio_data@, filename@, content_type@),
            ),
{
    let path = build_path(voice_id, suffix, output_format);
    let boundary = multipart_boundary();
    let body = build_s2s_multipart(boundary.as_str(), request, audio_data, filename, content_type);
    let ct = multipart_content_type(boundary.as_str());
    MultipartUpload { path, content_type: ct, body }
}

} // verus!
