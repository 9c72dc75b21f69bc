//! Speech-to-text: the multipart body of `POST /v1/speech-to-text`.

use vstd::prelude::*;

use crate::multipart;
use crate::multipart::{
    append_closing, append_opt_number_field, append_opt_str_field, append_opt_text_field,
    append_text_field, multipart_boundary, multipart_content_type, MultipartUpload,
};
use crate::services::audio_isolation;
use crate::text;
use crate::types::{InputFileFormat, SpeechToTextModel, TimestampsGranularity};

verus! {

/// Fields of a transcription request.
pub struct SpeechToTextRequest {
    /// Transcription model.
    pub model_id: SpeechToTextModel,
    /// Language of the audio, when known.
    pub language_code: Option<String>,
    /// Whether to tag audio events such as laughter.
    pub tag_audio_events: bool,
    /// Maximum number of speakers.
    pub num_speakers: Option<u32>,
    /// Granularity of timestamps.
    pub timestamps_granularity: TimestampsGranularity,
    /// Whether to tell speakers apart.
    pub diarize: bool,
    /// Diarization threshold, as its decimal text.
    pub diarization_threshold: Option<String>,
    /// Additional export formats, as JSON text.
    pub additional_formats: Option<String>,
    /// Encoding of the uploaded audio, when it is raw PCM.
    pub file_format: Option<InputFileFormat>,
    /// URL of the audio in cloud storage, when no file is uploaded.
    pub cloud_storage_url: Option<String>,
    /// Whether to deliver the result to a webhook.
    pub webhook: bool,
    /// Webhook to deliver to.
    pub webhook_id: Option<String>,
    /// Sampling temperature, as its decimal text.
    pub temperature: Option<String>,
    /// Seed for deterministic sampling.
    pub seed: Option<u32>,
    /// Whether each channel is transcribed on its own.
    pub use_multi_channel: bool,
    /// Metadata passed to the webhook, as JSON text.
    pub webhook_metadata: Option<String>,
    /// Entity types to detect.
    pub entity_detection: Option<Vec<String>>,
    /// Terms to bias recognition towards.
    pub keyterms: Option<Vec<String>>,
}

impl Default for SpeechToTextRequest {
    fn default() -> (r: Self)
        ensures
            r.model_id == SpeechToTextModel::ScribeV2,
            r.language_code is None,
            r.tag_audio_events,
            r.num_speakers is None,
            r.timestamps_granularity == TimestampsGranularity::Word,
            !r.diarize,
            r.diarization_threshold is None,
            r.additional_formats is None,
            r.file_format is None,
            r.cloud_storage_url is None,
            !r.webhook,
            r.webhook_id is None,
            r.temperature is None,
            r.seed is None,
            !r.use_multi_channel,
            r.webhook_metadata is None,
            r.entity_detection is None,
            r.keyterms is None,
    {
        SpeechToTextRequest {
            model_id: SpeechToTextModel::ScribeV2,
            language_code: None,
            tag_audio_events: true,
            num_speakers: None,
            timestamps_granularity: TimestampsGranularity::Word,
            diarize: false,
            diarization_threshold: None,
            additional_formats: None,
            file_format: None,
            cloud_storage_url: None,
            webhook: false,
            webhook_id: None,
            temperature: None,
            seed: None,
            use_multi_channel: false,
            webhook_metadata: None,
            entity_detection: None,
            keyterms: None,
        }
    }
}

/// One character of a JSON string literal as serde_json writes it: `"` and
/// `\` escaped with a backslash, backspace, tab, line feed, form feed and
/// carriage return as `\b`, `\t`, `\n`, `\f`, `\r`, the other control
/// characters below 0x20 as `\u00` and two lowercase hexadecimal digits, and
/// every other character as itself.
pub open spec fn json_char(c: char) -> Seq<char> {
    if c == '"' {
        seq!['\\', '"']
    } else if c == '\\' {
        seq!['\\', '\\']
    } else if c == '\u{8}' {
        seq!['\\', 'b']
    } else if c == '\t' {
        seq!['\\', 't']
    } else if c == '\n' {
        seq!['\\', 'n']
    } else if c == '\u{c}' {
        seq!['\\', 'f']
    } else if c == '\r' {
        seq!['\\', 'r']
    } else if (c as nat) < 0x20 {
        seq!['\\', 'u', '0', '0'] + text::hex_text(c as nat, 2)
    } else {
        seq![c]
    }
}

/// The characters of a text, each written as in a JSON string literal.
pub open spec fn json_escaped(s: Seq<char>) -> Seq<char>
    decreases s.len(),
{
    if s.len() == 0 {
        seq![]
    } else {
        json_escaped(s.drop_last()) + json_char(s.last())
    }
}

/// A JSON string literal: the escaped text between double quotes.
pub open spec fn json_string(s: Seq<char>) -> Seq<char> {
    seq!['"'] + json_escaped(s) + seq!['"']
}

/// The string literals of the items, separated by commas.
pub open spec fn json_items(items: Seq<Seq<char>>) -> Seq<char>
    decreases items.len(),
{
    if items.len() == 0 {
        seq![]
    } else if items.len() == 1 {
        json_string(items[0])
    } else {
        json_items(items.drop_last()) + seq![','] + json_string(items.last())
    }
}

/// The compact JSON array of a list of strings, as `serde_json::to_string`
/// writes it.
pub open spec fn json_string_list(items: Seq<Seq<char>>) -> Seq<char> {
    seq!['['] + json_items(items) + seq![']']
}

/// `serde_json::to_string` of a list of strings. Its compact formatter writes
/// `[`, the string literals (escaped by the `ESCAPE` table and
/// `write_char_escape`) separated by `,`, and `]`; a list of strings never
/// makes it fail, as it writes into a `Vec`.
#[verifier::external_body]
fn string_list_json(items: &Vec<String>) -> (r: Option<String>)
    ensures
        multipart::opt_view(r) == Some(json_string_list(items.deep_view())),
{
    serde_json::to_string(items).ok()
}

/// The JSON text of an optional list of strings, when it is given and
/// serializes.
pub open spec fn opt_list_json(items: Option<Vec<String>>) -> Option<Seq<char>> {
    match items {
        Some(v) => Some(json_string_list(v.deep_view())),
        None => None,
    }
}

fn opt_list_json_exec(items: &Option<Vec<String>>) -> (r: Option<String>)
    ensures
        multipart::opt_view(r) == opt_list_json(*items),
{
    match items {
        Some(v) => string_list_json(v),
        None => None,
    }
}

pub open spec fn opt_u32_text(o: Option<u32>) -> Option<Seq<char>> {
    match o {
        Some(n) => Some(text::decimal_text(n as nat)),
        None => None,
    }
}

fn widen(o: Option<u32>) -> (r: Option<u64>)
    ensures
        multipart::opt_number_text(r) == opt_u32_text(o),
{
    match o {
        Some(n) => Some(n as u64),
        None => None,
    }
}

/// The first fields of a transcription body, up to `diarization_threshold`.
pub open spec fn stt_head(b: Seq<char>, r: SpeechToTextRequest, file: Option<(Seq<char>, Seq<char>, Seq<u8>)>) -> Seq<u8> {
    multipart::opt_file_bytes(b, "file"@, file) + multipart::text_field_bytes(
        b,
        "model_id"@,
        r.model_id.wire(),
    ) + multipart::opt_field_bytes(b, "language_code"@, multipart::opt_view(r.language_code))
        + multipart::text_field_bytes(b, "tag_audio_events"@, text::bool_text(r.tag_audio_events))
        + multipart::opt_field_bytes(b, "num_speakers"@, opt_u32_text(r.num_speakers))
        + multipart::text_field_bytes(
        b,
        "timestamps_granularity"@,
        r.timestamps_granularity.wire(),
    ) + multipart::text_field_bytes(b, "diarize"@, text::bool_text(r.diarize))
        + multipart::opt_field_bytes(
        b,
        "diarization_threshold"@,
        multipart::opt_view(r.diarization_threshold),
    )
}

/// The remaining fields of a transcription body and its closing delimiter,
/// given the JSON texts of the two lists.
pub open spec fn stt_tail_with(
    b: Seq<char>,
    r: SpeechToTextRequest,
    entities: Option<Seq<char>>,
    terms: Option<Seq<char>>,
) -> Seq<u8> {
    multipart::opt_field_bytes(b, "additional_formats"@, multipart::opt_view(r.additional_formats))
        + multipart::opt_field_bytes(
        b,
        "file_format"@,
        audio_isolation::format_wire(r.file_format),
    ) + multipart::opt_field_bytes(
        b,
        "cloud_storage_url"@,
        multipart::opt_view(r.cloud_storage_url),
    ) + multipart::text_field_bytes(b, "webhook"@, text::bool_text(r.webhook))
        + multipart::opt_field_bytes(b, "webhook_id"@, multipart::opt_view(r.webhook_id))
        + multipart::opt_field_bytes(b, "temperature"@, multipart::opt_view(r.temperature))
        + multipart::opt_field_bytes(b, "seed"@, opt_u32_text(r.seed)) + multipart::text_field_bytes(
        b,
        "use_multi_channel"@,
        text::bool_text(r.use_multi_channel),
    ) + multipart::opt_field_bytes(
        b,
        "webhook_metadata"@,
        multipart::opt_view(r.webhook_metadata),
    ) + multipart::opt_field_bytes(b, "entity_detection"@, entities)
        + multipart::opt_field_bytes(b, "keyterms"@, terms) + multipart::closing_bytes(b)
}

/// Body of `POST /v1/speech-to-text`, given the JSON texts of
/// `entity_detection` and `keyterms` (each sent only when present).
pub open spec fn stt_body_with(
    b: Seq<char>,
    r: SpeechToTextRequest,
    file: Option<(Seq<char>, Seq<char>, Seq<u8>)>,
    entities: Option<Seq<char>>,
    terms: Option<Seq<char>>,
) -> Seq<u8> {
    stt_head(b, r, file) + stt_tail_with(b, r, entities, terms)
}

/// Body of `POST /v1/speech-to-text`: the optional `file`, then `model_id`,
/// `language_code`, `tag_audio_events`, `num_speakers`,
/// `timestamps_granularity`, `diarize`, `diarization_threshold`,
/// `additional_formats`, `file_format`, `cloud_storage_url`, `webhook`,
/// `webhook_id`, `temperature`, `seed`, `use_multi_channel`,
/// `webhook_metadata`, `entity_detection` and `keyterms`; optional fields
/// only when set, lists as JSON arrays.
pub open spec fn stt_body(b: Seq<char>, r: SpeechToTextRequest, file: Option<(Seq<char>, Seq<char>, Seq<u8>)>) -> Seq<u8> {
    stt_body_with(b, r, file, opt_list_json(r.entity_detection), opt_list_json(r.keyterms))
}

/// Law: a transcription body sends the audio file when given, `model_id`,
/// `timestamps_granularity` and `file_format` by their wire names, the flags
/// `tag_audio_events`, `diarize`, `webhook` and `use_multi_channel` as
/// `true`/`false` according to the request, every optional field that is
/// set with its text or its number in decimal, the two lists as JSON arrays,
/// and ends with the closing delimiter.
pub proof fn lemma_stt_body_sends_fields(b: Seq<char>,
    r: SpeechToTextRequest,
    file: Option<(Seq<char>, Seq<char>, Seq<u8>)>,)
    ensures
        ({
            let body = stt_body(b, r, file);
            &&& multipart::holds_part(body, multipart::text_field_bytes(b, "model_id"@, r.model_id.wire()))
            &&& r.language_code matches Some(v) ==> multipart::holds_part(body, multipart::text_field_bytes(b, "language_code"@, v@))
            &&& multipart::holds_part(body, multipart::text_field_bytes(b, "tag_audio_events"@, text::bool_text(r.tag_audio_events)))
            &&& r.num_speakers matches Some(n) ==> multipart::holds_part(body, multipart::text_field_bytes(b, "num_speakers"@, text::decimal_text(n as nat)))
            &&& multipart::holds_part(body, multipart::text_field_bytes(b, "timestamps_granularity"@, r.timestamps_granularity.wire()))
            &&& multipart::holds_part(body, multipart::text_field_bytes(b, "diarize"@, text::bool_text(r.diarize)))
            &&& r.diarization_threshold matches Some(v) ==> multipart::holds_part(body, multipart::text_field_bytes(b, "diarization_threshold"@, v@))
            &&& r.additional_formats matches Some(v) ==> multipart::holds_part(body, multipart::text_field_bytes(b, "additional_formats"@, v@))
            &&& r.file_format matches Some(w) ==> multipart::holds_part(body, multipart::text_field_bytes(b, "file_format"@, w.wire()))
            &&& r.cloud_storage_url matches Some(v) ==> multipart::holds_part(body, multipart::text_field_bytes(b, "cloud_storage_url"@, v@))
            &&& multipart::holds_part(body, multipart::text_field_bytes(b, "webhook"@, text::bool_text(r.webhook)))
            &&& r.webhook_id matches Some(v) ==> multipart::holds_part(body, multipart::text_field_bytes(b, "webhook_id"@, v@))
            &&& r.temperature matches Some(v) ==> multipart::holds_part(body, multipart::text_field_bytes(b, "temperature"@, v@))
            &&& r.seed matches Some(n) ==> multipart::holds_part(body, multipart::text_field_bytes(b, "seed"@, text::decimal_text(n as nat)))
            &&& multipart::holds_part(body, multipart::text_field_bytes(b, "use_multi_channel"@, text::bool_text(r.use_multi_channel)))
            &&& r.webhook_metadata matches Some(v) ==> multipart::holds_part(body, multipart::text_field_bytes(b, "webhook_metadata"@, v@))
            &&& r.entity_detection matches Some(v) ==> multipart::holds_part(
                body,
                multipart::text_field_bytes(b, "entity_detection"@, json_string_list(v.deep_view())),
            )
            &&& r.keyterms matches Some(v) ==> multipart::holds_part(
                body,
                multipart::text_field_bytes(b, "keyterms"@, json_string_list(v.deep_view())),
            )
            &&& file matches Some((f, ct, d)) ==> multipart::holds_part(
                body,
                multipart::file_part_bytes(b, "file"@, f, ct, d),
            )
            &&& multipart::ends_with(body, multipart::closing_bytes(b))
        }),
{
    broadcast use multipart::lemma_holds_part_self, multipart::lemma_holds_part_concat;

    broadcast use multipart::lemma_ends_with_last, multipart::lemma_ends_with_concat;
}

fn append_stt_head(
    buf: &mut Vec<u8>,
    boundary: &str,
    request: &SpeechToTextRequest,
    audio_file: Option<(&[u8], &str, &str)>,
)
    ensures
        final(buf)@ == old(buf)@ + stt_head(
            boundary@,
            *request,
            multipart::data_first_file_view(audio_file),
        ),
{
    let ghost start = buf@;
    match audio_file {
        Some((data, filename, ct)) => {
            multipart::append_file_part(buf, boundary, "file", filename, ct, data);
        },
        None => {},
    }
    append_text_field(buf, boundary, "model_id", request.model_id.as_str());
    append_opt_text_field(buf, boundary, "language_code", &request.language_code);
    append_text_field(buf, boundary, "tag_audio_events", text::bool_str(request.tag_audio_events));
    append_opt_number_field(buf, boundary, "num_speakers", widen(request.num_speakers));
    append_text_field(
        buf,
        boundary,
        "timestamps_granularity",
        request.timestamps_granularity.as_str(),
    );
    append_text_field(buf, boundary, "diarize", text::bool_str(request.diarize));
    append_opt_text_field(buf, boundary, "diarization_threshold", &request.diarization_threshold);
    assert(buf@ =~= start + stt_head(
        boundary@,
        *request,
        multipart::data_first_file_view(audio_file),
    ));
}

fn append_stt_tail(
    buf: &mut Vec<u8>,
    boundary: &str,
    request: &SpeechToTextRequest,
    entities: &Option<String>,
    terms: &Option<String>,
)
    ensures
        final(buf)@ == old(buf)@ + stt_tail_with(
            boundary@,
            *request,
            multipart::opt_view(*entities),
            multipart::opt_view(*terms),
        ),
{
    let ghost start = buf@;
    append_opt_text_field(buf, boundary, "additional_formats", &request.additional_formats);
    append_opt_str_field(
        buf,
        boundary,
        "file_format",
        audio_isolation::format_str(&request.file_format),
    );
    append_opt_text_field(buf, boundary, "cloud_storage_url", &request.cloud_storage_url);
    append_text_field(buf, boundary, "webhook", text::bool_str(request.webhook));
    append_opt_text_field(buf, boundary, "webhook_id", &request.webhook_id);
    append_opt_text_field(buf, boundary, "temperature", &request.temperature);
    append_opt_number_field(buf, boundary, "seed", widen(request.seed));
    append_text_field(
        buf,
        boundary,
        "use_multi_channel",
        text::bool_str(request.use_multi_channel),
    );
    append_opt_text_field(buf, boundary, "webhook_metadata", &request.webhook_metadata);
    append_opt_text_field(buf, boundary, "entity_detection", entities);
    append_opt_text_field(buf, boundary, "keyterms", terms);
    append_closing(buf, boundary);
    assert(buf@ =~= start + stt_tail_with(
        boundary@,
        *request,
        multipart::opt_view(*entities),
        multipart::opt_view(*terms),
    ));
}

/// Builds the multipart body of a transcription request from the JSON
/// texts of its `entity_detection` and `keyterms` lists; the audio file is
/// given as `(data, filename, content_type)`.
pub fn build_stt_multipart_with_lists(
    boundary: &str,
    request: &SpeechToTextRequest,
    audio_file: Option<(&[u8], &str, &str)>,
    entity_detection_json: &Option<String>,
    keyterms_json: &Option<String>,
) -> (body: Vec<u8>)
    ensures
        body@ == stt_body_with(
            boundary@,
            *request,
            multipart::data_first_file_view(audio_file),
            multipart::opt_view(*entity_detection_json),
            multipart::opt_view(*keyterms_json),
        ),
{
    let mut buf = Vec::new();
    append_stt_head(&mut buf, boundary, request, audio_file);
    append_stt_tail(&mut buf, boundary, request, entity_detection_json, keyterms_json);
    buf
}

/// Builds the multipart body of a transcription request; the audio file is
/// given as `(data, filename, content_type)`.
pub fn build_stt_multipart(
    boundary: &str,
    request: &SpeechToTextRequest,
    audio_file: Option<(&[u8], &str, &str)>,
) -> (body: Vec<u8>)
    ensures
        body@ == stt_body(boundary@, *request, multipart::data_first_file_view(audio_file)),
{
    let entities = opt_list_json_exec(&request.entity_detection);
    let terms = opt_list_json_exec(&request.keyterms);
    build_stt_multipart_with_lists(boundary, request, audio_file, &entities, &terms)
}

/// The request that `transcribe` sends: the body for a fresh boundary, to
/// `/v1/speech-to-text`.
pub fn transcribe_upload(request: &SpeechToTextRequest, audio_file: Option<(&[u8], &str, &str)>) -> (u: MultipartUpload)
    ensures
        exists|b: Seq<char>|
            multipart::is_sdk_boundary(b) && multipart::is_upload(
                u,
                "/v1/speech-to-text"@,
                b,
                stt_body(b, *request, multipart::data_first_file_view(audio_file)),
            ),
{
    let boundary = multipart_boundary();
    let body = build_stt_multipart(boundary.as_str(), request, audio_file);
    let ct = multipart_content_type(boundary.as_str());
    MultipartUpload { path: "/v1/speech-to-text".to_owned(), content_type: ct, body }
}

} // verus!
