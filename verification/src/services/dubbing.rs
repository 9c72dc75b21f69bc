//! Dubbing: the multipart body of `POST /v1/dubbing`, and the paths that
//! take query parameters or a transcript format.

use vstd::prelude::*;

use crate::multipart;
use crate::multipart::{
    append_closing, append_opt_bool_field, append_opt_file_part, append_opt_number_field,
    append_opt_text_field, multipart_boundary, multipart_content_type, MultipartUpload,
};
use crate::query;
use crate::text;
use crate::types::TranscriptFormat;

verus! {

/// Fields of a dubbing project to create.
pub struct CreateDubbingRequest {
    /// Project name.
    pub name: Option<String>,
    /// URL of the source video or audio, when no file is uploaded.
    pub source_url: Option<String>,
    /// Source language code.
    pub source_lang: Option<String>,
    /// Target language code.
    pub target_lang: Option<String>,
    /// Target accent.
    pub target_accent: Option<String>,
    /// Number of speakers (0 detects them).
    pub num_speakers: Option<u32>,
    /// Whether to watermark the output video.
    pub watermark: Option<bool>,
    /// Start time of the source to dub, in seconds.
    pub start_time: Option<u32>,
    /// End time of the source to dub, in seconds.
    pub end_time: Option<u32>,
    /// Whether to use the highest resolution.
    pub highest_resolution: Option<bool>,
    /// Whether to drop the background audio.
    pub drop_background_audio: Option<bool>,
    /// Whether to filter profanity.
    pub use_profanity_filter: Option<bool>,
    /// Whether to prepare the project for the dubbing studio.
    pub dubbing_studio: Option<bool>,
    /// Whether to use a library voice instead of cloning.
    pub disable_voice_cloning: Option<bool>,
    /// Dubbing mode.
    pub mode: Option<String>,
    /// Frames per second of a CSV upload, as its decimal text.
    pub csv_fps: Option<String>,
}

pub open spec fn widen(o: Option<u32>) -> Option<u64> {
    match o {
        Some(n) => Some(n as u64),
        None => None,
    }
}

fn widen_exec(o: Option<u32>) -> (r: Option<u64>)
    ensures
        r == widen(o),
{
    match o {
        Some(n) => Some(n as u64),
        None => None,
    }
}

/// The form fields of a dubbing request: each field that is set, in
/// declaration order.
pub open spec fn create_dubbing_fields(b: Seq<char>, r: CreateDubbingRequest) -> Seq<u8> {
    multipart::opt_field_bytes(b, "name"@, multipart::opt_view(r.name))
        + multipart::opt_field_bytes(b, "source_url"@, multipart::opt_view(r.source_url))
        + multipart::opt_field_bytes(b, "source_lang"@, multipart::opt_view(r.source_lang))
        + multipart::opt_field_bytes(b, "target_lang"@, multipart::opt_view(r.target_lang))
        + multipart::opt_field_bytes(b, "target_accent"@, multipart::opt_view(r.target_accent))
        + multipart::opt_field_bytes(
        b,
        "num_speakers"@,
        multipart::opt_number_text(widen(r.num_speakers)),
    ) + multipart::opt_field_bytes(b, "watermark"@, multipart::opt_bool_text(r.watermark))
        + multipart::opt_field_bytes(
        b,
        "start_time"@,
        multipart::opt_number_text(widen(r.start_time)),
    ) + multipart::opt_field_bytes(b, "end_time"@, multipart::opt_number_text(widen(r.end_time)))
        + multipart::opt_field_bytes(
        b,
        "highest_resolution"@,
        multipart::opt_bool_text(r.highest_resolution),
    ) + multipart::opt_field_bytes(
        b,
        "drop_background_audio"@,
        multipart::opt_bool_text(r.drop_background_audio),
    ) + multipart::opt_field_bytes(
        b,
        "use_profanity_filter"@,
        multipart::opt_bool_text(r.use_profanity_filter),
    ) + multipart::opt_field_bytes(b, "dubbing_studio"@, multipart::opt_bool_text(r.dubbing_studio))
        + multipart::opt_field_bytes(
        b,
        "disable_voice_cloning"@,
        multipart::opt_bool_text(r.disable_voice_cloning),
    ) + multipart::opt_field_bytes(b, "mode"@, multipart::opt_view(r.mode))
        + multipart::opt_field_bytes(b, "csv_fps"@, multipart::opt_view(r.csv_fps))
}

/// Body of `POST /v1/dubbing`: each field that is set, in declaration order,
/// then the optional `file`.
pub open spec fn create_dubbing_body(
    b: Seq<char>,
    r: CreateDubbingRequest,
    file: Option<(Seq<char>, Seq<char>, Seq<u8>)>,
) -> Seq<u8> {
    create_dubbing_fields(b, r) + multipart::opt_file_bytes(b, "file"@, file)
        + multipart::closing_bytes(b)
}

/// Law: every field of a dubbing request that is set is sent under its
/// name, with its text, its number in decimal or its flag as `true`/`false`;
/// a given file is sent as the `file` part right before the closing
/// delimiter, which ends the body.
pub proof fn lemma_dubbing_body_sends_fields(
    b: Seq<char>,
    r: CreateDubbingRequest,
    file: Option<(Seq<char>, Seq<char>, Seq<u8>)>,
)
    ensures
        ({
            let body = create_dubbing_body(b, r, file);
            &&& r.name matches Some(v) ==> multipart::holds_part(body, multipart::text_field_bytes(b, "name"@, v@))
            &&& r.source_url matches Some(v) ==> multipart::holds_part(body, multipart::text_field_bytes(b, "source_url"@, v@))
            &&& r.source_lang matches Some(v) ==> multipart::holds_part(body, multipart::text_field_bytes(b, "source_lang"@, v@))
            &&& r.target_lang matches Some(v) ==> multipart::holds_part(body, multipart::text_field_bytes(b, "target_lang"@, v@))
            &&& r.target_accent matches Some(v) ==> multipart::holds_part(body, multipart::text_field_bytes(b, "target_accent"@, v@))
            &&& r.num_speakers matches Some(n) ==> multipart::holds_part(
                body,
                multipart::text_field_bytes(b, "num_speakers"@, text::decimal_text(n as nat)),
            )
            &&& r.watermark matches Some(f) ==> multipart::holds_part(body, multipart::text_field_bytes(b, "watermark"@, text::bool_text(f)))
            &&& r.start_time matches Some(n) ==> multipart::holds_part(
                body,
                multipart::text_field_bytes(b, "start_time"@, text::decimal_text(n as nat)),
            )
            &&& r.end_time matches Some(n) ==> multipart::holds_part(
                body,
                multipart::text_field_bytes(b, "end_time"@, text::decimal_text(n as nat)),
            )
            &&& r.highest_resolution matches Some(f) ==> multipart::holds_part(
                body,
                multipart::text_field_bytes(b, "highest_resolution"@, text::bool_text(f)),
            )
            &&& r.drop_background_audio matches Some(f) ==> multipart::holds_part(
                body,
                multipart::text_field_bytes(b, "drop_background_audio"@, text::bool_text(f)),
            )
            &&& r.use_profanity_filter matches Some(f) ==> multipart::holds_part(
                body,
                multipart::text_field_bytes(b, "use_profanity_filter"@, text::bool_text(f)),
            )
            &&& r.dubbing_studio matches Some(f) ==> multipart::holds_part(
                body,
                multipart::text_field_bytes(b, "dubbing_studio"@, text::bool_text(f)),
            )
            &&& r.disable_voice_cloning matches Some(f) ==> multipart::holds_part(
                body,
                multipart::text_field_bytes(b, "disable_voice_cloning"@, text::bool_text(f)),
            )
            &&& r.mode matches Some(v) ==> multipart::holds_part(body, multipart::text_field_bytes(b, "mode"@, v@))
            &&& r.csv_fps matches Some(v) ==> multipart::holds_part(body, multipart::text_field_bytes(b, "csv_fps"@, v@))
            &&& file matches Some((f, ct, d)) ==> multipart::ends_with(
                body,
                multipart::file_part_bytes(b, "file"@, f, ct, d) + multipart::closing_bytes(b),
            )
            &&& multipart::ends_with(body, multipart::closing_bytes(b))
        }),
{
    broadcast use multipart::lemma_holds_part_self, multipart::lemma_holds_part_concat;

    let fields = create_dubbing_fields(b, r);
    let part = multipart::opt_file_bytes(b, "file"@, file);
    multipart::lemma_ends_with_last_two(fields, part, multipart::closing_bytes(b));
    multipart::lemma_ends_with_last_two(fields + part, seq![], multipart::closing_bytes(b));
    assert(fields + part + seq![] =~= fields + part);
    assert(seq![] + multipart::closing_bytes(b) =~= multipart::closing_bytes(b));
}

/// Builds the multipart body for `POST /v1/dubbing`; the file is given as
/// `(filename, content_type, data)`.
pub fn build_create_dubbing_multipart(
    boundary: &str,
    request: &CreateDubbingRequest,
    file: Option<(&str, &str, &[u8])>,
) -> (body: Vec<u8>)
    ensures
        body@ == create_dubbing_body(boundary@, *request, multipart::file_view(file)),
{
    let mut buf = Vec::new();
    append_opt_text_field(&mut buf, boundary, "name", &request.name);
    append_opt_text_field(&mut buf, boundary, "source_url", &request.source_url);
    append_opt_text_field(&mut buf, boundary, "source_lang", &request.source_lang);
    append_opt_text_field(&mut buf, boundary, "target_lang", &request.target_lang);
    append_opt_text_field(&mut buf, boundary, "target_accent", &request.target_accent);
    append_opt_number_field(&mut buf, boundary, "num_speakers", widen_exec(request.num_speakers));
    append_opt_bool_field(&mut buf, boundary, "watermark", request.watermark);
    append_opt_number_field(&mut buf, boundary, "start_time", widen_exec(request.start_time));
    append_opt_number_field(&mut buf, boundary, "end_time", widen_exec(request.end_time));
    append_opt_bool_field(&mut buf, boundary, "highest_resolution", request.highest_resolution);
    append_opt_bool_field(
        &mut buf,
        boundary,
        "drop_background_audio",
        request.drop_background_audio,
    );
    append_opt_bool_field(&mut buf, boundary, "use_profanity_filter", request.use_profanity_filter);
    append_opt_bool_field(&mut buf, boundary, "dubbing_studio", request.dubbing_studio);
    append_opt_bool_field(
        &mut buf,
        boundary,
        "disable_voice_cloning",
        request.disable_voice_cloning,
    );
    append_opt_text_field(&mut buf, boundary, "mode", &request.mode);
    append_opt_text_field(&mut buf, boundary, "csv_fps", &request.csv_fps);
    append_opt_file_part(&mut buf, boundary, "file", file);
    append_closing(&mut buf, boundary);
    assert(buf@ =~= create_dubbing_body(boundary@, *request, multipart::file_view(file)));
    buf
}

/// The request that `create` sends: the body for a fresh boundary, to
/// `/v1/dubbing`.
pub fn create_upload(request: &CreateDubbingRequest, file: Option<(&str, &str, &[u8])>) -> (u: MultipartUpload)
    ensures
        exists|b: Seq<char>|
            multipart::is_sdk_boundary(b) && multipart::is_upload(
                u,
                "/v1/dubbing"@,
                b,
                create_dubbing_body(b, *request, multipart::file_view(file)),
            ),
{
    let boundary = multipart_boundary();
    let body = build_create_dubbing_multipart(boundary.as_str(), request, file);
    let ct = multipart_content_type(boundary.as_str());
    MultipartUpload { path: "/v1/dubbing".to_owned(), content_type: ct, body }
}

/// `/v1/dubbing` with `page_size` and `cursor` when given.
pub open spec fn list_path_spec(page_size: Option<u32>, cursor: Option<Seq<char>>) -> Seq<char> {
    query::with_query(
        "/v1/dubbing"@,
        query::present(
            seq![
                query::opt_param("page_size"@, query::opt_decimal(widen(page_size))),
                query::opt_param("cursor"@, cursor),
            ],
        ),
    )
}

/// Law: the dubbing list path is `/v1/dubbing` without options, and carries
/// `page_size=<decimal>` and `cursor=<cursor>` for the options given.
pub proof fn lemma_list_path_carries_options(page_size: Option<u32>, cursor: Option<Seq<char>>)
    ensures
        ({
            let p = list_path_spec(page_size, cursor);
            let base = "/v1/dubbing"@;
            &&& base.len() <= p.len() && p.subrange(0, base.len() as int) == base
            &&& page_size is None && cursor is None ==> p == base
            &&& page_size matches Some(n) ==> query::holds_text(p, "page_size"@ + "="@ + text::decimal_text(n as nat))
            &&& cursor matches Some(c) ==> query::holds_text(p, "cursor"@ + "="@ + c)
        }),
{
    let opts = seq![
        query::opt_param("page_size"@, query::opt_decimal(widen(page_size))),
        query::opt_param("cursor"@, cursor),
    ];
    query::lemma_query_of_options("/v1/dubbing"@, opts);
    assert(opts[0] is Some || opts[0] is None);
    assert(opts[1] is Some || opts[1] is None);
}

/// The path that `list` requests.
pub fn list_path(page_size: Option<u32>, cursor: Option<&str>) -> (p: String)
    ensures
        p@ == list_path_spec(page_size, query::opt_str_view(cursor)),
{
    let opts = vec![
        query::opt_number_param("page_size", widen_exec(page_size)),
        query::opt_param_string("cursor", cursor),
    ];
    assert(query::opt_views(opts@) =~= seq![
        query::opt_param("page_size"@, query::opt_decimal(widen(page_size))),
        query::opt_param("cursor"@, query::opt_str_view(cursor)),
    ]);
    let params = query::collect_present(opts);
    query::path_with_query("/v1/dubbing", &params)
}

/// `/v1/dubbing/{dubbing_id}/transcripts/{language_code}/format/{format}`.
pub open spec fn transcript_formatted_path_spec(
    dubbing_id: Seq<char>,
    language_code: Seq<char>,
    format: TranscriptFormat,
) -> Seq<char> {
    "/v1/dubbing/"@ + dubbing_id + "/transcripts/"@ + language_code + "/format/"@ + format.wire()
}

/// The path that `get_transcript_formatted` requests.
pub fn transcript_formatted_path(dubbing_id: &str, language_code: &str, format: TranscriptFormat) -> (p: String)
    ensures
        p@ == transcript_formatted_path_spec(dubbing_id@, language_code@, format),
{
    let mut p = "/v1/dubbing/".to_owned();
    p.append(dubbing_id);
    p.append("/transcripts/");
    p.append(language_code);
    p.append("/format/");
    p.append(format.as_str());
    p
}

} // verus!
