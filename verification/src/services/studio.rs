//! Studio projects and pronunciation dictionaries: request types, the
//! multipart bodies of project creation, content update and dictionary
//! upload, and the path of the dictionary listing.

use vstd::prelude::*;

use crate::multipart;
use crate::multipart::{
    append_closing, append_opt_file_part, clock_nanos, hex32, multipart_content_type,
    push_str, MultipartUpload,
};
use crate::query;
use crate::text;

verus! {

/// Fields of a Studio project to create.
#[derive(Clone, Debug, PartialEq, Eq)]
pub struct AddProjectRequest {
    pub name: String,
    pub default_title_voice_id: Option<String>,
    pub default_paragraph_voice_id: Option<String>,
    pub default_model_id: Option<String>,
    pub from_url: Option<String>,
    pub quality_preset: Option<String>,
    pub title: Option<String>,
    pub author: Option<String>,
    pub description: Option<String>,
    pub volume_normalization: Option<bool>,
    pub language: Option<String>,
    pub content_type: Option<String>,
    pub fiction: Option<String>,
    pub auto_convert: Option<bool>,
}

/// Fields of a Studio project update.
#[derive(Clone, Debug, PartialEq, Eq)]
pub struct EditProjectRequest {
    pub name: String,
    pub default_title_voice_id: String,
    pub default_paragraph_voice_id: String,
    pub title: Option<String>,
    pub author: Option<String>,
    pub isbn_number: Option<String>,
    pub volume_normalization: Option<bool>,
}

/// Fields of a Studio project content update.
#[derive(Clone, Debug, PartialEq, Eq)]
pub struct EditProjectContentRequest {
    pub from_url: Option<String>,
    pub from_content_json: Option<String>,
    pub auto_convert: Option<bool>,
}

/// Fields of a chapter to add.
#[derive(Clone, Debug, PartialEq, Eq)]
pub struct AddChapterRequest {
    pub name: String,
    pub from_url: Option<String>,
}

/// A pronunciation dictionary, and optionally one of its versions.
#[derive(Clone, Debug, PartialEq, Eq)]
pub struct PronunciationDictionaryLocatorRequest {
    pub pronunciation_dictionary_id: String,
    pub version_id: Option<String>,
}

/// The pronunciation dictionaries to attach to a project.
#[derive(Clone, Debug, PartialEq, Eq)]
pub struct UpdateProjectPronunciationDictionariesRequest {
    pub pronunciation_dictionary_locators: Vec<PronunciationDictionaryLocatorRequest>,
    pub invalidate_affected_text: Option<bool>,
}

/// The number a Studio boundary token renders: a clock reading XOR the
/// process id shifted 64 bits up.
pub open spec fn token_value(clock: u128, pid: u32) -> u128 {
    clock ^ ((pid as u128) << 64u32)
}

/// A pseudo-random boundary token: the clock's nanoseconds since the epoch
/// XOR the process id shifted 64 bits up, in 32 hexadecimal digits.
pub fn uuid_v4_simple(pid: u32) -> (s: String)
    ensures
        s@.len() == 32,
        forall|i: int| 0 <= i < 32 ==> text::is_hex_digit(#[trigger] s@[i]),
        exists|v: nat| s@ == text::hex_text(v, 32),
        exists|t: u128| s@ == text::hex_text(#[trigger] token_value(t, pid) as nat, 32),
        exists|t: u128| text::hex_value(s@) == #[trigger] token_value(t, pid) as nat,
{
    let t = clock_nanos();
    let shifted: u128 = (pid as u128) << 64u32;
    let val = t ^ shifted;
    let s = hex32(val);
    assert(s@ == text::hex_text(token_value(t, pid) as nat, 32));
    s
}

/// A fresh boundary for a Studio body: `----ElevenLabsSDK` and the token.
pub fn studio_boundary(pid: u32) -> (s: String)
    ensures
        multipart::is_sdk_boundary(s@),
{
    let token = uuid_v4_simple(pid);
    let mut s = "----ElevenLabsSDK".to_owned();
    s.append(token.as_str());
    s
}

/// Appends a text part to a multipart body buffer, written as one piece.
pub fn append_text_part(buf: &mut Vec<u8>, boundary: &str, name: &str, value: &str)
    ensures
        final(buf)@ == old(buf)@ + multipart::text_field_bytes(boundary@, name@, value@),
{
    let mut part = "--".to_owned();
    part.append(boundary);
    part.append("\r\nContent-Disposition: form-data; name=\"");
    part.append(name);
    part.append("\"\r\n\r\n");
    part.append(value);
    part.append("\r\n");
    proof {
        reveal_strlit("\r\nContent-Disposition: form-data; name=\"");
        reveal_strlit("\r\n");
        reveal_strlit("Content-Disposition: form-data; name=\"");
        assert("\r\nContent-Disposition: form-data; name=\""@ =~= "\r\n"@
            + "Content-Disposition: form-data; name=\""@);
        assert(part@ =~= multipart::text_field_text(boundary@, name@, value@));
    }
    push_str(buf, part.as_str());
}

/// Appends a text part when the value is present.
fn append_opt_part(buf: &mut Vec<u8>, boundary: &str, name: &str, value: &Option<String>)
    ensures
        final(buf)@ == old(buf)@ + multipart::opt_field_bytes(
            boundary@,
            name@,
            multipart::opt_view(*value),
        ),
{
    match value {
        Some(v) => append_text_part(buf, boundary, name, v.as_str()),
        None => {
            assert(buf@ =~= old(buf)@ + Seq::<u8>::empty());
        },
    }
}

/// Appends `true`/`false` when the flag is present.
fn append_opt_flag_part(buf: &mut Vec<u8>, boundary: &str, name: &str, value: Option<bool>)
    ensures
        final(buf)@ == old(buf)@ + multipart::opt_field_bytes(
            boundary@,
            name@,
            multipart::opt_bool_text(value),
        ),
{
    match value {
        Some(b) => append_text_part(buf, boundary, name, text::bool_str(b)),
        None => {
            assert(buf@ =~= old(buf)@ + Seq::<u8>::empty());
        },
    }
}

/// The form fields of a project to create: `name`, then each optional
/// field that is set, in declaration order.
pub open spec fn add_project_fields(b: Seq<char>, r: AddProjectRequest) -> Seq<u8> {
    multipart::text_field_bytes(b, "name"@, r.name@) + multipart::opt_field_bytes(
        b,
        "default_title_voice_id"@,
        multipart::opt_view(r.default_title_voice_id),
    ) + multipart::opt_field_bytes(
        b,
        "default_paragraph_voice_id"@,
        multipart::opt_view(r.default_paragraph_voice_id),
    ) + multipart::opt_field_bytes(
        b,
        "default_model_id"@,
        multipart::opt_view(r.default_model_id),
    ) + multipart::opt_field_bytes(b, "from_url"@, multipart::opt_view(r.from_url))
        + multipart::opt_field_bytes(b, "quality_preset"@, multipart::opt_view(r.quality_preset))
        + multipart::opt_field_bytes(b, "title"@, multipart::opt_view(r.title))
        + multipart::opt_field_bytes(b, "author"@, multipart::opt_view(r.author))
        + multipart::opt_field_bytes(b, "description"@, multipart::opt_view(r.description))
        + multipart::opt_field_bytes(
        b,
        "volume_normalization"@,
        multipart::opt_bool_text(r.volume_normalization),
    ) + multipart::opt_field_bytes(b, "language"@, multipart::opt_view(r.language))
        + multipart::opt_field_bytes(b, "content_type"@, multipart::opt_view(r.content_type))
        + multipart::opt_field_bytes(b, "fiction"@, multipart::opt_view(r.fiction))
        + multipart::opt_field_bytes(b, "auto_convert"@, multipart::opt_bool_text(r.auto_convert))
}

/// Body of `POST /v1/studio/projects`: `name`, each optional field that is
/// set in declaration order, then the `from_document` file when given.
pub open spec fn add_project_body(
    b: Seq<char>,
    r: AddProjectRequest,
    from_document: Option<(Seq<char>, Seq<char>, Seq<u8>)>,
) -> Seq<u8> {
    add_project_fields(b, r) + multipart::opt_file_bytes(b, "from_document"@, from_document)
        + multipart::closing_bytes(b)
}

/// Law: a project-creation body sends `name` and every optional field that
/// is set, under its name with its text or its flag as `true`/`false`; a
/// given document is sent as the `from_document` part right before the
/// closing delimiter, which ends the body.
pub proof fn lemma_add_project_body_sends_fields(b: Seq<char>,
    r: AddProjectRequest,
    from_document: Option<(Seq<char>, Seq<char>, Seq<u8>)>,)
    ensures
        ({
            let body = add_project_body(b, r, from_document);
            &&& multipart::holds_part(body, multipart::text_field_bytes(b, "name"@, r.name@))
            &&& r.default_title_voice_id matches Some(v) ==> multipart::holds_part(body, multipart::text_field_bytes(b, "default_title_voice_id"@, v@))
            &&& r.default_paragraph_voice_id matches Some(v) ==> multipart::holds_part(body, multipart::text_field_bytes(b, "default_paragraph_voice_id"@, v@))
            &&& r.default_model_id matches Some(v) ==> multipart::holds_part(body, multipart::text_field_bytes(b, "default_model_id"@, v@))
            &&& r.from_url matches Some(v) ==> multipart::holds_part(body, multipart::text_field_bytes(b, "from_url"@, v@))
            &&& r.quality_preset matches Some(v) ==> multipart::holds_part(body, multipart::text_field_bytes(b, "quality_preset"@, v@))
            &&& r.title matches Some(v) ==> multipart::holds_part(body, multipart::text_field_bytes(b, "title"@, v@))
            &&& r.author matches Some(v) ==> multipart::holds_part(body, multipart::text_field_bytes(b, "author"@, v@))
            &&& r.description matches Some(v) ==> multipart::holds_part(body, multipart::text_field_bytes(b, "description"@, v@))
            &&& r.volume_normalization matches Some(f) ==> multipart::holds_part(body, multipart::text_field_bytes(b, "volume_normalization"@, text::bool_text(f)))
            &&& r.language matches Some(v) ==> multipart::holds_part(body, multipart::text_field_bytes(b, "language"@, v@))
            &&& r.content_type matches Some(v) ==> multipart::holds_part(body, multipart::text_field_bytes(b, "content_type"@, v@))
            &&& r.fiction matches Some(v) ==> multipart::holds_part(body, multipart::text_field_bytes(b, "fiction"@, v@))
            &&& r.auto_convert matches Some(f) ==> multipart::holds_part(body, multipart::text_field_bytes(b, "auto_convert"@, text::bool_text(f)))
            &&& from_document matches Some((f, ct, d)) ==> multipart::ends_with(
                body,
                multipart::file_part_bytes(b, "from_document"@, f, ct, d) + multipart::closing_bytes(b),
            )
            &&& multipart::ends_with(body, multipart::closing_bytes(b))
        }),
{
    broadcast use multipart::lemma_holds_part_self, multipart::lemma_holds_part_concat;

    let fields = add_project_fields(b, r);
    let part = multipart::opt_file_bytes(b, "from_document"@, from_document);
    multipart::lemma_ends_with_last_two(fields, part, multipart::closing_bytes(b));
    multipart::lemma_ends_with_last_two(fields + part, seq![], multipart::closing_bytes(b));
    assert(fields + part + seq![] =~= fields + part);
    assert(seq![] + multipart::closing_bytes(b) =~= multipart::closing_bytes(b));
}

/// Builds the multipart body for `POST /v1/studio/projects`; the document is
/// given as `(filename, content_type, data)`.
pub fn build_add_project_multipart(
    boundary: &str,
    request: &AddProjectRequest,
    from_document: Option<(&str, &str, &[u8])>,
) -> (body: Vec<u8>)
    ensures
        body@ == add_project_body(boundary@, *request, multipart::file_view(from_document)),
{
    let mut buf = Vec::new();
    append_text_part(&mut buf, boundary, "name", request.name.as_str());
    append_opt_part(&mut buf, boundary, "default_title_voice_id", &request.default_title_voice_id);
    append_opt_part(
        &mut buf,
        boundary,
        "default_paragraph_voice_id",
        &request.default_paragraph_voice_id,
    );
    append_opt_part(&mut buf, boundary, "default_model_id", &request.default_model_id);
    append_opt_part(&mut buf, boundary, "from_url", &request.from_url);
    append_opt_part(&mut buf, boundary, "quality_preset", &request.quality_preset);
    append_opt_part(&mut buf, boundary, "title", &request.title);
    append_opt_part(&mut buf, boundary, "author", &request.author);
    append_opt_part(&mut buf, boundary, "description", &request.description);
    append_opt_flag_part(&mut buf, boundary, "volume_normalization", request.volume_normalization);
    append_opt_part(&mut buf, boundary, "language", &request.language);
    append_opt_part(&mut buf, boundary, "content_type", &request.content_type);
    append_opt_part(&mut buf, boundary, "fiction", &request.fiction);
    append_opt_flag_part(&mut buf, boundary, "auto_convert", request.auto_convert);
    append_opt_file_part(&mut buf, boundary, "from_document", from_document);
    append_closing(&mut buf, boundary);
    assert(buf@ =~= add_project_body(boundary@, *request, multipart::file_view(from_document)));
    buf
}

/// The form fields of a content update: `from_url`, `from_content_json` and
/// `auto_convert` when set.
pub open spec fn edit_content_fields(b: Seq<char>, r: EditProjectContentRequest) -> Seq<u8> {
    multipart::opt_field_bytes(b, "from_url"@, multipart::opt_view(r.from_url))
        + multipart::opt_field_bytes(
        b,
        "from_content_json"@,
        multipart::opt_view(r.from_content_json),
    ) + multipart::opt_field_bytes(b, "auto_convert"@, multipart::opt_bool_text(r.auto_convert))
}

/// Body of `POST /v1/studio/projects/{id}/content`: `from_url`,
/// `from_content_json` and `auto_convert` when set, then the
/// `from_document` file when given.
pub open spec fn edit_content_body(
    b: Seq<char>,
    r: EditProjectContentRequest,
    from_document: Option<(Seq<char>, Seq<char>, Seq<u8>)>,
) -> Seq<u8> {
    edit_content_fields(b, r) + multipart::opt_file_bytes(b, "from_document"@, from_document)
        + multipart::closing_bytes(b)
}

/// Law: a content-update body sends every field that is set, under its
/// name; a given document is sent as the `from_document` part right before
/// the closing delimiter, which ends the body.
pub proof fn lemma_edit_content_body_sends_fields(b: Seq<char>,
    r: EditProjectContentRequest,
    from_document: Option<(Seq<char>, Seq<char>, Seq<u8>)>,)
    ensures
        ({
            let body = edit_content_body(b, r, from_document);
            &&& r.from_url matches Some(v) ==> multipart::holds_part(body, multipart::text_field_bytes(b, "from_url"@, v@))
            &&& r.from_content_json matches Some(v) ==> multipart::holds_part(body, multipart::text_field_bytes(b, "from_content_json"@, v@))
            &&& r.auto_convert matches Some(f) ==> multipart::holds_part(body, multipart::text_field_bytes(b, "auto_convert"@, text::bool_text(f)))
            &&& from_document matches Some((f, ct, d)) ==> multipart::ends_with(
                body,
                multipart::file_part_bytes(b, "from_document"@, f, ct, d) + multipart::closing_bytes(b),
            )
            &&& multipart::ends_with(body, multipart::closing_bytes(b))
        }),
{
    broadcast use multipart::lemma_holds_part_self, multipart::lemma_holds_part_concat;

    let fields = edit_content_fields(b, r);
    let part = multipart::opt_file_bytes(b, "from_document"@, from_document);
    multipart::lemma_ends_with_last_two(fields, part, multipart::closing_bytes(b));
    multipart::lemma_ends_with_last_two(fields + part, seq![], multipart::closing_bytes(b));
    assert(fields + part + seq![] =~= fields + part);
    assert(seq![] + multipart::closing_bytes(b) =~= multipart::closing_bytes(b));
}

/// Builds the multipart body for `POST /v1/studio/projects/{id}/content`.
pub fn build_edit_content_multipart(
    boundary: &str,
    request: &EditProjectContentRequest,
    from_document: Option<(&str, &str, &[u8])>,
) -> (body: Vec<u8>)
    ensures
        body@ == edit_content_body(boundary@, *request, multipart::file_view(from_document)),
{
    let mut buf = Vec::new();
    append_opt_part(&mut buf, boundary, "from_url", &request.from_url);
    append_opt_part(&mut buf, boundary, "from_content_json", &request.from_content_json);
    append_opt_flag_part(&mut buf, boundary, "auto_convert", request.auto_convert);
    append_opt_file_part(&mut buf, boundary, "from_document", from_document);
    append_closing(&mut buf, boundary);
    assert(buf@ =~= edit_content_body(boundary@, *request, multipart::file_view(from_document)));
    buf
}

/// Body of a dictionary upload: `name`, `description` when given, then the
/// `file`.
pub open spec fn add_from_file_body(
    b: Seq<char>,
    name: Seq<char>,
    description: Option<Seq<char>>,
    file: (Seq<char>, Seq<char>, Seq<u8>),
) -> Seq<u8> {
    multipart::text_field_bytes(b, "name"@, name) + multipart::opt_field_bytes(
        b,
        "description"@,
        description,
    ) + multipart::file_part_bytes(b, "file"@, file.0, file.1, file.2)
        + multipart::closing_bytes(b)
}

/// Law: a dictionary upload sends `name`, the `description` when given, and
/// the file as the `file` part right before the closing delimiter, which
/// ends the body.
pub proof fn lemma_add_from_file_body_sends_fields(
    b: Seq<char>,
    name: Seq<char>,
    description: Option<Seq<char>>,
    file: (Seq<char>, Seq<char>, Seq<u8>),
)
    ensures
        ({
            let body = add_from_file_body(b, name, description, file);
            &&& multipart::holds_part(body, multipart::text_field_bytes(b, "name"@, name))
            &&& description matches Some(v) ==> multipart::holds_part(
                body,
                multipart::text_field_bytes(b, "description"@, v),
            )
            &&& multipart::ends_with(
                body,
                multipart::file_part_bytes(b, "file"@, file.0, file.1, file.2) + multipart::closing_bytes(b),
            )
        }),
{
    broadcast use multipart::lemma_holds_part_self, multipart::lemma_holds_part_concat;

    multipart::lemma_ends_with_last_two(
        multipart::text_field_bytes(b, "name"@, name) + multipart::opt_field_bytes(
            b,
            "description"@,
            description,
        ),
        multipart::file_part_bytes(b, "file"@, file.0, file.1, file.2),
        multipart::closing_bytes(b),
    );
}

/// Builds the multipart body for
/// `POST /v1/pronunciation-dictionaries/add-from-file`; the file is given as
/// `(filename, content_type, data)`.
pub fn build_add_from_file_multipart(
    boundary: &str,
    name: &str,
    description: Option<&str>,
    file: (&str, &str, &[u8]),
) -> (body: Vec<u8>)
    ensures
        body@ == add_from_file_body(
            boundary@,
            name@,
            multipart::opt_str_view(description),
            (file.0@, file.1@, file.2@),
        ),
{
    let mut buf = Vec::new();
    append_text_part(&mut buf, boundary, "name", name);
    match description {
        Some(desc) => append_text_part(&mut buf, boundary, "description", desc),
        None => {},
    }
    let (filename, ct, data) = file;
    multipart::append_file_part(&mut buf, boundary, "file", filename, ct, data);
    append_closing(&mut buf, boundary);
    assert(buf@ =~= add_from_file_body(
        boundary@,
        name@,
        multipart::opt_str_view(description),
        (file.0@, file.1@, file.2@),
    ));
    buf
}

/// The request that `add_project` sends: the body for a fresh boundary, to
/// `/v1/studio/projects`.
pub fn add_project_upload(
    request: &AddProjectRequest,
    from_document: Option<(&str, &str, &[u8])>,
    pid: u32,
) -> (u: MultipartUpload)
    ensures
        exists|b: Seq<char>|
            multipart::is_sdk_boundary(b) && multipart::is_upload(
                u,
                "/v1/studio/projects"@,
                b,
                add_project_body(b, *request, multipart::file_view(from_document)),
            ),
{
    let boundary = studio_boundary(pid);
    let body = build_add_project_multipart(boundary.as_str(), request, from_document);
    let ct = multipart_content_type(boundary.as_str());
    MultipartUpload { path: "/v1/studio/projects".to_owned(), content_type: ct, body }
}

/// `/v1/studio/projects/{project_id}/content`.
pub open spec fn content_path(project_id: Seq<char>) -> Seq<char> {
    "/v1/studio/projects/"@ + project_id + "/content"@
}

/// The request that `edit_project_content` sends: the body for a fresh
/// boundary, to `/v1/studio/projects/{project_id}/content`.
pub fn edit_project_content_upload(
    project_id: &str,
    request: &EditProjectContentRequest,
    from_document: Option<(&str, &str, &[u8])>,
    pid: u32,
) -> (u: MultipartUpload)
    ensures
        exists|b: Seq<char>|
            multipart::is_sdk_boundary(b) && multipart::is_upload(
                u,
                content_path(project_id@),
                b,
                edit_content_body(b, *request, multipart::file_view(from_document)),
            ),
{
    let boundary = studio_boundary(pid);
    let body = build_edit_content_multipart(boundary.as_str(), request, from_document);
    let ct = multipart_content_type(boundary.as_str());
    let mut path = "/v1/studio/projects/".to_owned();
    path.append(project_id);
    path.append("/content");
    MultipartUpload { path, content_type: ct, body }
}

/// The request that `create_pronunciation_dictionary_from_file` sends: the
/// body for a fresh boundary, to
/// `/v1/pronunciation-dictionaries/add-from-file`.
pub fn add_from_file_upload(
    name: &str,
    description: Option<&str>,
    file: (&str, &str, &[u8]),
    pid: u32,
) -> (u: MultipartUpload)
    ensures
        exists|b: Seq<char>|
            multipart::is_sdk_boundary(b) && multipart::is_upload(
                u,
                "/v1/pronunciation-dictionaries/add-from-file"@,
                b,
                add_from_file_body(
                    b,
                    name@,
                    multipart::opt_str_view(description),
                    (file.0@, file.1@, file.2@),
                ),
            ),
{
    let boundary = studio_boundary(pid);
    let body = build_add_from_file_multipart(boundary.as_str(), name, description, file);
    let ct = multipart_content_type(boundary.as_str());
    MultipartUpload {
        path: "/v1/pronunciation-dictionaries/add-from-file".to_owned(),
        content_type: ct,
        body,
    }
}

/// `/v1/pronunciation-dictionaries` with `cursor` and `page_size` when
/// given, in that order.
pub open spec fn dictionaries_path_spec(cursor: Option<Seq<char>>, page_size: Option<u32>) -> Seq<char> {
    query::with_query(
        "/v1/pronunciation-dictionaries"@,
        query::present(
            seq![
                query::opt_param("cursor"@, cursor),
                query::opt_param(
                    "page_size"@,
                    query::opt_decimal(
                        match page_size {
                            Some(p) => Some(p as u64),
                            None => None,
                        },
                    ),
                ),
            ],
        ),
    )
}

/// Law: the pronunciation dictionaries path is
/// `/v1/pronunciation-dictionaries` without options, and carries `cursor`
/// and `page_size` for the options given.
pub proof fn lemma_dictionaries_path_carries_options(cursor: Option<Seq<char>>, page_size: Option<u32>)
    ensures
        ({
            let p = dictionaries_path_spec(cursor, page_size);
            let base = "/v1/pronunciation-dictionaries"@;
            &&& base.len() <= p.len() && p.subrange(0, base.len() as int) == base
            &&& cursor is None && page_size is None ==> p == base
            &&& cursor matches Some(c) ==> query::holds_text(p, "cursor"@ + "="@ + c)
            &&& page_size matches Some(n) ==> query::holds_text(p, "page_size"@ + "="@ + text::decimal_text(n as nat))
        }),
{
    let opts = seq![
        query::opt_param("cursor"@, cursor),
        query::opt_param(
            "page_size"@,
            query::opt_decimal(
                match page_size {
                    Some(p) => Some(p as u64),
                    None => None,
                },
            ),
        ),
    ];
    query::lemma_query_of_options("/v1/pronunciation-dictionaries"@, opts);
    assert(opts[0] is Some || opts[0] is None);
    assert(opts[1] is Some || opts[1] is None);
}

/// The path that `get_pronunciation_dictionaries` requests.
pub fn dictionaries_path(cursor: Option<&str>, page_size: Option<u32>) -> (p: String)
    ensures
        p@ == dictionaries_path_spec(query::opt_str_view(cursor), page_size),
{
    let wide: Option<u64> = match page_size {
        Some(p) => Some(p as u64),
        None => None,
    };
    let opts = vec![
        query::opt_param_string("cursor", cursor),
        query::opt_number_param("page_size", wide),
    ];
    assert(query::opt_views(opts@) =~= seq![
        query::opt_param("cursor"@, query::opt_str_view(cursor)),
        query::opt_param(
            "page_size"@,
            query::opt_decimal(
                match page_size {
                    Some(p) => Some(p as u64),
                    None => None,
                },
            ),
        ),
    ]);
    let params = query::collect_present(opts);
    query::path_with_query("/v1/pronunciation-dictionaries", &params)
}

} // verus!
