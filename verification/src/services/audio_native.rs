//! Audio Native projects: the multipart bodies of `POST /v1/audio-native`
//! and `POST /v1/audio-native/{project_id}/content`.

use vstd::prelude::*;

use crate::multipart;
use crate::multipart::{
    append_closing, append_opt_str_field, append_opt_text_field, append_repeated_field,
    append_text_field, multipart_boundary, multipart_content_type, MultipartUpload,
};
use crate::text;
use crate::types::TextNormalization;

verus! {

/// Configuration fields of an Audio Native project.
pub struct AudioNativeCreateProjectRequest {
    /// Project name.
    pub name: String,
    /// Image URL shown in the player.
    pub image: Option<String>,
    /// Author shown in the player.
    pub author: Option<String>,
    /// Title shown in the player.
    pub title: Option<String>,
    /// Whether to use the small player.
    pub small: bool,
    /// Player text colour.
    pub text_color: Option<String>,
    /// Player background colour.
    pub background_color: Option<String>,
    /// Minutes to persist the session across page reloads.
    pub sessionization: i64,
    /// Voice to narrate with.
    pub voice_id: Option<String>,
    /// Model to narrate with.
    pub model_id: Option<String>,
    /// Whether to convert the project to audio at once.
    pub auto_convert: bool,
    /// Text normalization mode.
    pub apply_text_normalization: Option<TextNormalization>,
    /// Pronunciation dictionary locators, each sent as its own field.
    pub pronunciation_dictionary_locators: Vec<String>,
}

impl Default for AudioNativeCreateProjectRequest {
    fn default() -> (r: Self)
        ensures
            r.name@.len() == 0,
            r.image is None,
            r.author is None,
            r.title is None,
            !r.small,
            r.text_color is None,
            r.background_color is None,
            r.sessionization == 0,
            r.voice_id is None,
            r.model_id is None,
            !r.auto_convert,
            r.apply_text_normalization is None,
            r.pronunciation_dictionary_locators@.len() == 0,
    {
        AudioNativeCreateProjectRequest {
            name: String::new(),
            image: None,
            author: None,
            title: None,
            small: false,
            text_color: None,
            background_color: None,
            sessionization: 0,
            voice_id: None,
            model_id: None,
            auto_convert: false,
            apply_text_normalization: None,
            pronunciation_dictionary_locators: Vec::new(),
        }
    }
}

/// Fields of a content update of an Audio Native project.
pub struct AudioNativeUpdateContentRequest {
    /// Whether to convert the project to audio at once.
    pub auto_convert: bool,
    /// Whether to publish the new content at once.
    pub auto_publish: bool,
}

pub open spec fn normalization_wire(n: Option<TextNormalization>) -> Option<Seq<char>> {
    match n {
        Some(v) => Some(v.wire()),
        None => None,
    }
}

/// Body of `POST /v1/audio-native`: the optional `file`, then the fields in
/// the order `name`, `image`, `author`, `title`, `small`, `text_color`,
/// `background_color`, `sessionization`, `voice_id`, `model_id`,
/// `auto_convert`, `apply_text_normalization`, and one
/// `pronunciation_dictionary_locators` field per locator; optional fields
/// only when set.
pub open spec fn create_project_body(
    boundary: Seq<char>,
    r: AudioNativeCreateProjectRequest,
    file: Option<(Seq<char>, Seq<char>, Seq<u8>)>,
) -> Seq<u8> {
    multipart::opt_file_bytes(boundary, "file"@, file) + multipart::text_field_bytes(
        boundary,
        "name"@,
        r.name@,
    ) + multipart::opt_field_bytes(boundary, "image"@, multipart::opt_view(r.image))
        + multipart::opt_field_bytes(boundary, "author"@, multipart::opt_view(r.author))
        + multipart::opt_field_bytes(boundary, "title"@, multipart::opt_view(r.title))
        + multipart::text_field_bytes(boundary, "small"@, text::bool_text(r.small))
        + multipart::opt_field_bytes(boundary, "text_color"@, multipart::opt_view(r.text_color))
        + multipart::opt_field_bytes(
        boundary,
        "background_color"@,
        multipart::opt_view(r.background_color),
    ) + multipart::text_field_bytes(
        boundary,
        "sessionization"@,
        text::signed_decimal_text(r.sessionization as int),
    ) + multipart::opt_field_bytes(boundary, "voice_id"@, multipart::opt_view(r.voice_id))
        + multipart::opt_field_bytes(boundary, "model_id"@, multipart::opt_view(r.model_id))
        + multipart::text_field_bytes(boundary, "auto_convert"@, text::bool_text(r.auto_convert))
        + multipart::opt_field_bytes(
        boundary,
        "apply_text_normalization"@,
        normalization_wire(r.apply_text_normalization),
    ) + multipart::repeated_field_bytes(
        boundary,
        "pronunciation_dictionary_locators"@,
        multipart::strings_view(r.pronunciation_dictionary_locators@),
    ) + multipart::closing_bytes(boundary)
}

/// Body of `POST /v1/audio-native/{project_id}/content`: the optional
/// `file`, then `auto_convert` and `auto_publish`.
pub open spec fn update_content_body(
    boundary: Seq<char>,
    r: AudioNativeUpdateContentRequest,
    file: Option<(Seq<char>, Seq<char>, Seq<u8>)>,
) -> Seq<u8> {
    multipart::opt_file_bytes(boundary, "file"@, file) + multipart::text_field_bytes(
        boundary,
        "auto_convert"@,
        text::bool_text(r.auto_convert),
    ) + multipart::text_field_bytes(boundary, "auto_publish"@, text::bool_text(r.auto_publish))
        + multipart::closing_bytes(boundary)
}

/// Law: an Audio Native project body sends the file when given, `name`,
/// `small`, `sessionization` (in decimal) and `auto_convert`, every optional
/// field that is set, every pronunciation dictionary locator, and ends with
/// the closing delimiter.
pub proof fn lemma_create_project_body_sends_fields(boundary: Seq<char>,
    r: AudioNativeCreateProjectRequest,
    file: Option<(Seq<char>, Seq<char>, Seq<u8>)>,)
    ensures
        ({
            let body = create_project_body(boundary, r, file);
            &&& multipart::holds_part(body, multipart::text_field_bytes(boundary, "name"@, r.name@))
            &&& r.image matches Some(v) ==> multipart::holds_part(body, multipart::text_field_bytes(boundary, "image"@, v@))
            &&& r.author matches Some(v) ==> multipart::holds_part(body, multipart::text_field_bytes(boundary, "author"@, v@))
            &&& r.title matches Some(v) ==> multipart::holds_part(body, multipart::text_field_bytes(boundary, "title"@, v@))
            &&& multipart::holds_part(body, multipart::text_field_bytes(boundary, "small"@, text::bool_text(r.small)))
            &&& r.text_color matches Some(v) ==> multipart::holds_part(body, multipart::text_field_bytes(boundary, "text_color"@, v@))
            &&& r.background_color matches Some(v) ==> multipart::holds_part(body, multipart::text_field_bytes(boundary, "background_color"@, v@))
            &&& multipart::holds_part(body, multipart::text_field_bytes(boundary, "sessionization"@, text::signed_decimal_text(r.sessionization as int)))
            &&& r.voice_id matches Some(v) ==> multipart::holds_part(body, multipart::text_field_bytes(boundary, "voice_id"@, v@))
            &&& r.model_id matches Some(v) ==> multipart::holds_part(body, multipart::text_field_bytes(boundary, "model_id"@, v@))
            &&& multipart::holds_part(body, multipart::text_field_bytes(boundary, "auto_convert"@, text::bool_text(r.auto_convert)))
            &&& r.apply_text_normalization matches Some(w) ==> multipart::holds_part(body, multipart::text_field_bytes(boundary, "apply_text_normalization"@, w.wire()))
            &&& forall|i: int| 0 <= i < r.pronunciation_dictionary_locators@.len() ==> multipart::holds_part(
                body,
                multipart::text_field_bytes(
                    boundary,
                    "pronunciation_dictionary_locators"@,
                    #[trigger] r.pronunciation_dictionary_locators@[i]@,
                ),
            )
            &&& file matches Some((f, ct, d)) ==> multipart::holds_part(body, multipart::file_part_bytes(boundary, "file"@, f, ct, d))
            &&& multipart::ends_with(body, multipart::closing_bytes(boundary))
        }),
{
    broadcast use multipart::lemma_holds_part_self, multipart::lemma_holds_part_concat;

    broadcast use multipart::lemma_ends_with_last, multipart::lemma_ends_with_concat;
    assert forall|i: int| 0 <= i < r.pronunciation_dictionary_locators@.len() implies multipart::holds_part(
        create_project_body(boundary, r, file),
        multipart::text_field_bytes(
            boundary,
            "pronunciation_dictionary_locators"@,
            #[trigger] r.pronunciation_dictionary_locators@[i]@,
        ),
    ) by {
        let vals = multipart::strings_view(r.pronunciation_dictionary_locators@);
        assert(vals[i] == r.pronunciation_dictionary_locators@[i]@);
        multipart::lemma_repeated_field_holds_each(boundary, "pronunciation_dictionary_locators"@, vals, i);
    }
}

/// Law: a content-update body sends the file when given and the
/// `auto_convert` and `auto_publish` flags as `true`/`false`, and ends with
/// the closing delimiter.
pub proof fn lemma_update_content_body_sends_fields(boundary: Seq<char>,
    r: AudioNativeUpdateContentRequest,
    file: Option<(Seq<char>, Seq<char>, Seq<u8>)>,)
    ensures
        ({
            let body = update_content_body(boundary, r, file);
            &&& multipart::holds_part(body, multipart::text_field_bytes(boundary, "auto_convert"@, text::bool_text(r.auto_convert)))
            &&& multipart::holds_part(body, multipart::text_field_bytes(boundary, "auto_publish"@, text::bool_text(r.auto_publish)))
            &&& file matches Some((f, ct, d)) ==> multipart::holds_part(body, multipart::file_part_bytes(boundary, "file"@, f, ct, d))
            &&& multipart::ends_with(body, multipart::closing_bytes(boundary))
        }),
{
    broadcast use multipart::lemma_holds_part_self, multipart::lemma_holds_part_concat;

    broadcast use multipart::lemma_ends_with_last, multipart::lemma_ends_with_concat;
}

/// Appends the optional `file` part of an Audio Native body, given as
/// `(data, filename, content_type)`.
fn append_opt_file(buf: &mut Vec<u8>, boundary: &str, file: Option<(&[u8], &str, &str)>)
    ensures
        final(buf)@ == old(buf)@ + multipart::opt_file_bytes(
            boundary@,
            "file"@,
            multipart::data_first_file_view(file),
        ),
{
    match file {
        Some((data, filename, ct)) => {
            multipart::append_file_part(buf, boundary, "file", filename, ct, data);
        },
        None => {
            assert(buf@ =~= old(buf)@ + Seq::<u8>::empty());
        },
    }
}

fn normalization_str(n: &Option<TextNormalization>) -> (s: Option<&'static str>)
    ensures
        multipart::opt_str_view(s) == normalization_wire(*n),
{
    match n {
        Some(v) => Some(v.as_str()),
        None => None,
    }
}


/// Builds the multipart body for `POST /v1/audio-native`.
pub fn build_create_project_multipart(
    boundary: &str,
    request: &AudioNativeCreateProjectRequest,
    file: Option<(&[u8], &str, &str)>,
) -> (body: Vec<u8>)
    ensures
        body@ == create_project_body(boundary@, *request, multipart::data_first_file_view(file)),
{
    let mut buf = Vec::new();
    append_opt_file(&mut buf, boundary, file);
    append_text_field(&mut buf, boundary, "name", request.name.as_str());
    append_opt_text_field(&mut buf, boundary, "image", &request.image);
    append_opt_text_field(&mut buf, boundary, "author", &request.author);
    append_opt_text_field(&mut buf, boundary, "title", &request.title);
    append_text_field(&mut buf, boundary, "small", text::bool_str(request.small));
    append_opt_text_field(&mut buf, boundary, "text_color", &request.text_color);
    append_opt_text_field(&mut buf, boundary, "background_color", &request.background_color);
    let sessionization = text::signed_decimal_string(request.sessionization);
    append_text_field(&mut buf, boundary, "sessionization", sessionization.as_str());
    append_opt_text_field(&mut buf, boundary, "voice_id", &request.voice_id);
    append_opt_text_field(&mut buf, boundary, "model_id", &request.model_id);
    append_text_field(&mut buf, boundary, "auto_convert", text::bool_str(request.auto_convert));
    append_opt_str_field(
        &mut buf,
        boundary,
        "apply_text_normalization",
        normalization_str(&request.apply_text_normalization),
    );
    append_repeated_field(
        &mut buf,
        boundary,
        "pronunciation_dictionary_locators",
        &request.pronunciation_dictionary_locators,
    );
    append_closing(&mut buf, boundary);
    assert(buf@ =~= create_project_body(
        boundary@,
        *request,
        multipart::data_first_file_view(file),
    ));
    buf
}

/// Builds the multipart body for `POST /v1/audio-native/{project_id}/content`.
pub fn build_update_content_multipart(
    boundary: &str,
    request: &AudioNativeUpdateContentRequest,
    file: Option<(&[u8], &str, &str)>,
) -> (body: Vec<u8>)
    ensures
        body@ == update_content_body(boundary@, *request, multipart::data_first_file_view(file)),
{
    let mut buf = Vec::new();
    append_opt_file(&mut buf, boundary, file);
    append_text_field(&mut buf, boundary, "auto_convert", text::bool_str(request.auto_convert));
    append_text_field(&mut buf, boundary, "auto_publish", text::bool_str(request.auto_publish));
    append_closing(&mut buf, boundary);
    assert(buf@ =~= update_content_body(
        boundary@,
        *request,
        multipart::data_first_file_view(file),
    ));
    buf
}

/// The request that `create_project` sends: the body for a fresh boundary,
/// to `/v1/audio-native`.
pub fn create_project_upload(
    request: &AudioNativeCreateProjectRequest,
    file: Option<(&[u8], &str, &str)>,
) -> (u: MultipartUpload)
    ensures
        exists|b: Seq<char>|
            multipart::is_sdk_boundary(b) && multipart::is_upload(
                u,
                "/v1/audio-native"@,
                b,
                create_project_body(b, *request, multipart::data_first_file_view(file)),
            ),
{
    let boundary = multipart_boundary();
    let body = build_create_project_multipart(boundary.as_str(), request, file);
    let ct = multipart_content_type(boundary.as_str());
    MultipartUpload { path: "/v1/audio-native".to_owned(), content_type: ct, body }
}

/// `/v1/audio-native/{project_id}/content`.
pub open spec fn update_content_path(project_id: Seq<char>) -> Seq<char> {
    "/v1/audio-native/"@ + project_id + "/content"@
}

/// The request that `update_content` sends: the body for a fresh boundary,
/// to `/v1/audio-native/{project_id}/content`.
pub fn update_content_upload(
    project_id: &str,
    request: &AudioNativeUpdateContentRequest,
    file: Option<(&[u8], &str, &str)>,
) -> (u: MultipartUpload)
    ensures
        exists|b: Seq<char>|
            multipart::is_sdk_boundary(b) && multipart::is_upload(
                u,
                update_content_path(project_id@),
                b,
                update_content_body(b, *request, multipart::data_first_file_view(file)),
            ),
{
    let mut path = "/v1/audio-native/".to_owned();
    path.append(project_id);
    path.append("/content");
    let boundary = multipart_boundary();
    let body = build_update_content_multipart(boundary.as_str(), request, file);
    let ct = multipart_content_type(boundary.as_str());
    MultipartUpload { path, content_type: ct, body }
}

} // verus!
