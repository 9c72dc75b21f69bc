//! Professional voice cloning: the multipart bodies of the sample upload and
//! the captcha verification.

use vstd::prelude::*;

use crate::multipart;
use crate::multipart::{
    append_closing, append_file_part, build_single_file_multipart, multipart_boundary,
    multipart_content_type, MultipartUpload,
};

verus! {

/// One `files` part per sample `(filename, content_type, data)`, in order.
pub open spec fn samples_bytes(b: Seq<char>, files: Seq<(&str, &str, &[u8])>) -> Seq<u8>
    decreases files.len(),
{
    if files.len() == 0 {
        seq![]
    } else {
        let (filename, ct, data) = files.last();
        samples_bytes(b, files.drop_last()) + multipart::file_part_bytes(
            b,
            "files"@,
            filename@,
            ct@,
            data@,
        )
    }
}

/// Law: every sample is sent as a `files` part with its file name, content
/// type and bytes.
pub proof fn lemma_samples_bytes_send_each(b: Seq<char>, files: Seq<(&str, &str, &[u8])>, i: int)
    requires
        0 <= i < files.len(),
    ensures
        multipart::holds_part(
            samples_bytes(b, files),
            multipart::file_part_bytes(b, "files"@, files[i].0@, files[i].1@, files[i].2@),
        ),
    decreases files.len(),
{
    broadcast use multipart::lemma_holds_part_self, multipart::lemma_holds_part_concat;

    if i < files.len() - 1 {
        assert(files.drop_last()[i] == files[i]);
        lemma_samples_bytes_send_each(b, files.drop_last(), i);
    }
}

/// Builds the body of a sample upload: one `files` part per sample, then
/// the closing delimiter.
pub fn build_samples_multipart(boundary: &str, files: &[(&str, &str, &[u8])]) -> (body: Vec<u8>)
    ensures
        body@ == samples_bytes(boundary@, files@) + multipart::closing_bytes(boundary@),
{
    let mut buf = Vec::new();
    let mut i: usize = 0;
    while i < files.len()
        invariant
            i <= files@.len(),
            buf@ == samples_bytes(boundary@, files@.subrange(0, i as int)),
        decreases files@.len() - i,
    {
        let (filename, content_type, data) = files[i];
        append_file_part(&mut buf, boundary, "files", filename, content_type, data);
        proof {
            let next = files@.subrange(0, i + 1);
            assert(next.drop_last() =~= files@.subrange(0, i as int));
            assert(next.last() == files@[i as int]);
        }
        i = i + 1;
    }
    assert(files@.subrange(0, files@.len() as int) =~= files@);
    append_closing(&mut buf, boundary);
    buf
}

/// `/v1/voices/pvc/{voice_id}{suffix}`.
pub open spec fn voice_path(voice_id: Seq<char>, suffix: Seq<char>) -> Seq<char> {
    "/v1/voices/pvc/"@ + voice_id + suffix
}

fn voice_path_exec(voice_id: &str, suffix: &str) -> (p: String)
    ensures
        p@ == voice_path(voice_id@, suffix@),
{
    let mut p = "/v1/voices/pvc/".to_owned();
    p.append(voice_id);
    p.append(suffix);
    p
}

/// The request that `add_pvc_voice_samples` sends: the samples for a fresh
/// boundary, to `/v1/voices/pvc/{voice_id}/samples`.
pub fn samples_upload(voice_id: &str, files: &[(&str, &str, &[u8])]) -> (u: MultipartUpload)
    ensures
        exists|b: Seq<char>|
            multipart::is_sdk_boundary(b) && multipart::is_upload(
                u,
                voice_path(voice_id@, "/samples"@),
                b,
                samples_bytes(b, files@) + multipart::closing_bytes(b),
            ),
{
    let boundary = multipart_boundary();
    let body = build_samples_multipart(boundary.as_str(), files);
    let path = voice_path_exec(voice_id, "/samples");
    let ct = multipart_content_type(boundary.as_str());
    MultipartUpload { path, content_type: ct, body }
}

/// The request that `verify_pvc_voice_captcha` sends: the `recording` file
/// for a fresh boundary, to `/v1/voices/pvc/{voice_id}/captcha`.
pub fn captcha_upload(voice_id: &str, recording_data: &[u8], filename: &str, content_type: &str) -> (u: MultipartUpload)
    ensures
        exists|b: Seq<char>|
            multipart::is_sdk_boundary(b) && multipart::is_upload(
                u,
                voice_path(voice_id@, "/captcha"@),
                b,
                multipart::file_part_bytes(b, "recording"@, filename@, content_type@, recording_data@)
                    + multipart::closing_bytes(b),
            ),
{
    let boundary = multipart_boundary();
    let body = build_single_file_multipart(
        boundary.as_str(),
        "recording",
        filename,
        content_type,
        recording_data,
    );
    let path = voice_path_exec(voice_id, "/captcha");
    let ct = multipart_content_type(boundary.as_str());
    MultipartUpload { path, content_type: ct, body }
}

} // verus!
