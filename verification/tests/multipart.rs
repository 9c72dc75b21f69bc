use elevenlabs_sdk::multipart::{
    append_closing, append_file_part, append_text_field, build_single_file_multipart, hex32,
    multipart_boundary, multipart_content_type, uuid_v4_simple,
};
use elevenlabs_sdk::services::agents::{avatar_upload, build_knowledge_base_file_multipart};
use elevenlabs_sdk::services::audio_isolation::{
    build_audio_isolation_multipart, build_audio_isolation_stream_multipart, isolate_upload,
    AudioIsolationRequest, AudioIsolationStreamRequest,
};
use elevenlabs_sdk::services::audio_native::{
    build_create_project_multipart, build_update_content_multipart, update_content_upload,
    AudioNativeCreateProjectRequest, AudioNativeUpdateContentRequest,
};
use elevenlabs_sdk::services::dubbing::{build_create_dubbing_multipart, CreateDubbingRequest};
use elevenlabs_sdk::services::forced_alignment::{alignment_upload, build_alignment_multipart};
use elevenlabs_sdk::services::music::{
    build_stem_separation_multipart, MusicStemSeparationRequest,
};
use elevenlabs_sdk::services::pvc_voices::{build_samples_multipart, captcha_upload};
use elevenlabs_sdk::services::speech_to_speech::{build_s2s_multipart, SpeechToSpeechRequest};
use elevenlabs_sdk::services::speech_to_text::{
    build_stt_multipart, build_stt_multipart_with_lists, SpeechToTextRequest,
};
use elevenlabs_sdk::services::studio;
use elevenlabs_sdk::services::studio::{
    add_project_upload, append_text_part, build_add_from_file_multipart,
    build_add_project_multipart, build_edit_content_multipart, AddProjectRequest,
    EditProjectContentRequest,
};
use elevenlabs_sdk::types::{InputFileFormat, StemVariation, TextNormalization};

fn assert_hex_token(id: &str) {
    assert_eq!(id.len(), 32);
    assert!(id.chars().all(|c| c.is_ascii_hexdigit()));
}

#[test]
fn audio_isolation_uuid_v4_simple_returns_32_char_hex() {
    let id = uuid_v4_simple();
    assert_eq!(id.len(), 32);
    assert!(id.chars().all(|c| c.is_ascii_hexdigit()));
}

#[test]
fn audio_native_uuid_v4_simple_returns_32_char_hex() {
    let id = uuid_v4_simple();
    assert_eq!(id.len(), 32);
    assert!(id.chars().all(|c| c.is_ascii_hexdigit()));
}

#[test]
fn dubbing_uuid_v4_simple_returns_32_char_hex() {
    let id = uuid_v4_simple();
    assert_eq!(id.len(), 32);
    assert!(id.chars().all(|c| c.is_ascii_hexdigit()));
}

#[test]
fn music_uuid_v4_simple_returns_32_char_hex() {
    let id = uuid_v4_simple();
    assert_eq!(id.len(), 32);
    assert!(id.chars().all(|c| c.is_ascii_hexdigit()));
}

#[test]
fn speech_to_speech_uuid_v4_simple_returns_32_char_hex() {
    let id = uuid_v4_simple();
    assert_eq!(id.len(), 32);
    assert!(id.chars().all(|c| c.is_ascii_hexdigit()));
}

#[test]
fn speech_to_text_uuid_v4_simple_returns_32_char_hex() {
    let id = uuid_v4_simple();
    assert_eq!(id.len(), 32);
    assert!(id.chars().all(|c| c.is_ascii_hexdigit()));
}

#[test]
fn uuid_v4_simple_returns_hex() {
    let id = studio::uuid_v4_simple(4242);
    assert!(!id.is_empty());
    assert!(id.chars().all(|c| c.is_ascii_hexdigit()));
}

#[test]
fn hex32_formats_like_std() {
    for v in [0u128, 1, 0xdead_beef, u128::MAX, 1 << 100, 123_456_789_012_345_678_901_234_567] {
        assert_eq!(hex32(v), format!("{v:032x}"));
    }
}

#[test]
fn boundary_and_content_type() {
    let b = multipart_boundary();
    assert!(b.starts_with("----ElevenLabsSDK"));
    assert_hex_token(&b["----ElevenLabsSDK".len()..]);
    assert_eq!(multipart_content_type("abc"), "multipart/form-data; boundary=abc");
    let s = studio::studio_boundary(7);
    assert!(s.starts_with("----ElevenLabsSDK"));
    assert_hex_token(&s["----ElevenLabsSDK".len()..]);
}

#[test]
fn text_field_and_file_part_bytes() {
    let mut buf = Vec::new();
    append_text_field(&mut buf, "b", "name", "välue");
    assert_eq!(
        buf,
        "--b\r\nContent-Disposition: form-data; name=\"name\"\r\n\r\nvälue\r\n".as_bytes()
    );
    let mut buf = Vec::new();
    append_file_part(&mut buf, "b", "file", "a.txt", "text/plain", b"\x00\xff");
    let mut expected = b"--b\r\nContent-Disposition: form-data; name=\"file\"; filename=\"a.txt\"\r\nContent-Type: text/plain\r\n\r\n".to_vec();
    expected.extend_from_slice(b"\x00\xff\r\n");
    assert_eq!(buf, expected);
    append_closing(&mut buf, "b");
    assert!(buf.ends_with(b"--b--\r\n"));
}

#[test]
fn text_part_equals_text_field() {
    let mut a = Vec::new();
    let mut b = Vec::new();
    append_text_field(&mut a, "xyz", "k", "v");
    append_text_part(&mut b, "xyz", "k", "v");
    assert_eq!(a, b);
}

#[test]
fn single_file_body_exact() {
    let body = build_single_file_multipart("bb", "avatar", "me.png", "image/png", b"PNG");
    assert_eq!(
        body,
        b"--bb\r\nContent-Disposition: form-data; name=\"avatar\"; filename=\"me.png\"\r\nContent-Type: image/png\r\n\r\nPNG\r\n--bb--\r\n".to_vec()
    );
}

#[test]
fn build_update_content_multipart_contains_fields() {
    let request = AudioNativeUpdateContentRequest { auto_convert: true, auto_publish: true };
    let boundary = "test-boundary";
    let body = build_update_content_multipart(boundary, &request, None);
    let body_str = String::from_utf8_lossy(&body);
    assert!(body_str.contains("auto_convert"));
    assert!(body_str.contains("auto_publish"));
    assert!(body_str.contains("true"));
    assert!(body_str.contains("--test-boundary--"));
}

#[test]
fn update_content_body_exact() {
    let request = AudioNativeUpdateContentRequest { auto_convert: false, auto_publish: true };
    let body = build_update_content_multipart("B", &request, Some((b"<p>", "a.html", "text/html")));
    let expected = "--B\r\nContent-Disposition: form-data; name=\"file\"; filename=\"a.html\"\r\nContent-Type: text/html\r\n\r\n<p>\r\n\
--B\r\nContent-Disposition: form-data; name=\"auto_convert\"\r\n\r\nfalse\r\n\
--B\r\nContent-Disposition: form-data; name=\"auto_publish\"\r\n\r\ntrue\r\n--B--\r\n";
    assert_eq!(String::from_utf8(body).unwrap(), expected);
    let upload = update_content_upload("proj_abc", &request, None);
    assert_eq!(upload.path, "/v1/audio-native/proj_abc/content");
    let boundary = upload.content_type.strip_prefix("multipart/form-data; boundary=").unwrap();
    assert!(upload.body.ends_with(format!("--{boundary}--\r\n").as_bytes()));
}

#[test]
fn build_create_project_multipart_contains_fields() {
    let request = AudioNativeCreateProjectRequest {
        name: "Test Project".into(),
        author: Some("Author".into()),
        auto_convert: true,
        ..Default::default()
    };
    let boundary = "test-boundary";
    let body = build_create_project_multipart(
        boundary,
        &request,
        Some((b"<p>content</p>", "content.html", "text/html")),
    );
    let body_str = String::from_utf8_lossy(&body);
    assert!(body_str.contains("content.html"));
    assert!(body_str.contains("text/html"));
    assert!(body_str.contains("Test Project"));
    assert!(body_str.contains("Author"));
    assert!(body_str.contains("auto_convert"));
    assert!(body_str.contains("true"));
    assert!(body_str.contains("--test-boundary--"));
}

#[test]
fn create_project_body_fields_in_order() {
    let request = AudioNativeCreateProjectRequest {
        name: "N".into(),
        sessionization: -5,
        apply_text_normalization: Some(TextNormalization::ApplyEnglish),
        pronunciation_dictionary_locators: vec!["d1".into(), "d2".into()],
        ..Default::default()
    };
    let body = String::from_utf8(build_create_project_multipart("b", &request, None)).unwrap();
    let names: Vec<&str> = body
        .split("name=\"")
        .skip(1)
        .map(|rest| &rest[..rest.find('"').unwrap()])
        .collect();
    assert_eq!(
        names,
        vec![
            "name",
            "small",
            "sessionization",
            "auto_convert",
            "apply_text_normalization",
            "pronunciation_dictionary_locators",
            "pronunciation_dictionary_locators"
        ]
    );
    assert!(body.contains("\r\n\r\n-5\r\n"));
    assert!(body.contains("\r\n\r\napply_english\r\n"));
    assert!(body.contains("\r\n\r\nd2\r\n--b--\r\n"));
}

fn empty_dubbing() -> CreateDubbingRequest {
    CreateDubbingRequest {
        name: None,
        source_url: None,
        source_lang: None,
        target_lang: None,
        target_accent: None,
        num_speakers: None,
        watermark: None,
        start_time: None,
        end_time: None,
        highest_resolution: None,
        drop_background_audio: None,
        use_profanity_filter: None,
        dubbing_studio: None,
        disable_voice_cloning: None,
        mode: None,
        csv_fps: None,
    }
}

#[test]
fn build_create_dubbing_multipart_contains_fields() {
    let req = CreateDubbingRequest {
        name: Some("Test".into()),
        source_url: Some("https://example.com/v.mp4".into()),
        source_lang: None,
        target_lang: Some("es".into()),
        target_accent: None,
        num_speakers: Some(2),
        watermark: None,
        start_time: None,
        end_time: None,
        highest_resolution: None,
        drop_background_audio: None,
        use_profanity_filter: None,
        dubbing_studio: None,
        disable_voice_cloning: None,
        mode: None,
        csv_fps: None,
    };
    let boundary = "test-boundary";
    let body = build_create_dubbing_multipart(boundary, &req, None);
    let body_str = String::from_utf8_lossy(&body);
    assert!(body_str.contains("Test"));
    assert!(body_str.contains("source_url"));
    assert!(body_str.contains("target_lang"));
    assert!(body_str.contains("num_speakers"));
    assert!(body_str.contains("--test-boundary--"));
}

#[test]
fn build_create_dubbing_multipart_with_file() {
    let req = CreateDubbingRequest {
        name: Some("With File".into()),
        source_url: None,
        source_lang: None,
        target_lang: Some("fr".into()),
        target_accent: None,
        num_speakers: None,
        watermark: None,
        start_time: None,
        end_time: None,
        highest_resolution: None,
        drop_background_audio: None,
        use_profanity_filter: None,
        dubbing_studio: None,
        disable_voice_cloning: None,
        mode: None,
        csv_fps: None,
    };
    let boundary = "test-boundary";
    let body = build_create_dubbing_multipart(
        boundary,
        &req,
        Some(("video.mp4", "video/mp4", b"fake-video-data")),
    );
    let body_str = String::from_utf8_lossy(&body);
    assert!(body_str.contains("video.mp4"));
    assert!(body_str.contains("video/mp4"));
    assert!(body_str.contains("fake-video-data"));
}

#[test]
fn dubbing_body_renders_numbers_and_flags() {
    let req = CreateDubbingRequest {
        num_speakers: Some(0),
        watermark: Some(false),
        start_time: Some(4_294_967_295),
        dubbing_studio: Some(true),
        csv_fps: Some("29.97".into()),
        ..empty_dubbing()
    };
    let body = String::from_utf8(build_create_dubbing_multipart("b", &req, None)).unwrap();
    assert!(body.contains("name=\"num_speakers\"\r\n\r\n0\r\n"));
    assert!(body.contains("name=\"watermark\"\r\n\r\nfalse\r\n"));
    assert!(body.contains("name=\"start_time\"\r\n\r\n4294967295\r\n"));
    assert!(body.contains("name=\"dubbing_studio\"\r\n\r\ntrue\r\n"));
    assert!(body.contains("name=\"csv_fps\"\r\n\r\n29.97\r\n--b--\r\n"));
    let empty = build_create_dubbing_multipart("b", &empty_dubbing(), None);
    assert_eq!(empty, b"--b--\r\n".to_vec());
}

#[test]
fn build_audio_isolation_multipart_contains_audio_and_fields() {
    let request = AudioIsolationRequest {
        file_format: Some(InputFileFormat::PcmS16le16),
        preview_b64: Some("aGVsbG8=".into()),
    };
    let boundary = "test-boundary";
    let body = build_audio_isolation_multipart(
        boundary,
        &request,
        b"fake-audio",
        "input.mp3",
        "audio/mpeg",
    );
    let body_str = String::from_utf8_lossy(&body);
    assert!(body_str.contains("input.mp3"));
    assert!(body_str.contains("audio/mpeg"));
    assert!(body_str.contains("fake-audio"));
    assert!(body_str.contains("pcm_s16le_16"));
    assert!(body_str.contains("aGVsbG8="));
    assert!(body_str.contains("--test-boundary--"));
}

#[test]
fn build_audio_isolation_stream_multipart_contains_audio() {
    let request = AudioIsolationStreamRequest::default();
    let boundary = "test-boundary";
    let body = build_audio_isolation_stream_multipart(
        boundary,
        &request,
        b"fake-audio",
        "input.mp3",
        "audio/mpeg",
    );
    let body_str = String::from_utf8_lossy(&body);
    assert!(body_str.contains("input.mp3"));
    assert!(body_str.contains("fake-audio"));
    assert!(body_str.contains("--test-boundary--"));
}

#[test]
fn isolate_upload_frames_its_body() {
    let request = AudioIsolationRequest::default();
    let upload = isolate_upload(&request, b"x", "in.wav", "audio/wav");
    assert_eq!(upload.path, "/v1/audio-isolation");
    let boundary = upload.content_type.strip_prefix("multipart/form-data; boundary=").unwrap();
    assert!(boundary.starts_with("----ElevenLabsSDK"));
    assert!(upload.body.starts_with(format!("--{boundary}\r\n").as_bytes()));
    assert_eq!(
        upload.body,
        build_audio_isolation_multipart(boundary, &request, b"x", "in.wav", "audio/wav")
    );
}

#[test]
fn build_stem_separation_multipart_contains_fields() {
    let request = MusicStemSeparationRequest {
        stem_variation_id: StemVariation::TwoStemsV1,
        sign_with_c2pa: true,
    };
    let boundary = "test-boundary";
    let body = build_stem_separation_multipart(
        boundary,
        &request,
        b"fake-song",
        "song.mp3",
        "audio/mpeg",
    );
    let body_str = String::from_utf8_lossy(&body);
    assert!(body_str.contains("song.mp3"));
    assert!(body_str.contains("audio/mpeg"));
    assert!(body_str.contains("fake-song"));
    assert!(body_str.contains("two_stems_v1"));
    assert!(body_str.contains("sign_with_c2pa"));
    assert!(body_str.contains("true"));
    assert!(body_str.contains("--test-boundary--"));
}

#[test]
fn build_s2s_multipart_contains_audio_and_fields() {
    let request = SpeechToSpeechRequest {
        model_id: "eleven_english_sts_v2".into(),
        voice_settings: None,
        seed: Some(42),
        remove_background_noise: false,
        file_format: None,
    };
    let boundary = "test-boundary";
    let body = build_s2s_multipart(boundary, &request, b"fake-audio", "input.mp3", "audio/mpeg");
    let body_str = String::from_utf8_lossy(&body);
    assert!(body_str.contains("input.mp3"));
    assert!(body_str.contains("audio/mpeg"));
    assert!(body_str.contains("fake-audio"));
    assert!(body_str.contains("eleven_english_sts_v2"));
    assert!(body_str.contains("42"));
    assert!(body_str.contains("remove_background_noise"));
    assert!(body_str.contains("false"));
    assert!(body_str.contains("--test-boundary--"));
}

#[test]
fn build_stt_multipart_contains_file_and_fields() {
    let request = SpeechToTextRequest {
        language_code: Some("en".into()),
        diarize: true,
        num_speakers: Some(2),
        ..SpeechToTextRequest::default()
    };
    let boundary = "test-boundary";
    let body =
        build_stt_multipart(boundary, &request, Some((b"audio-bytes", "test.mp3", "audio/mpeg")));
    let body_str = String::from_utf8_lossy(&body);
    assert!(body_str.contains("test.mp3"));
    assert!(body_str.contains("audio/mpeg"));
    assert!(body_str.contains("audio-bytes"));
    assert!(body_str.contains("scribe_v2"));
    assert!(body_str.contains("language_code"));
    assert!(body_str.contains("en"));
    assert!(body_str.contains("diarize"));
    assert!(body_str.contains("true"));
    assert!(body_str.contains("num_speakers"));
    assert!(body_str.contains("2"));
    assert!(body_str.contains("--test-boundary--"));
}

#[test]
fn build_stt_multipart_without_file() {
    let request = SpeechToTextRequest {
        cloud_storage_url: Some("https://example.com/audio.mp3".into()),
        ..SpeechToTextRequest::default()
    };
    let boundary = "test-boundary";
    let body = build_stt_multipart(boundary, &request, None);
    let body_str = String::from_utf8_lossy(&body);
    // Should not contain file part
    assert!(!body_str.contains("filename="));
    // Should contain cloud_storage_url field
    assert!(body_str.contains("cloud_storage_url"));
    assert!(body_str.contains("https://example.com/audio.mp3"));
    assert!(body_str.contains("--test-boundary--"));
}

#[test]
fn stt_lists_are_sent_as_json() {
    let request = SpeechToTextRequest {
        keyterms: Some(vec!["Eleven".into(), "say \"hi\"".into()]),
        entity_detection: Some(vec![]),
        ..SpeechToTextRequest::default()
    };
    let body = String::from_utf8(build_stt_multipart("b", &request, None)).unwrap();
    assert!(body.contains("name=\"keyterms\"\r\n\r\n[\"Eleven\",\"say \\\"hi\\\"\"]\r\n"));
    assert!(body.contains("name=\"entity_detection\"\r\n\r\n[]\r\n"));
    assert!(body.contains("name=\"timestamps_granularity\"\r\n\r\nword\r\n"));
    assert!(body.contains("name=\"tag_audio_events\"\r\n\r\ntrue\r\n"));
}

#[test]
fn stt_body_from_given_list_texts() {
    let request = SpeechToTextRequest {
        keyterms: Some(vec!["ignored".into()]),
        ..SpeechToTextRequest::default()
    };
    let body = build_stt_multipart_with_lists(
        "z",
        &request,
        None,
        &Some("[\"PERSON\"]".to_owned()),
        &None,
    );
    let text = String::from_utf8(body).unwrap();
    assert!(text.contains("name=\"entity_detection\"\r\n\r\n[\"PERSON\"]\r\n"));
    assert!(!text.contains("keyterms"));
    assert!(text.ends_with("name=\"use_multi_channel\"\r\n\r\nfalse\r\n--z\r\nContent-Disposition: form-data; name=\"entity_detection\"\r\n\r\n[\"PERSON\"]\r\n--z--\r\n"));
    let with_real = build_stt_multipart("z", &SpeechToTextRequest {
        entity_detection: Some(vec!["PERSON".into()]),
        ..SpeechToTextRequest::default()
    }, None);
    assert_eq!(with_real, build_stt_multipart_with_lists(
        "z",
        &SpeechToTextRequest { entity_detection: Some(vec!["PERSON".into()]), ..SpeechToTextRequest::default() },
        None,
        &Some("[\"PERSON\"]".to_owned()),
        &None,
    ));
}

#[test]
fn uuid_and_boundary_for_pvc_and_agents() {
    let upload = captcha_upload("voice1", b"rec", "r.wav", "audio/wav");
    assert_eq!(upload.path, "/v1/voices/pvc/voice1/captcha");
    let boundary = upload.content_type.strip_prefix("multipart/form-data; boundary=").unwrap();
    assert_eq!(
        upload.body,
        build_single_file_multipart(boundary, "recording", "r.wav", "audio/wav", b"rec")
    );
    let upload = avatar_upload("agent_1", "a.png", "image/png", b"img");
    assert_eq!(upload.path, "/v1/convai/agents/agent_1/avatar");
}

#[test]
fn samples_body_has_one_part_per_file() {
    let files: [(&str, &str, &[u8]); 2] =
        [("a.mp3", "audio/mpeg", b"AAA"), ("b.wav", "audio/wav", b"BB")];
    let body = String::from_utf8(build_samples_multipart("q", &files)).unwrap();
    assert_eq!(body.matches("name=\"files\"").count(), 2);
    assert!(body.find("a.mp3").unwrap() < body.find("b.wav").unwrap());
    assert!(body.ends_with("BB\r\n--q--\r\n"));
    assert_eq!(build_samples_multipart("q", &[]), b"--q--\r\n".to_vec());
}

#[test]
fn knowledge_base_file_body_order() {
    let body = String::from_utf8(build_knowledge_base_file_multipart(
        "k",
        "doc.pdf",
        "application/pdf",
        b"%PDF",
        Some("Doc"),
        None,
    ))
    .unwrap();
    assert!(body.starts_with("--k\r\nContent-Disposition: form-data; name=\"name\"\r\n\r\nDoc\r\n"));
    assert!(!body.contains("parent_folder_id"));
    assert!(body.ends_with("%PDF\r\n--k--\r\n"));
}

#[test]
fn forced_alignment_body() {
    let body = String::from_utf8(build_alignment_multipart("f", b"wav", "a.wav", "hello")).unwrap();
    assert!(body.contains("Content-Type: application/octet-stream\r\n\r\nwav\r\n"));
    assert!(body.ends_with("name=\"text\"\r\n\r\nhello\r\n--f--\r\n"));
    let upload = alignment_upload(b"wav", "a.wav", "hello");
    assert_eq!(upload.path, "/v1/forced-alignment");
    let boundary = upload.content_type.strip_prefix("multipart/form-data; boundary=").unwrap();
    assert_hex_token(boundary);
}

#[test]
fn build_add_project_multipart_contains_fields() {
    let req = AddProjectRequest {
        name: "Test".into(),
        default_title_voice_id: Some("vt".into()),
        default_paragraph_voice_id: None,
        default_model_id: None,
        from_url: Some("https://example.com".into()),
        quality_preset: None,
        title: None,
        author: None,
        description: None,
        volume_normalization: Some(true),
        language: None,
        content_type: None,
        fiction: None,
        auto_convert: None,
    };
    let body = build_add_project_multipart("test-boundary", &req, None);
    let body_str = String::from_utf8_lossy(&body);
    assert!(body_str.contains("Test"));
    assert!(body_str.contains("from_url"));
    assert!(body_str.contains("volume_normalization"));
    assert!(body_str.contains("--test-boundary--"));
}

#[test]
fn build_add_from_file_multipart_contains_fields() {
    let body = build_add_from_file_multipart(
        "test-boundary",
        "My Dict",
        Some("A test dict"),
        ("dict.pls", "application/pls+xml", b"<pls>fake</pls>"),
    );
    let body_str = String::from_utf8_lossy(&body);
    assert!(body_str.contains("My Dict"));
    assert!(body_str.contains("A test dict"));
    assert!(body_str.contains("dict.pls"));
    assert!(body_str.contains("<pls>fake</pls>"));
    assert!(body_str.contains("--test-boundary--"));
}

#[test]
fn edit_content_body_and_project_upload() {
    let req = EditProjectContentRequest {
        from_url: None,
        from_content_json: Some("{}".into()),
        auto_convert: Some(false),
    };
    let body = String::from_utf8(build_edit_content_multipart(
        "e",
        &req,
        Some(("book.epub", "application/epub+zip", b"EPUB")),
    ))
    .unwrap();
    let expected = "--e\r\nContent-Disposition: form-data; name=\"from_content_json\"\r\n\r\n{}\r\n\
--e\r\nContent-Disposition: form-data; name=\"auto_convert\"\r\n\r\nfalse\r\n\
--e\r\nContent-Disposition: form-data; name=\"from_document\"; filename=\"book.epub\"\r\nContent-Type: application/epub+zip\r\n\r\nEPUB\r\n--e--\r\n";
    assert_eq!(body, expected);
    let add = AddProjectRequest {
        name: "P".into(),
        default_title_voice_id: None,
        default_paragraph_voice_id: None,
        default_model_id: None,
        from_url: None,
        quality_preset: None,
        title: None,
        author: None,
        description: None,
        volume_normalization: None,
        language: None,
        content_type: None,
        fiction: None,
        auto_convert: Some(true),
    };
    let upload = add_project_upload(&add, None, 4242);
    assert_eq!(upload.path, "/v1/studio/projects");
    let boundary = upload.content_type.strip_prefix("multipart/form-data; boundary=").unwrap();
    assert_eq!(upload.body, build_add_project_multipart(boundary, &add, None));
}

#[test]
fn hex32_reads_back_and_distinguishes_readings() {
    for v in [0u128, 1, 15, 16, 0xdead_beef, u128::MAX, 1 << 127] {
        let s = hex32(v);
        assert_eq!(u128::from_str_radix(&s, 16), Ok(v));
        assert!(!s.chars().any(|c| c.is_ascii_uppercase()));
    }
    assert_ne!(hex32(41), hex32(42));
    let id = uuid_v4_simple();
    assert_eq!(hex32(u128::from_str_radix(&id, 16).unwrap()), id);
}

#[test]
fn stt_lists_escape_control_characters() {
    let request = SpeechToTextRequest {
        keyterms: Some(vec!["a\u{1}b".into(), "tab\there".into(), "back\\slash".into(), "ü\u{1f}".into()]),
        ..SpeechToTextRequest::default()
    };
    let body = String::from_utf8(build_stt_multipart("b", &request, None)).unwrap();
    assert!(body.contains("name=\"keyterms\"\r\n\r\n[\"a\\u0001b\",\"tab\\there\",\"back\\\\slash\",\"ü\\u001f\"]\r\n"));
}
