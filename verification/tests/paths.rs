use elevenlabs_sdk::query::{append_query, collect_present, opt_number_param, opt_param_string, param, path_with_query};
use elevenlabs_sdk::services::agents::optional_query_path;
use elevenlabs_sdk::services::dubbing;
use elevenlabs_sdk::services::history;
use elevenlabs_sdk::services::speech_to_speech;
use elevenlabs_sdk::services::studio::dictionaries_path;
use elevenlabs_sdk::services::text_to_speech;
use elevenlabs_sdk::services::user::character_usage_path;
use elevenlabs_sdk::types::{OutputFormat, TranscriptFormat};

// -- text to speech -------------------------------------------------------

#[test]
fn text_to_speech_build_path_no_params() {
    let path = text_to_speech::build_path("v123", "", None, None);
    assert_eq!(path, "/v1/text-to-speech/v123");
}

#[test]
fn text_to_speech_build_path_with_output_format() {
    let path = text_to_speech::build_path("v123", "/stream", Some(OutputFormat::Pcm_16000), None);
    assert_eq!(path, "/v1/text-to-speech/v123/stream?output_format=pcm_16000");
}

#[test]
fn build_path_with_latency() {
    let path = text_to_speech::build_path("v123", "/with-timestamps", None, Some(4));
    assert_eq!(path, "/v1/text-to-speech/v123/with-timestamps?optimize_streaming_latency=4");
}

#[test]
fn build_path_with_both_params() {
    let path = text_to_speech::build_path(
        "v123",
        "/stream/with-timestamps",
        Some(OutputFormat::Mp3_44100_128),
        Some(2),
    );
    assert_eq!(
        path,
        "/v1/text-to-speech/v123/stream/with-timestamps?output_format=mp3_44100_128&optimize_streaming_latency=2"
    );
}

// -- speech to speech -----------------------------------------------------

#[test]
fn speech_to_speech_build_path_no_params() {
    let path = speech_to_speech::build_path("v123", "", None);
    assert_eq!(path, "/v1/speech-to-speech/v123");
}

#[test]
fn build_path_with_stream_suffix() {
    let path = speech_to_speech::build_path("v123", "/stream", None);
    assert_eq!(path, "/v1/speech-to-speech/v123/stream");
}

#[test]
fn speech_to_speech_build_path_with_output_format() {
    let path = speech_to_speech::build_path("v123", "", Some(OutputFormat::Pcm_16000));
    assert_eq!(path, "/v1/speech-to-speech/v123?output_format=pcm_16000");
}

// -- query helpers --------------------------------------------------------

#[test]
fn append_query_builds_correct_path() {
    let mut path = "/v1/test".to_owned();
    append_query(&mut path, "foo", "bar");
    assert_eq!(path, "/v1/test?foo=bar");
    append_query(&mut path, "baz", "qux");
    assert_eq!(path, "/v1/test?foo=bar&baz=qux");
}

#[test]
fn append_query_after_existing_query_uses_ampersand() {
    let mut path = "/v1/x?a=1".to_owned();
    append_query(&mut path, "b", "2");
    assert_eq!(path, "/v1/x?a=1&b=2");
}

#[test]
fn path_with_query_without_params_is_the_path() {
    let params: Vec<String> = Vec::new();
    assert_eq!(path_with_query("/v1/history", &params), "/v1/history");
}

#[test]
fn path_with_query_joins_with_ampersand() {
    let params = vec!["a=1".to_owned(), "b=2".to_owned(), "c=3".to_owned()];
    assert_eq!(path_with_query("/v1/p", &params), "/v1/p?a=1&b=2&c=3");
}

#[test]
fn collect_present_keeps_order_and_drops_absent() {
    let v = collect_present(vec![
        Some("x=1".to_owned()),
        None,
        Some("y=2".to_owned()),
        None,
    ]);
    assert_eq!(v, vec!["x=1".to_owned(), "y=2".to_owned()]);
}

#[test]
fn param_helpers() {
    assert_eq!(param("k", "v"), "k=v");
    assert_eq!(opt_param_string("k", None), None);
    assert_eq!(opt_param_string("k", Some("v")), Some("k=v".to_owned()));
    assert_eq!(opt_number_param("n", Some(0)), Some("n=0".to_owned()));
    assert_eq!(opt_number_param("n", Some(18446744073709551615)), Some("n=18446744073709551615".to_owned()));
    assert_eq!(opt_number_param("n", None), None);
}

#[test]
fn optional_query_path_skips_absent_values() {
    let params = vec![("cursor", None), ("page_size", Some("10")), ("search", Some("abc"))];
    assert_eq!(optional_query_path("/v1/convai/agents", &params), "/v1/convai/agents?page_size=10&search=abc");
    let none: Vec<(&str, Option<&str>)> = vec![("cursor", None)];
    assert_eq!(optional_query_path("/v1/convai/agents", &none), "/v1/convai/agents");
}

// -- list paths ------------------------------------------------------------

#[test]
fn dubbing_list_path_variants() {
    assert_eq!(dubbing::list_path(None, None), "/v1/dubbing");
    assert_eq!(dubbing::list_path(Some(20), None), "/v1/dubbing?page_size=20");
    assert_eq!(dubbing::list_path(None, Some("abc")), "/v1/dubbing?cursor=abc");
    assert_eq!(dubbing::list_path(Some(5), Some("c1")), "/v1/dubbing?page_size=5&cursor=c1");
}

#[test]
fn dubbing_transcript_formatted_path() {
    assert_eq!(
        dubbing::transcript_formatted_path("d1", "en", TranscriptFormat::Srt),
        "/v1/dubbing/d1/transcripts/en/format/srt"
    );
    assert_eq!(
        dubbing::transcript_formatted_path("d1", "fr", TranscriptFormat::Webvtt),
        "/v1/dubbing/d1/transcripts/fr/format/webvtt"
    );
    assert_eq!(
        dubbing::transcript_formatted_path("d2", "de", TranscriptFormat::Json),
        "/v1/dubbing/d2/transcripts/de/format/json"
    );
}

#[test]
fn history_list_path_variants() {
    assert_eq!(history::list_path(None, None, None), "/v1/history");
    assert_eq!(
        history::list_path(Some(100), Some("h9"), Some("v1")),
        "/v1/history?page_size=100&start_after_history_item_id=h9&voice_id=v1"
    );
    assert_eq!(history::list_path(None, None, Some("v1")), "/v1/history?voice_id=v1");
}

#[test]
fn character_usage_path_variants() {
    assert_eq!(
        character_usage_path(1000, 2000, None, None),
        "/v1/usage/character-stats?start_unix=1000&end_unix=2000"
    );
    assert_eq!(
        character_usage_path(-5, 0, Some(true), Some("voice")),
        "/v1/usage/character-stats?start_unix=-5&end_unix=0&include_workspace_metrics=true&breakdown_type=voice"
    );
    assert_eq!(
        character_usage_path(1, 2, Some(false), None),
        "/v1/usage/character-stats?start_unix=1&end_unix=2"
    );
    assert_eq!(
        character_usage_path(i64::MIN, i64::MAX, None, None),
        "/v1/usage/character-stats?start_unix=-9223372036854775808&end_unix=9223372036854775807"
    );
}

#[test]
fn studio_dictionaries_path_variants() {
    assert_eq!(dictionaries_path(None, None), "/v1/pronunciation-dictionaries");
    assert_eq!(
        dictionaries_path(Some("c"), Some(30)),
        "/v1/pronunciation-dictionaries?cursor=c&page_size=30"
    );
    assert_eq!(dictionaries_path(None, Some(1)), "/v1/pronunciation-dictionaries?page_size=1");
}
