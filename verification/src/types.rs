//! Value types that requests carry, with the names the API gives them on
//! the wire.

use vstd::prelude::*;

verus! {

/// Audio output format of a synthesis endpoint (codec, sample rate, bitrate).
#[allow(non_camel_case_types)]
#[derive(Clone, Copy, Debug, PartialEq, Eq)]
pub enum OutputFormat {
    /// `mp3_22050_32`
    Mp3_22050_32,
    /// `mp3_24000_48`
    Mp3_24000_48,
    /// `mp3_44100_32`
    Mp3_44100_32,
    /// `mp3_44100_64`
    Mp3_44100_64,
    /// `mp3_44100_96`
    Mp3_44100_96,
    /// `mp3_44100_128`
    Mp3_44100_128,
    /// `mp3_44100_192`
    Mp3_44100_192,
    /// `pcm_8000`
    Pcm_8000,
    /// `pcm_16000`
    Pcm_16000,
    /// `pcm_22050`
    Pcm_22050,
    /// `pcm_24000`
    Pcm_24000,
    /// `pcm_32000`
    Pcm_32000,
    /// `pcm_44100`
    Pcm_44100,
    /// `pcm_48000`
    Pcm_48000,
    /// `ulaw_8000`
    Ulaw_8000,
    /// `alaw_8000`
    Alaw_8000,
    /// `opus_48000_32`
    Opus_48000_32,
    /// `opus_48000_64`
    Opus_48000_64,
    /// `opus_48000_96`
    Opus_48000_96,
    /// `opus_48000_128`
    Opus_48000_128,
    /// `opus_48000_192`
    Opus_48000_192,
}

impl OutputFormat {
    /// The name the API uses for this value.
    pub open spec fn wire(self) -> Seq<char> {
        match self {
            OutputFormat::Mp3_22050_32 => "mp3_22050_32"@,
            OutputFormat::Mp3_24000_48 => "mp3_24000_48"@,
            OutputFormat::Mp3_44100_32 => "mp3_44100_32"@,
            OutputFormat::Mp3_44100_64 => "mp3_44100_64"@,
            OutputFormat::Mp3_44100_96 => "mp3_44100_96"@,
            OutputFormat::Mp3_44100_128 => "mp3_44100_128"@,
            OutputFormat::Mp3_44100_192 => "mp3_44100_192"@,
            OutputFormat::Pcm_8000 => "pcm_8000"@,
            OutputFormat::Pcm_16000 => "pcm_16000"@,
            OutputFormat::Pcm_22050 => "pcm_22050"@,
            OutputFormat::Pcm_24000 => "pcm_24000"@,
            OutputFormat::Pcm_32000 => "pcm_32000"@,
            OutputFormat::Pcm_44100 => "pcm_44100"@,
            OutputFormat::Pcm_48000 => "pcm_48000"@,
            OutputFormat::Ulaw_8000 => "ulaw_8000"@,
            OutputFormat::Alaw_8000 => "alaw_8000"@,
            OutputFormat::Opus_48000_32 => "opus_48000_32"@,
            OutputFormat::Opus_48000_64 => "opus_48000_64"@,
            OutputFormat::Opus_48000_96 => "opus_48000_96"@,
            OutputFormat::Opus_48000_128 => "opus_48000_128"@,
            OutputFormat::Opus_48000_192 => "opus_48000_192"@,
        }
    }

    /// The name the API uses for this value.
    pub fn as_str(&self) -> (s: &'static str)
        ensures
            s@ == self.wire(),
    {
        match self {
            OutputFormat::Mp3_22050_32 => "mp3_22050_32",
            OutputFormat::Mp3_24000_48 => "mp3_24000_48",
            OutputFormat::Mp3_44100_32 => "mp3_44100_32",
            OutputFormat::Mp3_44100_64 => "mp3_44100_64",
            OutputFormat::Mp3_44100_96 => "mp3_44100_96",
            OutputFormat::Mp3_44100_128 => "mp3_44100_128",
            OutputFormat::Mp3_44100_192 => "mp3_44100_192",
            OutputFormat::Pcm_8000 => "pcm_8000",
            OutputFormat::Pcm_16000 => "pcm_16000",
            OutputFormat::Pcm_22050 => "pcm_22050",
            OutputFormat::Pcm_24000 => "pcm_24000",
            OutputFormat::Pcm_32000 => "pcm_32000",
            OutputFormat::Pcm_44100 => "pcm_44100",
            OutputFormat::Pcm_48000 => "pcm_48000",
            OutputFormat::Ulaw_8000 => "ulaw_8000",
            OutputFormat::Alaw_8000 => "alaw_8000",
            OutputFormat::Opus_48000_32 => "opus_48000_32",
            OutputFormat::Opus_48000_64 => "opus_48000_64",
            OutputFormat::Opus_48000_96 => "opus_48000_96",
            OutputFormat::Opus_48000_128 => "opus_48000_128",
            OutputFormat::Opus_48000_192 => "opus_48000_192",
        }
    }
}

impl OutputFormat {
    /// The codec of the format: `mp3`, `pcm`, `ulaw`, `alaw` or `opus`.
    pub open spec fn codec(self) -> Seq<char> {
        match self {
            OutputFormat::Mp3_22050_32 => "mp3"@,
            OutputFormat::Mp3_24000_48 => "mp3"@,
            OutputFormat::Mp3_44100_32 => "mp3"@,
            OutputFormat::Mp3_44100_64 => "mp3"@,
            OutputFormat::Mp3_44100_96 => "mp3"@,
            OutputFormat::Mp3_44100_128 => "mp3"@,
            OutputFormat::Mp3_44100_192 => "mp3"@,
            OutputFormat::Pcm_8000 => "pcm"@,
            OutputFormat::Pcm_16000 => "pcm"@,
            OutputFormat::Pcm_22050 => "pcm"@,
            OutputFormat::Pcm_24000 => "pcm"@,
            OutputFormat::Pcm_32000 => "pcm"@,
            OutputFormat::Pcm_44100 => "pcm"@,
            OutputFormat::Pcm_48000 => "pcm"@,
            OutputFormat::Ulaw_8000 => "ulaw"@,
            OutputFormat::Alaw_8000 => "alaw"@,
            OutputFormat::Opus_48000_32 => "opus"@,
            OutputFormat::Opus_48000_64 => "opus"@,
            OutputFormat::Opus_48000_96 => "opus"@,
            OutputFormat::Opus_48000_128 => "opus"@,
            OutputFormat::Opus_48000_192 => "opus"@,
        }
    }

    /// The sample rate of the format, in hertz.
    pub open spec fn sample_rate(self) -> nat {
        match self {
            OutputFormat::Mp3_22050_32 => 22050,
            OutputFormat::Mp3_24000_48 => 24000,
            OutputFormat::Mp3_44100_32 => 44100,
            OutputFormat::Mp3_44100_64 => 44100,
            OutputFormat::Mp3_44100_96 => 44100,
            OutputFormat::Mp3_44100_128 => 44100,
            OutputFormat::Mp3_44100_192 => 44100,
            OutputFormat::Pcm_8000 => 8000,
            OutputFormat::Pcm_16000 => 16000,
            OutputFormat::Pcm_22050 => 22050,
            OutputFormat::Pcm_24000 => 24000,
            OutputFormat::Pcm_32000 => 32000,
            OutputFormat::Pcm_44100 => 44100,
            OutputFormat::Pcm_48000 => 48000,
            OutputFormat::Ulaw_8000 => 8000,
            OutputFormat::Alaw_8000 => 8000,
            OutputFormat::Opus_48000_32 => 48000,
            OutputFormat::Opus_48000_64 => 48000,
            OutputFormat::Opus_48000_96 => 48000,
            OutputFormat::Opus_48000_128 => 48000,
            OutputFormat::Opus_48000_192 => 48000,
        }
    }

    /// The bitrate of a compressed format, in kbit/s.
    pub open spec fn bitrate_kbps(self) -> Option<nat> {
        match self {
            OutputFormat::Mp3_22050_32 => Some(32),
            OutputFormat::Mp3_24000_48 => Some(48),
            OutputFormat::Mp3_44100_32 => Some(32),
            OutputFormat::Mp3_44100_64 => Some(64),
            OutputFormat::Mp3_44100_96 => Some(96),
            OutputFormat::Mp3_44100_128 => Some(128),
            OutputFormat::Mp3_44100_192 => Some(192),
            OutputFormat::Pcm_8000 => None,
            OutputFormat::Pcm_16000 => None,
            OutputFormat::Pcm_22050 => None,
            OutputFormat::Pcm_24000 => None,
            OutputFormat::Pcm_32000 => None,
            OutputFormat::Pcm_44100 => None,
            OutputFormat::Pcm_48000 => None,
            OutputFormat::Ulaw_8000 => None,
            OutputFormat::Alaw_8000 => None,
            OutputFormat::Opus_48000_32 => Some(32),
            OutputFormat::Opus_48000_64 => Some(64),
            OutputFormat::Opus_48000_96 => Some(96),
            OutputFormat::Opus_48000_128 => Some(128),
            OutputFormat::Opus_48000_192 => Some(192),
        }
    }
}

/// Law: the wire name of an output format is its codec, its sample rate and,
/// for a compressed format, its bitrate, joined by `_`.
pub proof fn lemma_output_format_wire_names_parts(f: OutputFormat)
    ensures
        f.wire() == f.codec() + "_"@ + crate::text::decimal_text(f.sample_rate()) + match f.bitrate_kbps() {
            Some(k) => "_"@ + crate::text::decimal_text(k),
            None => seq![],
        },
{
    reveal_strlit("_");
    reveal_with_fuel(crate::text::decimal_text, 6);
    match f {
        OutputFormat::Mp3_22050_32 => {
            reveal_strlit("mp3_22050_32");
            reveal_strlit("mp3");
        },
        OutputFormat::Mp3_24000_48 => {
            reveal_strlit("mp3_24000_48");
            reveal_strlit("mp3");
        },
        OutputFormat::Mp3_44100_32 => {
            reveal_strlit("mp3_44100_32");
            reveal_strlit("mp3");
        },
        OutputFormat::Mp3_44100_64 => {
            reveal_strlit("mp3_44100_64");
            reveal_strlit("mp3");
        },
        OutputFormat::Mp3_44100_96 => {
            reveal_strlit("mp3_44100_96");
            reveal_strlit("mp3");
        },
        OutputFormat::Mp3_44100_128 => {
            reveal_strlit("mp3_44100_128");
            reveal_strlit("mp3");
        },
        OutputFormat::Mp3_44100_192 => {
            reveal_strlit("mp3_44100_192");
            reveal_strlit("mp3");
        },
        OutputFormat::Pcm_8000 => {
            reveal_strlit("pcm_8000");
            reveal_strlit("pcm");
        },
        OutputFormat::Pcm_16000 => {
            reveal_strlit("pcm_16000");
            reveal_strlit("pcm");
        },
        OutputFormat::Pcm_22050 => {
            reveal_strlit("pcm_22050");
            reveal_strlit("pcm");
        },
        OutputFormat::Pcm_24000 => {
            reveal_strlit("pcm_24000");
            reveal_strlit("pcm");
        },
        OutputFormat::Pcm_32000 => {
            reveal_strlit("pcm_32000");
            reveal_strlit("pcm");
        },
        OutputFormat::Pcm_44100 => {
            reveal_strlit("pcm_44100");
            reveal_strlit("pcm");
        },
        OutputFormat::Pcm_48000 => {
            reveal_strlit("pcm_48000");
            reveal_strlit("pcm");
        },
        OutputFormat::Ulaw_8000 => {
            reveal_strlit("ulaw_8000");
            reveal_strlit("ulaw");
        },
        OutputFormat::Alaw_8000 => {
            reveal_strlit("alaw_8000");
            reveal_strlit("alaw");
        },
        OutputFormat::Opus_48000_32 => {
            reveal_strlit("opus_48000_32");
            reveal_strlit("opus");
        },
        OutputFormat::Opus_48000_64 => {
            reveal_strlit("opus_48000_64");
            reveal_strlit("opus");
        },
        OutputFormat::Opus_48000_96 => {
            reveal_strlit("opus_48000_96");
            reveal_strlit("opus");
        },
        OutputFormat::Opus_48000_128 => {
            reveal_strlit("opus_48000_128");
            reveal_strlit("opus");
        },
        OutputFormat::Opus_48000_192 => {
            reveal_strlit("opus_48000_192");
            reveal_strlit("opus");
        },
    }
}

/// The output format a wire name denotes, told apart by its codec, length
/// and the digits where the names differ.
pub open spec fn output_format_of_wire(s: Seq<char>) -> OutputFormat {
    if s[0] == 'u' {
        OutputFormat::Ulaw_8000
    } else if s[0] == 'a' {
        OutputFormat::Alaw_8000
    } else if s[0] == 'p' {
        if s.len() == 8 {
            OutputFormat::Pcm_8000
        } else if s[4] == '1' {
            OutputFormat::Pcm_16000
        } else if s[4] == '2' {
            if s[5] == '2' {
                OutputFormat::Pcm_22050
            } else {
                OutputFormat::Pcm_24000
            }
        } else if s[4] == '3' {
            OutputFormat::Pcm_32000
        } else if s[5] == '4' {
            OutputFormat::Pcm_44100
        } else {
            OutputFormat::Pcm_48000
        }
    } else if s[0] == 'm' {
        if s[4] == '2' {
            if s[5] == '2' {
                OutputFormat::Mp3_22050_32
            } else {
                OutputFormat::Mp3_24000_48
            }
        } else if s.len() == 12 {
            if s[10] == '3' {
                OutputFormat::Mp3_44100_32
            } else if s[10] == '6' {
                OutputFormat::Mp3_44100_64
            } else {
                OutputFormat::Mp3_44100_96
            }
        } else if s[11] == '2' {
            OutputFormat::Mp3_44100_128
        } else {
            OutputFormat::Mp3_44100_192
        }
    } else if s.len() == 13 {
        if s[11] == '3' {
            OutputFormat::Opus_48000_32
        } else if s[11] == '6' {
            OutputFormat::Opus_48000_64
        } else {
            OutputFormat::Opus_48000_96
        }
    } else if s[12] == '2' {
        OutputFormat::Opus_48000_128
    } else {
        OutputFormat::Opus_48000_192
    }
}

/// Each wire name reads back as its own output format.
pub proof fn lemma_output_format_wire_reads_back(f: OutputFormat)
    ensures
        output_format_of_wire(f.wire()) == f,
{
    match f {
        OutputFormat::Mp3_22050_32 => {
            reveal_strlit("mp3_22050_32");
        },
        OutputFormat::Mp3_24000_48 => {
            reveal_strlit("mp3_24000_48");
        },
        OutputFormat::Mp3_44100_32 => {
            reveal_strlit("mp3_44100_32");
        },
        OutputFormat::Mp3_44100_64 => {
            reveal_strlit("mp3_44100_64");
        },
        OutputFormat::Mp3_44100_96 => {
            reveal_strlit("mp3_44100_96");
        },
        OutputFormat::Mp3_44100_128 => {
            reveal_strlit("mp3_44100_128");
        },
        OutputFormat::Mp3_44100_192 => {
            reveal_strlit("mp3_44100_192");
        },
        OutputFormat::Pcm_8000 => {
            reveal_strlit("pcm_8000");
        },
        OutputFormat::Pcm_16000 => {
            reveal_strlit("pcm_16000");
        },
        OutputFormat::Pcm_22050 => {
            reveal_strlit("pcm_22050");
        },
        OutputFormat::Pcm_24000 => {
            reveal_strlit("pcm_24000");
        },
        OutputFormat::Pcm_32000 => {
            reveal_strlit("pcm_32000");
        },
        OutputFormat::Pcm_44100 => {
            reveal_strlit("pcm_44100");
        },
        OutputFormat::Pcm_48000 => {
            reveal_strlit("pcm_48000");
        },
        OutputFormat::Ulaw_8000 => {
            reveal_strlit("ulaw_8000");
        },
        OutputFormat::Alaw_8000 => {
            reveal_strlit("alaw_8000");
        },
        OutputFormat::Opus_48000_32 => {
            reveal_strlit("opus_48000_32");
        },
        OutputFormat::Opus_48000_64 => {
            reveal_strlit("opus_48000_64");
        },
        OutputFormat::Opus_48000_96 => {
            reveal_strlit("opus_48000_96");
        },
        OutputFormat::Opus_48000_128 => {
            reveal_strlit("opus_48000_128");
        },
        OutputFormat::Opus_48000_192 => {
            reveal_strlit("opus_48000_192");
        },
    }
}

/// Law: distinct output formats have distinct wire names, so the format
/// asked for is the one the request names.
pub proof fn lemma_output_format_wire_injective(a: OutputFormat, b: OutputFormat)
    requires
        a.wire() == b.wire(),
    ensures
        a == b,
{
    lemma_output_format_wire_reads_back(a);
    lemma_output_format_wire_reads_back(b);
}

/// Encoding of an uploaded audio file.
#[derive(Clone, Copy, Debug, PartialEq, Eq)]
pub enum InputFileFormat {
    /// `pcm_s16le_16`
    PcmS16le16,
    /// `other`
    Other,
}

impl InputFileFormat {
    /// The name the API uses for this value.
    pub open spec fn wire(self) -> Seq<char> {
        match self {
            InputFileFormat::PcmS16le16 => "pcm_s16le_16"@,
            InputFileFormat::Other => "other"@,
        }
    }

    /// The name the API uses for this value.
    pub fn as_str(&self) -> (s: &'static str)
        ensures
            s@ == self.wire(),
    {
        match self {
            InputFileFormat::PcmS16le16 => "pcm_s16le_16",
            InputFileFormat::Other => "other",
        }
    }
}

/// Whether text normalization is applied.
#[derive(Clone, Copy, Debug, PartialEq, Eq)]
pub enum TextNormalization {
    /// `auto`
    Auto,
    /// `on`
    On,
    /// `off`
    Off,
    /// `apply_english`
    ApplyEnglish,
}

impl TextNormalization {
    /// The name the API uses for this value.
    pub open spec fn wire(self) -> Seq<char> {
        match self {
            TextNormalization::Auto => "auto"@,
            TextNormalization::On => "on"@,
            TextNormalization::Off => "off"@,
            TextNormalization::ApplyEnglish => "apply_english"@,
        }
    }

    /// The name the API uses for this value.
    pub fn as_str(&self) -> (s: &'static str)
        ensures
            s@ == self.wire(),
    {
        match self {
            TextNormalization::Auto => "auto",
            TextNormalization::On => "on",
            TextNormalization::Off => "off",
            TextNormalization::ApplyEnglish => "apply_english",
        }
    }
}

/// Speech-to-text model.
#[derive(Clone, Copy, Debug, PartialEq, Eq)]
pub enum SpeechToTextModel {
    /// `scribe_v1`
    ScribeV1,
    /// `scribe_v2`
    ScribeV2,
}

impl SpeechToTextModel {
    /// The name the API uses for this value.
    pub open spec fn wire(self) -> Seq<char> {
        match self {
            SpeechToTextModel::ScribeV1 => "scribe_v1"@,
            SpeechToTextModel::ScribeV2 => "scribe_v2"@,
        }
    }

    /// The name the API uses for this value.
    pub fn as_str(&self) -> (s: &'static str)
        ensures
            s@ == self.wire(),
    {
        match self {
            SpeechToTextModel::ScribeV1 => "scribe_v1",
            SpeechToTextModel::ScribeV2 => "scribe_v2",
        }
    }
}

/// Granularity of transcript timestamps.
#[derive(Clone, Copy, Debug, PartialEq, Eq)]
pub enum TimestampsGranularity {
    /// `none`
    NoTimestamps,
    /// `word`
    Word,
    /// `character`
    Character,
}

impl TimestampsGranularity {
    /// The name the API uses for this value.
    pub open spec fn wire(self) -> Seq<char> {
        match self {
            TimestampsGranularity::NoTimestamps => "none"@,
            TimestampsGranularity::Word => "word"@,
            TimestampsGranularity::Character => "character"@,
        }
    }

    /// The name the API uses for this value.
    pub fn as_str(&self) -> (s: &'static str)
        ensures
            s@ == self.wire(),
    {
        match self {
            TimestampsGranularity::NoTimestamps => "none",
            TimestampsGranularity::Word => "word",
            TimestampsGranularity::Character => "character",
        }
    }
}

/// How many stems music is separated into.
#[derive(Clone, Copy, Debug, PartialEq, Eq)]
pub enum StemVariation {
    /// `two_stems_v1`
    TwoStemsV1,
    /// `six_stems_v1`
    SixStemsV1,
}

impl StemVariation {
    /// The name the API uses for this value.
    pub open spec fn wire(self) -> Seq<char> {
        match self {
            StemVariation::TwoStemsV1 => "two_stems_v1"@,
            StemVariation::SixStemsV1 => "six_stems_v1"@,
        }
    }

    /// The name the API uses for this value.
    pub fn as_str(&self) -> (s: &'static str)
        ensures
            s@ == self.wire(),
    {
        match self {
            StemVariation::TwoStemsV1 => "two_stems_v1",
            StemVariation::SixStemsV1 => "six_stems_v1",
        }
    }
}

/// Format of a formatted dubbing transcript.
#[derive(Clone, Copy, Debug, PartialEq, Eq)]
pub enum TranscriptFormat {
    /// `srt`
    Srt,
    /// `webvtt`
    Webvtt,
    /// `json`
    Json,
}

impl TranscriptFormat {
    /// The name the API uses for this value.
    pub open spec fn wire(self) -> Seq<char> {
        match self {
            TranscriptFormat::Srt => "srt"@,
            TranscriptFormat::Webvtt => "webvtt"@,
            TranscriptFormat::Json => "json"@,
        }
    }

    /// The name the API uses for this value.
    pub fn as_str(&self) -> (s: &'static str)
        ensures
            s@ == self.wire(),
    {
        match self {
            TranscriptFormat::Srt => "srt",
            TranscriptFormat::Webvtt => "webvtt",
            TranscriptFormat::Json => "json",
        }
    }
}

/// The value of [`InputFileFormat`] a wire name denotes.
pub open spec fn input_file_format_of_wire(s: Seq<char>) -> InputFileFormat {
    if s.len() == 12 && s[0] == 'p' {
        InputFileFormat::PcmS16le16
    } else {
        InputFileFormat::Other
    }
}

/// Law: distinct values of [`InputFileFormat`] have distinct wire names: each name
/// reads back as its own value.
pub proof fn lemma_input_file_format_wire_injective(a: InputFileFormat, b: InputFileFormat)
    requires
        a.wire() == b.wire(),
    ensures
        a == b,
{
    match a {
        InputFileFormat::PcmS16le16 => {
            reveal_strlit("pcm_s16le_16");
        },
        InputFileFormat::Other => {
            reveal_strlit("other");
        },
    }
    match b {
        InputFileFormat::PcmS16le16 => {
            reveal_strlit("pcm_s16le_16");
        },
        InputFileFormat::Other => {
            reveal_strlit("other");
        },
    }
    assert(input_file_format_of_wire(a.wire()) == a);
    assert(input_file_format_of_wire(b.wire()) == b);
}

/// The value of [`TextNormalization`] a wire name denotes.
pub open spec fn text_normalization_of_wire(s: Seq<char>) -> TextNormalization {
    if s.len() == 4 && s[0] == 'a' {
        TextNormalization::Auto
    } else if s.len() == 2 && s[0] == 'o' {
        TextNormalization::On
    } else if s.len() == 3 && s[0] == 'o' {
        TextNormalization::Off
    } else {
        TextNormalization::ApplyEnglish
    }
}

/// Law: distinct values of [`TextNormalization`] have distinct wire names: each name
/// reads back as its own value.
pub proof fn lemma_text_normalization_wire_injective(a: TextNormalization, b: TextNormalization)
    requires
        a.wire() == b.wire(),
    ensures
        a == b,
{
    match a {
        TextNormalization::Auto => {
            reveal_strlit("auto");
        },
        TextNormalization::On => {
            reveal_strlit("on");
        },
        TextNormalization::Off => {
            reveal_strlit("off");
        },
        TextNormalization::ApplyEnglish => {
            reveal_strlit("apply_english");
        },
    }
    match b {
        TextNormalization::Auto => {
            reveal_strlit("auto");
        },
        TextNormalization::On => {
            reveal_strlit("on");
        },
        TextNormalization::Off => {
            reveal_strlit("off");
        },
        TextNormalization::ApplyEnglish => {
            reveal_strlit("apply_english");
        },
    }
    assert(text_normalization_of_wire(a.wire()) == a);
    assert(text_normalization_of_wire(b.wire()) == b);
}

/// The value of [`SpeechToTextModel`] a wire name denotes.
pub open spec fn speech_to_text_model_of_wire(s: Seq<char>) -> SpeechToTextModel {
    if s.len() == 9 && s[8] == '1' {
        SpeechToTextModel::ScribeV1
    } else {
        SpeechToTextModel::ScribeV2
    }
}

/// Law: distinct values of [`SpeechToTextModel`] have distinct wire names: each name
/// reads back as its own value.
pub proof fn lemma_speech_to_text_model_wire_injective(a: SpeechToTextModel, b: SpeechToTextModel)
    requires
        a.wire() == b.wire(),
    ensures
        a == b,
{
    match a {
        SpeechToTextModel::ScribeV1 => {
            reveal_strlit("scribe_v1");
        },
        SpeechToTextModel::ScribeV2 => {
            reveal_strlit("scribe_v2");
        },
    }
    match b {
        SpeechToTextModel::ScribeV1 => {
            reveal_strlit("scribe_v1");
        },
        SpeechToTextModel::ScribeV2 => {
            reveal_strlit("scribe_v2");
        },
    }
    assert(speech_to_text_model_of_wire(a.wire()) == a);
    assert(speech_to_text_model_of_wire(b.wire()) == b);
}

/// The value of [`TimestampsGranularity`] a wire name denotes.
pub open spec fn timestamps_granularity_of_wire(s: Seq<char>) -> TimestampsGranularity {
    if s.len() == 4 && s[0] == 'n' {
        TimestampsGranularity::NoTimestamps
    } else if s.len() == 4 && s[0] == 'w' {
        TimestampsGranularity::Word
    } else {
        TimestampsGranularity::Character
    }
}

/// Law: distinct values of [`TimestampsGranularity`] have distinct wire names: each name
/// reads back as its own value.
pub proof fn lemma_timestamps_granularity_wire_injective(a: TimestampsGranularity, b: TimestampsGranularity)
    requires
        a.wire() == b.wire(),
    ensures
        a == b,
{
    match a {
        TimestampsGranularity::NoTimestamps => {
            reveal_strlit("none");
        },
        TimestampsGranularity::Word => {
            reveal_strlit("word");
        },
        TimestampsGranularity::Character => {
            reveal_strlit("character");
        },
    }
    match b {
        TimestampsGranularity::NoTimestamps => {
            reveal_strlit("none");
        },
        TimestampsGranularity::Word => {
            reveal_strlit("word");
        },
        TimestampsGranularity::Character => {
            reveal_strlit("character");
        },
    }
    assert(timestamps_granularity_of_wire(a.wire()) == a);
    assert(timestamps_granularity_of_wire(b.wire()) == b);
}

/// The value of [`StemVariation`] a wire name denotes.
pub open spec fn stem_variation_of_wire(s: Seq<char>) -> StemVariation {
    if s.len() == 12 && s[0] == 't' {
        StemVariation::TwoStemsV1
    } else {
        StemVariation::SixStemsV1
    }
}

/// Law: distinct values of [`StemVariation`] have distinct wire names: each name
/// reads back as its own value.
pub proof fn lemma_stem_variation_wire_injective(a: StemVariation, b: StemVariation)
    requires
        a.wire() == b.wire(),
    ensures
        a == b,
{
    match a {
        StemVariation::TwoStemsV1 => {
            reveal_strlit("two_stems_v1");
        },
        StemVariation::SixStemsV1 => {
            reveal_strlit("six_stems_v1");
        },
    }
    match b {
        StemVariation::TwoStemsV1 => {
            reveal_strlit("two_stems_v1");
        },
        StemVariation::SixStemsV1 => {
            reveal_strlit("six_stems_v1");
        },
    }
    assert(stem_variation_of_wire(a.wire()) == a);
    assert(stem_variation_of_wire(b.wire()) == b);
}

/// The value of [`TranscriptFormat`] a wire name denotes.
pub open spec fn transcript_format_of_wire(s: Seq<char>) -> TranscriptFormat {
    if s.len() == 3 && s[0] == 's' {
        TranscriptFormat::Srt
    } else if s.len() == 6 && s[0] == 'w' {
        TranscriptFormat::Webvtt
    } else {
        TranscriptFormat::Json
    }
}

/// Law: distinct values of [`TranscriptFormat`] have distinct wire names: each name
/// reads back as its own value.
pub proof fn lemma_transcript_format_wire_injective(a: TranscriptFormat, b: TranscriptFormat)
    requires
        a.wire() == b.wire(),
    ensures
        a == b,
{
    match a {
        TranscriptFormat::Srt => {
            reveal_strlit("srt");
        },
        TranscriptFormat::Webvtt => {
            reveal_strlit("webvtt");
        },
        TranscriptFormat::Json => {
            reveal_strlit("json");
        },
    }
    match b {
        TranscriptFormat::Srt => {
            reveal_strlit("srt");
        },
        TranscriptFormat::Webvtt => {
            reveal_strlit("webvtt");
        },
        TranscriptFormat::Json => {
            reveal_strlit("json");
        },
    }
    assert(transcript_format_of_wire(a.wire()) == a);
    assert(transcript_format_of_wire(b.wire()) == b);
}

} // verus!
