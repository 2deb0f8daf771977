//! Data models for the Text-to-Speech API.

use vstd::prelude::*;
use crate::common::error::Error;
use crate::common::json::{
    from_bytes, json_error, json_of, json_parsed_bytes, object_insert, optional_u32, read_bool,
    read_optional_u32, read_string, read_u32, required_bool, required_string, required_u32,
    value_object, value_string, value_u64, Json, JsonNumber,
};

verus! {

/// Voice provider
#[derive(Debug, Clone, Copy, PartialEq, Eq, Structural)]
pub enum VoiceProvider {
    /// Hume AI voice
    HumeAi,
    /// Custom voice
    CustomVoice,
}

impl VoiceProvider {
    /// The name of the provider on the wire.
    pub open spec fn wire_name(self) -> Seq<char> {
        match self {
            VoiceProvider::HumeAi => "HUME_AI"@,
            VoiceProvider::CustomVoice => "CUSTOM_VOICE"@,
        }
    }

    /// The name of the provider on the wire.
    pub fn as_str(&self) -> (r: &'static str)
        ensures
            r@ == self.wire_name(),
    {
        match self {
            VoiceProvider::HumeAi => "HUME_AI",
            VoiceProvider::CustomVoice => "CUSTOM_VOICE",
        }
    }
}

/// Voice specification for utterances
#[derive(Debug, Clone)]
pub enum VoiceSpec {
    /// Voice specified by ID
    Id {
        /// Voice ID
        id: String,
        /// Voice provider
        provider: Option<VoiceProvider>,
    },
    /// Voice specified by name
    Name {
        /// Voice name
        name: String,
        /// Voice provider
        provider: Option<VoiceProvider>,
    },
}

/// The members that a voice provider adds to an object: none where it is absent.
pub open spec fn with_provider(m: Map<Seq<char>, Json>, provider: Option<VoiceProvider>) -> Map<
    Seq<char>,
    Json,
> {
    match provider {
        Some(p) => m.insert("provider"@, Json::String(p.wire_name())),
        None => m,
    }
}

impl VoiceSpec {
    /// The JSON document that stands for the voice: an object with the id or
    /// the name, and with the provider where one is given.
    pub open spec fn spec_json(&self) -> Json {
        match self {
            VoiceSpec::Id { id, provider } => Json::Object(
                with_provider(Map::empty().insert("id"@, Json::String(id@)), *provider),
            ),
            VoiceSpec::Name { name, provider } => Json::Object(
                with_provider(Map::empty().insert("name"@, Json::String(name@)), *provider),
            ),
        }
    }

    /// The JSON document that stands for the voice.
    pub fn to_json(&self) -> (v: serde_json::Value)
        ensures
            json_of(v) == self.spec_json(),
    {
        let mut v = value_object();
        let provider = match self {
            VoiceSpec::Id { id, provider } => {
                object_insert(&mut v, "id", value_string(id.as_str()));
                provider
            },
            VoiceSpec::Name { name, provider } => {
                object_insert(&mut v, "name", value_string(name.as_str()));
                provider
            },
        };
        match provider {
            Some(p) => {
                object_insert(&mut v, "provider", value_string(p.as_str()));
            },
            None => {},
        }
        v
    }
}

/// Context for maintaining consistency
#[derive(Debug, Clone)]
pub struct Context {
    /// Previous text for context
    pub text: String,
    /// Voice used for previous text
    pub voice: Option<String>,
}

/// Audio format specification
#[derive(Debug, Clone, Copy, PartialEq, Eq, Structural)]
pub enum AudioFormat {
    /// MP3 format (default)
    Mp3,
    /// WAV format
    Wav,
    /// Raw PCM format
    Pcm,
}

impl AudioFormat {
    /// The name of the format on the wire.
    pub open spec fn wire_name(self) -> Seq<char> {
        match self {
            AudioFormat::Mp3 => "mp3"@,
            AudioFormat::Wav => "wav"@,
            AudioFormat::Pcm => "pcm"@,
        }
    }

    /// The JSON document that stands for the format: an object whose `type` is
    /// the format's name.
    pub open spec fn spec_json(self) -> Json {
        Json::Object(Map::empty().insert("type"@, Json::String(self.wire_name())))
    }

    /// The name of the format on the wire.
    pub fn as_str(&self) -> (r: &'static str)
        ensures
            r@ == self.wire_name(),
    {
        match self {
            AudioFormat::Mp3 => "mp3",
            AudioFormat::Wav => "wav",
            AudioFormat::Pcm => "pcm",
        }
    }

    /// The JSON document that stands for the format.
    pub fn to_json(&self) -> (v: serde_json::Value)
        ensures
            json_of(v) == self.spec_json(),
    {
        let mut v = value_object();
        object_insert(&mut v, "type", value_string(self.as_str()));
        v
    }
}

impl Default for AudioFormat {
    fn default() -> (r: Self)
        ensures
            r == AudioFormat::Mp3,
    {
        AudioFormat::Mp3
    }
}

/// Common sample rates for audio, and any other rate as `Custom`.
#[allow(non_camel_case_types)]
#[derive(Debug, Clone, Copy, PartialEq, Eq, Structural)]
pub enum SampleRate {
    /// 8 kHz - Telephone quality
    HZ_8000,
    /// 16 kHz - Wideband audio
    HZ_16000,
    /// 22.05 kHz - Half of CD quality
    HZ_22050,
    /// 24 kHz - Professional audio
    HZ_24000,
    /// 44.1 kHz - CD quality
    HZ_44100,
    /// 48 kHz - Professional/DVD quality
    HZ_48000,
    /// Another rate, in Hz; [`SampleRate::custom`] gives the named rate where
    /// there is one.
    Custom(u32),
}

impl SampleRate {
    /// The rate in Hz.
    pub open spec fn hz(self) -> u32 {
        match self {
            SampleRate::HZ_8000 => 8000,
            SampleRate::HZ_16000 => 16000,
            SampleRate::HZ_22050 => 22050,
            SampleRate::HZ_24000 => 24000,
            SampleRate::HZ_44100 => 44100,
            SampleRate::HZ_48000 => 48000,
            SampleRate::Custom(rate) => rate,
        }
    }

    /// Whether the rate is written in its one accepted way: a common rate by
    /// its name.
    pub open spec fn is_canonical(self) -> bool {
        match self {
            SampleRate::Custom(rate) => rate != 8000 && rate != 16000 && rate != 22050 && rate
                != 24000 && rate != 44100 && rate != 48000,
            _ => true,
        }
    }

    /// Create a custom sample rate
    pub fn custom(rate: u32) -> (r: Self)
        ensures
            r.hz() == rate,
            r.is_canonical(),
    {
        if rate == 8000 {
            SampleRate::HZ_8000
        } else if rate == 16000 {
            SampleRate::HZ_16000
        } else if rate == 22050 {
            SampleRate::HZ_22050
        } else if rate == 24000 {
            SampleRate::HZ_24000
        } else if rate == 44100 {
            SampleRate::HZ_44100
        } else if rate == 48000 {
            SampleRate::HZ_48000
        } else {
            SampleRate::Custom(rate)
        }
    }

    /// Get the raw sample rate value
    pub fn as_u32(&self) -> (r: u32)
        ensures
            r == self.hz(),
    {
        match self {
            SampleRate::HZ_8000 => 8000,
            SampleRate::HZ_16000 => 16000,
            SampleRate::HZ_22050 => 22050,
            SampleRate::HZ_24000 => 24000,
            SampleRate::HZ_44100 => 44100,
            SampleRate::HZ_48000 => 48000,
            SampleRate::Custom(rate) => *rate,
        }
    }

    /// The JSON document that stands for the rate: its number.
    pub fn to_json(&self) -> (v: serde_json::Value)
        ensures
            json_of(v) == Json::Number(JsonNumber::Unsigned(self.hz() as u64)),
    {
        value_u64(self.as_u32() as u64)
    }
}

/// Two rates written in the accepted way are the same value exactly when they
/// are the same number of Hz.
pub proof fn lemma_sample_rate_canonical(a: SampleRate, b: SampleRate)
    requires
        a.is_canonical(),
        b.is_canonical(),
    ensures
        a == b <==> a.hz() == b.hz(),
{
}

impl From<SampleRate> for u32 {
    fn from(rate: SampleRate) -> (r: u32) {
        rate.as_u32()
    }
}

impl vstd::std_specs::convert::FromSpecImpl<SampleRate> for u32 {
    open spec fn obeys_from_spec() -> bool {
        true
    }

    open spec fn from_spec(rate: SampleRate) -> u32 {
        rate.hz()
    }
}

impl Default for SampleRate {
    fn default() -> (r: Self)
        ensures
            r == SampleRate::HZ_24000,
    {
        SampleRate::HZ_24000
    }
}

/// TTS synthesis response
#[derive(Debug, Clone)]
pub struct TtsResponse {
    /// List of generated audio segments
    pub generations: Vec<Generation>,
}

/// Single generation result
#[derive(Debug, Clone)]
pub struct Generation {
    /// Base64 encoded audio data
    pub data: String,
    /// Duration in milliseconds
    pub duration_ms: Option<u32>,
    /// Voice used
    pub voice: Option<String>,
}

/// Streaming TTS response chunk
#[derive(Debug, Clone)]
pub struct TtsStreamResponse {
    /// Chunk index
    pub index: u32,
    /// Base64 encoded audio chunk
    pub data: String,
    /// Duration of this chunk
    pub duration_ms: Option<u32>,
    /// Whether this is the final chunk
    pub is_final: bool,
}

/// Available voices response
#[derive(Debug, Clone)]
pub struct VoicesResponse {
    /// List of available voices
    pub voices: Vec<Voice>,
}

/// Voice information
#[derive(Debug, Clone)]
pub struct Voice {
    /// Voice ID
    pub id: String,
    /// Voice name
    pub name: String,
    /// Voice description
    pub description: Option<String>,
    /// Voice gender
    pub gender: Option<String>,
    /// Voice age
    pub age: Option<String>,
    /// Voice language
    pub language: Option<String>,
    /// Whether this is a custom voice
    pub is_custom: Option<bool>,
    /// Voice tags
    pub tags: Option<Vec<String>>,
}

} // verus!

verus! {

/// The mathematical value of a [`TtsStreamResponse`].
pub ghost struct TtsStreamResponseView {
    pub index: u32,
    pub data: Seq<char>,
    pub duration_ms: Option<u32>,
    pub is_final: bool,
}

impl View for TtsStreamResponse {
    type V = TtsStreamResponseView;

    open spec fn view(&self) -> TtsStreamResponseView {
        TtsStreamResponseView {
            index: self.index,
            data: self.data@,
            duration_ms: self.duration_ms,
            is_final: self.is_final,
        }
    }
}

/// The chunk that a document stands for; `None` where it lacks an `index` that
/// is a number, a `data` that is a string or an `is_final` that is a boolean,
/// or has a `duration_ms` that is neither a number nor `null`.
pub open spec fn decode_stream_chunk(j: Json) -> Option<TtsStreamResponseView> {
    match (
        required_u32(j, "index"@),
        required_string(j, "data"@),
        optional_u32(j, "duration_ms"@),
        required_bool(j, "is_final"@),
    ) {
        (Some(index), Some(data), Some(duration_ms), Some(is_final)) => Some(
            TtsStreamResponseView { index, data, duration_ms, is_final },
        ),
        _ => None,
    }
}

/// The chunk that the bytes of a response hold; `None` where the bytes are not
/// JSON or the document stands for no chunk.
pub open spec fn decode_stream_bytes(bytes: Seq<u8>) -> Option<TtsStreamResponseView> {
    match json_parsed_bytes(bytes) {
        Some(j) => decode_stream_chunk(j),
        None => None,
    }
}

/// The view of an optional chunk.
pub open spec fn opt_chunk(o: Option<TtsStreamResponse>) -> Option<TtsStreamResponseView> {
    match o {
        Some(c) => Some(c@),
        None => None,
    }
}

impl TtsStreamResponse {
    /// Reads a chunk from its JSON form.
    pub fn from_json(v: &serde_json::Value) -> (r: Option<TtsStreamResponse>)
        ensures
            opt_chunk(r) == decode_stream_chunk(json_of(*v)),
    {
        let index = read_u32(v, "index");
        let data = read_string(v, "data");
        let duration_ms = read_optional_u32(v, "duration_ms");
        let is_final = read_bool(v, "is_final");
        match (index, data, duration_ms, is_final) {
            (Some(index), Some(data), Some(duration_ms), Some(is_final)) => Some(
                TtsStreamResponse { index, data, duration_ms, is_final },
            ),
            _ => None,
        }
    }

    /// Reads the chunk that the bytes of a streamed response hold. Bytes that
    /// are not JSON, or whose document stands for no chunk, give a JSON error.
    pub fn decode(bytes: &[u8]) -> (r: Result<TtsStreamResponse, Error>)
        ensures
            match r {
                Ok(c) => decode_stream_bytes(bytes@) == Some(c@),
                Err(e) => decode_stream_bytes(bytes@) is None && e@ is Json,
            },
    {
        match from_bytes(bytes) {
            Ok(v) => match TtsStreamResponse::from_json(&v) {
                Some(chunk) => Ok(chunk),
                None => Err(Error::Json(json_error("bytes hold no stream chunk"))),
            },
            Err(e) => Err(Error::Json(e)),
        }
    }
}

} // verus!
