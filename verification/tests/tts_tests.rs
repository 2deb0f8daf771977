//! Text-to-Speech models.

use hume::tts::models::{AudioFormat, Context, SampleRate, VoiceProvider, VoiceSpec};

#[test]
fn tts_tests_test_audio_format_serialization() {
    let mp3 = serde_json::to_string(&AudioFormat::Mp3.to_json()).unwrap();
    assert_eq!(mp3, r#"{"type":"mp3"}"#);

    let wav = serde_json::to_string(&AudioFormat::Wav.to_json()).unwrap();
    assert_eq!(wav, r#"{"type":"wav"}"#);

    let pcm = serde_json::to_string(&AudioFormat::Pcm.to_json()).unwrap();
    assert_eq!(pcm, r#"{"type":"pcm"}"#);
}

#[test]
fn test_context_creation() {
    let context = Context {
        text: "Previous conversation context".to_string(),
        voice: Some("context-voice".to_string()),
    };

    assert_eq!(context.text, "Previous conversation context");
    assert_eq!(context.voice, Some("context-voice".to_string()));
}

#[test]
fn tts_tests_test_sample_rate() {
    assert_eq!(SampleRate::HZ_8000.as_u32(), 8000);
    assert_eq!(SampleRate::HZ_16000.as_u32(), 16000);
    assert_eq!(SampleRate::HZ_22050.as_u32(), 22050);
    assert_eq!(SampleRate::HZ_24000.as_u32(), 24000);
    assert_eq!(SampleRate::HZ_44100.as_u32(), 44100);
    assert_eq!(SampleRate::HZ_48000.as_u32(), 48000);

    // Test custom sample rate
    let custom = SampleRate::custom(12000);
    assert_eq!(custom.as_u32(), 12000);
    let custom = SampleRate::custom(32000);
    assert_eq!(custom.as_u32(), 32000);

    // Test conversion to u32
    let rate: u32 = SampleRate::HZ_44100.into();
    assert_eq!(rate, 44100);

    // Test serialization
    let json = serde_json::to_string(&SampleRate::HZ_44100.to_json()).unwrap();
    assert_eq!(json, "44100");
}

#[test]
fn test_voice_spec_serialization() {
    let voice = VoiceSpec::Name { name: "Maya Angelou".to_string(), provider: None };
    let json = serde_json::to_string(&voice.to_json()).unwrap();
    assert_eq!(json, r#"{"name":"Maya Angelou"}"#);

    let voice =
        VoiceSpec::Id { id: "voice_123".to_string(), provider: Some(VoiceProvider::HumeAi) };
    let json = serde_json::to_string(&voice.to_json()).unwrap();
    assert!(json.contains(r#""id":"voice_123""#));
    assert!(json.contains(r#""provider":"HUME_AI""#));
}

#[test]
fn custom_rate_of_a_common_value_is_the_common_rate() {
    assert_eq!(SampleRate::custom(8000), SampleRate::HZ_8000);
    assert_eq!(SampleRate::custom(48000), SampleRate::HZ_48000);
    assert_eq!(SampleRate::custom(1), SampleRate::Custom(1));
    assert_eq!(SampleRate::default(), SampleRate::HZ_24000);
    assert_eq!(AudioFormat::default(), AudioFormat::Mp3);
}
