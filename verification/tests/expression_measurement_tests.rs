//! Expression Measurement: models, batch jobs and the streaming session.

use hume::common::client::{HumeClient, HumeClientBuilder};
use hume::common::error::{Error, WebSocketFailure};
use hume::evi::chat::{SessionState, TransportEvent};
use hume::expression_measurement::batch::{
    poll_step, sources_from_files, sources_from_texts, sources_from_urls, PollStep,
};
use hume::expression_measurement::models::{
    BurstModel, FileInput, JobStatus, LanguageModel, NerModel, SentimentConfig, Source,
    StateInference, ToxicityConfig,
};
use hume::expression_measurement::stream::{StreamClient, StreamData, StreamMessage, StreamSocket};
use std::time::Duration;

#[test]
fn test_source_variants() {
    let file_source = Source::File {
        file: FileInput {
            content_type: Some("image/jpeg".to_string()),
            filename: "test.jpg".to_string(),
            data: "base64data".to_string(),
            md5: Some("hash".to_string()),
        },
    };

    let url_source = Source::Url { url: "https://example.com/video.mp4".to_string() };

    let text_source = Source::Text { text: "Analyze this text".to_string() };

    // Serialize to test tag behavior
    let file_json = serde_json::to_string(&file_source.to_json()).unwrap();
    assert!(file_json.contains(r#""type":"file""#));

    let url_json = serde_json::to_string(&url_source.to_json()).unwrap();
    assert!(url_json.contains(r#""type":"url""#));

    let text_json = serde_json::to_string(&text_source.to_json()).unwrap();
    assert!(text_json.contains(r#""type":"text""#));

    assert_eq!(
        file_json,
        r#"{"content_type":"image/jpeg","data":"base64data","filename":"test.jpg","md5":"hash","type":"file"}"#
    );
    let bare = Source::File {
        file: FileInput {
            content_type: None,
            filename: "a".to_string(),
            data: "b".to_string(),
            md5: None,
        },
    };
    assert_eq!(
        serde_json::to_string(&bare.to_json()).unwrap(),
        r#"{"content_type":null,"data":"b","filename":"a","md5":null,"type":"file"}"#
    );
}

#[test]
fn expression_measurement_tests_test_job_status_serialization() {
    assert_eq!(serde_json::to_string(&JobStatus::Queued.to_json()).unwrap(), r#""QUEUED""#);
    assert_eq!(serde_json::to_string(&JobStatus::InProgress.to_json()).unwrap(), r#""IN_PROGRESS""#);
    assert_eq!(serde_json::to_string(&JobStatus::Completed.to_json()).unwrap(), r#""COMPLETED""#);
    assert_eq!(serde_json::to_string(&JobStatus::Failed.to_json()).unwrap(), r#""FAILED""#);
}

#[test]
fn test_stream_message_serialization() {
    let text_data = StreamData::Text { text: "Analyze this".to_string() };

    let json = serde_json::to_string(&text_data.to_json()).unwrap();
    assert!(json.contains(r#""type":"text""#));
    assert!(json.contains(r#""text":"Analyze this""#));

    let audio_data = StreamData::Audio { data: "base64audio".to_string() };

    let json = serde_json::to_string(&audio_data.to_json()).unwrap();
    assert!(json.contains(r#""type":"audio""#));

    let job_details_json = r#"{
        "type": "job_details",
        "job_id": "stream-job-123"
    }"#;

    let message: StreamMessage = StreamMessage::decode(job_details_json).unwrap();
    match message {
        StreamMessage::JobDetails { job_id } => {
            assert_eq!(job_id, "stream-job-123");
        }
        _ => panic!("Expected JobDetails message"),
    }
}

#[test]
fn plain_model_configurations() {
    let language = LanguageModel {
        sentiment: Some(SentimentConfig {}),
        toxicity: Some(ToxicityConfig {}),
        granularity: Some("word".to_string()),
    };
    assert!(language.sentiment.is_some());
    assert!(language.toxicity.is_some());
    assert_eq!(language.granularity, Some("word".to_string()));
    let default = LanguageModel::default();
    assert!(default.sentiment.is_none() && default.toxicity.is_none());
    assert!(default.granularity.is_none());
    let _ = (BurstModel {}, NerModel {});
}

#[test]
fn stream_messages_of_every_kind() {
    match StreamMessage::decode(r#"{"type":"predictions","predictions":{"face":null}}"#) {
        Ok(StreamMessage::Predictions { predictions }) => {
            assert_eq!(predictions.to_string(), r#"{"face":null}"#);
        }
        _ => panic!("expected predictions"),
    }
    match StreamMessage::decode(r#"{"type":"error","message":"m","code":"c"}"#) {
        Ok(StreamMessage::Error { message, code }) => {
            assert_eq!(message, "m");
            assert_eq!(code, Some("c".to_string()));
        }
        _ => panic!("expected an error"),
    }
    match StreamMessage::decode(r#"{"type":"error","message":"m"}"#) {
        Ok(StreamMessage::Error { code, .. }) => assert_eq!(code, None),
        _ => panic!("expected an error"),
    }
    match StreamMessage::decode(r#"{"type":"warning","message":"w"}"#) {
        Ok(StreamMessage::Warning { message }) => assert_eq!(message, "w"),
        _ => panic!("expected a warning"),
    }
    assert!(matches!(StreamMessage::decode(r#"{"type":"new_kind"}"#), Ok(StreamMessage::Unknown)));
    for text in [
        "",
        "[1]",
        r#"{"job_id":"j"}"#,
        r#"{"type":"job_details"}"#,
        r#"{"type":"predictions"}"#,
        r#"{"type":"warning","message":1}"#,
        r#"{"type":"error","message":"m","code":1}"#,
    ] {
        assert!(matches!(StreamMessage::decode(text), Err(Error::Json(_))), "{}", text);
    }
}

#[test]
fn stream_session_frames_and_lifecycle() {
    let models: serde_json::Value = serde_json::from_str(r#"{"language":{}}"#).unwrap();
    let mut socket = StreamSocket::new(models);
    assert_eq!(socket.state(), SessionState::Open);
    assert_eq!(socket.send_config().unwrap(), r#"{"models":{"language":{}}}"#);
    assert_eq!(
        socket.send_text("Analyze this".to_string()).unwrap(),
        r#"{"text":"Analyze this","type":"text"}"#
    );
    assert_eq!(socket.send_audio(vec![1, 2, 3, 4]).unwrap(), r#"{"data":"AQIDBA==","type":"audio"}"#);
    assert_eq!(
        socket.send_video_frame(vec![255]).unwrap(),
        r#"{"data":"/w==","type":"video_frame"}"#
    );
    assert_eq!(
        socket.send_data(StreamData::VideoFrame { data: "x".to_string() }).unwrap(),
        r#"{"data":"x","type":"video_frame"}"#
    );
    assert!(matches!(
        socket.receive(TransportEvent::Text(r#"{"type":"job_details","job_id":"j"}"#.to_string())),
        Ok(Some(StreamMessage::JobDetails { .. }))
    ));
    assert!(matches!(socket.receive(TransportEvent::Text("oops".to_string())), Err(Error::Json(_))));
    assert_eq!(socket.state(), SessionState::Open);
    assert!(matches!(socket.receive(TransportEvent::Other), Ok(Some(StreamMessage::Unknown))));
    socket.close().unwrap();
    assert_eq!(socket.state(), SessionState::Closing);
    assert!(matches!(socket.close(), Err(Error::WebSocket(WebSocketFailure::AlreadyClosed))));
    for sent in [
        socket.send_config(),
        socket.send_text("late".to_string()),
        socket.send_audio(vec![1]),
        socket.send_video_frame(vec![1]),
    ] {
        assert!(matches!(sent, Err(Error::WebSocket(WebSocketFailure::AlreadyClosed))));
    }
    assert!(matches!(socket.receive(TransportEvent::End), Ok(None)));
    assert_eq!(socket.state(), SessionState::Closed);
    assert!(socket.receive(TransportEvent::Close).is_err());

    let mut broken = StreamSocket::new(serde_json::Value::Null);
    assert!(matches!(
        broken.receive(TransportEvent::Failure(WebSocketFailure::ConnectionClosed)),
        Err(Error::WebSocket(WebSocketFailure::ConnectionClosed))
    ));
    assert_eq!(broken.state(), SessionState::Failed);
}

#[test]
fn stream_url_has_the_credential() {
    let client = HumeClientBuilder::new("secret").build().unwrap();
    let models: serde_json::Value = serde_json::from_str(r#"{"prosody":{}}"#).unwrap();
    let mut handshake = StreamClient::new(&client).connect(models).unwrap();
    assert_eq!(handshake.url, "wss://api.hume.ai/v0/stream/models?api_key=secret");
    assert_eq!(handshake.socket.state(), SessionState::Connecting);
    assert!(matches!(
        handshake.socket.send_config(),
        Err(Error::WebSocket(WebSocketFailure::AlreadyClosed))
    ));
    handshake.socket.handshake_done(true);
    assert_eq!(handshake.socket.state(), SessionState::Open);
    assert_eq!(handshake.socket.send_config().unwrap(), r#"{"models":{"prosody":{}}}"#);
    let mut refused = StreamSocket::connecting(serde_json::Value::Null);
    refused.handshake_done(false);
    assert_eq!(refused.state(), SessionState::Failed);
    let mut anonymous = HumeClient::new("k").unwrap();
    anonymous.http.auth = None;
    match StreamClient::new(&anonymous).connect(serde_json::Value::Null) {
        Err(Error::Auth(m)) => assert_eq!(m, "No authentication configured"),
        _ => panic!("expected an authentication error"),
    }
}

#[test]
fn waiting_for_a_job() {
    let queued = StateInference::Queued { created_timestamp_ms: 1 };
    let running = StateInference::InProgress { created_timestamp_ms: 1, started_timestamp_ms: 2 };
    let completed = StateInference::Completed {
        created_timestamp_ms: 1,
        started_timestamp_ms: 2,
        ended_timestamp_ms: 3,
    };
    let failed = StateInference::Failed {
        created_timestamp_ms: 1,
        started_timestamp_ms: None,
        ended_timestamp_ms: 3,
        message: "boom".to_string(),
    };
    assert_eq!(queued.status(), JobStatus::Queued);
    assert_eq!(running.status(), JobStatus::InProgress);
    assert_eq!(completed.status(), JobStatus::Completed);
    assert_eq!(failed.status(), JobStatus::Failed);

    let second = Duration::from_secs(1);
    let limit = Some(Duration::from_secs(10));
    assert!(matches!(poll_step(&completed, Duration::from_secs(99), second, limit), PollStep::Done));
    assert!(matches!(poll_step(&failed, Duration::from_secs(0), second, None), PollStep::Done));
    match poll_step(&queued, Duration::from_secs(10), second, limit) {
        PollStep::Wait(d) => assert_eq!(d, second),
        _ => panic!("expected another look"),
    }
    assert!(matches!(
        poll_step(&running, Duration::new(10, 1), second, limit),
        PollStep::TimedOut
    ));
    assert!(matches!(
        poll_step(&running, Duration::from_secs(1_000_000), second, None),
        PollStep::Wait(_)
    ));
}

#[test]
fn sources_keep_their_order() {
    let file = |name: &str| FileInput {
        content_type: None,
        filename: name.to_string(),
        data: String::new(),
        md5: None,
    };
    let sources = sources_from_files(vec![file("a"), file("b"), file("c")]);
    let names: Vec<String> = sources
        .iter()
        .map(|s| match s {
            Source::File { file } => file.filename.clone(),
            _ => panic!("expected a file"),
        })
        .collect();
    assert_eq!(names, vec!["a", "b", "c"]);
    assert!(sources_from_files(vec![]).is_empty());

    let sources = sources_from_urls(vec!["u1".to_string(), "u2".to_string()]);
    assert!(matches!(&sources[0], Source::Url { url } if url == "u1"));
    assert!(matches!(&sources[1], Source::Url { url } if url == "u2"));

    let sources = sources_from_texts(vec!["t1".to_string(), "t2".to_string()]);
    assert!(matches!(&sources[0], Source::Text { text } if text == "t1"));
    assert!(matches!(&sources[1], Source::Text { text } if text == "t2"));
}
