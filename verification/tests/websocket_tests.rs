//! The messages of a chat session and its lifecycle.

use hume::common::auth::Auth;
use hume::common::client::{HumeClient, HumeClientBuilder};
use hume::common::collections::StringMap;
use hume::common::error::{Error, WebSocketFailure};
use hume::evi::chat::{
    ChatClient, ChatSessionBuilder, ChatSocket, ClientMessage, ServerMessage, SessionState,
    TransportEvent,
};
use hume::evi::models::{
    AudioConfig, AudioEncoding, AudioFormat, BuiltinTool, Context, ContextType, SessionSettings,
};

fn to_string(message: &ClientMessage) -> String {
    serde_json::to_string(&message.to_json()).unwrap()
}

fn from_str(text: &str) -> Result<ServerMessage, Error> {
    ServerMessage::decode(text)
}

#[test]
fn test_client_message_serialization() {
    let session_settings = ClientMessage::SessionSettings {
        settings: SessionSettings {
            audio: None,
            system_prompt: Some("Test prompt".to_string()),
            context: None,
            variables: None,
            tools: None,
            builtin_tools: None,
        },
    };

    let json = to_string(&session_settings);
    assert!(json.contains(r#""type":"session_settings""#));
    assert!(json.contains(r#""system_prompt":"Test prompt""#));

    let audio_input = ClientMessage::AudioInput { data: "base64data".to_string() };

    let json = to_string(&audio_input);
    assert!(json.contains(r#""type":"audio_input""#));
    assert!(json.contains(r#""data":"base64data""#));

    let user_input = ClientMessage::UserInput { text: "Hello".to_string() };

    let json = to_string(&user_input);
    assert!(json.contains(r#""type":"user_input""#));
    assert!(json.contains(r#""text":"Hello""#));
}

#[test]
fn test_server_message_deserialization() {
    let session_started_json = r#"{
        "type": "session_started",
        "session_id": "session-123",
        "chat_id": "chat-456",
        "chat_group_id": "group-789",
        "config": {
            "id": "config-1",
            "name": "test-config",
            "version": 1
        }
    }"#;

    let message: ServerMessage = from_str(session_started_json).unwrap();
    match message {
        ServerMessage::SessionStarted { session_id, chat_id, .. } => {
            assert_eq!(session_id, "session-123");
            assert_eq!(chat_id, "chat-456");
        }
        _ => panic!("Expected SessionStarted message"),
    }

    let user_message_json = r#"{
        "type": "user_message",
        "message_id": "msg-123",
        "text": "Hello, assistant"
    }"#;

    let message: ServerMessage = from_str(user_message_json).unwrap();
    match message {
        ServerMessage::UserMessage { message_id, text } => {
            assert_eq!(message_id, "msg-123");
            assert_eq!(text, "Hello, assistant");
        }
        _ => panic!("Expected UserMessage"),
    }

    let error_json = r#"{
        "type": "error",
        "message": "Something went wrong",
        "code": "ERR_001"
    }"#;

    let message: ServerMessage = from_str(error_json).unwrap();
    match message {
        ServerMessage::Error { message, code, .. } => {
            assert_eq!(message, "Something went wrong");
            assert_eq!(code, "ERR_001");
        }
        _ => panic!("Expected Error message"),
    }
}

#[test]
fn test_client_message_variants() {
    // Test UserInput
    let msg = ClientMessage::UserInput { text: "Hello AI".to_string() };

    let json = to_string(&msg);
    assert!(json.contains(r#""type":"user_input""#));
    assert!(json.contains(r#""text":"Hello AI""#));

    // Test SessionSettings
    let settings =
        SessionSettings { system_prompt: Some("Be concise".to_string()), ..Default::default() };

    let msg = ClientMessage::SessionSettings { settings };
    let json = to_string(&msg);
    assert!(json.contains(r#""type":"session_settings""#));
    assert!(json.contains(r#""system_prompt":"Be concise""#));
}

#[test]
fn evi_tests_test_audio_encoding_serialization() {
    let with = |e| AudioConfig {
        input_encoding: Some(e),
        input_sample_rate: None,
        output_encoding: None,
        output_sample_rate: None,
        output_format: None,
    };
    let json = serde_json::to_string(&with(AudioEncoding::Linear16).to_json()).unwrap();
    assert_eq!(json, r#"{"input_encoding":"linear16"}"#);
    let json = serde_json::to_string(&with(AudioEncoding::Mulaw).to_json()).unwrap();
    assert_eq!(json, r#"{"input_encoding":"mulaw"}"#);
    assert_eq!(AudioEncoding::Linear16.as_str(), "linear16");
    assert_eq!(AudioEncoding::Mulaw.as_str(), "mulaw");
}

#[test]
fn evi_tests_test_audio_format_serialization() {
    assert_eq!(AudioFormat::Raw.as_str(), "raw");
    assert_eq!(AudioFormat::Wav.as_str(), "wav");
    assert_eq!(AudioFormat::Mp3.as_str(), "mp3");
}

#[test]
fn evi_tests_test_context_type_serialization() {
    let context =
        Context { context_type: ContextType::Persistent, text: "Remember this".to_string() };

    let json = serde_json::to_string(&context.to_json()).unwrap();
    assert!(json.contains(r#""type":"persistent""#));
    assert!(json.contains(r#""text":"Remember this""#));
    assert_eq!(ContextType::Persistent.as_str(), "persistent");
    assert_eq!(ContextType::Temporary.as_str(), "temporary");
}

#[test]
fn test_builtin_tool() {
    let config = serde_json::Value::Object(
        vec![("max_results".to_string(), serde_json::Value::from(5))].into_iter().collect(),
    );
    let tool = BuiltinTool { name: "web_search".to_string(), config: Some(config) };

    assert_eq!(tool.name, "web_search");
    assert!(tool.config.is_some());
    assert_eq!(
        serde_json::to_string(&tool.to_json()).unwrap(),
        r#"{"config":{"max_results":5},"name":"web_search"}"#
    );
}

fn full_settings() -> SessionSettings {
    let mut variables = StringMap::new();
    variables.insert("city".to_string(), "Paris".to_string());
    variables.insert("name".to_string(), "Ada".to_string());
    SessionSettings {
        audio: Some(AudioConfig {
            input_encoding: Some(AudioEncoding::Linear16),
            input_sample_rate: Some(16000),
            output_encoding: Some(AudioEncoding::Mulaw),
            output_sample_rate: Some(24000),
            output_format: Some(AudioFormat::Wav),
        }),
        system_prompt: Some("You are helpful".to_string()),
        context: Some(Context {
            context_type: ContextType::Temporary,
            text: "premium \"customer\"".to_string(),
        }),
        variables: Some(variables),
        tools: Some(vec!["tool-1".to_string(), "tool-2".to_string()]),
        builtin_tools: Some(vec![
            BuiltinTool { name: "web_search".to_string(), config: None },
            BuiltinTool {
                name: "hang_up".to_string(),
                config: Some(serde_json::from_str(r#"{"after":[1,2.5,"x",null,true]}"#).unwrap()),
            },
        ]),
    }
}

fn every_client_message() -> Vec<ClientMessage> {
    vec![
        ClientMessage::SessionSettings { settings: full_settings() },
        ClientMessage::SessionSettings { settings: SessionSettings::default() },
        ClientMessage::AudioInput { data: "AAEC".to_string() },
        ClientMessage::UserInput { text: "Hello".to_string() },
        ClientMessage::UserInput { text: String::new() },
        ClientMessage::AssistantInput { text: "line\nbreak \u{1F600}".to_string() },
        ClientMessage::ToolResponse {
            tool_call_id: "call-1".to_string(),
            content: "42".to_string(),
            tool_name: None,
        },
        ClientMessage::ToolResponse {
            tool_call_id: "call-1".to_string(),
            content: "42".to_string(),
            tool_name: Some("calc".to_string()),
        },
        ClientMessage::ToolError {
            tool_call_id: "call-2".to_string(),
            error: "boom".to_string(),
            code: Some("E1".to_string()),
            tool_name: None,
        },
        ClientMessage::ToolError {
            tool_call_id: "call-2".to_string(),
            error: "boom".to_string(),
            code: None,
            tool_name: Some("calc".to_string()),
        },
        ClientMessage::PauseAssistant {},
        ClientMessage::ResumeAssistant {},
    ]
}

#[test]
fn client_messages_survive_encode_then_decode() {
    for message in every_client_message() {
        let frame = message.encode();
        let back = ClientMessage::decode(&frame).expect("the frame decodes");
        // equal as documents, and equal field by field
        assert_eq!(back.to_json(), message.to_json());
        assert_eq!(format!("{:?}", back), format!("{:?}", message));
    }
}

#[test]
fn client_message_frames_are_exact() {
    assert_eq!(
        ClientMessage::UserInput { text: "Hello".to_string() }.encode(),
        r#"{"text":"Hello","type":"user_input"}"#
    );
    assert_eq!(ClientMessage::PauseAssistant {}.encode(), r#"{"type":"pause_assistant"}"#);
    assert_eq!(ClientMessage::ResumeAssistant {}.encode(), r#"{"type":"resume_assistant"}"#);
    assert_eq!(
        ClientMessage::ToolError {
            tool_call_id: "c".to_string(),
            error: "e".to_string(),
            code: Some("x".to_string()),
            tool_name: Some("t".to_string()),
        }
        .encode(),
        r#"{"code":"x","error":"e","tool_call_id":"c","tool_name":"t","type":"tool_error"}"#
    );
    assert_eq!(
        ClientMessage::SessionSettings { settings: full_settings() }.encode(),
        [
            r#"{"settings":{"audio":{"input_encoding":"linear16","input_sample_rate":16000,"#,
            r#""output_encoding":"mulaw","output_format":"wav","output_sample_rate":24000},"#,
            r#""builtin_tools":[{"name":"web_search"},{"config":{"after":[1,2.5,"x",null,true]},"name":"hang_up"}],"#,
            r#""context":{"text":"premium \"customer\"","type":"temporary"},"#,
            r#""system_prompt":"You are helpful","tools":["tool-1","tool-2"],"#,
            r#""variables":{"city":"Paris","name":"Ada"}},"type":"session_settings"}"#,
        ]
        .concat()
    );
}

#[test]
fn a_null_tool_config_reads_back_as_none() {
    let message = ClientMessage::SessionSettings {
        settings: SessionSettings {
            builtin_tools: Some(vec![BuiltinTool {
                name: "t".to_string(),
                config: Some(serde_json::Value::Null),
            }]),
            ..Default::default()
        },
    };
    let document: serde_json::Value = serde_json::from_str(&message.encode()).unwrap();
    match ClientMessage::from_json(&document) {
        Some(ClientMessage::SessionSettings { settings }) => {
            assert!(settings.builtin_tools.unwrap()[0].config.is_none());
        }
        _ => panic!("expected session settings"),
    }
}

#[test]
fn malformed_client_documents_are_refused() {
    assert!(matches!(ClientMessage::decode("{"), Err(Error::Json(_))));
    assert!(matches!(ClientMessage::decode("[]"), Err(Error::Json(_))));
    for text in [
        r#"[]"#,
        r#"{}"#,
        r#"{"type":7}"#,
        r#"{"type":"nonsense"}"#,
        r#"{"type":"user_input"}"#,
        r#"{"type":"user_input","text":null}"#,
        r#"{"type":"tool_response","tool_call_id":"a","content":"b","tool_name":3}"#,
        r#"{"type":"session_settings"}"#,
        r#"{"type":"session_settings","settings":[]}"#,
        r#"{"type":"session_settings","settings":{"audio":{"input_encoding":"flac"}}}"#,
        r#"{"type":"session_settings","settings":{"audio":{"input_sample_rate":-1}}}"#,
        r#"{"type":"session_settings","settings":{"audio":{"input_sample_rate":4294967296}}}"#,
        r#"{"type":"session_settings","settings":{"context":{"type":"persistent"}}}"#,
        r#"{"type":"session_settings","settings":{"variables":{"a":1}}}"#,
        r#"{"type":"session_settings","settings":{"tools":["a",2]}}"#,
        r#"{"type":"session_settings","settings":{"builtin_tools":[{"config":{}}]}}"#,
    ] {
        let document: serde_json::Value = serde_json::from_str(text).unwrap();
        assert!(ClientMessage::from_json(&document).is_none(), "{}", text);
    }
    let lenient = r#"{"type":"session_settings","settings":{"audio":null,"tools":[],"variables":{},"extra":1}}"#;
    let document: serde_json::Value = serde_json::from_str(lenient).unwrap();
    match ClientMessage::from_json(&document) {
        Some(ClientMessage::SessionSettings { settings }) => {
            assert!(settings.audio.is_none());
            assert_eq!(settings.tools, Some(vec![]));
            assert!(settings.variables.unwrap().is_empty());
        }
        _ => panic!("expected session settings"),
    }
}

#[test]
fn unknown_server_tags_decode_to_unknown() {
    for text in [
        r#"{"type":"brand_new_message","payload":{"x":1}}"#,
        r#"{"type":""}"#,
        r#"{"type":"SESSION_STARTED"}"#,
        r#"{"type":"user_input","text":"a client message"}"#,
    ] {
        assert!(matches!(from_str(text), Ok(ServerMessage::Unknown)), "{}", text);
    }
}

#[test]
fn every_server_message_kind_decodes() {
    match from_str(r#"{"type":"assistant_message","message_id":"m","text":"hi","is_final":true}"#) {
        Ok(ServerMessage::AssistantMessage { message_id, text, is_final }) => {
            assert_eq!((message_id.as_str(), text.as_str(), is_final), ("m", "hi", true));
        }
        _ => panic!("expected an assistant message"),
    }
    match from_str(r#"{"type":"audio_output","message_id":"m","data":"AAEC","index":4294967295}"#) {
        Ok(ServerMessage::AudioOutput { data, index, .. }) => {
            assert_eq!(data, "AAEC");
            assert_eq!(index, u32::MAX);
        }
        _ => panic!("expected audio output"),
    }
    match from_str(r#"{"type":"tool_call","tool_call_id":"c","name":"calc","parameters":{"a":[1,2]}}"#) {
        Ok(ServerMessage::ToolCall { tool_call_id, name, parameters }) => {
            assert_eq!((tool_call_id.as_str(), name.as_str()), ("c", "calc"));
            assert_eq!(parameters.to_string(), r#"{"a":[1,2]}"#);
        }
        _ => panic!("expected a tool call"),
    }
    match from_str(r#"{"type":"tool_call","tool_call_id":"c","name":"calc","parameters":null}"#) {
        Ok(ServerMessage::ToolCall { parameters, .. }) => assert!(parameters.is_null()),
        _ => panic!("expected a tool call"),
    }
    match from_str(r#"{"type":"tool_response","tool_call_id":"c","content":"42"}"#) {
        Ok(ServerMessage::ToolResponse { tool_call_id, content }) => {
            assert_eq!((tool_call_id.as_str(), content.as_str()), ("c", "42"));
        }
        _ => panic!("expected a tool response"),
    }
    match from_str(r#"{"type":"tool_error","tool_call_id":"c","error":"boom","code":null}"#) {
        Ok(ServerMessage::ToolError { error, code, .. }) => {
            assert_eq!(error, "boom");
            assert_eq!(code, None);
        }
        _ => panic!("expected a tool error"),
    }
    match from_str(r#"{"type":"emotion_inference","inference":{"emotions":{"joy":0.5}}}"#) {
        Ok(ServerMessage::EmotionInference { inference }) => {
            assert_eq!(inference.to_string(), r#"{"emotions":{"joy":0.5}}"#);
        }
        _ => panic!("expected an emotion inference"),
    }
    match from_str(r#"{"type":"error","message":"m","code":"c","details":{"k":1}}"#) {
        Ok(ServerMessage::Error { details, .. }) => {
            assert_eq!(details.unwrap().to_string(), r#"{"k":1}"#);
        }
        _ => panic!("expected an error"),
    }
    match from_str(r#"{"type":"warning","message":"careful","code":"W1"}"#) {
        Ok(ServerMessage::Warning { message, code }) => {
            assert_eq!(message, "careful");
            assert_eq!(code, Some("W1".to_string()));
        }
        _ => panic!("expected a warning"),
    }
    match from_str(r#"{"type":"session_ended","reason":"timeout","info":null}"#) {
        Ok(ServerMessage::SessionEnded { reason, info }) => {
            assert_eq!(reason, "timeout");
            assert!(info.is_none());
        }
        _ => panic!("expected the end of the session"),
    }
}

#[test]
fn malformed_frames_give_a_json_error() {
    for text in [
        "",
        "not json",
        "[]",
        "5",
        "{}",
        r#"{"type":5}"#,
        r#"{"type":"user_message","message_id":"m"}"#,
        r#"{"type":"assistant_message","message_id":"m","text":"t","is_final":"yes"}"#,
        r#"{"type":"audio_output","message_id":"m","data":"d","index":-1}"#,
        r#"{"type":"audio_output","message_id":"m","data":"d","index":4294967296}"#,
        r#"{"type":"audio_output","message_id":"m","data":"d","index":1.5}"#,
        r#"{"type":"session_started","session_id":"s","chat_id":"c","chat_group_id":"g"}"#,
        r#"{"type":"tool_call","tool_call_id":"c","name":"n"}"#,
        r#"{"type":"error","message":"m"}"#,
        r#"{"type":"warning","message":"m","code":1}"#,
        r#"{"type":"session_ended"}"#,
        r#"{"type":"emotion_inference"}"#,
    ] {
        assert!(matches!(from_str(text), Err(Error::Json(_))), "{}", text);
    }
}

fn text(frame: &str) -> TransportEvent {
    TransportEvent::Text(frame.to_string())
}

#[test]
fn session_reassembles_an_utterance_from_its_chunks() {
    let mut socket = ChatSocket::new();
    assert_eq!(socket.state(), SessionState::Open);
    assert!(socket.session_id().is_none());
    assert!(socket.chat_id().is_none());

    let started = socket
        .receive(text(
            r#"{"type":"session_started","session_id":"s-1","chat_id":"c-1","chat_group_id":"g-1","config":{"id":"x","name":"n","version":1}}"#,
        ))
        .unwrap();
    assert!(matches!(started, Some(ServerMessage::SessionStarted { .. })));
    assert_eq!(socket.session_id(), Some(&"s-1".to_string()));
    assert_eq!(socket.chat_id(), Some(&"c-1".to_string()));

    let frames = [
        r#"{"type":"assistant_message","message_id":"m","text":"Hello, ","is_final":false}"#,
        r#"{"type":"assistant_message","message_id":"m","text":"how are ","is_final":false}"#,
        r#"{"type":"assistant_message","message_id":"m","text":"you?","is_final":true}"#,
    ];
    let mut utterance = String::new();
    let mut finals = Vec::new();
    for frame in frames {
        match socket.receive(text(frame)).unwrap() {
            Some(ServerMessage::AssistantMessage { text, is_final, .. }) => {
                utterance.push_str(&text);
                finals.push(is_final);
            }
            _ => panic!("expected an assistant message"),
        }
    }
    assert_eq!(utterance, "Hello, how are you?");
    assert_eq!(finals, vec![false, false, true]);
    assert_eq!(socket.state(), SessionState::Open);
}

#[test]
fn send_after_close_is_already_closed() {
    let mut socket = ChatSocket::new();
    assert_eq!(
        socket.send_text("Hello".to_string()).unwrap(),
        r#"{"text":"Hello","type":"user_input"}"#
    );
    socket.close().unwrap();
    assert_eq!(socket.state(), SessionState::Closing);
    let sends: Vec<Result<String, Error>> = vec![
        socket.send_text("again".to_string()),
        socket.send_audio(vec![0, 1, 2]),
        socket.send_assistant_input("x".to_string()),
        socket.send_session_settings(SessionSettings::default()),
        socket.send_tool_response("c".to_string(), "r".to_string(), None),
        socket.send_tool_error("c".to_string(), "e".to_string(), None, None),
        socket.pause_assistant(),
        socket.resume_assistant(),
        socket.send_message(&ClientMessage::PauseAssistant {}),
    ];
    for sent in sends {
        assert!(matches!(sent, Err(Error::WebSocket(WebSocketFailure::AlreadyClosed))));
    }
    assert_eq!(socket.state(), SessionState::Closing);
    // a second close is an error, not a silent no-op
    assert!(matches!(socket.close(), Err(Error::WebSocket(WebSocketFailure::AlreadyClosed))));
    assert!(!socket.close_if_open());
    // the other side's acknowledgement ends the session
    assert!(matches!(socket.receive(TransportEvent::Close), Ok(None)));
    assert_eq!(socket.state(), SessionState::Closed);
    assert!(matches!(
        socket.receive(text(r#"{"type":"warning","message":"late"}"#)),
        Err(Error::WebSocket(WebSocketFailure::AlreadyClosed))
    ));
    assert_eq!(socket.state(), SessionState::Closed);
}

#[test]
fn every_send_gives_its_frame_on_an_open_session() {
    let mut socket = ChatSocket::new();
    assert_eq!(
        socket.send_audio(vec![0, 1, 2]).unwrap(),
        r#"{"data":"AAEC","type":"audio_input"}"#
    );
    assert_eq!(socket.send_audio(vec![]).unwrap(), r#"{"data":"","type":"audio_input"}"#);
    assert_eq!(
        socket.send_audio(b"hello world~".to_vec()).unwrap(),
        r#"{"data":"aGVsbG8gd29ybGR+","type":"audio_input"}"#
    );
    assert_eq!(
        socket.send_assistant_input("Hi".to_string()).unwrap(),
        r#"{"text":"Hi","type":"assistant_input"}"#
    );
    assert_eq!(
        socket.send_session_settings(SessionSettings::default()).unwrap(),
        r#"{"settings":{},"type":"session_settings"}"#
    );
    assert_eq!(
        socket.send_tool_response("c".to_string(), "r".to_string(), Some("t".to_string())).unwrap(),
        r#"{"content":"r","tool_call_id":"c","tool_name":"t","type":"tool_response"}"#
    );
    assert_eq!(
        socket.send_tool_error("c".to_string(), "e".to_string(), None, None).unwrap(),
        r#"{"error":"e","tool_call_id":"c","type":"tool_error"}"#
    );
    assert_eq!(socket.pause_assistant().unwrap(), r#"{"type":"pause_assistant"}"#);
    assert_eq!(socket.resume_assistant().unwrap(), r#"{"type":"resume_assistant"}"#);
    assert_eq!(socket.state(), SessionState::Open);
}

#[test]
fn one_bad_frame_does_not_end_the_session() {
    let mut socket = ChatSocket::new();
    assert!(matches!(socket.receive(text("{ not json")), Err(Error::Json(_))));
    assert_eq!(socket.state(), SessionState::Open);
    assert!(matches!(
        socket.receive(text(r#"{"type":"user_message","message_id":"m","text":"t"}"#)),
        Ok(Some(ServerMessage::UserMessage { .. }))
    ));
    assert!(matches!(socket.receive(TransportEvent::Other), Ok(Some(ServerMessage::Unknown))));
    assert_eq!(socket.state(), SessionState::Open);
}

#[test]
fn session_lifecycle() {
    let mut socket = ChatSocket::connecting();
    assert_eq!(socket.state(), SessionState::Connecting);
    assert!(matches!(
        socket.send_text("early".to_string()),
        Err(Error::WebSocket(WebSocketFailure::AlreadyClosed))
    ));
    socket.handshake_done(true);
    assert_eq!(socket.state(), SessionState::Open);
    socket.handshake_done(false);
    assert_eq!(socket.state(), SessionState::Open);
    assert!(matches!(socket.receive(TransportEvent::End), Ok(None)));
    assert_eq!(socket.state(), SessionState::Closed);
    socket.handshake_done(true);
    assert!(socket.close().is_err());
    assert_eq!(socket.state(), SessionState::Closed);

    let mut failed = ChatSocket::connecting();
    failed.handshake_done(false);
    assert_eq!(failed.state(), SessionState::Failed);
    assert!(failed.receive(TransportEvent::Close).is_err());
    assert_eq!(failed.state(), SessionState::Failed);

    let mut broken = ChatSocket::new();
    match broken.receive(TransportEvent::Failure(WebSocketFailure::Io("reset".to_string()))) {
        Err(Error::WebSocket(WebSocketFailure::Io(m))) => assert_eq!(m, "reset"),
        _ => panic!("expected the failure"),
    }
    assert_eq!(broken.state(), SessionState::Failed);

    let mut closed_by_server = ChatSocket::new();
    assert!(matches!(closed_by_server.receive(TransportEvent::Close), Ok(None)));
    assert_eq!(closed_by_server.state(), SessionState::Closed);

    let mut idempotent = ChatSocket::new();
    assert!(idempotent.close_if_open());
    assert!(!idempotent.close_if_open());
    assert_eq!(idempotent.state(), SessionState::Closing);
}

fn chat_client(base_url: &str) -> ChatClient {
    let client = HumeClientBuilder::new("secret").base_url(base_url).build().unwrap();
    ChatClient::new(&client)
}

#[test]
fn handshake_url_has_auth_and_selectors() {
    let client = chat_client("https://api.hume.ai");
    let handshake = client.connect(None, None, None).unwrap();
    assert_eq!(handshake.url, "wss://api.hume.ai/v0/evi/chat?api_key=secret");
    assert_eq!(handshake.first_frame, None);
    assert_eq!(handshake.socket.state(), SessionState::Connecting);
    assert_eq!(
        client
            .connect(Some("cfg".to_string()), Some(3), Some("grp".to_string()))
            .unwrap()
            .url,
        "wss://api.hume.ai/v0/evi/chat?api_key=secret&config_id=cfg&config_version=3&resumed_chat_group_id=grp"
    );
    assert_eq!(
        chat_client("http://localhost:8080").connect(None, Some(0), None).unwrap().url,
        "http://localhost:8080/v0/evi/chat?api_key=secret&config_version=0"
    );
    assert_eq!(
        chat_client("https://https://x").connect(None, None, None).unwrap().url,
        "wss://wss://x/v0/evi/chat?api_key=secret"
    );

    let with_token = HumeClient::builder().with_access_token("tok").build().unwrap();
    assert!(matches!(with_token.auth(), Some(Auth::AccessToken(_))));
    assert_eq!(
        ChatClient::new(&with_token).connect(None, None, None).unwrap().url,
        "wss://api.hume.ai/v0/evi/chat?access_token=tok"
    );

    let mut anonymous = HumeClient::new("k").unwrap();
    anonymous.http.auth = None;
    match ChatClient::new(&anonymous).connect(None, None, None) {
        Err(Error::Auth(m)) => assert_eq!(m, "No authentication configured"),
        _ => panic!("expected an authentication error"),
    }
}

#[test]
fn settings_given_at_build_time_go_out_first() {
    let client = chat_client("https://api.hume.ai");
    let handshake = ChatSessionBuilder::new()
        .config_id("cfg")
        .config_version(2)
        .resume_chat_group("grp")
        .session_settings(SessionSettings {
            system_prompt: Some("Be brief".to_string()),
            ..Default::default()
        })
        .connect(&client)
        .unwrap();
    assert_eq!(
        handshake.url,
        "wss://api.hume.ai/v0/evi/chat?api_key=secret&config_id=cfg&config_version=2&resumed_chat_group_id=grp"
    );
    assert_eq!(
        handshake.first_frame,
        Some(r#"{"settings":{"system_prompt":"Be brief"},"type":"session_settings"}"#.to_string())
    );

    let mut plain = ChatSessionBuilder::default().connect(&client).unwrap();
    assert_eq!(plain.url, "wss://api.hume.ai/v0/evi/chat?api_key=secret");
    assert_eq!(plain.first_frame, None);
    assert_eq!(plain.socket.state(), SessionState::Connecting);
    plain.socket.handshake_done(true);
    assert_eq!(plain.socket.state(), SessionState::Open);
}
