//! The chat session of the Empathic Voice Interface: the messages that travel
//! in both directions, their JSON form, and the lifecycle of a session.

use vstd::prelude::*;
use crate::common::error::{Error, ErrorView};
use crate::common::json::{
    from_text, insert_string, json_error, json_of, json_parsed, json_rendered, member_of,
    object_insert, opt_json, optional_string, optional_value, read_bool, read_optional_string,
    read_optional_value, read_string, read_u32, read_value, required_bool, required_string,
    required_u32, to_text, value_member, value_object, value_string, with_string, Json,
};
use crate::common::text::{opt_str, str_eq};
use crate::evi::codec::{
    decode_settings, encode_settings, lemma_settings_round_trip, settings_configs_not_null,
};
use crate::evi::models::{SessionSettings, SessionSettingsView};

verus! {

/// Messages sent from client to server
#[derive(Debug, Clone)]
pub enum ClientMessage {
    /// Session settings
    SessionSettings {
        /// Settings for the session
        settings: SessionSettings,
    },
    /// Audio input
    AudioInput {
        /// Base64 encoded audio data
        data: String,
    },
    /// User text input
    UserInput {
        /// Text from the user
        text: String,
    },
    /// Assistant input
    AssistantInput {
        /// Text to inject as assistant
        text: String,
    },
    /// Tool response
    ToolResponse {
        /// Tool call ID
        tool_call_id: String,
        /// Response content
        content: String,
        /// Tool name
        tool_name: Option<String>,
    },
    /// Tool error
    ToolError {
        /// Tool call ID
        tool_call_id: String,
        /// Error message
        error: String,
        /// Error code
        code: Option<String>,
        /// Tool name
        tool_name: Option<String>,
    },
    /// Pause assistant
    PauseAssistant {  },
    /// Resume assistant
    ResumeAssistant {  },
}

/// The mathematical value of a [`ClientMessage`].
pub ghost enum ClientMessageView {
    SessionSettings { settings: SessionSettingsView },
    AudioInput { data: Seq<char> },
    UserInput { text: Seq<char> },
    AssistantInput { text: Seq<char> },
    ToolResponse { tool_call_id: Seq<char>, content: Seq<char>, tool_name: Option<Seq<char>> },
    ToolError {
        tool_call_id: Seq<char>,
        error: Seq<char>,
        code: Option<Seq<char>>,
        tool_name: Option<Seq<char>>,
    },
    PauseAssistant,
    ResumeAssistant,
}

impl View for ClientMessage {
    type V = ClientMessageView;

    open spec fn view(&self) -> ClientMessageView {
        match self {
            ClientMessage::SessionSettings { settings } => ClientMessageView::SessionSettings {
                settings: settings@,
            },
            ClientMessage::AudioInput { data } => ClientMessageView::AudioInput { data: data@ },
            ClientMessage::UserInput { text } => ClientMessageView::UserInput { text: text@ },
            ClientMessage::AssistantInput { text } => ClientMessageView::AssistantInput {
                text: text@,
            },
            ClientMessage::ToolResponse {
                tool_call_id,
                content,
                tool_name,
            } => ClientMessageView::ToolResponse {
                tool_call_id: tool_call_id@,
                content: content@,
                tool_name: opt_str(*tool_name),
            },
            ClientMessage::ToolError {
                tool_call_id,
                error,
                code,
                tool_name,
            } => ClientMessageView::ToolError {
                tool_call_id: tool_call_id@,
                error: error@,
                code: opt_str(*code),
                tool_name: opt_str(*tool_name),
            },
            ClientMessage::PauseAssistant {  } => ClientMessageView::PauseAssistant,
            ClientMessage::ResumeAssistant {  } => ClientMessageView::ResumeAssistant,
        }
    }
}

/// The members of a message of kind `tag` that has no others.
pub open spec fn tagged(tag: Seq<char>) -> Map<Seq<char>, Json> {
    Map::<Seq<char>, Json>::empty().insert("type"@, Json::String(tag))
}

/// The JSON form of a client message: an object whose `type` names the kind
/// of the message, with a member for each field that is present.
pub open spec fn encode_client(m: ClientMessageView) -> Json {
    match m {
        ClientMessageView::SessionSettings { settings } => Json::Object(
            tagged("session_settings"@).insert("settings"@, encode_settings(settings)),
        ),
        ClientMessageView::AudioInput { data } => Json::Object(
            tagged("audio_input"@).insert("data"@, Json::String(data)),
        ),
        ClientMessageView::UserInput { text } => Json::Object(
            tagged("user_input"@).insert("text"@, Json::String(text)),
        ),
        ClientMessageView::AssistantInput { text } => Json::Object(
            tagged("assistant_input"@).insert("text"@, Json::String(text)),
        ),
        ClientMessageView::ToolResponse { tool_call_id, content, tool_name } => Json::Object(
            with_string(
                tagged("tool_response"@).insert("tool_call_id"@, Json::String(tool_call_id)).insert(
                    "content"@,
                    Json::String(content),
                ),
                "tool_name"@,
                tool_name,
            ),
        ),
        ClientMessageView::ToolError { tool_call_id, error, code, tool_name } => Json::Object(
            with_string(
                with_string(
                    tagged("tool_error"@).insert(
                        "tool_call_id"@,
                        Json::String(tool_call_id),
                    ).insert("error"@, Json::String(error)),
                    "code"@,
                    code,
                ),
                "tool_name"@,
                tool_name,
            ),
        ),
        ClientMessageView::PauseAssistant => Json::Object(tagged("pause_assistant"@)),
        ClientMessageView::ResumeAssistant => Json::Object(tagged("resume_assistant"@)),
    }
}

/// The client message that a document stands for; `None` where the document is
/// no object, its `type` names no kind of client message, or a field of that
/// kind is missing or not of its kind.
pub open spec fn decode_client(j: Json) -> Option<ClientMessageView> {
    match required_string(j, "type"@) {
        None => None,
        Some(tag) => if tag == "session_settings"@ {
            match member_of(j, "settings"@) {
                Some(x) => match decode_settings(x) {
                    Some(settings) => Some(ClientMessageView::SessionSettings { settings }),
                    None => None,
                },
                None => None,
            }
        } else if tag == "audio_input"@ {
            match required_string(j, "data"@) {
                Some(data) => Some(ClientMessageView::AudioInput { data }),
                None => None,
            }
        } else if tag == "user_input"@ {
            match required_string(j, "text"@) {
                Some(text) => Some(ClientMessageView::UserInput { text }),
                None => None,
            }
        } else if tag == "assistant_input"@ {
            match required_string(j, "text"@) {
                Some(text) => Some(ClientMessageView::AssistantInput { text }),
                None => None,
            }
        } else if tag == "tool_response"@ {
            match (
                required_string(j, "tool_call_id"@),
                required_string(j, "content"@),
                optional_string(j, "tool_name"@),
            ) {
                (Some(tool_call_id), Some(content), Some(tool_name)) => Some(
                    ClientMessageView::ToolResponse { tool_call_id, content, tool_name },
                ),
                _ => None,
            }
        } else if tag == "tool_error"@ {
            match (
                required_string(j, "tool_call_id"@),
                required_string(j, "error"@),
                optional_string(j, "code"@),
                optional_string(j, "tool_name"@),
            ) {
                (Some(tool_call_id), Some(error), Some(code), Some(tool_name)) => Some(
                    ClientMessageView::ToolError { tool_call_id, error, code, tool_name },
                ),
                _ => None,
            }
        } else if tag == "pause_assistant"@ {
            Some(ClientMessageView::PauseAssistant)
        } else if tag == "resume_assistant"@ {
            Some(ClientMessageView::ResumeAssistant)
        } else {
            None
        },
    }
}

/// The view of an optional client message.
pub open spec fn opt_client(o: Option<ClientMessage>) -> Option<ClientMessageView> {
    match o {
        Some(m) => Some(m@),
        None => None,
    }
}

impl ClientMessage {
    /// The JSON form of the message.
    pub fn to_json(&self) -> (v: serde_json::Value)
        ensures
            json_of(v) == encode_client(self@),
    {
        let mut v = value_object();
        match self {
            ClientMessage::SessionSettings { settings } => {
                object_insert(&mut v, "type", value_string("session_settings"));
                object_insert(&mut v, "settings", settings.to_json());
            },
            ClientMessage::AudioInput { data } => {
                object_insert(&mut v, "type", value_string("audio_input"));
                object_insert(&mut v, "data", value_string(data.as_str()));
            },
            ClientMessage::UserInput { text } => {
                object_insert(&mut v, "type", value_string("user_input"));
                object_insert(&mut v, "text", value_string(text.as_str()));
            },
            ClientMessage::AssistantInput { text } => {
                object_insert(&mut v, "type", value_string("assistant_input"));
                object_insert(&mut v, "text", value_string(text.as_str()));
            },
            ClientMessage::ToolResponse { tool_call_id, content, tool_name } => {
                object_insert(&mut v, "type", value_string("tool_response"));
                object_insert(&mut v, "tool_call_id", value_string(tool_call_id.as_str()));
                object_insert(&mut v, "content", value_string(content.as_str()));
                insert_string(&mut v, "tool_name", tool_name);
            },
            ClientMessage::ToolError { tool_call_id, error, code, tool_name } => {
                object_insert(&mut v, "type", value_string("tool_error"));
                object_insert(&mut v, "tool_call_id", value_string(tool_call_id.as_str()));
                object_insert(&mut v, "error", value_string(error.as_str()));
                insert_string(&mut v, "code", code);
                insert_string(&mut v, "tool_name", tool_name);
            },
            ClientMessage::PauseAssistant {  } => {
                object_insert(&mut v, "type", value_string("pause_assistant"));
            },
            ClientMessage::ResumeAssistant {  } => {
                object_insert(&mut v, "type", value_string("resume_assistant"));
            },
        }
        v
    }

    /// The text frame that carries the message: its JSON form as text.
    pub fn encode(&self) -> (frame: String)
        ensures
            frame@ == json_rendered(encode_client(self@)),
    {
        let v = self.to_json();
        to_text(&v)
    }

    /// Reads a message from its JSON form.
    pub fn from_json(v: &serde_json::Value) -> (r: Option<ClientMessage>)
        ensures
            opt_client(r) == decode_client(json_of(*v)),
    {
        let tag = match read_string(v, "type") {
            Some(t) => t,
            None => {
                return None;
            },
        };
        let tag = tag.as_str();
        if str_eq(tag, "session_settings") {
            match value_member(v, "settings") {
                Some(x) => match SessionSettings::from_json(x) {
                    Some(settings) => Some(ClientMessage::SessionSettings { settings }),
                    None => None,
                },
                None => None,
            }
        } else if str_eq(tag, "audio_input") {
            match read_string(v, "data") {
                Some(data) => Some(ClientMessage::AudioInput { data }),
                None => None,
            }
        } else if str_eq(tag, "user_input") {
            match read_string(v, "text") {
                Some(text) => Some(ClientMessage::UserInput { text }),
                None => None,
            }
        } else if str_eq(tag, "assistant_input") {
            match read_string(v, "text") {
                Some(text) => Some(ClientMessage::AssistantInput { text }),
                None => None,
            }
        } else if str_eq(tag, "tool_response") {
            let tool_call_id = read_string(v, "tool_call_id");
            let content = read_string(v, "content");
            let tool_name = read_optional_string(v, "tool_name");
            match (tool_call_id, content, tool_name) {
                (Some(tool_call_id), Some(content), Some(tool_name)) => Some(
                    ClientMessage::ToolResponse { tool_call_id, content, tool_name },
                ),
                _ => None,
            }
        } else if str_eq(tag, "tool_error") {
            let tool_call_id = read_string(v, "tool_call_id");
            let error = read_string(v, "error");
            let code = read_optional_string(v, "code");
            let tool_name = read_optional_string(v, "tool_name");
            match (tool_call_id, error, code, tool_name) {
                (Some(tool_call_id), Some(error), Some(code), Some(tool_name)) => Some(
                    ClientMessage::ToolError { tool_call_id, error, code, tool_name },
                ),
                _ => None,
            }
        } else if str_eq(tag, "pause_assistant") {
            Some(ClientMessage::PauseAssistant {  })
        } else if str_eq(tag, "resume_assistant") {
            Some(ClientMessage::ResumeAssistant {  })
        } else {
            None
        }
    }
}

/// What a text frame from a client holds: `None` where the text is not JSON or
/// the document stands for no client message.
pub open spec fn decode_client_frame(text: Seq<char>) -> Option<ClientMessageView> {
    match json_parsed(text) {
        Some(j) => decode_client(j),
        None => None,
    }
}

impl ClientMessage {
    /// Reads the message that a text frame holds. A frame that is not JSON, or
    /// whose document stands for no client message, gives a JSON error.
    pub fn decode(text: &str) -> (r: Result<ClientMessage, Error>)
        ensures
            match r {
                Ok(m) => decode_client_frame(text@) == Some(m@),
                Err(e) => decode_client_frame(text@) is None && e@ is Json,
            },
    {
        match from_text(text) {
            Ok(v) => match ClientMessage::from_json(&v) {
                Some(m) => Ok(m),
                None => Err(Error::Json(json_error("frame holds no client message"))),
            },
            Err(e) => Err(Error::Json(e)),
        }
    }
}

/// The names of the kinds of client messages differ from one another.
pub proof fn lemma_client_tags()
    ensures
        "session_settings"@.len() == 16 && "session_settings"@[0] == 's',
        "audio_input"@.len() == 11,
        "user_input"@.len() == 10 && "user_input"@[0] == 'u',
        "assistant_input"@.len() == 15 && "assistant_input"@[0] == 'a',
        "tool_response"@.len() == 13,
        "tool_error"@.len() == 10 && "tool_error"@[0] == 't',
        "pause_assistant"@.len() == 15 && "pause_assistant"@[0] == 'p',
        "resume_assistant"@.len() == 16 && "resume_assistant"@[0] == 'r',
{
    reveal_strlit("session_settings");
    reveal_strlit("audio_input");
    reveal_strlit("user_input");
    reveal_strlit("assistant_input");
    reveal_strlit("tool_response");
    reveal_strlit("tool_error");
    reveal_strlit("pause_assistant");
    reveal_strlit("resume_assistant");
}

/// The names of the members of client messages differ from one another.
pub proof fn lemma_client_keys()
    ensures
        "type"@.len() == 4 && "type"@[0] == 't' && "type"@[1] == 'y',
        "settings"@.len() == 8,
        "data"@.len() == 4 && "data"@[0] == 'd',
        "text"@.len() == 4 && "text"@[0] == 't' && "text"@[1] == 'e',
        "tool_call_id"@.len() == 12,
        "content"@.len() == 7,
        "tool_name"@.len() == 9,
        "error"@.len() == 5,
        "code"@.len() == 4 && "code"@[0] == 'c',
{
    reveal_strlit("type");
    reveal_strlit("settings");
    reveal_strlit("data");
    reveal_strlit("text");
    reveal_strlit("tool_call_id");
    reveal_strlit("content");
    reveal_strlit("tool_name");
    reveal_strlit("error");
    reveal_strlit("code");
}

/// Round trip: reading the JSON form of a client message gives the message
/// back. The one exception is a session-settings message in which a built-in
/// tool has the document `null` as its configuration, which reads as no
/// configuration.
pub proof fn lemma_client_round_trip(m: ClientMessageView)
    requires
        m matches ClientMessageView::SessionSettings { settings } ==> settings_configs_not_null(
            settings,
        ),
    ensures
        decode_client(encode_client(m)) == Some(m),
{
    lemma_client_tags();
    lemma_client_keys();
    let j = encode_client(m);
    match m {
        ClientMessageView::SessionSettings { settings } => {
            lemma_settings_round_trip(settings);
            assert(required_string(j, "type"@) == Some("session_settings"@));
            assert(member_of(j, "settings"@) == Some(encode_settings(settings)));
        },
        ClientMessageView::AudioInput { data } => {
            assert(required_string(j, "type"@) == Some("audio_input"@));
            assert(required_string(j, "data"@) == Some(data));
        },
        ClientMessageView::UserInput { text } => {
            assert(required_string(j, "type"@) == Some("user_input"@));
            assert(required_string(j, "text"@) == Some(text));
        },
        ClientMessageView::AssistantInput { text } => {
            assert(required_string(j, "type"@) == Some("assistant_input"@));
            assert(required_string(j, "text"@) == Some(text));
        },
        ClientMessageView::ToolResponse { tool_call_id, content, tool_name } => {
            assert(required_string(j, "type"@) == Some("tool_response"@));
            assert(required_string(j, "tool_call_id"@) == Some(tool_call_id));
            assert(required_string(j, "content"@) == Some(content));
            assert(optional_string(j, "tool_name"@) == Some(tool_name));
        },
        ClientMessageView::ToolError { tool_call_id, error, code, tool_name } => {
            assert(required_string(j, "type"@) == Some("tool_error"@));
            assert(required_string(j, "tool_call_id"@) == Some(tool_call_id));
            assert(required_string(j, "error"@) == Some(error));
            assert(optional_string(j, "code"@) == Some(code));
            assert(optional_string(j, "tool_name"@) == Some(tool_name));
        },
        ClientMessageView::PauseAssistant => {
            assert(required_string(j, "type"@) == Some("pause_assistant"@));
        },
        ClientMessageView::ResumeAssistant => {
            assert(required_string(j, "type"@) == Some("resume_assistant"@));
        },
    }
}

} // verus!

verus! {

/// Messages received from server
#[derive(Debug, Clone)]
pub enum ServerMessage {
    /// Session started
    SessionStarted {
        /// Session ID
        session_id: String,
        /// Chat ID
        chat_id: String,
        /// Chat group ID
        chat_group_id: String,
        /// Config applied, as the server sent it
        config: serde_json::Value,
    },
    /// User message
    UserMessage {
        /// Message ID
        message_id: String,
        /// User text
        text: String,
    },
    /// Assistant message
    AssistantMessage {
        /// Message ID
        message_id: String,
        /// Assistant text
        text: String,
        /// Whether message is complete
        is_final: bool,
    },
    /// Audio output
    AudioOutput {
        /// Message ID
        message_id: String,
        /// Base64 encoded audio
        data: String,
        /// Audio index
        index: u32,
    },
    /// Tool call
    ToolCall {
        /// Tool call ID
        tool_call_id: String,
        /// Tool name
        name: String,
        /// Tool parameters
        parameters: serde_json::Value,
    },
    /// Tool response
    ToolResponse {
        /// Tool call ID
        tool_call_id: String,
        /// Response content
        content: String,
    },
    /// Tool error
    ToolError {
        /// Tool call ID
        tool_call_id: String,
        /// Error message
        error: String,
        /// Error code
        code: Option<String>,
    },
    /// Emotion inference
    EmotionInference {
        /// Inference results, as the server sent them
        inference: serde_json::Value,
    },
    /// Error
    Error {
        /// Error message
        message: String,
        /// Error code
        code: String,
        /// Error details
        details: Option<serde_json::Value>,
    },
    /// Warning
    Warning {
        /// Warning message
        message: String,
        /// Warning code
        code: Option<String>,
    },
    /// Session ended
    SessionEnded {
        /// Reason for ending
        reason: String,
        /// Additional info
        info: Option<serde_json::Value>,
    },
    /// Unknown message type
    Unknown,
}

/// The mathematical value of a [`ServerMessage`].
pub ghost enum ServerMessageView {
    SessionStarted {
        session_id: Seq<char>,
        chat_id: Seq<char>,
        chat_group_id: Seq<char>,
        config: Json,
    },
    UserMessage { message_id: Seq<char>, text: Seq<char> },
    AssistantMessage { message_id: Seq<char>, text: Seq<char>, is_final: bool },
    AudioOutput { message_id: Seq<char>, data: Seq<char>, index: u32 },
    ToolCall { tool_call_id: Seq<char>, name: Seq<char>, parameters: Json },
    ToolResponse { tool_call_id: Seq<char>, content: Seq<char> },
    ToolError { tool_call_id: Seq<char>, error: Seq<char>, code: Option<Seq<char>> },
    EmotionInference { inference: Json },
    Error { message: Seq<char>, code: Seq<char>, details: Option<Json> },
    Warning { message: Seq<char>, code: Option<Seq<char>> },
    SessionEnded { reason: Seq<char>, info: Option<Json> },
    Unknown,
}

impl View for ServerMessage {
    type V = ServerMessageView;

    open spec fn view(&self) -> ServerMessageView {
        match self {
            ServerMessage::SessionStarted {
                session_id,
                chat_id,
                chat_group_id,
                config,
            } => ServerMessageView::SessionStarted {
                session_id: session_id@,
                chat_id: chat_id@,
                chat_group_id: chat_group_id@,
                config: json_of(*config),
            },
            ServerMessage::UserMessage { message_id, text } => ServerMessageView::UserMessage {
                message_id: message_id@,
                text: text@,
            },
            ServerMessage::AssistantMessage {
                message_id,
                text,
                is_final,
            } => ServerMessageView::AssistantMessage {
                message_id: message_id@,
                text: text@,
                is_final: *is_final,
            },
            ServerMessage::AudioOutput {
                message_id,
                data,
                index,
            } => ServerMessageView::AudioOutput {
                message_id: message_id@,
                data: data@,
                index: *index,
            },
            ServerMessage::ToolCall {
                tool_call_id,
                name,
                parameters,
            } => ServerMessageView::ToolCall {
                tool_call_id: tool_call_id@,
                name: name@,
                parameters: json_of(*parameters),
            },
            ServerMessage::ToolResponse {
                tool_call_id,
                content,
            } => ServerMessageView::ToolResponse {
                tool_call_id: tool_call_id@,
                content: content@,
            },
            ServerMessage::ToolError {
                tool_call_id,
                error,
                code,
            } => ServerMessageView::ToolError {
                tool_call_id: tool_call_id@,
                error: error@,
                code: opt_str(*code),
            },
            ServerMessage::EmotionInference {
                inference,
            } => ServerMessageView::EmotionInference { inference: json_of(*inference) },
            ServerMessage::Error { message, code, details } => ServerMessageView::Error {
                message: message@,
                code: code@,
                details: opt_json(*details),
            },
            ServerMessage::Warning { message, code } => ServerMessageView::Warning {
                message: message@,
                code: opt_str(*code),
            },
            ServerMessage::SessionEnded { reason, info } => ServerMessageView::SessionEnded {
                reason: reason@,
                info: opt_json(*info),
            },
            ServerMessage::Unknown => ServerMessageView::Unknown,
        }
    }
}

/// Whether `tag` names a kind of server message that this crate knows.
pub open spec fn is_known_server_tag(tag: Seq<char>) -> bool {
    tag == "session_started"@ || tag == "user_message"@ || tag == "assistant_message"@ || tag
        == "audio_output"@ || tag == "tool_call"@ || tag == "tool_response"@ || tag
        == "tool_error"@ || tag == "emotion_inference"@ || tag == "error"@ || tag == "warning"@
        || tag == "session_ended"@
}

/// The server message of a known kind that a document stands for; `None` where
/// a field of that kind is missing or not of its kind.
pub open spec fn decode_known(j: Json, tag: Seq<char>) -> Option<ServerMessageView> {
    if tag == "session_started"@ {
        match (
            required_string(j, "session_id"@),
            required_string(j, "chat_id"@),
            required_string(j, "chat_group_id"@),
            member_of(j, "config"@),
        ) {
            (Some(session_id), Some(chat_id), Some(chat_group_id), Some(config)) => Some(
                ServerMessageView::SessionStarted { session_id, chat_id, chat_group_id, config },
            ),
            _ => None,
        }
    } else if tag == "user_message"@ {
        match (required_string(j, "message_id"@), required_string(j, "text"@)) {
            (Some(message_id), Some(text)) => Some(
                ServerMessageView::UserMessage { message_id, text },
            ),
            _ => None,
        }
    } else if tag == "assistant_message"@ {
        match (
            required_string(j, "message_id"@),
            required_string(j, "text"@),
            required_bool(j, "is_final"@),
        ) {
            (Some(message_id), Some(text), Some(is_final)) => Some(
                ServerMessageView::AssistantMessage { message_id, text, is_final },
            ),
            _ => None,
        }
    } else if tag == "audio_output"@ {
        match (
            required_string(j, "message_id"@),
            required_string(j, "data"@),
            required_u32(j, "index"@),
        ) {
            (Some(message_id), Some(data), Some(index)) => Some(
                ServerMessageView::AudioOutput { message_id, data, index },
            ),
            _ => None,
        }
    } else if tag == "tool_call"@ {
        match (
            required_string(j, "tool_call_id"@),
            required_string(j, "name"@),
            member_of(j, "parameters"@),
        ) {
            (Some(tool_call_id), Some(name), Some(parameters)) => Some(
                ServerMessageView::ToolCall { tool_call_id, name, parameters },
            ),
            _ => None,
        }
    } else if tag == "tool_response"@ {
        match (required_string(j, "tool_call_id"@), required_string(j, "content"@)) {
            (Some(tool_call_id), Some(content)) => Some(
                ServerMessageView::ToolResponse { tool_call_id, content },
            ),
            _ => None,
        }
    } else if tag == "tool_error"@ {
        match (
            required_string(j, "tool_call_id"@),
            required_string(j, "error"@),
            optional_string(j, "code"@),
        ) {
            (Some(tool_call_id), Some(error), Some(code)) => Some(
                ServerMessageView::ToolError { tool_call_id, error, code },
            ),
            _ => None,
        }
    } else if tag == "emotion_inference"@ {
        match member_of(j, "inference"@) {
            Some(inference) => Some(ServerMessageView::EmotionInference { inference }),
            None => None,
        }
    } else if tag == "error"@ {
        match (required_string(j, "message"@), required_string(j, "code"@)) {
            (Some(message), Some(code)) => Some(
                ServerMessageView::Error { message, code, details: optional_value(j, "details"@) },
            ),
            _ => None,
        }
    } else if tag == "warning"@ {
        match (required_string(j, "message"@), optional_string(j, "code"@)) {
            (Some(message), Some(code)) => Some(ServerMessageView::Warning { message, code }),
            _ => None,
        }
    } else {
        match required_string(j, "reason"@) {
            Some(reason) => Some(
                ServerMessageView::SessionEnded { reason, info: optional_value(j, "info"@) },
            ),
            None => None,
        }
    }
}

/// The server message that a document stands for: `Unknown` where its `type`
/// names no kind that this crate knows; `None` where the document is no object,
/// has no `type` that is a string, or lacks a field of its kind.
pub open spec fn decode_server(j: Json) -> Option<ServerMessageView> {
    match required_string(j, "type"@) {
        None => None,
        Some(tag) => if is_known_server_tag(tag) {
            decode_known(j, tag)
        } else {
            Some(ServerMessageView::Unknown)
        },
    }
}

/// What a text frame holds: `None` where the text is not JSON or the document
/// stands for no server message.
pub open spec fn decode_frame(text: Seq<char>) -> Option<ServerMessageView> {
    match json_parsed(text) {
        Some(j) => decode_server(j),
        None => None,
    }
}

/// The view of an optional server message.
pub open spec fn opt_server(o: Option<ServerMessage>) -> Option<ServerMessageView> {
    match o {
        Some(m) => Some(m@),
        None => None,
    }
}

/// A document whose `type` names a kind that this crate does not know stands
/// for `Unknown`, whatever else it holds: it is never refused.
pub proof fn lemma_unknown_tag(j: Json, tag: Seq<char>)
    requires
        required_string(j, "type"@) == Some(tag),
        !is_known_server_tag(tag),
    ensures
        decode_server(j) == Some(ServerMessageView::Unknown),
{
}

impl ServerMessage {
    /// Reads a message from its JSON form.
    pub fn from_json(v: &serde_json::Value) -> (r: Option<ServerMessage>)
        ensures
            opt_server(r) == decode_server(json_of(*v)),
    {
        let tag = match read_string(v, "type") {
            Some(t) => t,
            None => {
                return None;
            },
        };
        let tag = tag.as_str();
        if str_eq(tag, "session_started") {
            let session_id = read_string(v, "session_id");
            let chat_id = read_string(v, "chat_id");
            let chat_group_id = read_string(v, "chat_group_id");
            let config = read_value(v, "config");
            match (session_id, chat_id, chat_group_id, config) {
                (Some(session_id), Some(chat_id), Some(chat_group_id), Some(config)) => Some(
                    ServerMessage::SessionStarted { session_id, chat_id, chat_group_id, config },
                ),
                _ => None,
            }
        } else if str_eq(tag, "user_message") {
            let message_id = read_string(v, "message_id");
            let text = read_string(v, "text");
            match (message_id, text) {
                (Some(message_id), Some(text)) => Some(
                    ServerMessage::UserMessage { message_id, text },
                ),
                _ => None,
            }
        } else if str_eq(tag, "assistant_message") {
            let message_id = read_string(v, "message_id");
            let text = read_string(v, "text");
            let is_final = read_bool(v, "is_final");
            match (message_id, text, is_final) {
                (Some(message_id), Some(text), Some(is_final)) => Some(
                    ServerMessage::AssistantMessage { message_id, text, is_final },
                ),
                _ => None,
            }
        } else if str_eq(tag, "audio_output") {
            let message_id = read_string(v, "message_id");
            let data = read_string(v, "data");
            let index = read_u32(v, "index");
            match (message_id, data, index) {
                (Some(message_id), Some(data), Some(index)) => Some(
                    ServerMessage::AudioOutput { message_id, data, index },
                ),
                _ => None,
            }
        } else if str_eq(tag, "tool_call") {
            let tool_call_id = read_string(v, "tool_call_id");
            let name = read_string(v, "name");
            let parameters = read_value(v, "parameters");
            match (tool_call_id, name, parameters) {
                (Some(tool_call_id), Some(name), Some(parameters)) => Some(
                    ServerMessage::ToolCall { tool_call_id, name, parameters },
                ),
                _ => None,
            }
        } else if str_eq(tag, "tool_response") {
            let tool_call_id = read_string(v, "tool_call_id");
            let content = read_string(v, "content");
            match (tool_call_id, content) {
                (Some(tool_call_id), Some(content)) => Some(
                    ServerMessage::ToolResponse { tool_call_id, content },
                ),
                _ => None,
            }
        } else if str_eq(tag, "tool_error") {
            let tool_call_id = read_string(v, "tool_call_id");
            let error = read_string(v, "error");
            let code = read_optional_string(v, "code");
            match (tool_call_id, error, code) {
                (Some(tool_call_id), Some(error), Some(code)) => Some(
                    ServerMessage::ToolError { tool_call_id, error, code },
                ),
                _ => None,
            }
        } else if str_eq(tag, "emotion_inference") {
            match read_value(v, "inference") {
                Some(inference) => Some(ServerMessage::EmotionInference { inference }),
                None => None,
            }
        } else if str_eq(tag, "error") {
            let message = read_string(v, "message");
            let code = read_string(v, "code");
            match (message, code) {
                (Some(message), Some(code)) => Some(
                    ServerMessage::Error {
                        message,
                        code,
                        details: read_optional_value(v, "details"),
                    },
                ),
                _ => None,
            }
        } else if str_eq(tag, "warning") {
            let message = read_string(v, "message");
            let code = read_optional_string(v, "code");
            match (message, code) {
                (Some(message), Some(code)) => Some(ServerMessage::Warning { message, code }),
                _ => None,
            }
        } else if str_eq(tag, "session_ended") {
            match read_string(v, "reason") {
                Some(reason) => Some(
                    ServerMessage::SessionEnded { reason, info: read_optional_value(v, "info") },
                ),
                None => None,
            }
        } else {
            Some(ServerMessage::Unknown)
        }
    }

    /// Reads the message that a text frame holds. A frame that is not JSON, or
    /// whose document stands for no server message, gives a JSON error.
    pub fn decode(text: &str) -> (r: Result<ServerMessage, Error>)
        ensures
            match r {
                Ok(m) => decode_frame(text@) == Some(m@),
                Err(e) => decode_frame(text@) is None && e@ is Json,
            },
    {
        match from_text(text) {
            Ok(v) => match ServerMessage::from_json(&v) {
                Some(m) => Ok(m),
                None => Err(Error::Json(json_error("frame holds no server message"))),
            },
            Err(e) => Err(Error::Json(e)),
        }
    }
}

} // verus!

verus! {

/// Where a session is in its life.
#[derive(Debug, Clone, Copy, PartialEq, Eq, Structural)]
pub enum SessionState {
    /// The handshake has not ended.
    Connecting,
    /// The connection is open in both directions.
    Open,
    /// `close` was called and the close frame is on its way.
    Closing,
    /// The connection ended in an orderly way.
    Closed,
    /// The handshake or the connection failed.
    Failed,
}

/// What the transport hands to a session that waits for the next frame.
#[derive(Debug)]
pub enum TransportEvent {
    /// A text frame.
    Text(String),
    /// A close frame.
    Close,
    /// The end of the stream.
    End,
    /// A frame of another kind: binary, ping or pong.
    Other,
    /// The connection failed.
    Failure(crate::common::error::WebSocketFailure),
}

/// The mathematical value of a [`TransportEvent`].
pub ghost enum TransportEventView {
    Text(Seq<char>),
    Close,
    End,
    Other,
    Failure(crate::common::error::WebSocketFailureView),
}

impl View for TransportEvent {
    type V = TransportEventView;

    open spec fn view(&self) -> TransportEventView {
        match self {
            TransportEvent::Text(t) => TransportEventView::Text(t@),
            TransportEvent::Close => TransportEventView::Close,
            TransportEvent::End => TransportEventView::End,
            TransportEvent::Other => TransportEventView::Other,
            TransportEvent::Failure(f) => TransportEventView::Failure(f@),
        }
    }
}

/// Whether frames can still arrive in the state: the session is open, or it is
/// closing and waits for the other side.
pub open spec fn is_live(state: SessionState) -> bool {
    state is Open || state is Closing
}

/// Whether no transition leaves the state.
pub open spec fn is_terminal(state: SessionState) -> bool {
    state is Closed || state is Failed
}

/// The state that follows when the handshake ends.
pub open spec fn state_after_handshake(state: SessionState, ok: bool) -> SessionState {
    if state is Connecting {
        if ok {
            SessionState::Open
        } else {
            SessionState::Failed
        }
    } else {
        state
    }
}

/// The state that follows a call of `close`.
pub open spec fn state_after_close(state: SessionState) -> SessionState {
    if state is Open {
        SessionState::Closing
    } else {
        state
    }
}

/// The state that follows what the transport handed over: a close frame or the
/// end of the stream closes a live session, a failure fails it, and any other
/// frame leaves it as it is.
pub open spec fn state_after_event(state: SessionState, event: TransportEventView) -> SessionState {
    if !is_live(state) {
        state
    } else {
        match event {
            TransportEventView::Close => SessionState::Closed,
            TransportEventView::End => SessionState::Closed,
            TransportEventView::Failure(_) => SessionState::Failed,
            _ => state,
        }
    }
}

/// No transition leaves a closed or a failed session.
pub proof fn lemma_terminal_states_stay(state: SessionState, ok: bool, event: TransportEventView)
    requires
        is_terminal(state),
    ensures
        state_after_handshake(state, ok) == state,
        state_after_close(state) == state,
        state_after_event(state, event) == state,
{
}

/// The transitions of a session are those of its life cycle: from connecting
/// to open or failed, from open to closing, closed or failed, and from closing
/// to closed or failed.
pub proof fn lemma_transitions(state: SessionState, ok: bool, event: TransportEventView)
    ensures
        state_after_handshake(state, ok) != state ==> state is Connecting && (
        state_after_handshake(state, ok) is Open || state_after_handshake(state, ok) is Failed),
        state_after_close(state) != state ==> state is Open && state_after_close(state) is Closing,
        state_after_event(state, event) != state ==> is_live(state) && is_terminal(
            state_after_event(state, event),
        ),
{
}

/// The handle of one chat session: its state, and the identifiers that the
/// server assigned once they are known.
#[derive(Debug)]
pub struct ChatSocket {
    state: SessionState,
    session_id: Option<String>,
    chat_id: Option<String>,
}

/// The mathematical value of a [`ChatSocket`].
pub ghost struct ChatSocketView {
    pub state: SessionState,
    pub session_id: Option<Seq<char>>,
    pub chat_id: Option<Seq<char>>,
}

impl View for ChatSocket {
    type V = ChatSocketView;

    closed spec fn view(&self) -> ChatSocketView {
        ChatSocketView {
            state: self.state,
            session_id: opt_str(self.session_id),
            chat_id: opt_str(self.chat_id),
        }
    }
}

/// The session after it has seen a message: it learns its identifiers from
/// `SessionStarted`.
pub open spec fn socket_after_message(s: ChatSocketView, m: ServerMessageView) -> ChatSocketView {
    match m {
        ServerMessageView::SessionStarted { session_id, chat_id, .. } => ChatSocketView {
            session_id: Some(session_id),
            chat_id: Some(chat_id),
            ..s
        },
        _ => s,
    }
}

/// The session after the transport handed over `event`.
pub open spec fn socket_after_event(s: ChatSocketView, event: TransportEventView) -> ChatSocketView {
    let next = ChatSocketView { state: state_after_event(s.state, event), ..s };
    match event {
        TransportEventView::Text(t) => if is_live(s.state) {
            match decode_frame(t) {
                Some(m) => socket_after_message(next, m),
                None => next,
            }
        } else {
            next
        },
        _ => next,
    }
}

/// What `receive` answers. `Ok(None)` tells of an orderly end; a frame of
/// another kind than text reads as `Unknown`; `None` here stands for a JSON
/// error.
pub open spec fn received(state: SessionState, event: TransportEventView) -> Result<
    Option<ServerMessageView>,
    Option<ErrorView>,
> {
    if !is_live(state) {
        Err(
            Some(ErrorView::WebSocket(crate::common::error::WebSocketFailureView::AlreadyClosed)),
        )
    } else {
        match event {
            TransportEventView::Text(t) => match decode_frame(t) {
                Some(m) => Ok(Some(m)),
                None => Err(None),
            },
            TransportEventView::Close => Ok(None),
            TransportEventView::End => Ok(None),
            TransportEventView::Other => Ok(Some(ServerMessageView::Unknown)),
            TransportEventView::Failure(f) => Err(Some(ErrorView::WebSocket(f))),
        }
    }
}

/// The frame that `send` hands out for a message, or the error that it gives
/// where the session is not open.
pub open spec fn sent(state: SessionState, m: ClientMessageView) -> Result<Seq<char>, ErrorView> {
    if state is Open {
        Ok(json_rendered(encode_client(m)))
    } else {
        Err(ErrorView::WebSocket(crate::common::error::WebSocketFailureView::AlreadyClosed))
    }
}

/// The view of what a sending function returned.
pub open spec fn sent_view(r: Result<String, Error>) -> Result<Seq<char>, ErrorView> {
    match r {
        Ok(frame) => Ok(frame@),
        Err(e) => Err(e@),
    }
}

impl ChatSocket {
    /// A session whose handshake is under way.
    pub fn connecting() -> (s: Self)
        ensures
            s@ == (ChatSocketView {
                state: SessionState::Connecting,
                session_id: None,
                chat_id: None,
            }),
    {
        ChatSocket { state: SessionState::Connecting, session_id: None, chat_id: None }
    }

    /// Create a new chat socket on a connection whose handshake succeeded
    pub fn new() -> (s: Self)
        ensures
            s@ == (ChatSocketView { state: SessionState::Open, session_id: None, chat_id: None }),
    {
        ChatSocket { state: SessionState::Open, session_id: None, chat_id: None }
    }

    /// Tells the session how the handshake ended.
    pub fn handshake_done(&mut self, ok: bool)
        ensures
            final(self)@ == (ChatSocketView {
                state: state_after_handshake(old(self)@.state, ok),
                ..old(self)@
            }),
    {
        if let SessionState::Connecting = self.state {
            self.state = if ok {
                SessionState::Open
            } else {
                SessionState::Failed
            };
        }
    }

    /// The state of the session.
    pub fn state(&self) -> (r: SessionState)
        ensures
            r == self@.state,
    {
        self.state
    }

    /// The identifier that the server gave the session, once it is known.
    pub fn session_id(&self) -> (r: Option<&String>)
        ensures
            match r {
                Some(id) => self@.session_id == Some(id@),
                None => self@.session_id is None,
            },
    {
        self.session_id.as_ref()
    }

    /// The identifier that the server gave the chat, once it is known.
    pub fn chat_id(&self) -> (r: Option<&String>)
        ensures
            match r {
                Some(id) => self@.chat_id == Some(id@),
                None => self@.chat_id is None,
            },
    {
        self.chat_id.as_ref()
    }

    /// Send a message: gives the text frame to write where the session is
    /// open, and the error "already closed", with nothing to write, where it is
    /// not. The session stays as it is.
    pub fn send_message(&mut self, message: &ClientMessage) -> (r: Result<String, Error>)
        ensures
            final(self)@ == old(self)@,
            sent_view(r) == sent(old(self)@.state, message@),
    {
        match self.state {
            SessionState::Open => Ok(message.encode()),
            _ => Err(Error::WebSocket(crate::common::error::WebSocketFailure::AlreadyClosed)),
        }
    }

    /// Send session settings
    pub fn send_session_settings(&mut self, settings: SessionSettings) -> (r: Result<
        String,
        Error,
    >)
        ensures
            final(self)@ == old(self)@,
            sent_view(r) == sent(
                old(self)@.state,
                ClientMessageView::SessionSettings { settings: settings@ },
            ),
    {
        let message = ClientMessage::SessionSettings { settings };
        self.send_message(&message)
    }

    /// Send audio input: the bytes go out in base64. More bytes than base64
    /// can take on this machine give a validation error.
    pub fn send_audio(&mut self, data: Vec<u8>) -> (r: Result<String, Error>)
        ensures
            final(self)@ == old(self)@,
            data@.len() <= crate::common::encoding::max_base64_input() ==> sent_view(r) == sent(
                old(self)@.state,
                ClientMessageView::AudioInput {
                    data: crate::common::encoding::base64_text(data@),
                },
            ),
            data@.len() > crate::common::encoding::max_base64_input() ==> r is Err && r->Err_0@
                == ErrorView::Validation("Audio input is too large"@),
    {
        match crate::common::encoding::to_base64(data.as_slice()) {
            Some(text) => {
                let message = ClientMessage::AudioInput { data: text };
                self.send_message(&message)
            },
            None => Err(Error::validation("Audio input is too large")),
        }
    }

    /// Send text input
    pub fn send_text(&mut self, text: String) -> (r: Result<String, Error>)
        ensures
            final(self)@ == old(self)@,
            sent_view(r) == sent(old(self)@.state, ClientMessageView::UserInput { text: text@ }),
    {
        let message = ClientMessage::UserInput { text };
        self.send_message(&message)
    }

    /// Send assistant input
    pub fn send_assistant_input(&mut self, text: String) -> (r: Result<String, Error>)
        ensures
            final(self)@ == old(self)@,
            sent_view(r) == sent(
                old(self)@.state,
                ClientMessageView::AssistantInput { text: text@ },
            ),
    {
        let message = ClientMessage::AssistantInput { text };
        self.send_message(&message)
    }

    /// Send tool response
    pub fn send_tool_response(
        &mut self,
        tool_call_id: String,
        content: String,
        tool_name: Option<String>,
    ) -> (r: Result<String, Error>)
        ensures
            final(self)@ == old(self)@,
            sent_view(r) == sent(
                old(self)@.state,
                ClientMessageView::ToolResponse {
                    tool_call_id: tool_call_id@,
                    content: content@,
                    tool_name: opt_str(tool_name),
                },
            ),
    {
        let message = ClientMessage::ToolResponse { tool_call_id, content, tool_name };
        self.send_message(&message)
    }

    /// Send tool error
    pub fn send_tool_error(
        &mut self,
        tool_call_id: String,
        error: String,
        code: Option<String>,
        tool_name: Option<String>,
    ) -> (r: Result<String, Error>)
        ensures
            final(self)@ == old(self)@,
            sent_view(r) == sent(
                old(self)@.state,
                ClientMessageView::ToolError {
                    tool_call_id: tool_call_id@,
                    error: error@,
                    code: opt_str(code),
                    tool_name: opt_str(tool_name),
                },
            ),
    {
        let message = ClientMessage::ToolError { tool_call_id, error, code, tool_name };
        self.send_message(&message)
    }

    /// Pause the assistant
    pub fn pause_assistant(&mut self) -> (r: Result<String, Error>)
        ensures
            final(self)@ == old(self)@,
            sent_view(r) == sent(old(self)@.state, ClientMessageView::PauseAssistant),
    {
        let message = ClientMessage::PauseAssistant {  };
        self.send_message(&message)
    }

    /// Resume the assistant
    pub fn resume_assistant(&mut self) -> (r: Result<String, Error>)
        ensures
            final(self)@ == old(self)@,
            sent_view(r) == sent(old(self)@.state, ClientMessageView::ResumeAssistant),
    {
        let message = ClientMessage::ResumeAssistant {  };
        self.send_message(&message)
    }

    /// Receive the next message: takes what the transport handed over.
    ///
    /// A close frame and the end of the stream give `Ok(None)` and close the
    /// session; a failure of the connection gives its error and fails the
    /// session; a text frame gives its message, or a JSON error that leaves the
    /// session as it is; any other frame gives `Unknown`. A session that is
    /// neither open nor closing gives the error "already closed".
    pub fn receive(&mut self, event: TransportEvent) -> (r: Result<Option<ServerMessage>, Error>)
        ensures
            final(self)@ == socket_after_event(old(self)@, event@),
            match r {
                Ok(m) => received(old(self)@.state, event@) == Ok::<
                    Option<ServerMessageView>,
                    Option<ErrorView>,
                >(opt_server(m)),
                Err(e) => match received(old(self)@.state, event@) {
                    Err(Some(x)) => e@ == x,
                    Err(None) => e@ is Json,
                    Ok(_) => false,
                },
            },
    {
        match self.state {
            SessionState::Open => {},
            SessionState::Closing => {},
            _ => {
                return Err(
                    Error::WebSocket(crate::common::error::WebSocketFailure::AlreadyClosed),
                );
            },
        }
        match event {
            TransportEvent::Text(text) => {
                match ServerMessage::decode(text.as_str()) {
                    Ok(message) => {
                        match &message {
                            ServerMessage::SessionStarted { session_id, chat_id, .. } => {
                                self.session_id = Some(session_id.clone());
                                self.chat_id = Some(chat_id.clone());
                            },
                            _ => {},
                        }
                        Ok(Some(message))
                    },
                    Err(e) => Err(e),
                }
            },
            TransportEvent::Close => {
                self.state = SessionState::Closed;
                Ok(None)
            },
            TransportEvent::End => {
                self.state = SessionState::Closed;
                Ok(None)
            },
            TransportEvent::Other => Ok(Some(ServerMessage::Unknown)),
            TransportEvent::Failure(f) => {
                self.state = SessionState::Failed;
                Err(Error::WebSocket(f))
            },
        }
    }

    /// Close the connection: an open session starts closing, and the caller
    /// sends the close frame. On any other session this is the error "already
    /// closed", and the session stays as it is.
    pub fn close(&mut self) -> (r: Result<(), Error>)
        ensures
            final(self)@ == (ChatSocketView {
                state: state_after_close(old(self)@.state),
                ..old(self)@
            }),
            match r {
                Ok(_) => old(self)@.state is Open,
                Err(e) => !(old(self)@.state is Open) && e@ == ErrorView::WebSocket(
                    crate::common::error::WebSocketFailureView::AlreadyClosed,
                ),
            },
    {
        match self.state {
            SessionState::Open => {
                self.state = SessionState::Closing;
                Ok(())
            },
            _ => Err(Error::WebSocket(crate::common::error::WebSocketFailure::AlreadyClosed)),
        }
    }

    /// Closes the session if it is open, and says whether a close frame is to
    /// be sent. Calling it again changes nothing.
    pub fn close_if_open(&mut self) -> (r: bool)
        ensures
            r == (old(self)@.state is Open),
            final(self)@ == (ChatSocketView {
                state: state_after_close(old(self)@.state),
                ..old(self)@
            }),
    {
        match self.close() {
            Ok(_) => true,
            Err(_) => false,
        }
    }
}

} // verus!

verus! {

/// The address of the chat endpoint for a base URL and a credential: the base
/// URL with `https://` replaced by `wss://`, the path of the endpoint, the
/// credential as a query parameter, and a parameter for each selector given.
pub open spec fn chat_url(
    base_url: Seq<char>,
    auth: crate::common::auth::AuthView,
    config_id: Option<Seq<char>>,
    config_version: Option<u32>,
    resumed_chat_group_id: Option<Seq<char>>,
) -> Seq<char> {
    let url = crate::common::text::replaced(base_url, "https://"@, "wss://"@) + "/v0/evi/chat?"@
        + auth.query().0 + "="@ + auth.query().1;
    let url = match config_id {
        Some(id) => url + "&config_id="@ + id,
        None => url,
    };
    let url = match config_version {
        Some(version) => url + "&config_version="@ + crate::common::text::decimal(version as nat),
        None => url,
    };
    match resumed_chat_group_id {
        Some(group_id) => url + "&resumed_chat_group_id="@ + group_id,
        None => url,
    }
}

/// The base URL with the scheme of a duplex connection.
pub fn websocket_base(base_url: &str) -> (r: String)
    ensures
        r@ == crate::common::text::replaced(base_url@, "https://"@, "wss://"@),
{
    proof {
        reveal_strlit("https://");
        assert("https://"@.len() == 8);
    }
    crate::common::text::replace_all(base_url, "https://", "wss://")
}

/// Client for EVI chat functionality
#[derive(Debug)]
pub struct ChatClient {
    base_url: String,
    auth: Option<crate::common::auth::Auth>,
}

impl ChatClient {
    /// The base URL of the service.
    pub closed spec fn spec_base_url(&self) -> Seq<char> {
        self.base_url@
    }

    /// The credential, if one is configured.
    pub closed spec fn spec_auth(&self) -> Option<crate::common::auth::AuthView> {
        crate::common::auth::opt_auth(self.auth)
    }

    /// Create a new chat client
    pub fn new(client: &crate::common::client::HumeClient) -> (r: Self)
        ensures
            r.spec_base_url() == client.base_url@,
            r.spec_auth() == crate::common::auth::opt_auth(client.http.auth),
    {
        let auth = match &client.http.auth {
            Some(a) => Some(a.clone()),
            None => None,
        };
        ChatClient { base_url: client.base_url.clone(), auth }
    }

    /// The address at which to connect to a chat session. Without a credential
    /// this is an authentication error.
    fn connect_url(
        &self,
        config_id: Option<String>,
        config_version: Option<u32>,
        resumed_chat_group_id: Option<String>,
    ) -> (r: Result<String, Error>)
        ensures
            match r {
                Ok(url) => self.spec_auth() matches Some(auth) && url@ == chat_url(
                    self.spec_base_url(),
                    auth,
                    opt_str(config_id),
                    config_version,
                    opt_str(resumed_chat_group_id),
                ),
                Err(e) => self.spec_auth() is None && e@ == ErrorView::Auth(
                    "No authentication configured"@,
                ),
            },
    {
        let auth = match &self.auth {
            Some(a) => a,
            None => {
                return Err(Error::auth("No authentication configured"));
            },
        };
        let param = auth.query_param();
        let mut url = websocket_base(self.base_url.as_str());
        url.append("/v0/evi/chat?");
        url.append(param.0);
        url.append("=");
        url.append(param.1.as_str());
        match &config_id {
            Some(id) => {
                url.append("&config_id=");
                url.append(id.as_str());
            },
            None => {},
        }
        match config_version {
            Some(version) => {
                url.append("&config_version=");
                let digits = crate::common::text::decimal_string(version as u64);
                url.append(digits.as_str());
            },
            None => {},
        }
        match &resumed_chat_group_id {
            Some(group_id) => {
                url.append("&resumed_chat_group_id=");
                url.append(group_id.as_str());
            },
            None => {},
        }
        Ok(url)
    }

    /// Connect to a chat session: gives the address of the endpoint and the
    /// handle of the session, whose handshake the caller performs. Without a
    /// credential this is an authentication error.
    pub fn connect(
        &self,
        config_id: Option<String>,
        config_version: Option<u32>,
        resumed_chat_group_id: Option<String>,
    ) -> (r: Result<Handshake, Error>)
        ensures
            match r {
                Ok(h) => self.spec_auth() matches Some(auth) && h.url@ == chat_url(
                    self.spec_base_url(),
                    auth,
                    opt_str(config_id),
                    config_version,
                    opt_str(resumed_chat_group_id),
                ) && h.first_frame is None && h.socket@ == connecting_socket(),
                Err(e) => self.spec_auth() is None && e@ == ErrorView::Auth(
                    "No authentication configured"@,
                ),
            },
    {
        match self.connect_url(config_id, config_version, resumed_chat_group_id) {
            Ok(url) => Ok(Handshake { url, first_frame: None, socket: ChatSocket::connecting() }),
            Err(e) => Err(e),
        }
    }
}

/// A session whose handshake is under way and that knows no identifier yet.
pub open spec fn connecting_socket() -> ChatSocketView {
    ChatSocketView { state: SessionState::Connecting, session_id: None, chat_id: None }
}

/// What it takes to open a session: where to connect, the frame to send first
/// once the handshake has succeeded, and the handle of the session.
#[derive(Debug)]
pub struct Handshake {
    /// The address of the endpoint.
    pub url: String,
    /// The text frame that carries the session settings, where the caller gave
    /// settings: it goes out before any other message.
    pub first_frame: Option<String>,
    /// The session, which waits for the end of the handshake.
    pub socket: ChatSocket,
}

/// Builder for chat sessions
#[derive(Debug)]
pub struct ChatSessionBuilder {
    config_id: Option<String>,
    config_version: Option<u32>,
    resumed_chat_group_id: Option<String>,
    session_settings: Option<SessionSettings>,
}

/// The mathematical value of a [`ChatSessionBuilder`].
pub ghost struct ChatSessionBuilderView {
    pub config_id: Option<Seq<char>>,
    pub config_version: Option<u32>,
    pub resumed_chat_group_id: Option<Seq<char>>,
    pub session_settings: Option<SessionSettingsView>,
}

impl View for ChatSessionBuilder {
    type V = ChatSessionBuilderView;

    closed spec fn view(&self) -> ChatSessionBuilderView {
        ChatSessionBuilderView {
            config_id: opt_str(self.config_id),
            config_version: self.config_version,
            resumed_chat_group_id: opt_str(self.resumed_chat_group_id),
            session_settings: match self.session_settings {
                Some(s) => Some(s@),
                None => None,
            },
        }
    }
}

/// The frame that carries the settings given at build time: none without
/// settings.
pub open spec fn first_frame_of(settings: Option<SessionSettingsView>) -> Option<Seq<char>> {
    match settings {
        Some(s) => Some(json_rendered(encode_client(ClientMessageView::SessionSettings { settings: s }))),
        None => None,
    }
}

impl ChatSessionBuilder {
    /// Create a new builder
    pub fn new() -> (r: Self)
        ensures
            r@ == (ChatSessionBuilderView {
                config_id: None,
                config_version: None,
                resumed_chat_group_id: None,
                session_settings: None,
            }),
    {
        ChatSessionBuilder {
            config_id: None,
            config_version: None,
            resumed_chat_group_id: None,
            session_settings: None,
        }
    }

    /// Set the config ID
    pub fn config_id(self, id: &str) -> (r: Self)
        ensures
            r@ == (ChatSessionBuilderView { config_id: Some(id@), ..self@ }),
    {
        let mut r = self;
        r.config_id = Some(String::from_str(id));
        r
    }

    /// Set the config version
    pub fn config_version(self, version: u32) -> (r: Self)
        ensures
            r@ == (ChatSessionBuilderView { config_version: Some(version), ..self@ }),
    {
        let mut r = self;
        r.config_version = Some(version);
        r
    }

    /// Resume a chat group
    pub fn resume_chat_group(self, group_id: &str) -> (r: Self)
        ensures
            r@ == (ChatSessionBuilderView { resumed_chat_group_id: Some(group_id@), ..self@ }),
    {
        let mut r = self;
        r.resumed_chat_group_id = Some(String::from_str(group_id));
        r
    }

    /// Set session settings
    pub fn session_settings(self, settings: SessionSettings) -> (r: Self)
        ensures
            r@ == (ChatSessionBuilderView { session_settings: Some(settings@), ..self@ }),
    {
        let mut r = self;
        r.session_settings = Some(settings);
        r
    }

    /// Connect to the chat: gives the address of the endpoint and, where
    /// settings were given, the frame that carries them as the first message of
    /// the session. Without a credential this is an authentication error.
    pub fn connect(self, client: &ChatClient) -> (r: Result<Handshake, Error>)
        ensures
            match r {
                Ok(h) => client.spec_auth() matches Some(auth) && h.url@ == chat_url(
                    client.spec_base_url(),
                    auth,
                    self@.config_id,
                    self@.config_version,
                    self@.resumed_chat_group_id,
                ) && opt_str(h.first_frame) == first_frame_of(self@.session_settings) && h.socket@
                    == connecting_socket(),
                Err(e) => client.spec_auth() is None && e@ == ErrorView::Auth(
                    "No authentication configured"@,
                ),
            },
    {
        let url = match client.connect_url(
            self.config_id,
            self.config_version,
            self.resumed_chat_group_id,
        ) {
            Ok(url) => url,
            Err(e) => {
                return Err(e);
            },
        };
        let first_frame = match self.session_settings {
            Some(settings) => {
                let message = ClientMessage::SessionSettings { settings };
                Some(message.encode())
            },
            None => None,
        };
        Ok(Handshake { url, first_frame, socket: ChatSocket::connecting() })
    }
}

impl Default for ChatSessionBuilder {
    fn default() -> (r: Self)
        ensures
            r@ == (ChatSessionBuilderView {
                config_id: None,
                config_version: None,
                resumed_chat_group_id: None,
                session_settings: None,
            }),
    {
        ChatSessionBuilder::new()
    }
}

} // verus!
