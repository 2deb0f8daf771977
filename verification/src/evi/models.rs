//! Data models for the Empathic Voice Interface API.

use vstd::prelude::*;
use crate::common::collections::StringMap;
use crate::common::json::{json_of, value_string, Json};
use crate::common::text::{opt_str, str_eq};

verus! {

/// Prompt specification
#[derive(Debug, Clone)]
pub struct PromptSpec {
    /// Prompt ID
    pub id: String,
    /// Prompt version
    pub version: Option<u32>,
}

/// Voice specification
#[derive(Debug, Clone)]
pub struct VoiceSpec {
    /// Voice ID
    pub id: String,
}

/// Tool specification
#[derive(Debug, Clone)]
pub struct ToolSpec {
    /// Tool ID
    pub id: String,
    /// Tool version
    pub version: Option<u32>,
}

/// Event messages specification
#[derive(Debug, Clone)]
pub struct EventMessagesSpec {
    /// On new chat message
    pub on_new_chat: Option<String>,
    /// On inactivity timeout message
    pub on_inactivity_timeout: Option<String>,
    /// On max duration timeout message
    pub on_max_duration_timeout: Option<String>,
}

/// Timeouts specification
#[derive(Debug, Clone)]
pub struct TimeoutsSpec {
    /// Inactivity timeout in seconds
    pub inactivity: Option<u32>,
    /// Max duration in seconds
    pub max_duration: Option<u32>,
}

/// Audio encoding
#[derive(Debug, Clone, Copy, PartialEq, Eq, Structural)]
pub enum AudioEncoding {
    /// Linear PCM 16-bit
    Linear16,
    /// μ-law
    Mulaw,
}

impl AudioEncoding {
    /// The name of the encoding on the wire.
    pub open spec fn wire_name(self) -> Seq<char> {
        match self {
            AudioEncoding::Linear16 => "linear16"@,
            AudioEncoding::Mulaw => "mulaw"@,
        }
    }

    /// The encoding that a name on the wire stands for.
    pub open spec fn named(name: Seq<char>) -> Option<AudioEncoding> {
        if name == "linear16"@ {
            Some(AudioEncoding::Linear16)
        } else if name == "mulaw"@ {
            Some(AudioEncoding::Mulaw)
        } else {
            None
        }
    }

    /// The name of the encoding on the wire.
    pub fn as_str(&self) -> (r: &'static str)
        ensures
            r@ == self.wire_name(),
    {
        match self {
            AudioEncoding::Linear16 => "linear16",
            AudioEncoding::Mulaw => "mulaw",
        }
    }

    /// The JSON form of the encoding: its name.
    pub fn to_json(&self) -> (v: serde_json::Value)
        ensures
            json_of(v) == Json::String(self.wire_name()),
    {
        value_string(self.as_str())
    }

    /// The encoding that a name on the wire stands for.
    pub fn from_name(name: &str) -> (r: Option<AudioEncoding>)
        ensures
            r == AudioEncoding::named(name@),
    {
        if str_eq(name, "linear16") {
            Some(AudioEncoding::Linear16)
        } else if str_eq(name, "mulaw") {
            Some(AudioEncoding::Mulaw)
        } else {
            None
        }
    }
}

/// Audio format
#[derive(Debug, Clone, Copy, PartialEq, Eq, Structural)]
pub enum AudioFormat {
    /// Raw audio
    Raw,
    /// WAV container
    Wav,
    /// MP3 format
    Mp3,
}

impl AudioFormat {
    /// The name of the format on the wire.
    pub open spec fn wire_name(self) -> Seq<char> {
        match self {
            AudioFormat::Raw => "raw"@,
            AudioFormat::Wav => "wav"@,
            AudioFormat::Mp3 => "mp3"@,
        }
    }

    /// The format that a name on the wire stands for.
    pub open spec fn named(name: Seq<char>) -> Option<AudioFormat> {
        if name == "raw"@ {
            Some(AudioFormat::Raw)
        } else if name == "wav"@ {
            Some(AudioFormat::Wav)
        } else if name == "mp3"@ {
            Some(AudioFormat::Mp3)
        } else {
            None
        }
    }

    /// The name of the format on the wire.
    pub fn as_str(&self) -> (r: &'static str)
        ensures
            r@ == self.wire_name(),
    {
        match self {
            AudioFormat::Raw => "raw",
            AudioFormat::Wav => "wav",
            AudioFormat::Mp3 => "mp3",
        }
    }

    /// The JSON form of the format: its name.
    pub fn to_json(&self) -> (v: serde_json::Value)
        ensures
            json_of(v) == Json::String(self.wire_name()),
    {
        value_string(self.as_str())
    }

    /// The format that a name on the wire stands for.
    pub fn from_name(name: &str) -> (r: Option<AudioFormat>)
        ensures
            r == AudioFormat::named(name@),
    {
        if str_eq(name, "raw") {
            Some(AudioFormat::Raw)
        } else if str_eq(name, "wav") {
            Some(AudioFormat::Wav)
        } else if str_eq(name, "mp3") {
            Some(AudioFormat::Mp3)
        } else {
            None
        }
    }
}

/// Audio configuration
#[derive(Debug, Clone, Copy)]
pub struct AudioConfig {
    /// Input encoding
    pub input_encoding: Option<AudioEncoding>,
    /// Input sample rate
    pub input_sample_rate: Option<u32>,
    /// Output encoding
    pub output_encoding: Option<AudioEncoding>,
    /// Output sample rate
    pub output_sample_rate: Option<u32>,
    /// Output format
    pub output_format: Option<AudioFormat>,
}

/// Context type
#[derive(Debug, Clone, Copy, PartialEq, Eq, Structural)]
pub enum ContextType {
    /// Persistent context
    Persistent,
    /// Temporary context
    Temporary,
}

impl ContextType {
    /// The name of the context type on the wire.
    pub open spec fn wire_name(self) -> Seq<char> {
        match self {
            ContextType::Persistent => "persistent"@,
            ContextType::Temporary => "temporary"@,
        }
    }

    /// The context type that a name on the wire stands for.
    pub open spec fn named(name: Seq<char>) -> Option<ContextType> {
        if name == "persistent"@ {
            Some(ContextType::Persistent)
        } else if name == "temporary"@ {
            Some(ContextType::Temporary)
        } else {
            None
        }
    }

    /// The name of the context type on the wire.
    pub fn as_str(&self) -> (r: &'static str)
        ensures
            r@ == self.wire_name(),
    {
        match self {
            ContextType::Persistent => "persistent",
            ContextType::Temporary => "temporary",
        }
    }

    /// The JSON form of the context type: its name.
    pub fn to_json(&self) -> (v: serde_json::Value)
        ensures
            json_of(v) == Json::String(self.wire_name()),
    {
        value_string(self.as_str())
    }

    /// The context type that a name on the wire stands for.
    pub fn from_name(name: &str) -> (r: Option<ContextType>)
        ensures
            r == ContextType::named(name@),
    {
        if str_eq(name, "persistent") {
            Some(ContextType::Persistent)
        } else if str_eq(name, "temporary") {
            Some(ContextType::Temporary)
        } else {
            None
        }
    }
}

/// Context for the conversation
#[derive(Debug, Clone)]
pub struct Context {
    /// Context type
    pub context_type: ContextType,
    /// Context text
    pub text: String,
}

/// The mathematical value of a [`Context`].
pub ghost struct ContextView {
    pub context_type: ContextType,
    pub text: Seq<char>,
}

impl View for Context {
    type V = ContextView;

    open spec fn view(&self) -> ContextView {
        ContextView { context_type: self.context_type, text: self.text@ }
    }
}

/// Built-in tool
#[derive(Debug, Clone)]
pub struct BuiltinTool {
    /// Tool name
    pub name: String,
    /// Tool configuration
    pub config: Option<serde_json::Value>,
}

/// The mathematical value of a [`BuiltinTool`].
pub ghost struct BuiltinToolView {
    pub name: Seq<char>,
    pub config: Option<Json>,
}

impl View for BuiltinTool {
    type V = BuiltinToolView;

    open spec fn view(&self) -> BuiltinToolView {
        BuiltinToolView {
            name: self.name@,
            config: match self.config {
                Some(v) => Some(json_of(v)),
                None => None,
            },
        }
    }
}

/// Chat session settings
#[derive(Debug, Clone)]
pub struct SessionSettings {
    /// Audio configuration
    pub audio: Option<AudioConfig>,
    /// System prompt
    pub system_prompt: Option<String>,
    /// Context
    pub context: Option<Context>,
    /// Variable values
    pub variables: Option<StringMap>,
    /// Tool IDs to use
    pub tools: Option<Vec<String>>,
    /// Built-in tools configuration
    pub builtin_tools: Option<Vec<BuiltinTool>>,
}

/// The mathematical value of [`SessionSettings`].
pub ghost struct SessionSettingsView {
    pub audio: Option<AudioConfig>,
    pub system_prompt: Option<Seq<char>>,
    pub context: Option<ContextView>,
    pub variables: Option<Map<Seq<char>, Seq<char>>>,
    pub tools: Option<Seq<Seq<char>>>,
    pub builtin_tools: Option<Seq<BuiltinToolView>>,
}

/// The characters of each string.
pub open spec fn strings_view(v: Seq<String>) -> Seq<Seq<char>> {
    v.map_values(|s: String| s@)
}

/// The value of each built-in tool.
pub open spec fn tools_view(v: Seq<BuiltinTool>) -> Seq<BuiltinToolView> {
    v.map_values(|t: BuiltinTool| t@)
}

impl View for SessionSettings {
    type V = SessionSettingsView;

    open spec fn view(&self) -> SessionSettingsView {
        SessionSettingsView {
            audio: self.audio,
            system_prompt: opt_str(self.system_prompt),
            context: match self.context {
                Some(c) => Some(c@),
                None => None,
            },
            variables: match self.variables {
                Some(m) => Some(m@),
                None => None,
            },
            tools: match self.tools {
                Some(t) => Some(strings_view(t@)),
                None => None,
            },
            builtin_tools: match self.builtin_tools {
                Some(t) => Some(tools_view(t@)),
                None => None,
            },
        }
    }
}

impl Default for SessionSettings {
    fn default() -> (r: Self)
        ensures
            r@ == (SessionSettingsView {
                audio: None,
                system_prompt: None,
                context: None,
                variables: None,
                tools: None,
                builtin_tools: None,
            }),
    {
        SessionSettings {
            audio: None,
            system_prompt: None,
            context: None,
            variables: None,
            tools: None,
            builtin_tools: None,
        }
    }
}

/// Chat status
#[derive(Debug, Clone, Copy, PartialEq, Eq, Structural)]
pub enum ChatStatus {
    /// Chat is active
    Active,
    /// Chat has ended
    Ended,
    /// Chat was interrupted
    Interrupted,
    /// Chat had an error
    Error,
}

impl ChatStatus {
    /// The name of the status on the wire.
    pub open spec fn wire_name(self) -> Seq<char> {
        match self {
            ChatStatus::Active => "active"@,
            ChatStatus::Ended => "ended"@,
            ChatStatus::Interrupted => "interrupted"@,
            ChatStatus::Error => "error"@,
        }
    }

    /// The name of the status on the wire.
    pub fn as_str(&self) -> (r: &'static str)
        ensures
            r@ == self.wire_name(),
    {
        match self {
            ChatStatus::Active => "active",
            ChatStatus::Ended => "ended",
            ChatStatus::Interrupted => "interrupted",
            ChatStatus::Error => "error",
        }
    }

    /// The JSON form of the status: its name.
    pub fn to_json(&self) -> (v: serde_json::Value)
        ensures
            json_of(v) == Json::String(self.wire_name()),
    {
        value_string(self.as_str())
    }
}

/// Message role
#[derive(Debug, Clone, Copy, PartialEq, Eq, Structural)]
pub enum MessageRole {
    /// User message
    User,
    /// Assistant message
    Assistant,
    /// System message
    System,
    /// Tool message
    Tool,
}

impl MessageRole {
    /// The name of the role on the wire.
    pub open spec fn wire_name(self) -> Seq<char> {
        match self {
            MessageRole::User => "user"@,
            MessageRole::Assistant => "assistant"@,
            MessageRole::System => "system"@,
            MessageRole::Tool => "tool"@,
        }
    }

    /// The name of the role on the wire.
    pub fn as_str(&self) -> (r: &'static str)
        ensures
            r@ == self.wire_name(),
    {
        match self {
            MessageRole::User => "user",
            MessageRole::Assistant => "assistant",
            MessageRole::System => "system",
            MessageRole::Tool => "tool",
        }
    }

    /// The JSON form of the role: its name.
    pub fn to_json(&self) -> (v: serde_json::Value)
        ensures
            json_of(v) == Json::String(self.wire_name()),
    {
        value_string(self.as_str())
    }
}

/// Paginated response wrapper
#[derive(Debug, Clone)]
pub struct PagedResponse<T> {
    /// Page number
    pub page_number: u32,
    /// Page size
    pub page_size: u32,
    /// Total pages
    pub total_pages: u32,
    /// Total items
    pub total_items: u64,
    /// Page items
    pub items: Vec<T>,
}

/// Pagination direction for chats
#[derive(Debug, Clone, Copy, PartialEq, Eq, Structural)]
pub enum PaginationDirection {
    /// Ascending order
    Asc,
    /// Descending order
    Desc,
}

impl PaginationDirection {
    /// The name of the direction on the wire.
    pub open spec fn wire_name(self) -> Seq<char> {
        match self {
            PaginationDirection::Asc => "ASC"@,
            PaginationDirection::Desc => "DESC"@,
        }
    }

    /// The name of the direction on the wire.
    pub fn as_str(&self) -> (r: &'static str)
        ensures
            r@ == self.wire_name(),
    {
        match self {
            PaginationDirection::Asc => "ASC",
            PaginationDirection::Desc => "DESC",
        }
    }

    /// The JSON form of the direction: its name.
    pub fn to_json(&self) -> (v: serde_json::Value)
        ensures
            json_of(v) == Json::String(self.wire_name()),
    {
        value_string(self.as_str())
    }
}

} // verus!
