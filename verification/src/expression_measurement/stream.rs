//! The streaming session of Expression Measurement: its messages and its
//! lifecycle.

use vstd::prelude::*;
use crate::common::auth::{opt_auth, Auth, AuthView};
use crate::common::client::HumeClient;
use crate::common::encoding::{base64_text, max_base64_input, to_base64};
use crate::common::error::{Error, ErrorView, WebSocketFailure, WebSocketFailureView};
use crate::common::json::{
    from_text, json_error, json_of, json_parsed, json_rendered, member_of, object_insert,
    optional_string, read_optional_string, read_string, read_value, required_string, to_text,
    value_object, value_string, Json,
};
use crate::common::text::{opt_str, replaced, str_eq};
use crate::evi::chat::{
    is_live, state_after_close, state_after_event, state_after_handshake, websocket_base,
    SessionState, TransportEvent, TransportEventView,
};

verus! {

/// Data to send for streaming
#[derive(Debug, Clone)]
pub enum StreamData {
    /// Text data
    Text {
        /// Text content
        text: String,
    },
    /// Audio data
    Audio {
        /// Base64 encoded audio
        data: String,
    },
    /// Video frame
    VideoFrame {
        /// Base64 encoded frame
        data: String,
    },
}

/// The mathematical value of [`StreamData`].
pub ghost enum StreamDataView {
    Text { text: Seq<char> },
    Audio { data: Seq<char> },
    VideoFrame { data: Seq<char> },
}

impl View for StreamData {
    type V = StreamDataView;

    open spec fn view(&self) -> StreamDataView {
        match self {
            StreamData::Text { text } => StreamDataView::Text { text: text@ },
            StreamData::Audio { data } => StreamDataView::Audio { data: data@ },
            StreamData::VideoFrame { data } => StreamDataView::VideoFrame { data: data@ },
        }
    }
}

/// The JSON form of stream data: an object whose `type` names the kind of the
/// data, with its `text` or its `data`.
pub open spec fn encode_stream_data(d: StreamDataView) -> Json {
    match d {
        StreamDataView::Text { text } => Json::Object(
            Map::<Seq<char>, Json>::empty().insert("type"@, Json::String("text"@)).insert(
                "text"@,
                Json::String(text),
            ),
        ),
        StreamDataView::Audio { data } => Json::Object(
            Map::<Seq<char>, Json>::empty().insert("type"@, Json::String("audio"@)).insert(
                "data"@,
                Json::String(data),
            ),
        ),
        StreamDataView::VideoFrame { data } => Json::Object(
            Map::<Seq<char>, Json>::empty().insert("type"@, Json::String("video_frame"@)).insert(
                "data"@,
                Json::String(data),
            ),
        ),
    }
}

impl StreamData {
    /// The JSON form of the data.
    pub fn to_json(&self) -> (v: serde_json::Value)
        ensures
            json_of(v) == encode_stream_data(self@),
    {
        let mut v = value_object();
        match self {
            StreamData::Text { text } => {
                object_insert(&mut v, "type", value_string("text"));
                object_insert(&mut v, "text", value_string(text.as_str()));
            },
            StreamData::Audio { data } => {
                object_insert(&mut v, "type", value_string("audio"));
                object_insert(&mut v, "data", value_string(data.as_str()));
            },
            StreamData::VideoFrame { data } => {
                object_insert(&mut v, "type", value_string("video_frame"));
                object_insert(&mut v, "data", value_string(data.as_str()));
            },
        }
        v
    }

    /// The text frame that carries the data.
    pub fn encode(&self) -> (frame: String)
        ensures
            frame@ == json_rendered(encode_stream_data(self@)),
    {
        let v = self.to_json();
        to_text(&v)
    }
}

/// Messages received from the stream
#[derive(Debug, Clone)]
pub enum StreamMessage {
    /// Job details
    JobDetails {
        /// Job ID
        job_id: String,
    },
    /// Predictions
    Predictions {
        /// Prediction results, as the server sent them
        predictions: serde_json::Value,
    },
    /// Error
    Error {
        /// Error message
        message: String,
        /// Error code
        code: Option<String>,
    },
    /// Warning
    Warning {
        /// Warning message
        message: String,
    },
    /// Unknown message type
    Unknown,
}

/// The mathematical value of a [`StreamMessage`].
pub ghost enum StreamMessageView {
    JobDetails { job_id: Seq<char> },
    Predictions { predictions: Json },
    Error { message: Seq<char>, code: Option<Seq<char>> },
    Warning { message: Seq<char> },
    Unknown,
}

impl View for StreamMessage {
    type V = StreamMessageView;

    open spec fn view(&self) -> StreamMessageView {
        match self {
            StreamMessage::JobDetails { job_id } => StreamMessageView::JobDetails {
                job_id: job_id@,
            },
            StreamMessage::Predictions { predictions } => StreamMessageView::Predictions {
                predictions: json_of(*predictions),
            },
            StreamMessage::Error { message, code } => StreamMessageView::Error {
                message: message@,
                code: opt_str(*code),
            },
            StreamMessage::Warning { message } => StreamMessageView::Warning { message: message@ },
            StreamMessage::Unknown => StreamMessageView::Unknown,
        }
    }
}

/// The stream message that a document stands for: `Unknown` where its `type`
/// names no kind that this crate knows; `None` where the document is no object,
/// has no `type` that is a string, or lacks a field of its kind.
pub open spec fn decode_stream_message(j: Json) -> Option<StreamMessageView> {
    match required_string(j, "type"@) {
        None => None,
        Some(tag) => if tag == "job_details"@ {
            match required_string(j, "job_id"@) {
                Some(job_id) => Some(StreamMessageView::JobDetails { job_id }),
                None => None,
            }
        } else if tag == "predictions"@ {
            match member_of(j, "predictions"@) {
                Some(predictions) => Some(StreamMessageView::Predictions { predictions }),
                None => None,
            }
        } else if tag == "error"@ {
            match (required_string(j, "message"@), optional_string(j, "code"@)) {
                (Some(message), Some(code)) => Some(StreamMessageView::Error { message, code }),
                _ => None,
            }
        } else if tag == "warning"@ {
            match required_string(j, "message"@) {
                Some(message) => Some(StreamMessageView::Warning { message }),
                None => None,
            }
        } else {
            Some(StreamMessageView::Unknown)
        },
    }
}

/// What a text frame of the stream holds: `None` where the text is not JSON or
/// the document stands for no stream message.
pub open spec fn decode_stream_frame(text: Seq<char>) -> Option<StreamMessageView> {
    match json_parsed(text) {
        Some(j) => decode_stream_message(j),
        None => None,
    }
}

/// The view of an optional stream message.
pub open spec fn opt_stream_message(o: Option<StreamMessage>) -> Option<StreamMessageView> {
    match o {
        Some(m) => Some(m@),
        None => None,
    }
}

impl StreamMessage {
    /// Reads a message from its JSON form.
    pub fn from_json(v: &serde_json::Value) -> (r: Option<StreamMessage>)
        ensures
            opt_stream_message(r) == decode_stream_message(json_of(*v)),
    {
        let tag = match read_string(v, "type") {
            Some(t) => t,
            None => {
                return None;
            },
        };
        let tag = tag.as_str();
        if str_eq(tag, "job_details") {
            match read_string(v, "job_id") {
                Some(job_id) => Some(StreamMessage::JobDetails { job_id }),
                None => None,
            }
        } else if str_eq(tag, "predictions") {
            match read_value(v, "predictions") {
                Some(predictions) => Some(StreamMessage::Predictions { predictions }),
                None => None,
            }
        } else if str_eq(tag, "error") {
            let message = read_string(v, "message");
            let code = read_optional_string(v, "code");
            match (message, code) {
                (Some(message), Some(code)) => Some(StreamMessage::Error { message, code }),
                _ => None,
            }
        } else if str_eq(tag, "warning") {
            match read_string(v, "message") {
                Some(message) => Some(StreamMessage::Warning { message }),
                None => None,
            }
        } else {
            Some(StreamMessage::Unknown)
        }
    }

    /// Reads the message that a text frame holds. A frame that is not JSON, or
    /// whose document stands for no stream message, gives a JSON error.
    pub fn decode(text: &str) -> (r: Result<StreamMessage, Error>)
        ensures
            match r {
                Ok(m) => decode_stream_frame(text@) == Some(m@),
                Err(e) => decode_stream_frame(text@) is None && e@ is Json,
            },
    {
        match from_text(text) {
            Ok(v) => match StreamMessage::from_json(&v) {
                Some(m) => Ok(m),
                None => Err(Error::Json(json_error("frame holds no stream message"))),
            },
            Err(e) => Err(Error::Json(e)),
        }
    }
}

/// The address of the streaming endpoint for a base URL and a credential.
pub open spec fn stream_url(base_url: Seq<char>, auth: AuthView) -> Seq<char> {
    replaced(base_url, "https://"@, "wss://"@) + "/v0/stream/models?"@ + auth.query().0 + "="@
        + auth.query().1
}

/// Client for streaming expression measurement
#[derive(Debug)]
pub struct StreamClient {
    base_url: String,
    auth: Option<Auth>,
}

impl StreamClient {
    /// The base URL of the service.
    pub closed spec fn spec_base_url(&self) -> Seq<char> {
        self.base_url@
    }

    /// The credential, if one is configured.
    pub closed spec fn spec_auth(&self) -> Option<AuthView> {
        opt_auth(self.auth)
    }

    /// Create a new stream client
    pub fn new(client: &HumeClient) -> (r: Self)
        ensures
            r.spec_base_url() == client.base_url@,
            r.spec_auth() == opt_auth(client.http.auth),
    {
        let auth = match &client.http.auth {
            Some(a) => Some(a.clone()),
            None => None,
        };
        StreamClient { base_url: client.base_url.clone(), auth }
    }

    /// The address at which to connect to the stream. Without a credential this
    /// is an authentication error.
    fn connect_url(&self) -> (r: Result<String, Error>)
        ensures
            match r {
                Ok(url) => self.spec_auth() matches Some(auth) && url@ == stream_url(
                    self.spec_base_url(),
                    auth,
                ),
                Err(e) => self.spec_auth() is None && e@ == ErrorView::Auth(
                    "No authentication configured"@,
                ),
            },
    {
        let auth = match &self.auth {
            Some(a) => a,
            None => {
                return Err(Error::auth("No authentication configured"));
            },
        };
        let param = auth.query_param();
        let mut url = websocket_base(self.base_url.as_str());
        url.append("/v0/stream/models?");
        url.append(param.0);
        url.append("=");
        url.append(param.1.as_str());
        Ok(url)
    }

    /// Connect to the streaming WebSocket, for the models that `models` is the
    /// JSON form of: gives the address of the endpoint and the handle of the
    /// session, whose handshake the caller performs. Without a credential this
    /// is an authentication error.
    pub fn connect(&self, models: serde_json::Value) -> (r: Result<StreamHandshake, Error>)
        ensures
            match r {
                Ok(h) => self.spec_auth() matches Some(auth) && h.url@ == stream_url(
                    self.spec_base_url(),
                    auth,
                ) && h.socket@ == (StreamSocketView {
                    state: SessionState::Connecting,
                    models: json_of(models),
                }),
                Err(e) => self.spec_auth() is None && e@ == ErrorView::Auth(
                    "No authentication configured"@,
                ),
            },
    {
        match self.connect_url() {
            Ok(url) => Ok(StreamHandshake { url, socket: StreamSocket::connecting(models) }),
            Err(e) => Err(e),
        }
    }
}

/// What it takes to open a streaming session: where to connect, and the handle
/// of the session.
#[derive(Debug)]
pub struct StreamHandshake {
    /// The address of the endpoint.
    pub url: String,
    /// The session, which waits for the end of the handshake.
    pub socket: StreamSocket,
}

/// The handle of one streaming session: its state, and the models that it was
/// opened for.
#[derive(Debug)]
pub struct StreamSocket {
    state: SessionState,
    models: serde_json::Value,
}

/// The mathematical value of a [`StreamSocket`].
pub ghost struct StreamSocketView {
    pub state: SessionState,
    pub models: Json,
}

impl View for StreamSocket {
    type V = StreamSocketView;

    closed spec fn view(&self) -> StreamSocketView {
        StreamSocketView { state: self.state, models: json_of(self.models) }
    }
}

/// The JSON form of the configuration of a stream: an object with the models.
pub open spec fn encode_stream_config(models: Json) -> Json {
    Json::Object(Map::<Seq<char>, Json>::empty().insert("models"@, models))
}

/// The frame that a sending function hands out for a document, or the error
/// that it gives where the session is not open.
pub open spec fn stream_sent(state: SessionState, document: Json) -> Result<Seq<char>, ErrorView> {
    if state is Open {
        Ok(json_rendered(document))
    } else {
        Err(ErrorView::WebSocket(WebSocketFailureView::AlreadyClosed))
    }
}

/// The view of what a sending function returned.
pub open spec fn stream_sent_view(r: Result<String, Error>) -> Result<Seq<char>, ErrorView> {
    match r {
        Ok(frame) => Ok(frame@),
        Err(e) => Err(e@),
    }
}

/// What `receive` answers on a stream. `Ok(None)` tells of an orderly end; a
/// frame of another kind than text reads as `Unknown`; `None` here stands for
/// a JSON error.
pub open spec fn stream_received(state: SessionState, event: TransportEventView) -> Result<
    Option<StreamMessageView>,
    Option<ErrorView>,
> {
    if !is_live(state) {
        Err(Some(ErrorView::WebSocket(WebSocketFailureView::AlreadyClosed)))
    } else {
        match event {
            TransportEventView::Text(t) => match decode_stream_frame(t) {
                Some(m) => Ok(Some(m)),
                None => Err(None),
            },
            TransportEventView::Close => Ok(None),
            TransportEventView::End => Ok(None),
            TransportEventView::Other => Ok(Some(StreamMessageView::Unknown)),
            TransportEventView::Failure(f) => Err(Some(ErrorView::WebSocket(f))),
        }
    }
}

impl StreamSocket {
    /// Create a new stream socket on a connection whose handshake succeeded,
    /// for the models that `models` is the JSON form of
    pub fn new(models: serde_json::Value) -> (s: Self)
        ensures
            s@ == (StreamSocketView { state: SessionState::Open, models: json_of(models) }),
    {
        StreamSocket { state: SessionState::Open, models }
    }

    /// A session whose handshake is under way.
    pub fn connecting(models: serde_json::Value) -> (s: Self)
        ensures
            s@ == (StreamSocketView { state: SessionState::Connecting, models: json_of(models) }),
    {
        StreamSocket { state: SessionState::Connecting, models }
    }

    /// Tells the session how the handshake ended.
    pub fn handshake_done(&mut self, ok: bool)
        ensures
            final(self)@ == (StreamSocketView {
                state: state_after_handshake(old(self)@.state, ok),
                ..old(self)@
            }),
    {
        if let SessionState::Connecting = self.state {
            self.state = if ok {
                SessionState::Open
            } else {
                SessionState::Failed
            };
        }
    }

    /// The state of the session.
    pub fn state(&self) -> (r: SessionState)
        ensures
            r == self@.state,
    {
        self.state
    }

    fn send_document(&self, document: &serde_json::Value) -> (r: Result<String, Error>)
        ensures
            stream_sent_view(r) == stream_sent(self@.state, json_of(*document)),
    {
        match self.state {
            SessionState::Open => Ok(to_text(document)),
            _ => Err(Error::WebSocket(WebSocketFailure::AlreadyClosed)),
        }
    }

    /// Send the initial configuration: gives the frame that names the models.
    pub fn send_config(&mut self) -> (r: Result<String, Error>)
        ensures
            final(self)@ == old(self)@,
            stream_sent_view(r) == stream_sent(
                old(self)@.state,
                encode_stream_config(old(self)@.models),
            ),
    {
        let mut config = value_object();
        object_insert(&mut config, "models", self.models.clone());
        self.send_document(&config)
    }

    /// Send data for processing
    pub fn send_data(&mut self, data: StreamData) -> (r: Result<String, Error>)
        ensures
            final(self)@ == old(self)@,
            stream_sent_view(r) == stream_sent(old(self)@.state, encode_stream_data(data@)),
    {
        let document = data.to_json();
        self.send_document(&document)
    }

    /// Send text for processing
    pub fn send_text(&mut self, text: String) -> (r: Result<String, Error>)
        ensures
            final(self)@ == old(self)@,
            stream_sent_view(r) == stream_sent(
                old(self)@.state,
                encode_stream_data(StreamDataView::Text { text: text@ }),
            ),
    {
        self.send_data(StreamData::Text { text })
    }

    /// Send audio data for processing: the bytes go out in base64. More bytes
    /// than base64 can take on this machine give a validation error.
    pub fn send_audio(&mut self, data: Vec<u8>) -> (r: Result<String, Error>)
        ensures
            final(self)@ == old(self)@,
            data@.len() <= max_base64_input() ==> stream_sent_view(r) == stream_sent(
                old(self)@.state,
                encode_stream_data(StreamDataView::Audio { data: base64_text(data@) }),
            ),
            data@.len() > max_base64_input() ==> r is Err && r->Err_0@ == ErrorView::Validation(
                "Audio input is too large"@,
            ),
    {
        match to_base64(data.as_slice()) {
            Some(text) => self.send_data(StreamData::Audio { data: text }),
            None => Err(Error::validation("Audio input is too large")),
        }
    }

    /// Send video frame for processing: the bytes go out in base64. More bytes
    /// than base64 can take on this machine give a validation error.
    pub fn send_video_frame(&mut self, data: Vec<u8>) -> (r: Result<String, Error>)
        ensures
            final(self)@ == old(self)@,
            data@.len() <= max_base64_input() ==> stream_sent_view(r) == stream_sent(
                old(self)@.state,
                encode_stream_data(StreamDataView::VideoFrame { data: base64_text(data@) }),
            ),
            data@.len() > max_base64_input() ==> r is Err && r->Err_0@ == ErrorView::Validation(
                "Video frame is too large"@,
            ),
    {
        match to_base64(data.as_slice()) {
            Some(text) => self.send_data(StreamData::VideoFrame { data: text }),
            None => Err(Error::validation("Video frame is too large")),
        }
    }

    /// Receive the next message: takes what the transport handed over, as a
    /// chat session does.
    pub fn receive(&mut self, event: TransportEvent) -> (r: Result<Option<StreamMessage>, Error>)
        ensures
            final(self)@ == (StreamSocketView {
                state: state_after_event(old(self)@.state, event@),
                ..old(self)@
            }),
            match r {
                Ok(m) => stream_received(old(self)@.state, event@) == Ok::<
                    Option<StreamMessageView>,
                    Option<ErrorView>,
                >(opt_stream_message(m)),
                Err(e) => match stream_received(old(self)@.state, event@) {
                    Err(Some(x)) => e@ == x,
                    Err(None) => e@ is Json,
                    Ok(_) => false,
                },
            },
    {
        match self.state {
            SessionState::Open => {},
            SessionState::Closing => {},
            _ => {
                return Err(Error::WebSocket(WebSocketFailure::AlreadyClosed));
            },
        }
        match event {
            TransportEvent::Text(text) => match StreamMessage::decode(text.as_str()) {
                Ok(message) => Ok(Some(message)),
                Err(e) => Err(e),
            },
            TransportEvent::Close => {
                self.state = SessionState::Closed;
                Ok(None)
            },
            TransportEvent::End => {
                self.state = SessionState::Closed;
                Ok(None)
            },
            TransportEvent::Other => Ok(Some(StreamMessage::Unknown)),
            TransportEvent::Failure(f) => {
                self.state = SessionState::Failed;
                Err(Error::WebSocket(f))
            },
        }
    }

    /// Close the connection: an open session starts closing, and the caller
    /// sends the close frame. On any other session this is the error "already
    /// closed", and the session stays as it is.
    pub fn close(&mut self) -> (r: Result<(), Error>)
        ensures
            final(self)@ == (StreamSocketView {
                state: state_after_close(old(self)@.state),
                ..old(self)@
            }),
            match r {
                Ok(_) => old(self)@.state is Open,
                Err(e) => !(old(self)@.state is Open) && e@ == ErrorView::WebSocket(
                    WebSocketFailureView::AlreadyClosed,
                ),
            },
    {
        match self.state {
            SessionState::Open => {
                self.state = SessionState::Closing;
                Ok(())
            },
            _ => Err(Error::WebSocket(WebSocketFailure::AlreadyClosed)),
        }
    }
}

} // verus!
