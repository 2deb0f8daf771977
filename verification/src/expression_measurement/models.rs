//! Data models for the Expression Measurement API.

use vstd::prelude::*;
use std::collections::HashMap;
use crate::common::json::{
    json_of, object_insert, value_null, value_object, value_string, Json,
};
use crate::common::text::opt_str;

verus! {

/// Sentiment configuration
#[derive(Debug, Clone, Copy)]
pub struct SentimentConfig {}

/// Toxicity configuration
#[derive(Debug, Clone, Copy)]
pub struct ToxicityConfig {}

/// Language emotion model configuration
#[derive(Debug, Clone)]
pub struct LanguageModel {
    /// Sentiment analysis
    pub sentiment: Option<SentimentConfig>,
    /// Toxicity detection
    pub toxicity: Option<ToxicityConfig>,
    /// Granularity level
    pub granularity: Option<String>,
}

impl Default for LanguageModel {
    fn default() -> (r: Self)
        ensures
            r.sentiment is None,
            r.toxicity is None,
            r.granularity is None,
    {
        LanguageModel { sentiment: None, toxicity: None, granularity: None }
    }
}

/// Vocal burst model configuration
#[derive(Debug, Clone, Copy)]
pub struct BurstModel {}

/// Named entity recognition model configuration
#[derive(Debug, Clone, Copy)]
pub struct NerModel {}

/// File input for processing
#[derive(Debug, Clone)]
pub struct FileInput {
    /// File content type
    pub content_type: Option<String>,
    /// File name
    pub filename: String,
    /// File data (base64 encoded for JSON)
    pub data: String,
    /// MD5 hash
    pub md5: Option<String>,
}

/// Input source for batch processing
#[derive(Debug, Clone)]
pub enum Source {
    /// File source
    File {
        /// File to process
        file: FileInput,
    },
    /// URL source
    Url {
        /// URL to fetch
        url: String,
    },
    /// Text source
    Text {
        /// Text content
        text: String,
    },
}

/// The document of an optional string: `null` where there is none.
pub open spec fn string_or_null(o: Option<Seq<char>>) -> Json {
    match o {
        Some(s) => Json::String(s),
        None => Json::Null,
    }
}

impl Source {
    /// The JSON form of the source: an object whose `type` names the kind of
    /// the source, with the members of the file, the `url` or the `text`.
    pub open spec fn spec_json(&self) -> Json {
        match self {
            Source::File { file } => Json::Object(
                Map::<Seq<char>, Json>::empty().insert("type"@, Json::String("file"@)).insert(
                    "content_type"@,
                    string_or_null(opt_str(file.content_type)),
                ).insert("filename"@, Json::String(file.filename@)).insert(
                    "data"@,
                    Json::String(file.data@),
                ).insert("md5"@, string_or_null(opt_str(file.md5))),
            ),
            Source::Url { url } => Json::Object(
                Map::<Seq<char>, Json>::empty().insert("type"@, Json::String("url"@)).insert(
                    "url"@,
                    Json::String(url@),
                ),
            ),
            Source::Text { text } => Json::Object(
                Map::<Seq<char>, Json>::empty().insert("type"@, Json::String("text"@)).insert(
                    "text"@,
                    Json::String(text@),
                ),
            ),
        }
    }

    /// The JSON form of the source.
    pub fn to_json(&self) -> (v: serde_json::Value)
        ensures
            json_of(v) == self.spec_json(),
    {
        let mut v = value_object();
        match self {
            Source::File { file } => {
                object_insert(&mut v, "type", value_string("file"));
                let content_type = match &file.content_type {
                    Some(s) => value_string(s.as_str()),
                    None => value_null(),
                };
                object_insert(&mut v, "content_type", content_type);
                object_insert(&mut v, "filename", value_string(file.filename.as_str()));
                object_insert(&mut v, "data", value_string(file.data.as_str()));
                let md5 = match &file.md5 {
                    Some(s) => value_string(s.as_str()),
                    None => value_null(),
                };
                object_insert(&mut v, "md5", md5);
            },
            Source::Url { url } => {
                object_insert(&mut v, "type", value_string("url"));
                object_insert(&mut v, "url", value_string(url.as_str()));
            },
            Source::Text { text } => {
                object_insert(&mut v, "type", value_string("text"));
                object_insert(&mut v, "text", value_string(text.as_str()));
            },
        }
        v
    }
}

/// Job ID response from create endpoint
#[derive(Debug, Clone)]
pub struct JobId {
    /// Job ID
    pub job_id: String,
}

/// Batch job status
#[derive(Debug, Clone, Copy, PartialEq, Eq, Structural)]
pub enum JobStatus {
    /// Job is queued
    Queued,
    /// Job is in progress
    InProgress,
    /// Job completed successfully
    Completed,
    /// Job failed
    Failed,
}

impl JobStatus {
    /// The name of the status on the wire.
    pub open spec fn wire_name(self) -> Seq<char> {
        match self {
            JobStatus::Queued => "QUEUED"@,
            JobStatus::InProgress => "IN_PROGRESS"@,
            JobStatus::Completed => "COMPLETED"@,
            JobStatus::Failed => "FAILED"@,
        }
    }

    /// The name of the status on the wire.
    pub fn as_str(&self) -> (r: &'static str)
        ensures
            r@ == self.wire_name(),
    {
        match self {
            JobStatus::Queued => "QUEUED",
            JobStatus::InProgress => "IN_PROGRESS",
            JobStatus::Completed => "COMPLETED",
            JobStatus::Failed => "FAILED",
        }
    }

    /// The JSON form of the status: its name.
    pub fn to_json(&self) -> (v: serde_json::Value)
        ensures
            json_of(v) == Json::String(self.wire_name()),
    {
        value_string(self.as_str())
    }
}

/// State information for inference job
#[derive(Debug, Clone)]
pub enum StateInference {
    /// Job is queued
    Queued {
        /// Creation timestamp
        created_timestamp_ms: i64,
    },
    /// Job is in progress
    InProgress {
        /// Creation timestamp
        created_timestamp_ms: i64,
        /// Start timestamp
        started_timestamp_ms: i64,
    },
    /// Job completed successfully
    Completed {
        /// Creation timestamp
        created_timestamp_ms: i64,
        /// Start timestamp
        started_timestamp_ms: i64,
        /// End timestamp
        ended_timestamp_ms: i64,
    },
    /// Job failed
    Failed {
        /// Creation timestamp
        created_timestamp_ms: i64,
        /// Start timestamp
        started_timestamp_ms: Option<i64>,
        /// End timestamp
        ended_timestamp_ms: i64,
        /// Error message
        message: String,
    },
}

impl StateInference {
    /// The status of the job.
    pub open spec fn spec_status(&self) -> JobStatus {
        match self {
            StateInference::Queued { .. } => JobStatus::Queued,
            StateInference::InProgress { .. } => JobStatus::InProgress,
            StateInference::Completed { .. } => JobStatus::Completed,
            StateInference::Failed { .. } => JobStatus::Failed,
        }
    }

    /// The status of the job.
    pub fn status(&self) -> (r: JobStatus)
        ensures
            r == self.spec_status(),
    {
        match self {
            StateInference::Queued { .. } => JobStatus::Queued,
            StateInference::InProgress { .. } => JobStatus::InProgress,
            StateInference::Completed { .. } => JobStatus::Completed,
            StateInference::Failed { .. } => JobStatus::Failed,
        }
    }
}

/// Job state information (for other job types)
#[derive(Debug, Clone)]
pub struct JobState {
    /// Created jobs
    pub created_jobs: Vec<String>,
    /// In-progress jobs
    pub in_progress_jobs: Vec<String>,
    /// Completed jobs
    pub completed_jobs: Vec<String>,
    /// Failed jobs
    pub failed_jobs: Vec<String>,
}

/// Source information
#[derive(Debug, Clone)]
pub struct SourceInfo {
    /// Source type
    pub source_type: String,
    /// Filename if applicable
    pub filename: Option<String>,
    /// URL if applicable
    pub url: Option<String>,
    /// Content type
    pub content_type: Option<String>,
}

/// Time range
#[derive(Debug, Clone, Copy)]
pub struct TimeRange {
    /// Start time in milliseconds
    pub start_ms: u32,
    /// End time in milliseconds
    pub end_ms: u32,
}

/// Text position
#[derive(Debug, Clone, Copy)]
pub struct Position {
    /// Start offset
    pub start: usize,
    /// End offset
    pub end: usize,
}

/// Prediction error
#[derive(Debug, Clone)]
pub struct PredictionError {
    /// Error message
    pub message: String,
    /// Error code
    pub code: Option<String>,
    /// File that caused the error
    pub file: Option<String>,
}

/// Job artifacts
#[derive(Debug, Clone)]
pub struct JobArtifacts {
    /// Artifact URLs by type
    pub artifacts: HashMap<String, Vec<String>>,
}

} // verus!
