//! Requests of the prompts API.

use vstd::prelude::*;
use crate::common::text::opt_str;

verus! {

/// Request to create a new prompt
#[derive(Debug, Clone)]
pub struct CreatePromptRequest {
    /// Prompt name
    pub name: String,
    /// Prompt text
    pub text: String,
    /// Version description
    pub version_description: Option<String>,
}

/// The mathematical value of a [`CreatePromptRequest`].
pub ghost struct CreatePromptRequestView {
    pub name: Seq<char>,
    pub text: Seq<char>,
    pub version_description: Option<Seq<char>>,
}

impl View for CreatePromptRequest {
    type V = CreatePromptRequestView;

    open spec fn view(&self) -> CreatePromptRequestView {
        CreatePromptRequestView {
            name: self.name@,
            text: self.text@,
            version_description: opt_str(self.version_description),
        }
    }
}

/// Request to update a prompt
#[derive(Debug, Clone)]
pub struct UpdatePromptRequest {
    /// Updated name
    pub name: Option<String>,
    /// Updated text
    pub text: Option<String>,
}

impl Default for UpdatePromptRequest {
    fn default() -> (r: Self)
        ensures
            r.name is None,
            r.text is None,
    {
        UpdatePromptRequest { name: None, text: None }
    }
}

/// Request to create a new prompt version
#[derive(Debug, Clone)]
pub struct CreatePromptVersionRequest {
    /// New prompt text
    pub text: String,
    /// Version description
    pub version_description: Option<String>,
}

impl CreatePromptRequest {
    /// Create a new prompt request builder
    pub fn builder(name: &str, text: &str) -> (r: CreatePromptRequestBuilder)
        ensures
            r@ == (CreatePromptRequestView { name: name@, text: text@, version_description: None }),
    {
        CreatePromptRequestBuilder::new(name, text)
    }
}

/// Builder for creating prompt requests
#[derive(Debug)]
pub struct CreatePromptRequestBuilder {
    request: CreatePromptRequest,
}

impl View for CreatePromptRequestBuilder {
    type V = CreatePromptRequestView;

    closed spec fn view(&self) -> CreatePromptRequestView {
        self.request@
    }
}

impl CreatePromptRequestBuilder {
    /// Create a new builder
    pub fn new(name: &str, text: &str) -> (r: Self)
        ensures
            r@ == (CreatePromptRequestView { name: name@, text: text@, version_description: None }),
    {
        CreatePromptRequestBuilder {
            request: CreatePromptRequest {
                name: String::from_str(name),
                text: String::from_str(text),
                version_description: None,
            },
        }
    }

    /// Set the version description
    pub fn version_description(self, description: &str) -> (r: Self)
        ensures
            r@ == (CreatePromptRequestView { version_description: Some(description@), ..self@ }),
    {
        let mut r = self;
        r.request.version_description = Some(String::from_str(description));
        r
    }

    /// Build the request
    pub fn build(self) -> (r: CreatePromptRequest)
        ensures
            r@ == self@,
    {
        self.request
    }
}

} // verus!
