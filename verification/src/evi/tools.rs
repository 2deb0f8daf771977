//! Requests of the tools API.

use vstd::prelude::*;
use crate::common::json::{
    json_of, object_insert, value_bool, value_object, value_string, with_json, Json,
};

verus! {

/// Request to create a new tool
#[derive(Debug, Clone)]
pub struct CreateToolRequest {
    /// Tool name
    pub name: String,
    /// Tool description
    pub description: String,
    /// Tool parameters schema (JSON Schema)
    pub parameters: serde_json::Value,
    /// Whether the tool is required
    pub required: Option<bool>,
}

/// The mathematical value of a [`CreateToolRequest`].
pub ghost struct CreateToolRequestView {
    pub name: Seq<char>,
    pub description: Seq<char>,
    pub parameters: Json,
    pub required: Option<bool>,
}

impl View for CreateToolRequest {
    type V = CreateToolRequestView;

    open spec fn view(&self) -> CreateToolRequestView {
        CreateToolRequestView {
            name: self.name@,
            description: self.description@,
            parameters: json_of(self.parameters),
            required: self.required,
        }
    }
}

/// The document of an optional truth value.
pub open spec fn opt_bool_json(o: Option<bool>) -> Option<Json> {
    match o {
        Some(b) => Some(Json::Bool(b)),
        None => None,
    }
}

/// The JSON form of a request to create a tool: an object with its name, its
/// description and its parameters, and with `required` where given.
pub open spec fn encode_create_tool(r: CreateToolRequestView) -> Json {
    Json::Object(
        with_json(
            Map::<Seq<char>, Json>::empty().insert("name"@, Json::String(r.name)).insert(
                "description"@,
                Json::String(r.description),
            ).insert("parameters"@, r.parameters),
            "required"@,
            opt_bool_json(r.required),
        ),
    )
}

/// Request to update a tool
#[derive(Debug, Clone)]
pub struct UpdateToolRequest {
    /// Updated name
    pub name: Option<String>,
    /// Updated description
    pub description: Option<String>,
    /// Updated parameters schema
    pub parameters: Option<serde_json::Value>,
    /// Updated required status
    pub required: Option<bool>,
}

impl Default for UpdateToolRequest {
    fn default() -> (r: Self)
        ensures
            r.name is None,
            r.description is None,
            r.parameters is None,
            r.required is None,
    {
        UpdateToolRequest { name: None, description: None, parameters: None, required: None }
    }
}

impl CreateToolRequest {
    /// Create a new tool request builder
    pub fn builder(name: &str, description: &str) -> (r: CreateToolRequestBuilder)
        ensures
            r@ == (CreateToolRequestView {
                name: name@,
                description: description@,
                parameters: Json::Object(Map::empty()),
                required: None,
            }),
    {
        CreateToolRequestBuilder::new(name, description)
    }

    /// The JSON form of the request.
    pub fn to_json(&self) -> (v: serde_json::Value)
        ensures
            json_of(v) == encode_create_tool(self@),
    {
        let mut v = value_object();
        object_insert(&mut v, "name", value_string(self.name.as_str()));
        object_insert(&mut v, "description", value_string(self.description.as_str()));
        object_insert(&mut v, "parameters", self.parameters.clone());
        match self.required {
            Some(b) => {
                object_insert(&mut v, "required", value_bool(b));
            },
            None => {},
        }
        v
    }
}

/// Builder for creating tool requests
#[derive(Debug)]
pub struct CreateToolRequestBuilder {
    request: CreateToolRequest,
}

impl View for CreateToolRequestBuilder {
    type V = CreateToolRequestView;

    closed spec fn view(&self) -> CreateToolRequestView {
        self.request@
    }
}

impl CreateToolRequestBuilder {
    /// Create a new builder, with an empty object as parameters
    pub fn new(name: &str, description: &str) -> (r: Self)
        ensures
            r@ == (CreateToolRequestView {
                name: name@,
                description: description@,
                parameters: Json::Object(Map::empty()),
                required: None,
            }),
    {
        CreateToolRequestBuilder {
            request: CreateToolRequest {
                name: String::from_str(name),
                description: String::from_str(description),
                parameters: value_object(),
                required: None,
            },
        }
    }

    /// Set the parameters schema
    pub fn parameters(self, params: serde_json::Value) -> (r: Self)
        ensures
            r@ == (CreateToolRequestView { parameters: json_of(params), ..self@ }),
    {
        let mut r = self;
        r.request.parameters = params;
        r
    }

    /// Set whether the tool is required
    pub fn required(self, required: bool) -> (r: Self)
        ensures
            r@ == (CreateToolRequestView { required: Some(required), ..self@ }),
    {
        let mut r = self;
        r.request.required = Some(required);
        r
    }

    /// Build the request
    pub fn build(self) -> (r: CreateToolRequest)
        ensures
            r@ == self@,
    {
        self.request
    }
}

} // verus!
