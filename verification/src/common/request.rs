//! Request configuration options.

use vstd::prelude::*;
use std::time::Duration;
use crate::common::collections::{pairs_map, pairs_view, StringMap};
use crate::common::text::{decimal, decimal_string};

verus! {

/// Options for customizing HTTP requests
#[derive(Debug, Clone)]
pub struct RequestOptions {
    /// Additional headers to include in the request
    pub headers: StringMap,
    /// Query parameters to include in the request
    pub query: StringMap,
    /// Request timeout
    pub timeout: Option<Duration>,
    /// Maximum number of retries
    pub max_retries: Option<u32>,
}

/// The mathematical value of [`RequestOptions`].
pub ghost struct RequestOptionsView {
    pub headers: Map<Seq<char>, Seq<char>>,
    pub query: Map<Seq<char>, Seq<char>>,
    pub timeout: Option<Duration>,
    pub max_retries: Option<u32>,
}

impl View for RequestOptions {
    type V = RequestOptionsView;

    open spec fn view(&self) -> RequestOptionsView {
        RequestOptionsView {
            headers: self.headers@,
            query: self.query@,
            timeout: self.timeout,
            max_retries: self.max_retries,
        }
    }
}

/// Options that set nothing.
pub open spec fn empty_options() -> RequestOptionsView {
    RequestOptionsView {
        headers: Map::empty(),
        query: Map::empty(),
        timeout: None,
        max_retries: None,
    }
}

/// The options that [`RequestOptions::merge`] makes of two: headers and query
/// parameters of both, and each setting of `other` that is present in place of
/// that of `base`.
pub open spec fn merged_options(base: RequestOptionsView, other: RequestOptionsView) -> RequestOptionsView {
    RequestOptionsView {
        headers: base.headers.union_prefer_right(other.headers),
        query: base.query.union_prefer_right(other.query),
        timeout: if other.timeout is Some {
            other.timeout
        } else {
            base.timeout
        },
        max_retries: if other.max_retries is Some {
            other.max_retries
        } else {
            base.max_retries
        },
    }
}

impl Default for RequestOptions {
    fn default() -> (r: Self)
        ensures
            r@ == empty_options(),
    {
        RequestOptions {
            headers: StringMap::new(),
            query: StringMap::new(),
            timeout: None,
            max_retries: None,
        }
    }
}

impl RequestOptions {
    /// Create a new RequestOptions with default values
    pub fn new() -> (r: Self)
        ensures
            r@ == empty_options(),
    {
        RequestOptions {
            headers: StringMap::new(),
            query: StringMap::new(),
            timeout: None,
            max_retries: None,
        }
    }

    /// Add a header
    pub fn with_header(self, key: &str, value: &str) -> (r: Self)
        ensures
            r@ == (RequestOptionsView { headers: self@.headers.insert(key@, value@), ..self@ }),
    {
        let mut r = self;
        r.headers.insert(String::from_str(key), String::from_str(value));
        r
    }

    /// Add a query parameter
    pub fn with_query(self, key: &str, value: &str) -> (r: Self)
        ensures
            r@ == (RequestOptionsView { query: self@.query.insert(key@, value@), ..self@ }),
    {
        let mut r = self;
        r.query.insert(String::from_str(key), String::from_str(value));
        r
    }

    /// Set the timeout
    pub fn with_timeout(self, timeout: Duration) -> (r: Self)
        ensures
            r@ == (RequestOptionsView { timeout: Some(timeout), ..self@ }),
    {
        let mut r = self;
        r.timeout = Some(timeout);
        r
    }

    /// Set the maximum number of retries
    pub fn with_max_retries(self, max_retries: u32) -> (r: Self)
        ensures
            r@ == (RequestOptionsView { max_retries: Some(max_retries), ..self@ }),
    {
        let mut r = self;
        r.max_retries = Some(max_retries);
        r
    }

    /// Merge with another RequestOptions, with other taking precedence
    pub fn merge(self, other: RequestOptions) -> (r: Self)
        ensures
            r@ == merged_options(self@, other@),
    {
        let mut r = self;
        r.headers.extend(&other.headers);
        r.query.extend(&other.query);
        if other.timeout.is_some() {
            r.timeout = other.timeout;
        }
        if other.max_retries.is_some() {
            r.max_retries = other.max_retries;
        }
        r
    }
}

/// The query with a number at `key` where one is given.
pub open spec fn with_number(
    query: Map<Seq<char>, Seq<char>>,
    key: Seq<char>,
    value: Option<u32>,
) -> Map<Seq<char>, Seq<char>> {
    match value {
        Some(n) => query.insert(key, decimal(n as nat)),
        None => query,
    }
}

/// The query with `true` or `false` at `key` where a truth value is given.
pub open spec fn with_flag(
    query: Map<Seq<char>, Seq<char>>,
    key: Seq<char>,
    value: Option<bool>,
) -> Map<Seq<char>, Seq<char>> {
    match value {
        Some(b) => query.insert(
            key,
            if b {
                "true"@
            } else {
                "false"@
            },
        ),
        None => query,
    }
}

impl RequestOptions {
    /// Adds a number as a query parameter, where one is given.
    pub fn with_number(self, key: &str, value: Option<u32>) -> (r: Self)
        ensures
            r@ == (RequestOptionsView { query: with_number(self@.query, key@, value), ..self@ }),
    {
        match value {
            Some(n) => {
                let digits = decimal_string(n as u64);
                self.with_query(key, digits.as_str())
            },
            None => self,
        }
    }

    /// Adds a truth value as a query parameter, where one is given.
    pub fn with_flag(self, key: &str, value: Option<bool>) -> (r: Self)
        ensures
            r@ == (RequestOptionsView { query: with_flag(self@.query, key@, value), ..self@ }),
    {
        match value {
            Some(b) => {
                if b {
                    self.with_query(key, "true")
                } else {
                    self.with_query(key, "false")
                }
            },
            None => self,
        }
    }

    /// The options of a request for one page of a list: `page_number` and
    /// `page_size` as query parameters, each where given.
    pub fn with_page(self, page_number: Option<u32>, page_size: Option<u32>) -> (r: Self)
        ensures
            r@ == (RequestOptionsView {
                query: with_number(
                    with_number(self@.query, "page_number"@, page_number),
                    "page_size"@,
                    page_size,
                ),
                ..self@
            }),
    {
        self.with_number("page_number", page_number).with_number("page_size", page_size)
    }

    /// The options of a request for a list in a given order: `ascending_order`
    /// as a query parameter, where given.
    pub fn with_ascending_order(self, ascending_order: Option<bool>) -> (r: Self)
        ensures
            r@ == (RequestOptionsView {
                query: with_flag(self@.query, "ascending_order"@, ascending_order),
                ..self@
            }),
    {
        self.with_flag("ascending_order", ascending_order)
    }

    /// The options of a request for a window of a list: `limit` and `offset` as
    /// query parameters, each where given.
    pub fn with_window(self, limit: Option<u32>, offset: Option<u32>) -> (r: Self)
        ensures
            r@ == (RequestOptionsView {
                query: with_number(with_number(self@.query, "limit"@, limit), "offset"@, offset),
                ..self@
            }),
    {
        self.with_number("limit", limit).with_number("offset", offset)
    }
}

/// The path of an item of a collection: the path of the collection, a slash and
/// the identifier.
pub fn item_path(collection: &str, id: &str) -> (r: String)
    ensures
        r@ == collection@ + "/"@ + id@,
{
    let mut r = String::from_str(collection);
    r.append("/");
    r.append(id);
    r
}

/// The path of a part of an item: the path of the item, a slash and the name
/// of the part.
pub fn part_path(collection: &str, id: &str, part: &str) -> (r: String)
    ensures
        r@ == collection@ + "/"@ + id@ + "/"@ + part@,
{
    let mut r = item_path(collection, id);
    r.append("/");
    r.append(part);
    r
}

/// The path of a version of an item: the path of its versions, a slash and the
/// version.
pub fn version_path(collection: &str, id: &str, version: &str) -> (r: String)
    ensures
        r@ == collection@ + "/"@ + id@ + "/versions/"@ + version@,
{
    let mut r = item_path(collection, id);
    r.append("/versions/");
    r.append(version);
    r
}

/// Builder pattern implementation for RequestOptions
pub struct RequestOptionsBuilder {
    options: RequestOptions,
}

impl View for RequestOptionsBuilder {
    type V = RequestOptionsView;

    closed spec fn view(&self) -> RequestOptionsView {
        self.options@
    }
}

impl RequestOptionsBuilder {
    /// Create a new builder
    pub fn new() -> (r: Self)
        ensures
            r@ == empty_options(),
    {
        RequestOptionsBuilder { options: RequestOptions::new() }
    }

    /// Add a header
    pub fn header(self, key: &str, value: &str) -> (r: Self)
        ensures
            r@ == (RequestOptionsView { headers: self@.headers.insert(key@, value@), ..self@ }),
    {
        RequestOptionsBuilder { options: self.options.with_header(key, value) }
    }

    /// Add multiple headers
    pub fn headers(self, headers: Vec<(String, String)>) -> (r: Self)
        ensures
            r@ == (RequestOptionsView {
                headers: self@.headers.union_prefer_right(pairs_map(pairs_view(headers@))),
                ..self@
            }),
    {
        let mut options = self.options;
        options.headers.insert_all(&headers);
        RequestOptionsBuilder { options }
    }

    /// Add a query parameter
    pub fn query(self, key: &str, value: &str) -> (r: Self)
        ensures
            r@ == (RequestOptionsView { query: self@.query.insert(key@, value@), ..self@ }),
    {
        RequestOptionsBuilder { options: self.options.with_query(key, value) }
    }

    /// Add multiple query parameters
    pub fn queries(self, queries: Vec<(String, String)>) -> (r: Self)
        ensures
            r@ == (RequestOptionsView {
                query: self@.query.union_prefer_right(pairs_map(pairs_view(queries@))),
                ..self@
            }),
    {
        let mut options = self.options;
        options.query.insert_all(&queries);
        RequestOptionsBuilder { options }
    }

    /// Set the timeout
    pub fn timeout(self, timeout: Duration) -> (r: Self)
        ensures
            r@ == (RequestOptionsView { timeout: Some(timeout), ..self@ }),
    {
        RequestOptionsBuilder { options: self.options.with_timeout(timeout) }
    }

    /// Set the maximum number of retries
    pub fn max_retries(self, max_retries: u32) -> (r: Self)
        ensures
            r@ == (RequestOptionsView { max_retries: Some(max_retries), ..self@ }),
    {
        RequestOptionsBuilder { options: self.options.with_max_retries(max_retries) }
    }

    /// Build the RequestOptions
    pub fn build(self) -> (r: RequestOptions)
        ensures
            r@ == self@,
    {
        self.options
    }
}

impl Default for RequestOptionsBuilder {
    fn default() -> (r: Self)
        ensures
            r@ == empty_options(),
    {
        RequestOptionsBuilder::new()
    }
}

} // verus!
