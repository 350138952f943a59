//! The message that asks for a value to be cached.

use vstd::prelude::*;

verus! {

/// The CDN max-age when a request names none: one hour.
pub const ONE_HOUR: i64 = 3600;

/// The client max-age when a request names none: ten seconds.
pub const TEN_SECONDS: i64 = 10;

/// A request to cache `data` under `key`, with the max-age (in seconds) that
/// the CDN (`cdnTTL`) and clients (`clientTTL`) may keep it.
#[derive(Debug, Clone, PartialEq, Eq)]
pub struct SetCacheRequest {
    pub key: String,
    pub data: String,
    pub cdn_ttl: i64,
    pub client_tll: i64,
}

/// The mathematical value of a [`SetCacheRequest`].
pub struct SetCacheRequestView {
    pub key: Seq<char>,
    pub data: Seq<char>,
    pub cdn_ttl: i64,
    pub client_tll: i64,
}

impl View for SetCacheRequest {
    type V = SetCacheRequestView;

    open spec fn view(&self) -> SetCacheRequestView {
        SetCacheRequestView {
            key: self.key@,
            data: self.data@,
            cdn_ttl: self.cdn_ttl,
            client_tll: self.client_tll,
        }
    }
}

/// A JSON value as the `data` field of a request can hold it. Numbers keep
/// their JSON text; arrays and objects keep their compact JSON text.
#[derive(Debug, Clone, PartialEq, Eq)]
pub enum JsonValue {
    Null,
    Bool(bool),
    Number(String),
    String(String),
    Array(String),
    Object(String),
}

/// The mathematical value of a [`JsonValue`].
pub enum JsonValueView {
    Null,
    Bool(bool),
    Number(Seq<char>),
    String(Seq<char>),
    Array(Seq<char>),
    Object(Seq<char>),
}

impl View for JsonValue {
    type V = JsonValueView;

    open spec fn view(&self) -> JsonValueView {
        match self {
            JsonValue::Null => JsonValueView::Null,
            JsonValue::Bool(b) => JsonValueView::Bool(*b),
            JsonValue::Number(t) => JsonValueView::Number(t@),
            JsonValue::String(s) => JsonValueView::String(s@),
            JsonValue::Array(t) => JsonValueView::Array(t@),
            JsonValue::Object(t) => JsonValueView::Object(t@),
        }
    }
}

/// The text that the `data` field keeps of a JSON value: a string as it is,
/// a boolean as `true` or `false`, a number, array or object as its JSON
/// text, and `null` as the empty string.
pub open spec fn any_to_string_spec(v: JsonValueView) -> Seq<char> {
    match v {
        JsonValueView::Bool(b) => if b { "true"@ } else { "false"@ },
        JsonValueView::Number(t) => t,
        JsonValueView::String(s) => s,
        JsonValueView::Array(t) => t,
        JsonValueView::Object(t) => t,
        JsonValueView::Null => Seq::empty(),
    }
}

/// The default `cdnTTL`.
pub fn one_hour() -> (r: i64)
    ensures
        r == ONE_HOUR,
{
    ONE_HOUR
}

/// The default `clientTTL`.
pub fn ten_seconds() -> (r: i64)
    ensures
        r == TEN_SECONDS,
{
    TEN_SECONDS
}

/// Turns whatever JSON value the `data` field holds into the text to cache.
pub fn any_to_string(value: JsonValue) -> (r: String)
    ensures
        r@ == any_to_string_spec(value@),
{
    match value {
        JsonValue::Bool(x) => {
            if x {
                "true".to_owned()
            } else {
                "false".to_owned()
            }
        },
        JsonValue::Number(x) => x,
        JsonValue::String(x) => x,
        JsonValue::Array(x) => x,
        JsonValue::Object(x) => x,
        JsonValue::Null => String::new(),
    }
}

impl SetCacheRequest {
    /// The request that a message with these fields denotes: the `data`
    /// value turned into text, and a missing `cdnTTL` or `clientTTL` taken
    /// as one hour or ten seconds.
    pub fn from_fields(key: String, data: JsonValue, cdn_ttl: Option<i64>, client_ttl: Option<i64>) -> (r: SetCacheRequest)
        ensures
            r.key@ == key@,
            r.data@ == any_to_string_spec(data@),
            r.cdn_ttl == (match cdn_ttl {
                Some(t) => t,
                None => ONE_HOUR,
            }),
            r.client_tll == (match client_ttl {
                Some(t) => t,
                None => TEN_SECONDS,
            }),
    {
        let cdn_ttl = match cdn_ttl {
            Some(t) => t,
            None => one_hour(),
        };
        let client_tll = match client_ttl {
            Some(t) => t,
            None => ten_seconds(),
        };
        SetCacheRequest { key, data: any_to_string(data), cdn_ttl, client_tll }
    }
}

} // verus!
