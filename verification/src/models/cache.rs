//! A cache entry as it is stored in the DynamoDB table.

use vstd::prelude::*;
use crate::error::ApplicationError;
use crate::utils::dynamodb::{get_number, get_string, item_view, number_attr, string_attr, Item, AttributeValueView};

verus! {

/// A cached value: its key, the data, the instant (Unix seconds) after which
/// it is stale, and the max-age values for clients and for the CDN.
#[derive(Debug, Clone, PartialEq, Eq)]
pub struct Cache {
    pub key: String,
    pub data: String,
    pub ttl: i64,
    pub client_cache: i64,
    pub cdn_cache: i64,
}

/// The mathematical value of a [`Cache`].
pub struct CacheView {
    pub key: Seq<char>,
    pub data: Seq<char>,
    pub ttl: i64,
    pub client_cache: i64,
    pub cdn_cache: i64,
}

impl View for Cache {
    type V = CacheView;

    open spec fn view(&self) -> CacheView {
        CacheView {
            key: self.key@,
            data: self.data@,
            ttl: self.ttl,
            client_cache: self.client_cache,
            cdn_cache: self.cdn_cache,
        }
    }
}

/// Whether an item holds every attribute of a cache entry: the strings `pk`
/// and `cache_data`, and numbers that fit an `i64` under `ttl_expire_at`,
/// `client_cache` and `cdn_cache`.
pub open spec fn item_is_complete(item: Seq<(Seq<char>, AttributeValueView)>) -> bool {
    &&& string_attr(item, "pk"@) is Some
    &&& string_attr(item, "cache_data"@) is Some
    &&& number_attr(item, "ttl_expire_at"@) is Some
    &&& number_attr(item, "client_cache"@) is Some
    &&& number_attr(item, "cdn_cache"@) is Some
}

/// The cache entry that a complete item holds.
pub open spec fn cache_of_item(item: Seq<(Seq<char>, AttributeValueView)>) -> CacheView {
    CacheView {
        key: string_attr(item, "pk"@)->0,
        data: string_attr(item, "cache_data"@)->0,
        ttl: number_attr(item, "ttl_expire_at"@)->0 as i64,
        client_cache: number_attr(item, "client_cache"@)->0 as i64,
        cdn_cache: number_attr(item, "cdn_cache"@)->0 as i64,
    }
}

impl Cache {
    /// Whether `value` holds every attribute that [`Cache::from_dynamodb`] reads.
    pub fn is_complete_item(value: &Item) -> (r: bool)
        ensures
            r == item_is_complete(item_view(value@)),
    {
        get_string(value, "pk").is_some() && get_string(value, "cache_data").is_some()
            && get_number(value, "ttl_expire_at").is_some()
            && get_number(value, "client_cache").is_some()
            && get_number(value, "cdn_cache").is_some()
    }

    /// Reads a cache entry from a DynamoDB item.
    pub fn from_dynamodb(value: Item) -> (r: Result<Cache, ApplicationError>)
        requires
            item_is_complete(item_view(value@)),
        ensures
            r is Ok,
            r matches Ok(c) && c@ == cache_of_item(item_view(value@)),
    {
        let key = get_string(&value, "pk");
        let data = get_string(&value, "cache_data");
        let ttl = get_number(&value, "ttl_expire_at");
        let client_cache = get_number(&value, "client_cache");
        let cdn_cache = get_number(&value, "cdn_cache");
        match (key, data, ttl, client_cache, cdn_cache) {
            (Some(key), Some(data), Some(ttl), Some(client_cache), Some(cdn_cache)) => Ok(
                Cache { key, data, ttl, client_cache, cdn_cache },
            ),
            _ => Err(ApplicationError::InternalError(String::new())),
        }
    }
}

} // verus!
