//! Reading a cache entry from the DynamoDB table.

use vstd::prelude::*;
use crate::models::cache::{cache_of_item, item_is_complete, Cache};
use crate::utils::dynamodb::{item_view, AttributeValue, AttributeValueView, Item};

verus! {

/// Reads cache entries from one DynamoDB table.
#[derive(Debug)]
pub struct GetCache {
    table_name: String,
}

impl View for GetCache {
    type V = Seq<char>;

    /// The name of the table.
    closed spec fn view(&self) -> Seq<char> {
        self.table_name@
    }
}

/// A `GetItem` call: the table, and the key attribute's name and value.
#[derive(Debug, Clone, PartialEq, Eq)]
pub struct GetItemRequest {
    pub table_name: String,
    pub key_name: String,
    pub key_value: AttributeValue,
}

impl GetCache {
    /// A reader of the table named `table_name`.
    pub fn with_table_name(table_name: String) -> (r: GetCache)
        ensures
            r@ == table_name@,
    {
        GetCache { table_name }
    }

    /// The name of the table.
    pub fn table_name(&self) -> (r: &str)
        ensures
            r@ == self@,
    {
        self.table_name.as_str()
    }

    /// The `GetItem` call that looks up `key`: partition key `pk` with the
    /// key as a string.
    pub fn get_item_request(&self, key: &str) -> (r: GetItemRequest)
        ensures
            r.table_name@ == self@,
            r.key_name@ == "pk"@,
            r.key_value@ == AttributeValueView::S(key@),
    {
        GetItemRequest {
            table_name: self.table_name.clone(),
            key_name: "pk".to_owned(),
            key_value: AttributeValue::S(key.to_owned()),
        }
    }

    /// The cache entry that a `GetItem` reply holds, if any.
    pub fn cache_from_reply(item: Option<Item>) -> (r: Option<Cache>)
        requires
            item matches Some(i) ==> item_is_complete(item_view(i@)),
        ensures
            item is None ==> r is None,
            item matches Some(i) ==> (r matches Some(c) && c@ == cache_of_item(item_view(i@))),
    {
        match item {
            None => None,
            Some(item) => match Cache::from_dynamodb(item) {
                Ok(c) => Some(c),
                Err(_) => None,
            },
        }
    }
}

} // verus!
