//! Writing a cache entry into the DynamoDB table.

use vstd::prelude::*;
use crate::clock::{timestamp_plus_seconds, utc_now_timestamp, MAX_TIMESTAMP, MIN_TIMESTAMP};
use crate::decimal::{i64_to_decimal, int_decimal};
use crate::dtos::set_cache_request::{SetCacheRequest, SetCacheRequestView};
use crate::utils::dynamodb::{item_view, AttributeValue, AttributeValueView, Item};

verus! {

/// Writes cache entries into one DynamoDB table.
#[derive(Debug)]
pub struct AddCache {
    table_name: String,
}

impl View for AddCache {
    type V = Seq<char>;

    /// The name of the table.
    closed spec fn view(&self) -> Seq<char> {
        self.table_name@
    }
}

/// The update expression of every write: each attribute takes the value of
/// the placeholder of the same name.
pub open spec fn update_expression_spec() -> Seq<char> {
    "SET cache_data = :cache_data, ttl_expire_at = :ttl_expire_at, client_cache = :client_cache, cdn_cache = :cdn_cache"@
}

/// An `UpdateItem` call: the table, the key attribute, the update
/// expression, the values of its placeholders, and which attributes the
/// call returns (as DynamoDB names the choice, such as `UPDATED_NEW`).
#[derive(Debug, Clone, PartialEq, Eq)]
pub struct CacheUpdate {
    pub table_name: String,
    pub key_name: String,
    pub key_value: AttributeValue,
    pub update_expression: String,
    pub values: Item,
    pub return_values: String,
}

/// The mathematical value of a [`CacheUpdate`].
pub struct CacheUpdateView {
    pub table_name: Seq<char>,
    pub key: (Seq<char>, AttributeValueView),
    pub update_expression: Seq<char>,
    pub values: Seq<(Seq<char>, AttributeValueView)>,
    pub return_values: Seq<char>,
}

impl View for CacheUpdate {
    type V = CacheUpdateView;

    open spec fn view(&self) -> CacheUpdateView {
        CacheUpdateView {
            table_name: self.table_name@,
            key: (self.key_name@, self.key_value@),
            update_expression: self.update_expression@,
            values: item_view(self.values@),
            return_values: self.return_values@,
        }
    }
}

/// Whether a request can be written at time `now`: its expiry instant
/// `now + cdn_ttl` must be one that chrono can represent.
pub open spec fn expiry_in_range(now: int, cdn_ttl: int) -> bool {
    MIN_TIMESTAMP <= now + cdn_ttl <= MAX_TIMESTAMP
}

/// The write of `request` into `table` at time `now`: key `pk` holds the
/// request's key; the data, the expiry `now + cdn_ttl` and both max-ages go
/// to the placeholders, the numbers as decimal text; the call returns the
/// attributes it updated, with their new values (`UPDATED_NEW`).
pub open spec fn update_for(table: Seq<char>, request: SetCacheRequestView, now: int) -> CacheUpdateView {
    CacheUpdateView {
        table_name: table,
        key: ("pk"@, AttributeValueView::S(request.key)),
        update_expression: update_expression_spec(),
        values: seq![
            (":cache_data"@, AttributeValueView::S(request.data)),
            (":ttl_expire_at"@, AttributeValueView::N(int_decimal(now + request.cdn_ttl))),
            (":client_cache"@, AttributeValueView::N(int_decimal(request.client_tll as int))),
            (":cdn_cache"@, AttributeValueView::N(int_decimal(request.cdn_ttl as int))),
        ],
        return_values: "UPDATED_NEW"@,
    }
}

/// The attributes that an update writes into the table: the key, and for
/// each placeholder `:name` of the update expression the attribute `name`.
pub open spec fn item_written_by(update: CacheUpdateView) -> Seq<(Seq<char>, AttributeValueView)> {
    seq![update.key] + update.values.map_values(
        |p: (Seq<char>, AttributeValueView)| (p.0.drop_first(), p.1),
    )
}

impl AddCache {
    /// A writer into the table named `table_name`.
    pub fn with_table_name(table_name: String) -> (r: AddCache)
        ensures
            r@ == table_name@,
    {
        AddCache { table_name }
    }

    /// The name of the table.
    pub fn table_name(&self) -> (r: &str)
        ensures
            r@ == self@,
    {
        self.table_name.as_str()
    }

    /// The `UpdateItem` call that stores `request` at time `now`.
    pub fn update_request_at(&self, request: &SetCacheRequest, now: i64) -> (r: CacheUpdate)
        requires
            MIN_TIMESTAMP <= now <= MAX_TIMESTAMP,
            expiry_in_range(now as int, request.cdn_ttl as int),
        ensures
            r@ == update_for(self@, request@, now as int),
    {
        let ttl = timestamp_plus_seconds(now, request.cdn_ttl);
        let values: Item = vec![
            (":cache_data".to_owned(), AttributeValue::S(request.data.clone())),
            (":ttl_expire_at".to_owned(), AttributeValue::N(i64_to_decimal(ttl))),
            (":client_cache".to_owned(), AttributeValue::N(i64_to_decimal(request.client_tll))),
            (":cdn_cache".to_owned(), AttributeValue::N(i64_to_decimal(request.cdn_ttl))),
        ];
        let r = CacheUpdate {
            table_name: self.table_name.clone(),
            key_name: "pk".to_owned(),
            key_value: AttributeValue::S(request.key.clone()),
            update_expression: "SET cache_data = :cache_data, ttl_expire_at = :ttl_expire_at, client_cache = :client_cache, cdn_cache = :cdn_cache".to_owned(),
            values,
            return_values: "UPDATED_NEW".to_owned(),
        };
        assert(r@.values =~= update_for(self@, request@, now as int).values);
        r
    }

    /// The `UpdateItem` call that stores `request` now, by the clock; `None`
    /// when the expiry instant lies beyond what chrono can represent.
    pub fn update_request(&self, request: &SetCacheRequest) -> (r: Option<CacheUpdate>)
        ensures
            exists|now: int|
                0 <= now <= MAX_TIMESTAMP && (if expiry_in_range(now, request.cdn_ttl as int) {
                    r matches Some(u) && u@ == update_for(self@, request@, now)
                } else {
                    r is None
                }),
    {
        let now = utc_now_timestamp();
        if now as i128 + request.cdn_ttl as i128 >= MIN_TIMESTAMP as i128 && now as i128
            + request.cdn_ttl as i128 <= MAX_TIMESTAMP as i128 {
            let u = self.update_request_at(request, now);
            assert(expiry_in_range(now as int, request.cdn_ttl as int));
            Some(u)
        } else {
            assert(!expiry_in_range(now as int, request.cdn_ttl as int));
            None
        }
    }
}

} // verus!
