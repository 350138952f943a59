//! Properties of the cache that span several of its functions.

use vstd::prelude::*;
use crate::clock::{MAX_TIMESTAMP, MIN_TIMESTAMP};
use crate::decimal::{int_decimal, lemma_int_decimal_plain, lemma_parse_int_decimal, parse_i64_spec, plain_decimal};
use crate::dtos::set_cache_request::{any_to_string_spec, JsonValueView, SetCacheRequestView};
use crate::dtos::warmup_request::{warm_up_url_spec, WarmUpCachBuilderView};
use crate::models::cache::{cache_of_item, item_is_complete, CacheView};
use crate::queries::add_cache::{expiry_in_range, item_written_by, update_for};
use crate::utils::dynamodb::{
    attr_get, distinct_attr_names, lemma_attr_get_in_item, lemma_attr_get_same, AttributeValueView,
};
use crate::dtos::origin_response::{empty_response, OriginResponseView};
use crate::handlers::get_cache::{
    from_cache, from_origin, lookup_step_spec, nothing_for, reply_spec, LookupActionView,
    LookupEventView, LookupStateView,
};
use crate::handlers::set_cache::{failed_ids, RecordOutcome};

verus! {

/// What the set-cache handler writes, the get-cache handler reads back: the
/// item that the update for `request` at time `now` writes holds every
/// attribute of a cache entry, and the entry is the request's key and data,
/// the expiry `now + cdn_ttl`, and the request's two max-ages.
pub proof fn lemma_written_entry_reads_back(table: Seq<char>, request: SetCacheRequestView, now: int)
    requires
        MIN_TIMESTAMP <= now <= MAX_TIMESTAMP,
        expiry_in_range(now, request.cdn_ttl as int),
    ensures
        item_is_complete(item_written_by(update_for(table, request, now))),
        cache_of_item(item_written_by(update_for(table, request, now))) == (CacheView {
            key: request.key,
            data: request.data,
            ttl: (now + request.cdn_ttl) as i64,
            client_cache: request.client_tll,
            cdn_cache: request.cdn_ttl,
        }),
{
    reveal_strlit("pk");
    reveal_strlit("cache_data");
    reveal_strlit("ttl_expire_at");
    reveal_strlit("client_cache");
    reveal_strlit("cdn_cache");
    reveal_strlit(":cache_data");
    reveal_strlit(":ttl_expire_at");
    reveal_strlit(":client_cache");
    reveal_strlit(":cdn_cache");
    let ttl = (now + request.cdn_ttl) as i64;
    let item = item_written_by(update_for(table, request, now));
    let expected = seq![
        ("pk"@, AttributeValueView::S(request.key)),
        ("cache_data"@, AttributeValueView::S(request.data)),
        ("ttl_expire_at"@, AttributeValueView::N(int_decimal(ttl as int))),
        ("client_cache"@, AttributeValueView::N(int_decimal(request.client_tll as int))),
        ("cdn_cache"@, AttributeValueView::N(int_decimal(request.cdn_ttl as int))),
    ];
    assert(":cache_data"@.drop_first() =~= "cache_data"@);
    assert(":ttl_expire_at"@.drop_first() =~= "ttl_expire_at"@);
    assert(":client_cache"@.drop_first() =~= "client_cache"@);
    assert(":cdn_cache"@.drop_first() =~= "cdn_cache"@);
    assert(item =~= expected);
    lemma_parse_int_decimal(ttl);
    lemma_parse_int_decimal(request.client_tll);
    lemma_parse_int_decimal(request.cdn_ttl);
    reveal_with_fuel(attr_get, 6);
    assert(attr_get(item, "pk"@) == Some(AttributeValueView::S(request.key)));
    assert(attr_get(item, "cache_data"@) == Some(AttributeValueView::S(request.data)));
    assert(attr_get(item, "ttl_expire_at"@) == Some(AttributeValueView::N(int_decimal(ttl as int))));
    assert(attr_get(item, "client_cache"@) == Some(
        AttributeValueView::N(int_decimal(request.client_tll as int)),
    ));
    assert(attr_get(item, "cdn_cache"@) == Some(AttributeValueView::N(int_decimal(request.cdn_ttl as int))));
}


/// Whether `name` is one of the five attributes of a cache entry.
pub open spec fn is_cache_attribute(name: Seq<char>) -> bool {
    name == "pk"@ || name == "cache_data"@ || name == "ttl_expire_at"@ || name == "client_cache"@
        || name == "cdn_cache"@
}

/// Only the five attributes of a cache entry decide what an item holds: two
/// items (each name once, as DynamoDB returns them) that pair those five
/// names with the same values both hold an entry or both do not, and hold
/// the same one, whatever other attributes they have and in whatever order.
pub proof fn lemma_entry_depends_only_on_its_attributes(
    a: Seq<(Seq<char>, AttributeValueView)>,
    b: Seq<(Seq<char>, AttributeValueView)>,
)
    requires
        distinct_attr_names(a),
        distinct_attr_names(b),
        forall|n: Seq<char>, v: AttributeValueView|
            #![trigger a.contains((n, v))]
            #![trigger b.contains((n, v))]
            is_cache_attribute(n) ==> (a.contains((n, v)) <==> b.contains((n, v))),
    ensures
        item_is_complete(a) == item_is_complete(b),
        cache_of_item(a) == cache_of_item(b),
{
    assert(is_cache_attribute("pk"@));
    assert(is_cache_attribute("cache_data"@));
    assert(is_cache_attribute("ttl_expire_at"@));
    assert(is_cache_attribute("client_cache"@));
    assert(is_cache_attribute("cdn_cache"@));
    lemma_attr_get_same(a, b, "pk"@);
    lemma_attr_get_same(a, b, "cache_data"@);
    lemma_attr_get_same(a, b, "ttl_expire_at"@);
    lemma_attr_get_same(a, b, "client_cache"@);
    lemma_attr_get_same(a, b, "cdn_cache"@);
}

/// Whether `stored` holds each attribute of `written` (each name once, in
/// any order, beside any other attributes): what the table returns after
/// the update wrote `written`.
pub open spec fn holds_written_item(
    stored: Seq<(Seq<char>, AttributeValueView)>,
    written: Seq<(Seq<char>, AttributeValueView)>,
) -> bool {
    &&& distinct_attr_names(stored)
    &&& forall|k: int| 0 <= k < written.len() ==> stored.contains(#[trigger] written[k])
}

/// What the set-cache handler writes, the get-cache handler reads back from
/// whatever item the table returns: any item that holds the attributes the
/// update for `request` at `now` wrote, in any order and beside any other
/// attributes, holds the entry with the request's key and data, the expiry
/// `now + cdn_ttl`, and the request's two max-ages.
pub proof fn lemma_stored_item_reads_back(
    table: Seq<char>,
    request: SetCacheRequestView,
    now: int,
    stored: Seq<(Seq<char>, AttributeValueView)>,
)
    requires
        MIN_TIMESTAMP <= now <= MAX_TIMESTAMP,
        expiry_in_range(now, request.cdn_ttl as int),
        holds_written_item(stored, item_written_by(update_for(table, request, now))),
    ensures
        item_is_complete(stored),
        cache_of_item(stored) == (CacheView {
            key: request.key,
            data: request.data,
            ttl: (now + request.cdn_ttl) as i64,
            client_cache: request.client_tll,
            cdn_cache: request.cdn_ttl,
        }),
{
    reveal_strlit("pk");
    reveal_strlit("cache_data");
    reveal_strlit("ttl_expire_at");
    reveal_strlit("client_cache");
    reveal_strlit("cdn_cache");
    reveal_strlit(":cache_data");
    reveal_strlit(":ttl_expire_at");
    reveal_strlit(":client_cache");
    reveal_strlit(":cdn_cache");
    let ttl = (now + request.cdn_ttl) as i64;
    let written = item_written_by(update_for(table, request, now));
    let expected = seq![
        ("pk"@, AttributeValueView::S(request.key)),
        ("cache_data"@, AttributeValueView::S(request.data)),
        ("ttl_expire_at"@, AttributeValueView::N(int_decimal(ttl as int))),
        ("client_cache"@, AttributeValueView::N(int_decimal(request.client_tll as int))),
        ("cdn_cache"@, AttributeValueView::N(int_decimal(request.cdn_ttl as int))),
    ];
    assert(":cache_data"@.drop_first() =~= "cache_data"@);
    assert(":ttl_expire_at"@.drop_first() =~= "ttl_expire_at"@);
    assert(":client_cache"@.drop_first() =~= "client_cache"@);
    assert(":cdn_cache"@.drop_first() =~= "cdn_cache"@);
    assert(written =~= expected);
    assert(stored.contains(written[0]));
    assert(stored.contains(written[1]));
    assert(stored.contains(written[2]));
    assert(stored.contains(written[3]));
    assert(stored.contains(written[4]));
    lemma_attr_get_in_item(stored, "pk"@);
    lemma_attr_get_in_item(stored, "cache_data"@);
    lemma_attr_get_in_item(stored, "ttl_expire_at"@);
    lemma_attr_get_in_item(stored, "client_cache"@);
    lemma_attr_get_in_item(stored, "cdn_cache"@);
    lemma_parse_int_decimal(ttl);
    lemma_parse_int_decimal(request.client_tll);
    lemma_parse_int_decimal(request.cdn_ttl);
    assert(attr_get(stored, "pk"@) == Some(AttributeValueView::S(request.key)));
    assert(attr_get(stored, "cache_data"@) == Some(AttributeValueView::S(request.data)));
    assert(attr_get(stored, "ttl_expire_at"@) == Some(AttributeValueView::N(int_decimal(ttl as int))));
    assert(attr_get(stored, "client_cache"@) == Some(
        AttributeValueView::N(int_decimal(request.client_tll as int)),
    ));
    assert(attr_get(stored, "cdn_cache"@) == Some(AttributeValueView::N(int_decimal(request.cdn_ttl as int))));
}

/// A lookup whose key has an entry that has not expired is answered from
/// the table: the first step asks to read the table, the second answers with
/// the entry's data and max-ages under the requested key, and the origin is
/// never called.
pub proof fn lemma_fresh_entry_is_served(key: Seq<char>, origin_url: Option<Seq<char>>, entry: CacheView, now: int)
    requires
        entry.ttl > now,
    ensures
        lookup_step_spec(LookupStateView::Idle, LookupEventView::Request { key: Some(key), origin_url }, now)
            == (LookupStateView::AwaitingCache { key, origin_url }, LookupActionView::ReadCache { key }),
        lookup_step_spec(
            LookupStateView::AwaitingCache { key, origin_url },
            LookupEventView::CacheRead { entry: Some(entry) },
            now,
        ) == (
            LookupStateView::Finished,
            LookupActionView::Respond {
                value: OriginResponseView {
                    key,
                    data: entry.data,
                    cdn_cache: entry.cdn_cache,
                    client_cache: entry.client_cache,
                },
            },
        ),
{
}

/// An entry whose expiry has passed is not served: the lookup answers with
/// no data under the requested key, which is a 404, and does not call the
/// origin.
pub proof fn lemma_expired_entry_is_not_found(key: Seq<char>, origin_url: Option<Seq<char>>, entry: CacheView, now: int)
    requires
        entry.ttl <= now,
    ensures
        lookup_step_spec(
            LookupStateView::AwaitingCache { key, origin_url },
            LookupEventView::CacheRead { entry: Some(entry) },
            now,
        ) == (LookupStateView::Finished, LookupActionView::Respond { value: nothing_for(key) }),
        reply_spec(nothing_for(key)).status == 404,
{
}

/// A key with no entry is fetched from the origin when the request names
/// one: the lookup reads the table, then calls `url`, then answers with the
/// origin's data and max-ages under the requested key.
pub proof fn lemma_missing_entry_comes_from_origin(key: Seq<char>, url: Seq<char>, reply: OriginResponseView, now: int)
    ensures
        lookup_step_spec(
            LookupStateView::Idle,
            LookupEventView::Request { key: Some(key), origin_url: Some(url) },
            now,
        ) == (
            LookupStateView::AwaitingCache { key, origin_url: Some(url) },
            LookupActionView::ReadCache { key },
        ),
        lookup_step_spec(
            LookupStateView::AwaitingCache { key, origin_url: Some(url) },
            LookupEventView::CacheRead { entry: None },
            now,
        ) == (LookupStateView::AwaitingOrigin { key }, LookupActionView::CallOrigin { url }),
        lookup_step_spec(
            LookupStateView::AwaitingOrigin { key },
            LookupEventView::OriginRead { reply: Some(reply) },
            now,
        ) == (
            LookupStateView::Finished,
            LookupActionView::Respond {
                value: OriginResponseView {
                    key,
                    data: reply.data,
                    cdn_cache: reply.cdn_cache,
                    client_cache: reply.client_cache,
                },
            },
        ),
{
}

/// Without an entry and without an origin, and without a key at all, the
/// answer has no data, which is a 404.
pub proof fn lemma_nothing_to_serve_is_not_found(key: Seq<char>, now: int)
    ensures
        lookup_step_spec(
            LookupStateView::AwaitingCache { key, origin_url: None },
            LookupEventView::CacheRead { entry: None },
            now,
        ) == (LookupStateView::Finished, LookupActionView::Respond { value: nothing_for(key) }),
        lookup_step_spec(
            LookupStateView::Idle,
            LookupEventView::Request { key: None, origin_url: None },
            now,
        ) == (LookupStateView::Finished, LookupActionView::Respond { value: empty_response() }),
        reply_spec(nothing_for(key)).status == 404,
        reply_spec(empty_response()).status == 404,
{
}

/// The key that a lookup in state `s` answers for.
pub open spec fn requested_key(s: LookupStateView) -> Seq<char> {
    match s {
        LookupStateView::AwaitingCache { key, .. } => key,
        LookupStateView::AwaitingOrigin { key } => key,
        _ => Seq::empty(),
    }
}

/// Every answer carries the key that was asked for.
pub proof fn lemma_answer_keeps_requested_key(s: LookupStateView, e: LookupEventView, now: int)
    ensures
        lookup_step_spec(s, e, now).1 matches LookupActionView::Respond { value } ==> value.key
            == requested_key(s),
{
}

/// A lookup asks for at most two outside calls: whatever is fed to it, it
/// has finished after three steps.
pub proof fn lemma_lookup_finishes_in_three_steps(
    e1: LookupEventView,
    e2: LookupEventView,
    e3: LookupEventView,
    now: int,
)
    ensures
        lookup_step_spec(
            lookup_step_spec(lookup_step_spec(LookupStateView::Idle, e1, now).0, e2, now).0,
            e3,
            now,
        ).0 == LookupStateView::Finished,
{
}

/// A reply is a 200 exactly when the answer has data, and a 404 otherwise.
pub proof fn lemma_reply_status(v: OriginResponseView)
    ensures
        reply_spec(v).status == 200 <==> v.data.len() > 0,
        reply_spec(v).status == 404 <==> v.data.len() == 0,
        reply_spec(v).body == v.data,
{
}

/// A value stored by the set-cache handler at `written_at` is served by the
/// get-cache handler at `read_at`, from the item that the table returns (any
/// item holding what the update wrote, in any order, beside any other
/// attributes), with the stored data and max-ages while
/// `read_at` lies before the expiry `written_at + cdn_ttl`, and is not found
/// (no data) from the expiry on.
pub proof fn lemma_stored_value_is_served_until_expiry(
    table: Seq<char>,
    request: SetCacheRequestView,
    written_at: int,
    read_at: int,
    origin_url: Option<Seq<char>>,
    stored: Seq<(Seq<char>, AttributeValueView)>,
)
    requires
        MIN_TIMESTAMP <= written_at <= MAX_TIMESTAMP,
        expiry_in_range(written_at, request.cdn_ttl as int),
        holds_written_item(stored, item_written_by(update_for(table, request, written_at))),
    ensures
        ({
            let entry = cache_of_item(stored);
            &&& entry.key == request.key
            &&& lookup_step_spec(
                LookupStateView::AwaitingCache { key: request.key, origin_url },
                LookupEventView::CacheRead { entry: Some(entry) },
                read_at,
            ) == (
                LookupStateView::Finished,
                LookupActionView::Respond {
                    value: if read_at < written_at + request.cdn_ttl {
                        OriginResponseView {
                            key: request.key,
                            data: request.data,
                            cdn_cache: request.cdn_ttl,
                            client_cache: request.client_tll,
                        }
                    } else {
                        nothing_for(request.key)
                    },
                },
            )
        }),
{
    lemma_stored_item_reads_back(table, request, written_at, stored);
}

/// The reply of the set-cache handler names exactly the messages whose
/// request could not be stored: a message that was skipped (no body, or a
/// body that is no cache request) or stored is never named.
pub proof fn lemma_failures_are_failed_stores(outcomes: Seq<(Seq<char>, RecordOutcome)>, id: Seq<char>)
    ensures
        failed_ids(outcomes).contains(id) <==> exists|i: int|
            0 <= i < outcomes.len() && #[trigger] outcomes[i] == (id, RecordOutcome::StoreFailed),
    decreases outcomes.len(),
{
    if outcomes.len() > 0 {
        let rest = outcomes.drop_last();
        lemma_failures_are_failed_stores(rest, id);
        let last = outcomes.last();
        let tail = if last.1 == RecordOutcome::StoreFailed {
            seq![last.0]
        } else {
            Seq::<Seq<char>>::empty()
        };
        assert(failed_ids(outcomes) == failed_ids(rest) + tail);
        if failed_ids(outcomes).contains(id) {
            let k = choose|k: int| 0 <= k < failed_ids(outcomes).len() && failed_ids(outcomes)[k] == id;
            if k < failed_ids(rest).len() {
                assert(failed_ids(rest)[k] == id);
                let i = choose|i: int| 0 <= i < rest.len() && #[trigger] rest[i] == (id, RecordOutcome::StoreFailed);
                assert(outcomes[i] == rest[i]);
            } else {
                assert(outcomes[outcomes.len() - 1] == (id, RecordOutcome::StoreFailed));
            }
        }
        if exists|i: int| 0 <= i < outcomes.len() && #[trigger] outcomes[i] == (id, RecordOutcome::StoreFailed) {
            let i = choose|i: int| 0 <= i < outcomes.len() && #[trigger] outcomes[i] == (id, RecordOutcome::StoreFailed);
            if i < rest.len() {
                assert(rest[i] == outcomes[i]);
                let k = choose|k: int| 0 <= k < failed_ids(rest).len() && failed_ids(rest)[k] == id;
                assert(failed_ids(outcomes)[k] == id);
            } else {
                assert(failed_ids(outcomes)[failed_ids(rest).len() as int] == id);
            }
        }
    }
}


/// The `Cache-Control` header of a reply carries its max-ages as numbers that
/// a cache reads back exactly: the text after `max-age=` and after
/// `s-maxage=` parses to the client and CDN max-ages, written plainly (no
/// sign, separator or leading zero).
pub proof fn lemma_cache_control_carries_max_ages(v: OriginResponseView)
    ensures
        reply_spec(v).headers[1].0 == "cache-control"@,
        exists|client: Seq<char>, cdn: Seq<char>|
            {
                &&& reply_spec(v).headers[1].1 == "public, max-age="@ + client + ", s-maxage="@ + cdn
                    + ";"@
                &&& parse_i64_spec(client) == Some(v.client_cache as int)
                &&& parse_i64_spec(cdn) == Some(v.cdn_cache as int)
                &&& plain_decimal(client)
                &&& plain_decimal(cdn)
            },
{
    lemma_int_decimal_plain(v.client_cache);
    lemma_int_decimal_plain(v.cdn_cache);
    let client = int_decimal(v.client_cache as int);
    let cdn = int_decimal(v.cdn_cache as int);
    assert(reply_spec(v).headers[1].1 == "public, max-age="@ + client + ", s-maxage="@ + cdn + ";"@);
}

/// The warm-up URL asks the CDN for the stored key with its max-ages as
/// query values that read back exactly: the text after `client_cache=` and
/// after `cdn_cache=` parses to the client and CDN max-ages, written plainly
/// (no sign, separator or leading zero).
pub proof fn lemma_warm_up_url_carries_max_ages(b: WarmUpCachBuilderView)
    ensures
        exists|client: Seq<char>, cdn: Seq<char>|
            {
                &&& warm_up_url_spec(b) == "https://"@ + b.endpoint + "/cache?key="@ + b.key
                    + "&client_cache="@ + client + "&cdn_cache="@ + cdn
                &&& parse_i64_spec(client) == Some(b.client_tll as int)
                &&& parse_i64_spec(cdn) == Some(b.cdn_ttl as int)
                &&& plain_decimal(client)
                &&& plain_decimal(cdn)
            },
{
    lemma_int_decimal_plain(b.client_tll);
    lemma_int_decimal_plain(b.cdn_ttl);
    let client = int_decimal(b.client_tll as int);
    let cdn = int_decimal(b.cdn_ttl as int);
    assert(warm_up_url_spec(b) == "https://"@ + b.endpoint + "/cache?key="@ + b.key + "&client_cache="@
        + client + "&cdn_cache="@ + cdn);
}

/// The text that a request keeps of its `data`: a string, and the JSON text
/// of a number, an array or an object (empty ones included), are kept as
/// they are; a boolean becomes `true` or `false`. So the kept text is empty
/// exactly for `null` and for values whose text is empty.
pub proof fn lemma_data_text_is_kept(v: JsonValueView)
    ensures
        v matches JsonValueView::String(t) ==> any_to_string_spec(v) == t,
        v matches JsonValueView::Number(t) ==> any_to_string_spec(v) == t,
        v matches JsonValueView::Array(t) ==> any_to_string_spec(v) == t,
        v matches JsonValueView::Object(t) ==> any_to_string_spec(v) == t,
        v matches JsonValueView::Bool(b) ==> any_to_string_spec(v) == (if b {
            "true"@
        } else {
            "false"@
        }),
        any_to_string_spec(v).len() == 0 <==> match v {
            JsonValueView::Null => true,
            JsonValueView::Bool(_) => false,
            JsonValueView::Number(t) => t.len() == 0,
            JsonValueView::String(t) => t.len() == 0,
            JsonValueView::Array(t) => t.len() == 0,
            JsonValueView::Object(t) => t.len() == 0,
        },
{
    reveal_strlit("true");
    reveal_strlit("false");
}

} // verus!
