use serverless_cache::clock::{MAX_TIMESTAMP, MIN_TIMESTAMP};
use serverless_cache::decimal::{i64_to_decimal, parse_i64};
use serverless_cache::dtos::batch_item_failures::ItemIdentifier;
use serverless_cache::dtos::origin_response::OriginResponse;
use serverless_cache::dtos::set_cache_request::{any_to_string, one_hour, ten_seconds, JsonValue, SetCacheRequest};
use serverless_cache::dtos::warmup_request::WarmUpCachBuilder;
use serverless_cache::handlers::get_cache::{lookup_step, lookup_step_at, reply_for, LookupAction, LookupEvent, LookupState};
use serverless_cache::handlers::origin::{fake_db_record, origin_reply, origin_response, FAKE_DB_RECORD};
use serverless_cache::handlers::set_cache::{batch_item_failures, store_outcome, warm_up_for, RecordOutcome};
use serverless_cache::models::cache::Cache;
use serverless_cache::queries::add_cache::{AddCache, CacheUpdate};
use serverless_cache::queries::get_cache::GetCache;
use serverless_cache::utils::api_helper::{is_valid_header_value, ApiHelper};
use serverless_cache::utils::dynamodb::{get_number, get_string, AttributeValue, Item};

fn s(x: &str) -> String {
    x.to_string()
}

fn request(key: &str, data: &str, cdn: i64, client: i64) -> SetCacheRequest {
    SetCacheRequest { key: s(key), data: s(data), cdn_ttl: cdn, client_tll: client }
}

/// The item that an update writes into a table with no item for its key.
fn written_item(u: &CacheUpdate) -> Item {
    let mut item: Item = vec![(u.key_name.clone(), u.key_value.clone())];
    for (placeholder, value) in u.values.iter() {
        item.push((placeholder[1..].to_string(), value.clone()));
    }
    item
}

fn complete_item() -> Item {
    vec![
        (s("pk"), AttributeValue::S(s("k"))),
        (s("cache_data"), AttributeValue::S(s("d"))),
        (s("ttl_expire_at"), AttributeValue::N(s("100"))),
        (s("client_cache"), AttributeValue::N(s("10"))),
        (s("cdn_cache"), AttributeValue::N(s("-20"))),
    ]
}

fn step(state: LookupState, event: LookupEvent, now: i64) -> (LookupState, LookupAction) {
    lookup_step_at(state, event, now)
}

fn respond_value(action: LookupAction) -> OriginResponse {
    match action {
        LookupAction::Respond { value } => value,
        other => panic!("expected an answer, got {:?}", other),
    }
}

#[test]
fn decimal_text_of_integers() {
    assert_eq!(i64_to_decimal(0), "0");
    assert_eq!(i64_to_decimal(7), "7");
    assert_eq!(i64_to_decimal(120), "120");
    assert_eq!(i64_to_decimal(-42), "-42");
    assert_eq!(i64_to_decimal(i64::MAX), "9223372036854775807");
    assert_eq!(i64_to_decimal(i64::MIN), "-9223372036854775808");
    for n in [0i64, 1, -1, 9, 10, 99, 100, -1000, 123456789, i64::MAX, i64::MIN] {
        assert_eq!(i64_to_decimal(n), format!("{:?}", n));
    }
}

#[test]
fn parsing_integers_like_std() {
    let cases = [
        "123", "+7", "-0", "007", "-", "+", "", "12a", "1.5", "1e3", " 1", "9223372036854775807",
        "9223372036854775808", "-9223372036854775808", "-9223372036854775809", "99999999999999999999",
        "٣", "-12",
    ];
    for c in cases {
        assert_eq!(parse_i64(c), c.parse::<i64>().ok(), "input {:?}", c);
    }
    assert_eq!(parse_i64("-9223372036854775808"), Some(i64::MIN));
    assert_eq!(parse_i64("+"), None);
}

#[test]
fn decimal_text_parses_back() {
    for n in [0i64, 5, -5, 3600, -86400, 1_700_000_000, i64::MAX, i64::MIN] {
        assert_eq!(parse_i64(&i64_to_decimal(n)), Some(n));
    }
}

#[test]
fn reading_typed_attributes() {
    let item = complete_item();
    assert_eq!(get_string(&item, "pk"), Some(s("k")));
    assert_eq!(get_string(&item, "ttl_expire_at"), None);
    assert_eq!(get_string(&item, "missing"), None);
    assert_eq!(get_number(&item, "cdn_cache"), Some(-20));
    assert_eq!(get_number(&item, "pk"), None);
    let odd: Item = vec![
        (s("n"), AttributeValue::N(s("1.5"))),
        (s("b"), AttributeValue::Bool(true)),
        (s("n"), AttributeValue::N(s("3"))),
    ];
    assert_eq!(get_number(&odd, "n"), None);
    assert_eq!(get_string(&odd, "b"), None);
}

#[test]
fn cache_from_a_complete_item() {
    let item = complete_item();
    assert!(Cache::is_complete_item(&item));
    let cache = Cache::from_dynamodb(item).unwrap();
    assert_eq!(
        cache,
        Cache { key: s("k"), data: s("d"), ttl: 100, client_cache: 10, cdn_cache: -20 }
    );
}

#[test]
fn incomplete_items_are_recognised() {
    let mut missing = complete_item();
    missing.remove(1);
    assert!(!Cache::is_complete_item(&missing));
    let mut not_a_number = complete_item();
    not_a_number[2].1 = AttributeValue::N(s("soon"));
    assert!(!Cache::is_complete_item(&not_a_number));
    let mut wrong_kind = complete_item();
    wrong_kind[0].1 = AttributeValue::N(s("1"));
    assert!(!Cache::is_complete_item(&wrong_kind));
    let mut unsupported = complete_item();
    unsupported[1].1 = AttributeValue::Unsupported;
    assert!(!Cache::is_complete_item(&unsupported));
}

#[test]
fn get_item_request_and_reply() {
    let reader = GetCache::with_table_name(s("cache-table"));
    assert_eq!(reader.table_name(), "cache-table");
    let req = reader.get_item_request("myKey");
    assert_eq!(req.table_name, "cache-table");
    assert_eq!(req.key_name, "pk");
    assert_eq!(req.key_value, AttributeValue::S(s("myKey")));
    assert_eq!(GetCache::cache_from_reply(None), None);
    assert_eq!(GetCache::cache_from_reply(Some(complete_item())).unwrap().ttl, 100);
}

#[test]
fn update_request_at_a_given_time() {
    let writer = AddCache::with_table_name(s("cache-table"));
    assert_eq!(writer.table_name(), "cache-table");
    let u = writer.update_request_at(&request("myKey", "new data", 120, 10), 1_000);
    assert_eq!(u.table_name, "cache-table");
    assert_eq!(u.key_name, "pk");
    assert_eq!(u.key_value, AttributeValue::S(s("myKey")));
    assert_eq!(
        u.update_expression,
        "SET cache_data = :cache_data, ttl_expire_at = :ttl_expire_at, client_cache = :client_cache, cdn_cache = :cdn_cache"
    );
    assert_eq!(
        u.values,
        vec![
            (s(":cache_data"), AttributeValue::S(s("new data"))),
            (s(":ttl_expire_at"), AttributeValue::N(s("1120"))),
            (s(":client_cache"), AttributeValue::N(s("10"))),
            (s(":cdn_cache"), AttributeValue::N(s("120"))),
        ]
    );
    assert_eq!(u.return_values, "UPDATED_NEW");
}

#[test]
fn update_expiry_may_lie_before_now() {
    let writer = AddCache::with_table_name(s("t"));
    let u = writer.update_request_at(&request("k", "d", -50, 0), 20);
    assert_eq!(u.values[1].1, AttributeValue::N(s("-30")));
    let edge = writer.update_request_at(&request("k", "d", MAX_TIMESTAMP, 0), 0);
    assert_eq!(edge.values[1].1, AttributeValue::N(i64_to_decimal(MAX_TIMESTAMP)));
    let low = writer.update_request_at(&request("k", "d", MIN_TIMESTAMP, 0), 0);
    assert_eq!(low.values[1].1, AttributeValue::N(i64_to_decimal(MIN_TIMESTAMP)));
}

#[test]
fn update_request_reads_the_clock() {
    let writer = AddCache::with_table_name(s("t"));
    let u = writer.update_request(&request("k", "d", 3600, 10)).unwrap();
    match &u.values[1].1 {
        AttributeValue::N(t) => {
            let ttl = t.parse::<i64>().unwrap();
            assert!(ttl > 1_600_000_000 + 3600);
        },
        other => panic!("expiry is no number: {:?}", other),
    }
    assert!(writer.update_request(&request("k", "d", i64::MAX, 10)).is_none());
    assert!(writer.update_request(&request("k", "d", i64::MIN, 10)).is_none());
}

#[test]
fn written_entry_reads_back() {
    let writer = AddCache::with_table_name(s("t"));
    let req = request("myKey", "new data", 120, 10);
    let u = writer.update_request_at(&req, 1_700_000_000);
    let item = written_item(&u);
    assert!(Cache::is_complete_item(&item));
    assert_eq!(
        Cache::from_dynamodb(item).unwrap(),
        Cache { key: s("myKey"), data: s("new data"), ttl: 1_700_000_120, client_cache: 10, cdn_cache: 120 }
    );
}

#[test]
fn warmed_cache_is_served_with_its_headers() {
    // The README's example: set "myKey" with cdnTTL 120 and clientTTL 10, then get it.
    let req = SetCacheRequest::from_fields(
        s("myKey"),
        JsonValue::String(s("new data")),
        Some(120),
        Some(10),
    );
    let written_at = 1_700_000_000;
    let u = AddCache::with_table_name(s("t")).update_request_at(&req, written_at);
    let entry = Cache::from_dynamodb(written_item(&u)).unwrap();

    let (state, action) = step(
        LookupState::Idle,
        LookupEvent::Request { key: Some(s("myKey")), origin_url: None },
        written_at,
    );
    assert!(matches!(&action, LookupAction::ReadCache { key } if key == "myKey"));
    let (state, action) = step(state, LookupEvent::CacheRead { entry: Some(entry) }, written_at + 60);
    assert!(matches!(state, LookupState::Finished));
    let value = respond_value(action);
    assert_eq!(
        value,
        OriginResponse { key: s("myKey"), data: s("new data"), cdn_cache: 120, client_cache: 10 }
    );
    let reply = reply_for(value);
    assert_eq!(reply.status, 200);
    assert_eq!(reply.body, "new data");
    assert_eq!(
        reply.headers,
        vec![
            (s("content-type"), s("application/json")),
            (s("cache-control"), s("public, max-age=10, s-maxage=120;")),
        ]
    );
}

#[test]
fn expired_entry_is_not_found() {
    let entry = Cache { key: s("k"), data: s("old"), ttl: 500, client_cache: 10, cdn_cache: 20 };
    let state = LookupState::AwaitingCache { key: s("k"), origin_url: Some(s("https://o/origin?key=k")) };
    let (state, action) = step(state, LookupEvent::CacheRead { entry: Some(entry) }, 500);
    assert!(matches!(state, LookupState::Finished));
    let value = respond_value(action);
    assert_eq!(value, OriginResponse { key: s("k"), data: s(""), cdn_cache: 0, client_cache: 0 });
    let reply = reply_for(value);
    assert_eq!(reply.status, 404);
    assert_eq!(reply.headers[1].1, "public, max-age=0, s-maxage=0;");
}

#[test]
fn entry_is_fresh_until_its_expiry() {
    let entry = Cache { key: s("k"), data: s("v"), ttl: 500, client_cache: 1, cdn_cache: 2 };
    let state = LookupState::AwaitingCache { key: s("k"), origin_url: None };
    let (_, action) = step(state, LookupEvent::CacheRead { entry: Some(entry) }, 499);
    assert_eq!(respond_value(action).data, "v");
}

#[test]
fn missing_entry_comes_from_origin() {
    let (state, action) = step(
        LookupState::Idle,
        LookupEvent::Request { key: Some(s("myKey")), origin_url: Some(s("https://origin/origin?key=myKey")) },
        0,
    );
    assert!(matches!(action, LookupAction::ReadCache { .. }));
    let (state, action) = step(state, LookupEvent::CacheRead { entry: None }, 0);
    assert!(matches!(&action, LookupAction::CallOrigin { url } if url == "https://origin/origin?key=myKey"));
    let reply = OriginResponse { key: s("other"), data: s("{\"a\":1}"), cdn_cache: 3600, client_cache: 10 };
    let (state, action) = step(state, LookupEvent::OriginRead { reply: Some(reply) }, 0);
    assert!(matches!(state, LookupState::Finished));
    assert_eq!(
        respond_value(action),
        OriginResponse { key: s("myKey"), data: s("{\"a\":1}"), cdn_cache: 3600, client_cache: 10 }
    );
}

#[test]
fn missing_entry_without_origin_is_not_found() {
    let state = LookupState::AwaitingCache { key: s("k"), origin_url: None };
    let (_, action) = step(state, LookupEvent::CacheRead { entry: None }, 0);
    let value = respond_value(action);
    assert_eq!(value.key, "k");
    assert_eq!(reply_for(value).status, 404);
    let (_, action) = step(LookupState::AwaitingOrigin { key: s("k") }, LookupEvent::OriginRead { reply: None }, 0);
    assert_eq!(respond_value(action).data, "");
}

#[test]
fn request_without_key_is_not_found() {
    let (state, action) = step(LookupState::Idle, LookupEvent::Request { key: None, origin_url: Some(s("u")) }, 0);
    assert!(matches!(state, LookupState::Finished));
    let value = respond_value(action);
    assert_eq!(value, OriginResponse::default());
    assert_eq!(reply_for(value).status, 404);
}

#[test]
fn failures_and_stray_events_end_the_lookup() {
    let (state, action) = step(LookupState::AwaitingCache { key: s("k"), origin_url: None }, LookupEvent::Failed, 0);
    assert!(matches!(state, LookupState::Finished));
    assert!(matches!(action, LookupAction::Fail));
    let (state, action) = step(LookupState::Idle, LookupEvent::CacheRead { entry: None }, 0);
    assert!(matches!(state, LookupState::Finished) && matches!(action, LookupAction::Fail));
    let (_, action) = step(LookupState::Finished, LookupEvent::Request { key: Some(s("k")), origin_url: None }, 0);
    assert!(matches!(action, LookupAction::Fail));
}

#[test]
fn lookup_judges_freshness_by_the_clock() {
    let fresh = Cache { key: s("k"), data: s("v"), ttl: i64::MAX, client_cache: 1, cdn_cache: 2 };
    let state = LookupState::AwaitingCache { key: s("k"), origin_url: None };
    let (_, action) = lookup_step(state, LookupEvent::CacheRead { entry: Some(fresh) });
    assert_eq!(respond_value(action).data, "v");
    let stale = Cache { key: s("k"), data: s("v"), ttl: 1_000_000_000, client_cache: 1, cdn_cache: 2 };
    let state = LookupState::AwaitingCache { key: s("k"), origin_url: None };
    let (_, action) = lookup_step(state, LookupEvent::CacheRead { entry: Some(stale) });
    assert_eq!(respond_value(action).data, "");
}

#[test]
fn reply_headers_with_negative_max_age() {
    let reply = reply_for(OriginResponse { key: s("k"), data: s("x"), cdn_cache: -5, client_cache: 0 });
    assert_eq!(reply.headers[1].1, "public, max-age=0, s-maxage=-5;");
    assert!(is_valid_header_value(&reply.headers[1].1));
}

#[test]
fn header_value_validity() {
    assert!(is_valid_header_value("application/json"));
    assert!(is_valid_header_value("a\tb"));
    assert!(is_valid_header_value("caf\u{e9}"));
    assert!(is_valid_header_value(""));
    assert!(!is_valid_header_value("a\nb"));
    assert!(!is_valid_header_value("\u{7f}"));
    assert!(!is_valid_header_value("\u{1f}"));
}

#[test]
fn api_helper_keeps_what_it_is_given() {
    let r = ApiHelper::response(201, s("body"), vec![(s("x-a"), s("1")), (s("x-b"), s("2"))]);
    assert_eq!(r.status, 201);
    assert_eq!(r.body, "body");
    assert_eq!(r.headers, vec![(s("x-a"), s("1")), (s("x-b"), s("2"))]);
}

#[test]
fn defaults_of_a_cache_request() {
    assert_eq!(one_hour(), 3600);
    assert_eq!(ten_seconds(), 10);
    let r = SetCacheRequest::from_fields(s("k"), JsonValue::String(s("d")), None, None);
    assert_eq!(r, request("k", "d", 3600, 10));
    let r = SetCacheRequest::from_fields(s("k"), JsonValue::Null, Some(1), None);
    assert_eq!(r, request("k", "", 1, 10));
}

#[test]
fn data_of_any_json_kind() {
    assert_eq!(any_to_string(JsonValue::Bool(true)), "true");
    assert_eq!(any_to_string(JsonValue::Bool(false)), "false");
    assert_eq!(any_to_string(JsonValue::Number(s("1.5"))), "1.5");
    assert_eq!(any_to_string(JsonValue::String(s("text"))), "text");
    assert_eq!(any_to_string(JsonValue::Array(s("[1,\"a\"]"))), "[1,\"a\"]");
    assert_eq!(any_to_string(JsonValue::Object(s("{\"a\":null}"))), "{\"a\":null}");
    assert_eq!(any_to_string(JsonValue::Null), "");
}

#[test]
fn warm_up_builder_and_url() {
    let b = WarmUpCachBuilder::new();
    assert_eq!(b, WarmUpCachBuilder::default());
    assert_eq!(b, WarmUpCachBuilder { endpoint: s(""), key: s(""), cdn_ttl: 0, client_tll: 0 });
    let b = b
        .set_endpoint(s("d111.cloudfront.net"))
        .set_key(s("myKey"))
        .set_client_cache_seconds(10)
        .set_cdn_cache_seconds(120);
    assert_eq!(b.warm_up_url(), "https://d111.cloudfront.net/cache?key=myKey&client_cache=10&cdn_cache=120");
    let w = warm_up_for(s("cdn.example"), &request("k", "d", -1, 2));
    assert_eq!(w.warm_up_url(), "https://cdn.example/cache?key=k&client_cache=2&cdn_cache=-1");
}

#[test]
fn outcomes_of_stores() {
    assert_eq!(store_outcome(true), RecordOutcome::Stored);
    assert_eq!(store_outcome(false), RecordOutcome::StoreFailed);
}

#[test]
fn batch_reports_only_failed_stores() {
    let outcomes = vec![
        (s("m1"), RecordOutcome::Stored),
        (s("m2"), RecordOutcome::StoreFailed),
        (s("m3"), RecordOutcome::Skipped),
        (s("m4"), RecordOutcome::StoreFailed),
    ];
    let r = batch_item_failures(&outcomes);
    assert_eq!(
        r.batch_item_failures,
        vec![ItemIdentifier { item_identifier: s("m2") }, ItemIdentifier { item_identifier: s("m4") }]
    );
    assert!(batch_item_failures(&vec![]).batch_item_failures.is_empty());
}

#[test]
fn origin_answer_and_reply() {
    let o = origin_response(s("myKey"), s("{}"));
    assert_eq!(o, OriginResponse { key: s("myKey"), data: s("{}"), cdn_cache: 3600, client_cache: 10 });
    let r = origin_reply(s("{\"key\":\"myKey\"}"));
    assert_eq!(r.status, 200);
    assert_eq!(r.headers, vec![(s("content-type"), s("application/json"))]);
    assert_eq!(r.body, "{\"key\":\"myKey\"}");
}

#[test]
fn any_lookup_is_over_after_three_steps() {
    let (state, _) = step(
        LookupState::Idle,
        LookupEvent::Request { key: Some(s("k")), origin_url: Some(s("u")) },
        0,
    );
    let (state, _) = step(state, LookupEvent::CacheRead { entry: None }, 0);
    let (state, _) = step(state, LookupEvent::CacheRead { entry: None }, 0);
    assert!(matches!(state, LookupState::Finished));
}

#[test]
fn answers_carry_the_requested_key() {
    let entry = Cache { key: s("stored-under-other"), data: s("v"), ttl: 10, client_cache: 1, cdn_cache: 2 };
    let state = LookupState::AwaitingCache { key: s("asked"), origin_url: None };
    let (_, action) = step(state, LookupEvent::CacheRead { entry: Some(entry) }, 0);
    assert_eq!(respond_value(action).key, "asked");
}

#[test]
fn stored_item_reads_back_in_any_order_beside_other_attributes() {
    let req = request("myKey", "new data", 120, 10);
    let u = AddCache::with_table_name(s("t")).update_request_at(&req, 1_700_000_000);
    let mut item = written_item(&u);
    item.reverse();
    item.insert(2, (s("other"), AttributeValue::N(s("5"))));
    item.push((s("flag"), AttributeValue::Bool(true)));
    assert!(Cache::is_complete_item(&item));
    assert_eq!(
        Cache::from_dynamodb(item).unwrap(),
        Cache { key: s("myKey"), data: s("new data"), ttl: 1_700_000_120, client_cache: 10, cdn_cache: 120 }
    );
}

#[test]
fn other_attributes_leave_the_entry_unchanged() {
    let mut item = complete_item();
    item.insert(0, (s("extra"), AttributeValue::S(s("x"))));
    item.push((s("ttl"), AttributeValue::N(s("1"))));
    assert_eq!(
        Cache::from_dynamodb(item).unwrap(),
        Cache::from_dynamodb(complete_item()).unwrap()
    );
}

#[test]
fn origin_record_is_the_fixed_json() {
    let r = fake_db_record();
    assert_eq!(r, FAKE_DB_RECORD);
    assert!(r.contains("\"name\": \"Huffman Baldwin\""));
    assert!(r.starts_with('{') && r.ends_with('}'));
}
