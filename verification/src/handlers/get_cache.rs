//! The decisions of the get-cache handler: where a value comes from, and
//! the reply that carries it.
//!
//! A lookup runs as a small state machine. The caller performs each action
//! (reading the table, calling the origin) and feeds back what it got.

use vstd::prelude::*;
use crate::clock::{utc_now_timestamp, MAX_TIMESTAMP};
use crate::decimal::{int_decimal, lemma_nat_decimal, nat_decimal, push_decimal};
use crate::dtos::origin_response::{empty_response, OriginResponse, OriginResponseView};
use crate::models::cache::{Cache, CacheView};
use crate::utils::api_helper::{
    headers_view, header_value_char, valid_header_value, ApiHelper, ApiResponse, ApiResponseView,
};

verus! {

/// Where a lookup stands.
#[derive(Debug)]
pub enum LookupState {
    /// No request yet.
    Idle,
    /// Waiting for the table's entry for `key`.
    AwaitingCache { key: String, origin_url: Option<String> },
    /// Waiting for the origin's value for `key`.
    AwaitingOrigin { key: String },
    /// The lookup has answered or failed.
    Finished,
}

/// What the caller reports to a lookup.
#[derive(Debug)]
pub enum LookupEvent {
    /// A request came in, with its `key` and `origin_url` query parameters.
    Request { key: Option<String>, origin_url: Option<String> },
    /// The table was read: its entry for the key, if it has one.
    CacheRead { entry: Option<Cache> },
    /// The origin was called: its value, if there is one.
    OriginRead { reply: Option<OriginResponse> },
    /// The table or the origin could not be reached or understood.
    Failed,
}

/// What a lookup asks the caller to do next.
#[derive(Debug)]
pub enum LookupAction {
    /// Read the table's entry for `key`.
    ReadCache { key: String },
    /// Fetch the value from `url`.
    CallOrigin { url: String },
    /// Answer with `value`.
    Respond { value: OriginResponse },
    /// Answer with an error.
    Fail,
}

pub enum LookupStateView {
    Idle,
    AwaitingCache { key: Seq<char>, origin_url: Option<Seq<char>> },
    AwaitingOrigin { key: Seq<char> },
    Finished,
}

pub enum LookupEventView {
    Request { key: Option<Seq<char>>, origin_url: Option<Seq<char>> },
    CacheRead { entry: Option<CacheView> },
    OriginRead { reply: Option<OriginResponseView> },
    Failed,
}

pub enum LookupActionView {
    ReadCache { key: Seq<char> },
    CallOrigin { url: Seq<char> },
    Respond { value: OriginResponseView },
    Fail,
}

/// The mathematical value of an optional string.
pub open spec fn opt_text(o: Option<String>) -> Option<Seq<char>> {
    match o {
        Some(s) => Some(s@),
        None => None,
    }
}

impl View for LookupState {
    type V = LookupStateView;

    open spec fn view(&self) -> LookupStateView {
        match self {
            LookupState::Idle => LookupStateView::Idle,
            LookupState::AwaitingCache { key, origin_url } => LookupStateView::AwaitingCache {
                key: key@,
                origin_url: opt_text(*origin_url),
            },
            LookupState::AwaitingOrigin { key } => LookupStateView::AwaitingOrigin { key: key@ },
            LookupState::Finished => LookupStateView::Finished,
        }
    }
}

impl View for LookupEvent {
    type V = LookupEventView;

    open spec fn view(&self) -> LookupEventView {
        match self {
            LookupEvent::Request { key, origin_url } => LookupEventView::Request {
                key: opt_text(*key),
                origin_url: opt_text(*origin_url),
            },
            LookupEvent::CacheRead { entry } => LookupEventView::CacheRead {
                entry: match entry {
                    Some(c) => Some(c@),
                    None => None,
                },
            },
            LookupEvent::OriginRead { reply } => LookupEventView::OriginRead {
                reply: match reply {
                    Some(o) => Some(o@),
                    None => None,
                },
            },
            LookupEvent::Failed => LookupEventView::Failed,
        }
    }
}

impl View for LookupAction {
    type V = LookupActionView;

    open spec fn view(&self) -> LookupActionView {
        match self {
            LookupAction::ReadCache { key } => LookupActionView::ReadCache { key: key@ },
            LookupAction::CallOrigin { url } => LookupActionView::CallOrigin { url: url@ },
            LookupAction::Respond { value } => LookupActionView::Respond { value: value@ },
            LookupAction::Fail => LookupActionView::Fail,
        }
    }
}

/// The answer for `key` when nothing usable was found: no data, max-ages zero.
pub open spec fn nothing_for(key: Seq<char>) -> OriginResponseView {
    OriginResponseView { key, data: Seq::empty(), cdn_cache: 0, client_cache: 0 }
}

/// The answer for `key` carrying a cache entry's data and max-ages.
pub open spec fn from_cache(key: Seq<char>, c: CacheView) -> OriginResponseView {
    OriginResponseView { key, data: c.data, cdn_cache: c.cdn_cache, client_cache: c.client_cache }
}

/// The answer for `key` carrying the origin's data and max-ages.
pub open spec fn from_origin(key: Seq<char>, o: OriginResponseView) -> OriginResponseView {
    OriginResponseView { key, data: o.data, cdn_cache: o.cdn_cache, client_cache: o.client_cache }
}

/// One step of a lookup at time `now` (Unix seconds). A request without a
/// key is answered with nothing; otherwise the table is read. An entry is
/// served while its expiry lies after `now`; an expired entry is answered
/// with nothing. Without an entry the origin is called when the request named
/// one, and its value is served under the requested key. A failure, or an
/// event that does not fit the state, ends the lookup with an error.
pub open spec fn lookup_step_spec(s: LookupStateView, e: LookupEventView, now: int) -> (
    LookupStateView,
    LookupActionView,
) {
    match (s, e) {
        (LookupStateView::Idle, LookupEventView::Request { key, origin_url }) => match key {
            None => (LookupStateView::Finished, LookupActionView::Respond { value: empty_response() }),
            Some(k) => (
                LookupStateView::AwaitingCache { key: k, origin_url },
                LookupActionView::ReadCache { key: k },
            ),
        },
        (LookupStateView::AwaitingCache { key, origin_url }, LookupEventView::CacheRead { entry }) => {
            match entry {
                Some(c) => (
                    LookupStateView::Finished,
                    LookupActionView::Respond {
                        value: if c.ttl > now {
                            from_cache(key, c)
                        } else {
                            nothing_for(key)
                        },
                    },
                ),
                None => match origin_url {
                    Some(url) => (
                        LookupStateView::AwaitingOrigin { key },
                        LookupActionView::CallOrigin { url },
                    ),
                    None => (
                        LookupStateView::Finished,
                        LookupActionView::Respond { value: nothing_for(key) },
                    ),
                },
            }
        },
        (LookupStateView::AwaitingOrigin { key }, LookupEventView::OriginRead { reply }) => (
            LookupStateView::Finished,
            LookupActionView::Respond {
                value: match reply {
                    Some(o) => from_origin(key, o),
                    None => nothing_for(key),
                },
            },
        ),
        _ => (LookupStateView::Finished, LookupActionView::Fail),
    }
}

fn nothing_for_exec(key: String) -> (r: OriginResponse)
    ensures
        r@ == nothing_for(key@),
{
    OriginResponse { key, data: String::new(), cdn_cache: 0, client_cache: 0 }
}

/// One step of a lookup at time `now` (Unix seconds).
pub fn lookup_step_at(state: LookupState, event: LookupEvent, now: i64) -> (r: (LookupState, LookupAction))
    ensures
        (r.0@, r.1@) == lookup_step_spec(state@, event@, now as int),
{
    match (state, event) {
        (LookupState::Idle, LookupEvent::Request { key, origin_url }) => match key {
            None => (LookupState::Finished, LookupAction::Respond { value: OriginResponse::default() }),
            Some(k) => {
                let read = LookupAction::ReadCache { key: k.clone() };
                (LookupState::AwaitingCache { key: k, origin_url }, read)
            },
        },
        (LookupState::AwaitingCache { key, origin_url }, LookupEvent::CacheRead { entry }) => {
            match entry {
                Some(c) => {
                    let value = if c.ttl > now {
                        OriginResponse {
                            key,
                            data: c.data,
                            cdn_cache: c.cdn_cache,
                            client_cache: c.client_cache,
                        }
                    } else {
                        nothing_for_exec(key)
                    };
                    (LookupState::Finished, LookupAction::Respond { value })
                },
                None => match origin_url {
                    Some(url) => (LookupState::AwaitingOrigin { key }, LookupAction::CallOrigin { url }),
                    None => (LookupState::Finished, LookupAction::Respond { value: nothing_for_exec(key) }),
                },
            }
        },
        (LookupState::AwaitingOrigin { key }, LookupEvent::OriginRead { reply }) => {
            let value = match reply {
                Some(o) => OriginResponse {
                    key,
                    data: o.data,
                    cdn_cache: o.cdn_cache,
                    client_cache: o.client_cache,
                },
                None => nothing_for_exec(key),
            };
            (LookupState::Finished, LookupAction::Respond { value })
        },
        _ => (LookupState::Finished, LookupAction::Fail),
    }
}

/// One step of a lookup, judging freshness by the clock: the step that
/// [`lookup_step_at`] takes at the time the clock gives.
pub fn lookup_step(state: LookupState, event: LookupEvent) -> (r: (LookupState, LookupAction))
    ensures
        exists|now: int|
            0 <= now <= MAX_TIMESTAMP && (r.0@, r.1@) == #[trigger] lookup_step_spec(state@, event@, now),
{
    let now = utc_now_timestamp();
    let r = lookup_step_at(state, event, now);
    assert(lookup_step_spec(state@, event@, now as int) == (r.0@, r.1@));
    r
}


/// The `Cache-Control` value for a reply:
/// `public, max-age={client_cache}, s-maxage={cdn_cache};`.
pub open spec fn cache_control_spec(client_cache: i64, cdn_cache: i64) -> Seq<char> {
    "public, max-age="@ + int_decimal(client_cache as int) + ", s-maxage="@ + int_decimal(
        cdn_cache as int,
    ) + ";"@
}

/// The reply that carries a lookup's answer: 200 with the data when there is
/// any, 404 when the data is empty; JSON content, cached by clients and the
/// CDN for the answer's max-ages.
pub open spec fn reply_spec(v: OriginResponseView) -> ApiResponseView {
    ApiResponseView {
        status: if v.data.len() > 0 { 200 } else { 404 },
        headers: seq![
            ("content-type"@, "application/json"@),
            ("cache-control"@, cache_control_spec(v.client_cache, v.cdn_cache)),
        ],
        body: v.data,
    }
}

/// Every character of a decimal text may stand in a header value.
proof fn lemma_decimal_header_safe(n: int)
    ensures
        valid_header_value(int_decimal(n)),
{
    if n < 0 {
        lemma_nat_decimal((-n) as nat);
        let s = int_decimal(n);
        assert forall|i: int| 0 <= i < s.len() implies header_value_char(#[trigger] s[i]) by {
            if i > 0 {
                assert(s[i] == nat_decimal((-n) as nat)[i - 1]);
            }
        }
    } else {
        lemma_nat_decimal(n as nat);
    }
}

fn cache_control(client_cache: i64, cdn_cache: i64) -> (r: String)
    ensures
        r@ == cache_control_spec(client_cache, cdn_cache),
        valid_header_value(r@),
{
    let mut v = "public, max-age=".to_owned();
    push_decimal(client_cache, &mut v);
    v.append(", s-maxage=");
    push_decimal(cdn_cache, &mut v);
    v.append(";");
    proof {
        reveal_strlit("public, max-age=");
        reveal_strlit(", s-maxage=");
        reveal_strlit(";");
        lemma_decimal_header_safe(client_cache as int);
        lemma_decimal_header_safe(cdn_cache as int);
        let a = "public, max-age="@;
        let b = int_decimal(client_cache as int);
        let c = ", s-maxage="@;
        let d = int_decimal(cdn_cache as int);
        let e = ";"@;
        assert forall|i: int| 0 <= i < v@.len() implies header_value_char(#[trigger] v@[i]) by {
            if i < a.len() {
                assert(v@[i] == a[i]);
            } else if i < a.len() + b.len() {
                assert(v@[i] == b[i - a.len()]);
            } else if i < a.len() + b.len() + c.len() {
                assert(v@[i] == c[i - a.len() - b.len()]);
            } else if i < a.len() + b.len() + c.len() + d.len() {
                assert(v@[i] == d[i - a.len() - b.len() - c.len()]);
            } else {
                assert(v@[i] == e[i - a.len() - b.len() - c.len() - d.len()]);
            }
        }
    }
    v
}

/// The reply that carries a lookup's answer.
pub fn reply_for(value: OriginResponse) -> (r: ApiResponse)
    ensures
        r@ == reply_spec(value@),
{
    let status: u16 = if value.data.as_str().is_empty() {
        404
    } else {
        200
    };
    let control = cache_control(value.client_cache, value.cdn_cache);
    proof {
        reveal_strlit("content-type");
        reveal_strlit("cache-control");
        reveal_strlit("application/json");
    }
    let headers = vec![
        ("content-type".to_owned(), "application/json".to_owned()),
        ("cache-control".to_owned(), control),
    ];
    assert(headers_view(headers@) =~= reply_spec(value@).headers);
    proof {
        let hv = headers_view(headers@);
        assert(valid_header_value("application/json"@));
        assert forall|i: int| 0 <= i < hv.len() implies valid_header_value(#[trigger] hv[i].1) by {}
        assert forall|i: int, j: int|
            0 <= i < hv.len() && 0 <= j < hv.len() && i != j implies #[trigger] hv[i].0
            != #[trigger] hv[j].0 by {
            assert(hv[0].0 == "content-type"@);
            assert(hv[1].0 == "cache-control"@);
            assert("content-type"@.len() != "cache-control"@.len());
        }
    }
    let r = ApiHelper::response(status, value.data, headers);
    r
}

} // verus!
