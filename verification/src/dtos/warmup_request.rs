//! The request that warms the CDN up for a freshly cached key.

use vstd::prelude::*;
use crate::decimal::{int_decimal, push_decimal};

verus! {

/// Builds the warm-up request: the CDN's domain, the key, and the max-ages
/// (in seconds) for the CDN and for clients.
#[derive(Debug, Clone, PartialEq, Eq)]
pub struct WarmUpCachBuilder {
    pub endpoint: String,
    pub key: String,
    pub cdn_ttl: i64,
    pub client_tll: i64,
}

/// The mathematical value of a [`WarmUpCachBuilder`].
pub struct WarmUpCachBuilderView {
    pub endpoint: Seq<char>,
    pub key: Seq<char>,
    pub cdn_ttl: i64,
    pub client_tll: i64,
}

impl View for WarmUpCachBuilder {
    type V = WarmUpCachBuilderView;

    open spec fn view(&self) -> WarmUpCachBuilderView {
        WarmUpCachBuilderView {
            endpoint: self.endpoint@,
            key: self.key@,
            cdn_ttl: self.cdn_ttl,
            client_tll: self.client_tll,
        }
    }
}

/// The URL that warms the CDN up for `b`:
/// `https://{endpoint}/cache?key={key}&client_cache={client_tll}&cdn_cache={cdn_ttl}`.
pub open spec fn warm_up_url_spec(b: WarmUpCachBuilderView) -> Seq<char> {
    "https://"@ + b.endpoint + "/cache?key="@ + b.key + "&client_cache="@ + int_decimal(
        b.client_tll as int,
    ) + "&cdn_cache="@ + int_decimal(b.cdn_ttl as int)
}

impl Default for WarmUpCachBuilder {
    fn default() -> (r: WarmUpCachBuilder)
        ensures
            r@ == (WarmUpCachBuilderView {
                endpoint: Seq::empty(),
                key: Seq::empty(),
                cdn_ttl: 0,
                client_tll: 0,
            }),
    {
        WarmUpCachBuilder { endpoint: String::new(), key: String::new(), cdn_ttl: 0, client_tll: 0 }
    }
}

impl WarmUpCachBuilder {
    /// A builder with empty texts and zero max-ages.
    pub fn new() -> (r: WarmUpCachBuilder)
        ensures
            r@ == (WarmUpCachBuilderView {
                endpoint: Seq::empty(),
                key: Seq::empty(),
                cdn_ttl: 0,
                client_tll: 0,
            }),
    {
        let options: WarmUpCachBuilder = WarmUpCachBuilder::default();
        options
    }

    /// Sets the CDN's domain.
    pub fn set_endpoint(self, input: String) -> (r: WarmUpCachBuilder)
        ensures
            r@ == (WarmUpCachBuilderView { endpoint: input@, ..self@ }),
    {
        let mut b = self;
        b.endpoint = input;
        b
    }

    /// Sets the key.
    pub fn set_key(self, input: String) -> (r: WarmUpCachBuilder)
        ensures
            r@ == (WarmUpCachBuilderView { key: input@, ..self@ }),
    {
        let mut b = self;
        b.key = input;
        b
    }

    /// Sets the CDN's max-age.
    pub fn set_cdn_cache_seconds(self, input: i64) -> (r: WarmUpCachBuilder)
        ensures
            r@ == (WarmUpCachBuilderView { cdn_ttl: input, ..self@ }),
    {
        let mut b = self;
        b.cdn_ttl = input;
        b
    }

    /// Sets the clients' max-age.
    pub fn set_client_cache_seconds(self, input: i64) -> (r: WarmUpCachBuilder)
        ensures
            r@ == (WarmUpCachBuilderView { client_tll: input, ..self@ }),
    {
        let mut b = self;
        b.client_tll = input;
        b
    }

    /// The URL that the warm-up request fetches.
    pub fn warm_up_url(&self) -> (r: String)
        ensures
            r@ == warm_up_url_spec(self@),
    {
        let mut url = "https://".to_owned();
        url.append(self.endpoint.as_str());
        url.append("/cache?key=");
        url.append(self.key.as_str());
        url.append("&client_cache=");
        push_decimal(self.client_tll, &mut url);
        url.append("&cdn_cache=");
        push_decimal(self.cdn_ttl, &mut url);
        url
    }
}

} // verus!
