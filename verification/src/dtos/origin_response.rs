//! The value that the get-cache handler answers with, and that the origin sends.

use vstd::prelude::*;

verus! {

/// A cached or fetched value: its key, the data, and the max-age (in
/// seconds) for the CDN and for clients.
#[derive(Debug, Clone, PartialEq, Eq)]
pub struct OriginResponse {
    pub key: String,
    pub data: String,
    pub cdn_cache: i64,
    pub client_cache: i64,
}

/// The mathematical value of an [`OriginResponse`].
pub struct OriginResponseView {
    pub key: Seq<char>,
    pub data: Seq<char>,
    pub cdn_cache: i64,
    pub client_cache: i64,
}

impl View for OriginResponse {
    type V = OriginResponseView;

    open spec fn view(&self) -> OriginResponseView {
        OriginResponseView {
            key: self.key@,
            data: self.data@,
            cdn_cache: self.cdn_cache,
            client_cache: self.client_cache,
        }
    }
}

/// The empty value: no key, no data, both max-ages zero.
pub open spec fn empty_response() -> OriginResponseView {
    OriginResponseView { key: Seq::empty(), data: Seq::empty(), cdn_cache: 0, client_cache: 0 }
}

impl Default for OriginResponse {
    fn default() -> (r: OriginResponse)
        ensures
            r@ == empty_response(),
    {
        OriginResponse { key: String::new(), data: String::new(), cdn_cache: 0, client_cache: 0 }
    }
}

} // verus!
