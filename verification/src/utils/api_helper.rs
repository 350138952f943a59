//! HTTP replies as plain data.

use vstd::prelude::*;

verus! {

/// Builds HTTP replies.
pub struct ApiHelper;

/// An HTTP reply: status code, headers (each name once), and body.
#[derive(Debug, Clone, PartialEq, Eq)]
pub struct ApiResponse {
    pub status: u16,
    pub headers: Vec<(String, String)>,
    pub body: String,
}

/// The mathematical value of an [`ApiResponse`].
pub struct ApiResponseView {
    pub status: u16,
    pub headers: Seq<(Seq<char>, Seq<char>)>,
    pub body: Seq<char>,
}

/// The mathematical value of a list of headers.
pub open spec fn headers_view(headers: Seq<(String, String)>) -> Seq<(Seq<char>, Seq<char>)> {
    headers.map_values(|h: (String, String)| (h.0@, h.1@))
}

impl View for ApiResponse {
    type V = ApiResponseView;

    open spec fn view(&self) -> ApiResponseView {
        ApiResponseView { status: self.status, headers: headers_view(self.headers@), body: self.body@ }
    }
}

/// Whether `c` may stand in a header value: a tab, or any character from
/// the space on except DEL. (A character beyond ASCII is encoded in bytes of
/// 0x80 and above, which are allowed.)
pub open spec fn header_value_char(c: char) -> bool {
    c == '\t' || (c as int >= 32 && c as int != 127)
}

/// Whether `s` parses as an HTTP header value.
pub open spec fn valid_header_value(s: Seq<char>) -> bool {
    forall|i: int| 0 <= i < s.len() ==> header_value_char(#[trigger] s[i])
}

/// Whether no two headers have the same name.
pub open spec fn distinct_names(headers: Seq<(Seq<char>, Seq<char>)>) -> bool {
    forall|i: int, j: int|
        0 <= i < headers.len() && 0 <= j < headers.len() && i != j ==> #[trigger] headers[i].0
            != #[trigger] headers[j].0
}

/// Whether every header value parses.
pub open spec fn valid_header_values(headers: Seq<(Seq<char>, Seq<char>)>) -> bool {
    forall|i: int| 0 <= i < headers.len() ==> valid_header_value(#[trigger] headers[i].1)
}

/// Whether `s` parses as an HTTP header value (`HeaderValue::from_str`).
pub fn is_valid_header_value(s: &str) -> (r: bool)
    ensures
        r == valid_header_value(s@),
{
    let len = s.unicode_len();
    let mut i: usize = 0;
    while i < len
        invariant
            i <= len,
            len == s@.len(),
            forall|j: int| 0 <= j < i ==> header_value_char(#[trigger] s@[j]),
        decreases len - i,
    {
        let c = s.get_char(i);
        let code = c as u32;
        if !(c == '\t' || (code >= 32 && code != 127)) {
            assert(!header_value_char(s@[i as int]));
            return false;
        }
        i = i + 1;
    }
    true
}

impl ApiHelper {
    /// The reply with status `status_code`, body `body` and the headers
    /// `headers`, given as a map from names to values.
    pub fn response(status_code: u16, body: String, headers: Vec<(String, String)>) -> (r: ApiResponse)
        requires
            100 <= status_code <= 999,
            distinct_names(headers_view(headers@)),
            valid_header_values(headers_view(headers@)),
        ensures
            r@ == (ApiResponseView { status: status_code, headers: headers_view(headers@), body: body@ }),
    {
        ApiResponse { status: status_code, headers, body }
    }
}

} // verus!
