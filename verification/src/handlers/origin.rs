//! The decisions of the origin handler, which stands in for the slow
//! service whose answers the cache keeps.

use vstd::prelude::*;
use crate::dtos::origin_response::{OriginResponse, OriginResponseView};
use crate::utils::api_helper::{headers_view, ApiHelper, ApiResponse, ApiResponseView};

verus! {

/// How long (in seconds) the CDN may keep an origin answer.
pub const ORIGIN_CDN_CACHE: i64 = 3600;

/// How long (in seconds) clients may keep an origin answer.
pub const ORIGIN_CLIENT_CACHE: i64 = 10;

/// The record that the origin's stand-in database holds.
pub const FAKE_DB_RECORD: &'static str = r#"{
        "_id": "6245cc2fdd635f58f53cb3e8",
        "index": 3,
        "guid": "337dda62-8a6a-4804-bb83-560e5539ebd6",
        "isActive": false,
        "balance": "$3,336.43",
        "picture": "http://placehold.it/32x32",
        "age": 31,
        "eyeColor": "green",
        "name": "Huffman Baldwin",
        "gender": "male",
        "company": "ZERBINA",
        "email": "huffmanbaldwin@zerbina.com",
        "phone": "+1 (973) 569-3138",
        "address": "358 Ainslie Street, Wintersburg, Maine, 1161",
        "about": "Ex fugiat do magna duis magna cillum laborum officia. Dolor tempor consectetur mollit amet consectetur incididunt nisi incididunt nostrud aliquip anim. Officia enim id velit aute et dolor esse exercitation veniam aute labore sit occaecat. Est sint irure duis velit Lorem Lorem aliqua labore. Nulla eiusmod nulla incididunt cillum enim laboris. Non et exercitation esse enim laboris ut pariatur nostrud. Id excepteur id anim consequat irure labore proident consequat pariatur aliqua deserunt mollit.\r\n",
        "registered": "2019-01-12T02:42:52 -01:00",
        "latitude": 25.581892,
        "longitude": 174.839012,
        "tags": [
          "id",
          "ad",
          "consequat",
          "nostrud",
          "incididunt",
          "nostrud",
          "fugiat"
        ],
        "friends": [
          {
            "id": 0,
            "name": "Floyd Richard"
          },
          {
            "id": 1,
            "name": "Tate Gill"
          },
          {
            "id": 2,
            "name": "Mays Cruz"
          }
        ],
        "greeting": "Hello, Huffman Baldwin! You have 2 unread messages.",
        "favoriteFruit": "banana"
      }"#;

/// The record that the origin's stand-in database returns.
pub fn fake_db_record() -> (r: String)
    ensures
        r@ == FAKE_DB_RECORD@,
{
    FAKE_DB_RECORD.to_owned()
}

/// The origin's answer for `key` with the record `data`.
pub fn origin_response(key: String, data: String) -> (r: OriginResponse)
    ensures
        r@ == (OriginResponseView {
            key: key@,
            data: data@,
            cdn_cache: ORIGIN_CDN_CACHE,
            client_cache: ORIGIN_CLIENT_CACHE,
        }),
{
    OriginResponse { key, data, cdn_cache: ORIGIN_CDN_CACHE, client_cache: ORIGIN_CLIENT_CACHE }
}

/// The origin's HTTP reply: 200, JSON content, with `body` (the answer as
/// JSON text).
pub fn origin_reply(body: String) -> (r: ApiResponse)
    ensures
        r@ == (ApiResponseView {
            status: 200,
            headers: seq![("content-type"@, "application/json"@)],
            body: body@,
        }),
{
    proof {
        reveal_strlit("application/json");
    }
    let headers = vec![("content-type".to_owned(), "application/json".to_owned())];
    assert(headers_view(headers@) =~= seq![("content-type"@, "application/json"@)]);
    ApiHelper::response(200, body, headers)
}

} // verus!
