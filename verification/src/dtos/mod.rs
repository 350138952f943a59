pub mod batch_item_failures;
pub mod origin_response;
pub mod set_cache_request;
pub mod warmup_request;
