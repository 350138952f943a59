pub mod add_cache;
pub mod get_cache;
