pub mod get_cache;
pub mod origin;
pub mod set_cache;
