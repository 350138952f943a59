pub mod cache;
