//! Verified core of a serverless cache: the cache record and its DynamoDB
//! item encoding, the decisions of the get-cache and set-cache handlers, and
//! the HTTP replies they build.

pub mod decimal;
pub mod error;
pub mod models;
pub mod utils;
pub mod dtos;
pub mod clock;
pub mod queries;
pub mod laws;
pub mod handlers;
