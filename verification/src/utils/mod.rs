pub mod api_helper;
pub mod dynamodb;
