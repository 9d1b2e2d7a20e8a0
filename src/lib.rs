//! A typed client for a bibliographic classification service: the response
//! model, and the interpretation of a response into one of its outcomes.
pub mod api_models;
pub mod models;
pub mod client;
