//! Google Cloud REST clients: the logic of token acquisition, token caching, request
//! construction and response interpretation, with its contracts.
//!
//! The modules hold values only: a request is built as an `HttpRequest`, and what came back is
//! handed in as an `HttpResponse` or as the fields of a parsed JSON answer. Sending requests,
//! reading files and the environment, clocks and JSON parsing are the caller's part.
pub mod text;
pub mod token;
pub mod cache;
pub mod external;
pub mod http;
pub mod adc;
pub mod auth;
pub mod flow;
pub mod api;
pub mod json;
pub mod storage;
pub mod pubsub;
pub mod tasks;
pub mod secretmanager;
pub mod bigquery;
pub mod laws;
