//! The data-access layer of a small blog: entities with their rules, the
//! protocol by which they are written to and read from a document store,
//! pagination, the kinds of failure, and the envelope of every response.
//!
//! Nothing here reaches the store. An operation hands out the request that
//! the caller is to run and is continued with the store's reply, so that
//! every decision is made, and proved, on plain values.

pub mod config;
pub mod error;
pub mod handlers;
pub mod json;
pub mod models;
pub mod pagination;
pub mod request;
pub mod response;
pub mod store;
pub mod text;
pub mod traits;
pub mod utils;
pub mod validation;

pub use error::DataInsertError;
pub use pagination::{PaginatedData, PaginationMetadata};
pub use request::RequestPayload;
pub use response::{AppErrorResponse, AppSuccessResponse, ResponseBody, ResponseStatus};
