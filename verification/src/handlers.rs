//! What each route decides: which requests it puts to the store, and which
//! response it gives for what came back.

pub mod admin_handler;
pub mod blog;
pub mod dashboard_handler;
pub mod hello;
pub mod playground;
pub mod post_handler;
pub mod query;
pub mod user_handler;

use vstd::prelude::*;
use crate::config::Config;
use crate::error::{duplicate_key_message, duplicate_key_text, DataInsertError, DataInsertErrorView};
use crate::json::{object, object_text};
use crate::response::{
    enveloped, AppErrorResponse, AppSuccessResponse, ProxyResponse, ProxyResponseView,
    ResponseStatus, BAD_REQUEST, INTERNAL_SERVER_ERROR, OK,
};
use crate::store::InsertOneResult;
use crate::validation::errors_json;

verus! {

/// The response to a save: success for an entity that was written; the
/// violations, field by field, for one that broke its rules; the duplicate
/// value for one that the store refused as a duplicate; and for every other
/// failure no more than that something went wrong.
pub open spec fn save_response(
    origin: Seq<char>,
    result: Result<InsertOneResult, DataInsertErrorView>,
) -> ProxyResponseView {
    match result {
        Ok(_) => enveloped(
            origin,
            ResponseStatus::Success,
            OK,
            Some("Data added successfully"@),
            None,
        ),
        Err(DataInsertErrorView::FieldValidationError(errors)) => enveloped(
            origin,
            ResponseStatus::Error,
            BAD_REQUEST,
            Some("An error occured"@),
            Some(object_text(seq![("\"errors\""@, errors_json(errors))])),
        ),
        Err(DataInsertErrorView::DuplicateKeyError(store_text)) => enveloped(
            origin,
            ResponseStatus::Error,
            BAD_REQUEST,
            Some(duplicate_key_text(store_text)),
            None,
        ),
        Err(_) => enveloped(
            origin,
            ResponseStatus::Error,
            INTERNAL_SERVER_ERROR,
            Some("An error occured"@),
            None,
        ),
    }
}

/// The view of what a save ended with.
pub open spec fn saved_view(result: Result<InsertOneResult, DataInsertError>) -> Result<
    InsertOneResult,
    DataInsertErrorView,
> {
    match result {
        Ok(id) => Ok(id),
        Err(e) => Err(e.deep_view()),
    }
}

/// The response to a save that ended with `result`.
pub fn respond_to_save(
    config: &Config,
    result: Result<InsertOneResult, DataInsertError>,
) -> (response: ProxyResponse)
    ensures
        response.deep_view() == save_response(config.frontend_base_url@, saved_view(result)),
{
    match result {
        Ok(_) => AppSuccessResponse::new(
            config,
            OK,
            Some("Data added successfully".to_owned()),
            None,
        ),
        Err(DataInsertError::FieldValidationError(errors)) => {
            let mut members: Vec<(String, String)> = Vec::new();
            members.push(("\"errors\"".to_owned(), errors.to_json()));
            assert(members.deep_view() =~= seq![("\"errors\""@, errors_json(errors.deep_view()))]);
            AppErrorResponse::new(
                config,
                BAD_REQUEST,
                Some("An error occured".to_owned()),
                Some(object(&members)),
            )
        },
        Err(DataInsertError::DuplicateKeyError(store_text)) => AppErrorResponse::new(
            config,
            BAD_REQUEST,
            Some(duplicate_key_message(store_text.as_str())),
            None,
        ),
        Err(_) => AppErrorResponse::new(
            config,
            INTERNAL_SERVER_ERROR,
            Some("An error occured".to_owned()),
            None,
        ),
    }
}

/// The response to a read that the store failed: an error without detail
/// of what failed.
pub open spec fn failed_read(origin: Seq<char>) -> ProxyResponseView {
    enveloped(
        origin,
        ResponseStatus::Error,
        INTERNAL_SERVER_ERROR,
        Some("An error occured fetching data"@),
        None,
    )
}

/// The response to a read that the store failed: an error without detail
/// of what failed.
pub fn respond_to_failed_read(config: &Config) -> (response: ProxyResponse)
    ensures
        response.deep_view() == failed_read(config.frontend_base_url@),
{
    AppErrorResponse::new(
        config,
        INTERNAL_SERVER_ERROR,
        Some("An error occured fetching data".to_owned()),
        None,
    )
}

/// The response to a read that came back with `data`, as JSON text.
pub open spec fn successful_read(origin: Seq<char>, data: Seq<char>) -> ProxyResponseView {
    enveloped(origin, ResponseStatus::Success, OK, Some("Request successful"@), Some(data))
}

/// The response to a read that came back with `data`, as JSON text.
pub fn respond_to_read(config: &Config, data: String) -> (response: ProxyResponse)
    ensures
        response.deep_view() == successful_read(config.frontend_base_url@, data@),
{
    AppSuccessResponse::new(config, OK, Some("Request successful".to_owned()), Some(data))
}

} // verus!
