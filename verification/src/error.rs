//! The closed set of kinds that a failed write is reported as.

use vstd::prelude::*;
use vstd::std_specs::convert::FromSpecImpl;
use vstd::string::StringExecFns;
use crate::store::{StoreError, StoreErrorView};
use crate::text::{nth_piece, split_piece};
use crate::validation::{ValidationErrors, ValidationErrorsView};

verus! {

/// The code with which the store refuses a write that would give a unique
/// index the same value twice.
pub const DUPLICATE_KEY_CODE: i32 = 11000;

/// Why an entity was not written.
#[derive(Debug, PartialEq, Eq)]
pub enum DataInsertError {
    /// The entity broke rules of its own; the store was not asked.
    FieldValidationError(ValidationErrors),
    /// The store refused the write for a value that a unique field already
    /// has; with the store's own text.
    DuplicateKeyError(String),
    /// The store refused the write for another reason; with the store's own
    /// text.
    WriteError(String),
    /// Anything else that went wrong between here and the store.
    OtherStoreError(String),
}

pub enum DataInsertErrorView {
    FieldValidationError(ValidationErrorsView),
    DuplicateKeyError(Seq<char>),
    WriteError(Seq<char>),
    OtherStoreError(Seq<char>),
}

impl DeepView for DataInsertError {
    type V = DataInsertErrorView;

    open spec fn deep_view(&self) -> DataInsertErrorView {
        match self {
            DataInsertError::FieldValidationError(errors) => {
                DataInsertErrorView::FieldValidationError(errors.deep_view())
            },
            DataInsertError::DuplicateKeyError(text) => {
                DataInsertErrorView::DuplicateKeyError(text@)
            },
            DataInsertError::WriteError(text) => DataInsertErrorView::WriteError(text@),
            DataInsertError::OtherStoreError(text) => DataInsertErrorView::OtherStoreError(text@),
        }
    }
}

/// The kind that a failure reported by the store falls under: a refused
/// write is a duplicate key if it bears the code for that, and a plain write
/// error if not; everything else is the store's other error.
pub open spec fn classify(error: StoreErrorView) -> DataInsertErrorView {
    match error {
        StoreErrorView::Write { code, message } => if code == DUPLICATE_KEY_CODE {
            DataInsertErrorView::DuplicateKeyError(message)
        } else {
            DataInsertErrorView::WriteError(message)
        },
        StoreErrorView::Other { message } => DataInsertErrorView::OtherStoreError(message),
    }
}

/// The kind that a failure reported by the store falls under, with the
/// store's text as it came.
pub open spec fn kind_of(error: StoreError) -> DataInsertError {
    match error {
        StoreError::Write { code, message } => if code == DUPLICATE_KEY_CODE {
            DataInsertError::DuplicateKeyError(message)
        } else {
            DataInsertError::WriteError(message)
        },
        StoreError::Other { message } => DataInsertError::OtherStoreError(message),
    }
}

impl DataInsertError {
    /// The kind that a failure reported by the store falls under.
    pub fn of_store_error(error: StoreError) -> (e: DataInsertError)
        ensures
            e == kind_of(error),
            e.deep_view() == classify(error.deep_view()),
    {
        match error {
            StoreError::Write { code, message } => if code == DUPLICATE_KEY_CODE {
                DataInsertError::DuplicateKeyError(message)
            } else {
                DataInsertError::WriteError(message)
            },
            StoreError::Other { message } => DataInsertError::OtherStoreError(message),
        }
    }
}

impl From<ValidationErrors> for DataInsertError {
    fn from(errors: ValidationErrors) -> (e: DataInsertError) {
        DataInsertError::FieldValidationError(errors)
    }
}

impl FromSpecImpl<ValidationErrors> for DataInsertError {
    open spec fn obeys_from_spec() -> bool {
        true
    }

    open spec fn from_spec(errors: ValidationErrors) -> DataInsertError {
        DataInsertError::FieldValidationError(errors)
    }
}

impl From<StoreError> for DataInsertError {
    fn from(error: StoreError) -> (e: DataInsertError)
        ensures
            e.deep_view() == classify(error.deep_view()),
    {
        DataInsertError::of_store_error(error)
    }
}

impl FromSpecImpl<StoreError> for DataInsertError {
    open spec fn obeys_from_spec() -> bool {
        true
    }

    open spec fn from_spec(error: StoreError) -> DataInsertError {
        kind_of(error)
    }
}

/// The value that the store's text names as the duplicate: in the text after
/// the marker `key: ` (and before the marker's next occurrence), the third of
/// the tokens that single spaces part. There is none where the marker or the
/// token is missing.
pub open spec fn duplicate_value(store_text: Seq<char>) -> Option<Seq<char>> {
    match nth_piece(store_text, "key: "@, 1) {
        Some(rest) => nth_piece(rest, " "@, 2),
        None => None,
    }
}

/// What a caller is told about a duplicate key: which value exists already,
/// where the store's text names it, and no more than that something went
/// wrong where it does not.
pub open spec fn duplicate_key_text(store_text: Seq<char>) -> Seq<char> {
    match duplicate_value(store_text) {
        Some(value) => "an error occurred: "@ + value + " already exists."@,
        None => "An error occured"@,
    }
}

/// The value that the store's text names as the duplicate.
pub fn find_duplicate_value(store_text: &str) -> (value: Option<String>)
    ensures
        value.deep_view() == duplicate_value(store_text@),
{
    match split_piece(store_text, "key: ", 1) {
        Some(rest) => split_piece(rest.as_str(), " ", 2),
        None => None,
    }
}

/// What a caller is told about a duplicate key that the store reported with
/// `store_text`.
pub fn duplicate_key_message(store_text: &str) -> (message: String)
    ensures
        message@ == duplicate_key_text(store_text@),
{
    match find_duplicate_value(store_text) {
        Some(value) => {
            let mut message = "an error occurred: ".to_owned();
            message.append(value.as_str());
            message.append(" already exists.");
            message
        },
        None => "An error occured".to_owned(),
    }
}

} // verus!
