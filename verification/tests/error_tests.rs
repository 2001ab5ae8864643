use shared_lib::error::{
    duplicate_key_message, find_duplicate_value, DataInsertError, DUPLICATE_KEY_CODE,
};
use shared_lib::store::StoreError;
use shared_lib::validation::{ValidationError, ValidationErrors};

const REPORT: &str =
    "E11000 duplicate key error collection: blog.posts index: slug_1 dup key: { slug: \"my-post\" }";

#[test]
fn the_duplicate_key_code_is_eleven_thousand() {
    assert_eq!(DUPLICATE_KEY_CODE, 11000);
}

#[test]
fn a_refused_write_with_the_duplicate_code_is_a_duplicate_key() {
    let error = StoreError::Write { code: 11000, message: REPORT.to_string() };
    assert_eq!(DataInsertError::from(error), DataInsertError::DuplicateKeyError(REPORT.to_string()));
    let error = StoreError::Write { code: 11000, message: REPORT.to_string() };
    assert_eq!(
        DataInsertError::of_store_error(error),
        DataInsertError::DuplicateKeyError(REPORT.to_string())
    );
}

#[test]
fn a_refused_write_with_another_code_is_a_write_error() {
    for code in [0, 1, 121, 10999, 11001, -11000, i32::MAX, i32::MIN] {
        let error = StoreError::Write { code, message: "Document failed validation".to_string() };
        assert_eq!(
            DataInsertError::from(error),
            DataInsertError::WriteError("Document failed validation".to_string())
        );
    }
}

#[test]
fn any_other_failure_is_the_stores_other_error() {
    let error = StoreError::Other { message: "Server selection timeout".to_string() };
    assert_eq!(
        DataInsertError::from(error),
        DataInsertError::OtherStoreError("Server selection timeout".to_string())
    );
    let error = StoreError::Other { message: "E11000 key: a b c".to_string() };
    assert_eq!(
        DataInsertError::of_store_error(error),
        DataInsertError::OtherStoreError("E11000 key: a b c".to_string())
    );
}

#[test]
fn violations_are_a_field_validation_error() {
    let errors = ValidationErrors {
        fields: vec![(
            "slug".to_string(),
            vec![ValidationError { code: "required".to_string(), message: None, params: vec![] }],
        )],
    };
    let same = ValidationErrors {
        fields: vec![(
            "slug".to_string(),
            vec![ValidationError { code: "required".to_string(), message: None, params: vec![] }],
        )],
    };
    assert_eq!(DataInsertError::from(errors), DataInsertError::FieldValidationError(same));
}

#[test]
fn the_duplicate_value_is_the_third_token_after_the_marker() {
    assert_eq!(find_duplicate_value(REPORT), Some("\"my-post\"".to_string()));
    assert_eq!(
        find_duplicate_value("E11000 duplicate key error index: blog.users.$email_1 dup key: { : \"a@b.com\" }"),
        Some("\"a@b.com\"".to_string())
    );
    assert_eq!(find_duplicate_value("key: one two three four"), Some("three".to_string()));
    assert_eq!(find_duplicate_value("key: one two three"), Some("three".to_string()));
    assert_eq!(find_duplicate_value("key: one two "), Some("".to_string()));
    assert_eq!(find_duplicate_value("key: a  b"), Some("b".to_string()));
}

#[test]
fn the_duplicate_value_ends_where_the_marker_comes_again() {
    assert_eq!(find_duplicate_value("key: a b c key: d e f"), Some("c".to_string()));
    assert_eq!(find_duplicate_value("key: a b key: d e f"), Some("".to_string()));
    assert_eq!(find_duplicate_value("key: a key: d e f"), None);
}

#[test]
fn there_is_no_duplicate_value_without_marker_or_token() {
    assert_eq!(find_duplicate_value(""), None);
    assert_eq!(find_duplicate_value("duplicate key error"), None);
    assert_eq!(find_duplicate_value("dup key:"), None);
    assert_eq!(find_duplicate_value("dup key: "), None);
    assert_eq!(find_duplicate_value("dup key: {"), None);
    assert_eq!(find_duplicate_value("dup key: { slug:"), None);
    assert_eq!(find_duplicate_value("dup KEY: { slug: \"x\" }"), None);
}

#[test]
fn a_duplicate_is_reported_by_its_value() {
    assert_eq!(duplicate_key_message(REPORT), "an error occurred: \"my-post\" already exists.");
    assert_eq!(
        duplicate_key_message("key: one two three four"),
        "an error occurred: three already exists."
    );
    assert_eq!(
        duplicate_key_message("dup key: { title: \"Größe\" }"),
        "an error occurred: \"Größe\" already exists."
    );
}

#[test]
fn a_duplicate_without_value_is_reported_in_general() {
    assert_eq!(duplicate_key_message("the index refused the write"), "An error occured");
    assert_eq!(duplicate_key_message(""), "An error occured");
    assert_eq!(duplicate_key_message("dup key: { slug:"), "An error occured");
}
