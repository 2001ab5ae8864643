use shared_lib::models::post::{Post, UniquePostFields};
use shared_lib::models::user::{UniqueUserFields, User, UserRole};
use shared_lib::models::Timestamp;
use shared_lib::store::ObjectId;
use shared_lib::traits::model_traits::ModelTraits;
use shared_lib::validation::{
    check_email, check_list_length, check_non_empty, check_required, check_text_length,
    validate_length,
    ParamValue, ValidationError, ValidationErrors,
};

fn at(seconds: i64) -> Option<Timestamp> {
    Some(Timestamp { seconds, nanoseconds: 0 })
}

fn text(s: &str) -> Option<String> {
    Some(s.to_string())
}

fn good_post() -> Post {
    Post {
        title: text("Understanding the ? Operator in Rust"),
        slug: text("understanding-the-question-mark-operator-in-rust"),
        rust_code_snippet: text("fn main() {}"),
        content: text("The From and Into traits are inherently linked."),
        published_by: Some(vec![ObjectId { bytes: [7; 12] }]),
        tags: Some(vec!["rust".to_string()]),
        code_snippet_enabled: Some(true),
        playground_enabled: Some(false),
        is_published: Some(true),
        is_featured: Some(false),
        created_at: at(1_700_000_000),
        updated_at: at(1_700_000_001),
    }
}

fn good_user() -> User {
    User {
        username: text("ferris"),
        email: text("ferris@example.com"),
        password: text("$2b$14$abcdefghijklmnopqrstuv"),
        role: Some(UserRole::Admin),
        profile_image: None,
        created_at: at(1_700_000_000),
        updated_at: at(1_700_000_001),
    }
}

fn violation(
    code: &str,
    message: Option<&str>,
    params: Vec<(&str, ParamValue)>,
) -> ValidationError {
    ValidationError {
        code: code.to_string(),
        message: message.map(|m| m.to_string()),
        params: params.into_iter().map(|(k, v)| (k.to_string(), v)).collect(),
    }
}

fn only(field: &str, found: Vec<ValidationError>) -> Result<(), ValidationErrors> {
    Err(ValidationErrors { fields: vec![(field.to_string(), found)] })
}

#[test]
fn a_complete_post_is_valid() {
    assert_eq!(good_post().validate(), Ok(()));
}

#[test]
fn a_complete_user_is_valid() {
    assert_eq!(good_user().validate(), Ok(()));
}

#[test]
fn a_post_without_title_is_told_so() {
    let post = Post { title: None, ..good_post() };
    assert_eq!(
        post.validate(),
        only(
            "title",
            vec![violation("required", Some("Title is required"), vec![("value", ParamValue::Null)])]
        )
    );
}

#[test]
fn a_title_of_nine_characters_is_too_short() {
    let post = Post { title: text("123456789"), ..good_post() };
    assert_eq!(
        post.validate(),
        only(
            "title",
            vec![violation(
                "length",
                Some("Username cannot be less than 10 characters"),
                vec![
                    ("min", ParamValue::Number(10)),
                    ("value", ParamValue::Text("123456789".to_string())),
                ]
            )]
        )
    );
}

#[test]
fn titles_of_ten_and_of_seventy_characters_are_valid() {
    let ten = Post { title: text("1234567890"), ..good_post() };
    assert_eq!(ten.validate(), Ok(()));
    let seventy = Post { title: Some("x".repeat(70)), ..good_post() };
    assert_eq!(seventy.validate(), Ok(()));
}

#[test]
fn a_title_of_seventy_one_characters_is_too_long() {
    let title = "x".repeat(71);
    let post = Post { title: Some(title.clone()), ..good_post() };
    assert_eq!(
        post.validate(),
        only(
            "title",
            vec![violation(
                "length",
                Some("Username cannot be more than 70 characters"),
                vec![("max", ParamValue::Number(70)), ("value", ParamValue::Text(title))]
            )]
        )
    );
}

#[test]
fn a_title_is_measured_in_characters_not_bytes() {
    let ten = "é".repeat(10);
    assert_eq!(ten.len(), 20);
    let post = Post { title: Some(ten), ..good_post() };
    assert_eq!(post.validate(), Ok(()));
    let seventy = "é".repeat(70);
    let post = Post { title: Some(seventy), ..good_post() };
    assert_eq!(post.validate(), Ok(()));
    let nine = "é".repeat(9);
    let post = Post { title: Some(nine), ..good_post() };
    assert!(post.validate().is_err());
}

#[test]
fn five_tags_are_valid_and_six_are_too_many() {
    let five: Vec<String> = (0..5).map(|i| format!("tag{}", i)).collect();
    let post = Post { tags: Some(five), ..good_post() };
    assert_eq!(post.validate(), Ok(()));
    let six: Vec<String> = (0..6).map(|i| format!("tag{}", i)).collect();
    let post = Post { tags: Some(six.clone()), ..good_post() };
    assert_eq!(
        post.validate(),
        only(
            "tags",
            vec![violation(
                "length",
                Some("Tags exceed the limit of 5"),
                vec![("max", ParamValue::Number(5)), ("value", ParamValue::TextList(six))]
            )]
        )
    );
}

#[test]
fn a_post_with_an_empty_list_of_authors_is_turned_away() {
    let post = Post { published_by: Some(vec![]), ..good_post() };
    assert_eq!(
        post.validate(),
        only(
            "published_by",
            vec![violation(
                "length",
                Some("Post author is required"),
                vec![("min", ParamValue::Number(1)), ("value", ParamValue::TextList(vec![]))]
            )]
        )
    );
    assert_eq!(
        post.validate().unwrap_err().to_json(),
        "{\"published_by\":[{\"code\":\"length\",\"message\":\"Post author is required\",\"params\":{\"min\":1,\"value\":[]}}]}"
    );
    let two = Post {
        published_by: Some(vec![ObjectId { bytes: [1; 12] }, ObjectId { bytes: [2; 12] }]),
        ..good_post()
    };
    assert_eq!(two.validate(), Ok(()));
}

#[test]
fn a_post_without_authors_is_told_so_once() {
    let post = Post { published_by: None, ..good_post() };
    assert_eq!(
        post.validate(),
        only(
            "published_by",
            vec![violation(
                "required",
                Some("Post author is required"),
                vec![("value", ParamValue::Null)]
            )]
        )
    );
}

#[test]
fn the_rule_of_at_least_one_element() {
    let mut found = vec![];
    check_non_empty(None, Some("unused"), &mut found);
    check_non_empty(Some(1), Some("unused"), &mut found);
    check_non_empty(Some(usize::MAX), None, &mut found);
    assert_eq!(found.len(), 0);
    check_non_empty(Some(0), None, &mut found);
    assert_eq!(
        found,
        vec![violation(
            "length",
            None,
            vec![("min", ParamValue::Number(1)), ("value", ParamValue::TextList(vec![]))]
        )]
    );
}

#[test]
fn a_post_without_tags_is_valid() {
    let post = Post { tags: None, ..good_post() };
    assert_eq!(post.validate(), Ok(()));
    let post = Post { tags: Some(vec![]), ..good_post() };
    assert_eq!(post.validate(), Ok(()));
}

#[test]
fn a_post_without_optional_parts_is_valid() {
    let post = Post {
        rust_code_snippet: None,
        code_snippet_enabled: None,
        playground_enabled: None,
        is_published: None,
        is_featured: None,
        ..good_post()
    };
    assert_eq!(post.validate(), Ok(()));
}

#[test]
fn every_missing_part_of_a_post_is_reported_in_the_order_of_the_fields() {
    let post = Post {
        title: None,
        slug: None,
        rust_code_snippet: None,
        content: None,
        published_by: None,
        tags: None,
        code_snippet_enabled: None,
        playground_enabled: None,
        is_published: None,
        is_featured: None,
        created_at: None,
        updated_at: None,
    };
    let null = || vec![("value", ParamValue::Null)];
    assert_eq!(
        post.validate(),
        Err(ValidationErrors {
            fields: vec![
                (
                    "title".to_string(),
                    vec![violation("required", Some("Title is required"), null())]
                ),
                ("slug".to_string(), vec![violation("required", None, null())]),
                (
                    "content".to_string(),
                    vec![violation("required", Some("Post content is required"), null())]
                ),
                (
                    "published_by".to_string(),
                    vec![violation("required", Some("Post author is required"), null())]
                ),
                ("created_at".to_string(), vec![violation("required", None, null())]),
                ("updated_at".to_string(), vec![violation("required", None, null())]),
            ]
        })
    );
}

#[test]
fn a_default_post_lacks_what_is_required() {
    let post = Post::default();
    let errors = post.validate().unwrap_err();
    let fields: Vec<&str> = errors.fields.iter().map(|f| f.0.as_str()).collect();
    assert_eq!(fields, vec!["title", "slug", "content", "published_by"]);
}

#[test]
fn a_default_post_has_every_flag_off() {
    let post = Post::default();
    assert_eq!(post.title, None);
    assert_eq!(post.slug, None);
    assert_eq!(post.rust_code_snippet, None);
    assert_eq!(post.content, None);
    assert_eq!(post.published_by, None);
    assert_eq!(post.tags, None);
    assert_eq!(post.code_snippet_enabled, Some(false));
    assert_eq!(post.playground_enabled, Some(false));
    assert_eq!(post.is_published, Some(false));
    assert_eq!(post.is_featured, Some(false));
    assert!(post.created_at.is_some());
    assert!(post.updated_at.is_some());
    assert!(post.created_at.unwrap().seconds > 1_600_000_000);
}

#[test]
fn a_new_post_bears_the_times_it_is_given() {
    let created = Timestamp { seconds: 5, nanoseconds: 6 };
    let updated = Timestamp { seconds: 7, nanoseconds: 8 };
    let post = Post::new_at(created, updated);
    assert_eq!(post.created_at, Some(created));
    assert_eq!(post.updated_at, Some(updated));
    assert_eq!(post.is_published, Some(false));
    assert_eq!(post.title, None);
}

#[test]
fn a_default_user_is_a_plain_user() {
    let user = User::default();
    assert_eq!(user.username, None);
    assert_eq!(user.email, None);
    assert_eq!(user.password, None);
    assert_eq!(user.role, Some(UserRole::User));
    assert_eq!(user.profile_image, None);
    assert!(user.created_at.is_some());
    assert!(user.updated_at.is_some());
    assert_eq!(UserRole::default(), UserRole::User);
}

#[test]
fn a_new_user_bears_the_times_it_is_given() {
    let created = Timestamp { seconds: 5, nanoseconds: 6 };
    let updated = Timestamp { seconds: 7, nanoseconds: 8 };
    let user = User::new_at(created, updated);
    assert_eq!(user.created_at, Some(created));
    assert_eq!(user.updated_at, Some(updated));
    assert_eq!(user.role, Some(UserRole::User));
}

#[test]
fn roles_are_stored_under_their_names() {
    assert_eq!(UserRole::SuperAdmin.name(), "super_admin");
    assert_eq!(UserRole::Admin.name(), "admin");
    assert_eq!(UserRole::User.name(), "user");
}

#[test]
fn user_names_have_from_three_to_twenty_five_characters() {
    let user = User { username: text("abc"), ..good_user() };
    assert_eq!(user.validate(), Ok(()));
    let user = User { username: Some("x".repeat(25)), ..good_user() };
    assert_eq!(user.validate(), Ok(()));
    let user = User { username: text("ab"), ..good_user() };
    assert_eq!(
        user.validate(),
        only(
            "username",
            vec![violation(
                "length",
                Some("Username cannot be less than 3 characters"),
                vec![("min", ParamValue::Number(3)), ("value", ParamValue::Text("ab".to_string()))]
            )]
        )
    );
    let long = "x".repeat(26);
    let user = User { username: Some(long.clone()), ..good_user() };
    assert_eq!(
        user.validate(),
        only(
            "username",
            vec![violation(
                "length",
                Some("Username cannot be more than 25 characters"),
                vec![("max", ParamValue::Number(25)), ("value", ParamValue::Text(long))]
            )]
        )
    );
}

#[test]
fn a_user_without_name_is_told_so() {
    let user = User { username: None, ..good_user() };
    assert_eq!(
        user.validate(),
        only("username", vec![violation("required", None, vec![("value", ParamValue::Null)])])
    );
}

#[test]
fn an_address_that_is_none_is_turned_away() {
    for address in ["not-an-email", "", "a@", "@example.com", "a b@example.com", "a@b@c"] {
        let user = User { email: text(address), ..good_user() };
        assert_eq!(
            user.validate(),
            only(
                "email",
                vec![violation(
                    "email",
                    Some("Enter a valid email address."),
                    vec![("value", ParamValue::Text(address.to_string()))]
                )]
            ),
            "{}",
            address
        );
    }
}

#[test]
fn well_formed_addresses_are_valid() {
    for address in ["email@here.com", "weirder-email@here.and.there.com", "email@[127.0.0.1]"] {
        let user = User { email: text(address), ..good_user() };
        assert_eq!(user.validate(), Ok(()), "{}", address);
    }
}

#[test]
fn a_user_without_address_is_told_so_once() {
    let user = User { email: None, ..good_user() };
    assert_eq!(
        user.validate(),
        only("email", vec![violation("required", None, vec![("value", ParamValue::Null)])])
    );
}

#[test]
fn a_user_without_password_or_role_is_told_so() {
    let user = User { password: None, role: None, ..good_user() };
    assert_eq!(
        user.validate(),
        Err(ValidationErrors {
            fields: vec![
                (
                    "password".to_string(),
                    vec![violation(
                        "required",
                        Some("Password is required"),
                        vec![("value", ParamValue::Null)]
                    )]
                ),
                (
                    "role".to_string(),
                    vec![violation(
                        "required",
                        Some("Role is required"),
                        vec![("value", ParamValue::Null)]
                    )]
                ),
            ]
        })
    );
}

#[test]
fn a_user_is_judged_by_the_verdict_on_the_address_that_is_given() {
    let user = good_user();
    assert_eq!(user.validate_given(true), Ok(()));
    let errors = user.validate_given(false).unwrap_err();
    assert_eq!(errors.fields.len(), 1);
    assert_eq!(errors.fields[0].0, "email");
    assert_eq!(errors.fields[0].1[0].code, "email");
    let nameless = User { email: None, ..good_user() };
    let errors = nameless.validate_given(false).unwrap_err();
    assert_eq!(errors.fields[0].1.len(), 1);
    assert_eq!(errors.fields[0].1[0].code, "required");
}

#[test]
fn lengths_are_held_to_the_bounds_that_are_set() {
    assert!(validate_length(5, Some(1), Some(10), None));
    assert!(!validate_length(5, Some(10), None, None));
    assert!(!validate_length(5, None, Some(1), None));
    assert!(validate_length(5, Some(5), Some(5), None));
    assert!(validate_length(5, None, None, None));
    assert!(validate_length(0, None, Some(0), None));
}

#[test]
fn an_exact_length_overrides_the_bounds() {
    assert!(validate_length(5, Some(1), Some(2), Some(5)));
    assert!(!validate_length(5, Some(1), Some(10), Some(4)));
}

#[test]
fn rules_add_to_what_was_found_before() {
    let mut found = vec![violation("first", None, vec![])];
    check_required(true, Some("unused"), &mut found);
    assert_eq!(found.len(), 1);
    check_required(false, Some("needed"), &mut found);
    assert_eq!(found.len(), 2);
    assert_eq!(found[0].code, "first");
    assert_eq!(found[1], violation("required", Some("needed"), vec![("value", ParamValue::Null)]));
    check_text_length(&None, Some(3), None, None, &mut found);
    assert_eq!(found.len(), 2);
    check_text_length(&text("ab"), Some(3), Some(9), None, &mut found);
    assert_eq!(
        found[2],
        violation(
            "length",
            None,
            vec![
                ("min", ParamValue::Number(3)),
                ("max", ParamValue::Number(9)),
                ("value", ParamValue::Text("ab".to_string())),
            ]
        )
    );
    check_list_length(&Some(vec!["a".to_string()]), None, Some(0), Some("none"), &mut found);
    assert_eq!(
        found[3],
        violation(
            "length",
            Some("none"),
            vec![
                ("max", ParamValue::Number(0)),
                ("value", ParamValue::TextList(vec!["a".to_string()])),
            ]
        )
    );
    check_email(&text("x"), true, None, &mut found);
    check_email(&None, false, None, &mut found);
    assert_eq!(found.len(), 4);
    check_email(&text("x"), false, Some("bad"), &mut found);
    assert_eq!(
        found[4],
        violation("email", Some("bad"), vec![("value", ParamValue::Text("x".to_string()))])
    );
}

#[test]
fn a_field_without_violations_has_no_entry() {
    let mut errors = ValidationErrors::new();
    assert!(errors.is_empty());
    errors.add_field("quiet", vec![]);
    assert!(errors.is_empty());
    errors.add_field("loud", vec![violation("required", None, vec![])]);
    assert!(!errors.is_empty());
    assert_eq!(errors.fields.len(), 1);
    assert_eq!(errors.fields[0].0, "loud");
    assert_eq!(ValidationErrors::new().into_result(), Ok(()));
    assert!(errors.into_result().is_err());
}

#[test]
fn violations_as_json() {
    let post = Post { title: None, tags: None, ..good_post() };
    let errors = post.validate().unwrap_err();
    assert_eq!(
        errors.to_json(),
        "{\"title\":[{\"code\":\"required\",\"message\":\"Title is required\",\"params\":{\"value\":null}}]}"
    );
    let user = User { username: text("a\""), email: None, ..good_user() };
    let errors = user.validate().unwrap_err();
    assert_eq!(
        errors.to_json(),
        "{\"username\":[{\"code\":\"length\",\"message\":\"Username cannot be less than 3 characters\",\"params\":{\"min\":3,\"value\":\"a\\\"\"}}],\"email\":[{\"code\":\"required\",\"message\":null,\"params\":{\"value\":null}}]}"
    );
    assert_eq!(ValidationErrors::new().to_json(), "{}");
}

#[test]
fn parameter_values_as_json() {
    assert_eq!(ParamValue::Null.to_json(), "null");
    assert_eq!(ParamValue::Number(70).to_json(), "70");
    assert_eq!(ParamValue::Text("a\nb".to_string()).to_json(), "\"a\\nb\"");
    assert_eq!(
        ParamValue::TextList(vec!["a".to_string(), "b\\".to_string()]).to_json(),
        "[\"a\",\"b\\\\\"]"
    );
    assert_eq!(ParamValue::TextList(vec![]).to_json(), "[]");
}

#[test]
fn unique_fields_of_a_post_are_title_and_slug() {
    assert_eq!(Post::unique_fields(), vec!["title", "slug"]);
    assert_eq!(UniquePostFields::default().field_names(), vec!["title", "slug"]);
    assert_eq!(UniquePostFields::default(), UniquePostFields { title: false, slug: false });
}

#[test]
fn unique_fields_of_a_user_are_email_and_username() {
    assert_eq!(User::unique_fields(), vec!["email", "username"]);
    assert_eq!(UniqueUserFields::default().field_names(), vec!["email", "username"]);
    assert_eq!(UniqueUserFields::default(), UniqueUserFields { email: false, username: false });
}
