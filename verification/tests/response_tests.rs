use shared_lib::config::Config;
use shared_lib::error::DataInsertError;
use shared_lib::handlers::post_handler::{
    add_post, get_featured_posts, get_featured_posts_response, get_post_by_slug,
    get_post_by_slug_response, get_posts, get_posts_response, FEATURED_POSTS, POSTS_PER_PAGE,
};
use shared_lib::handlers::user_handler::add_user;
use shared_lib::handlers::{respond_to_failed_read, respond_to_read, respond_to_save};
use shared_lib::pagination::{PaginatedData, PaginationMetadata};
use shared_lib::response::{
    build, envelope, AppErrorResponse, AppSuccessResponse, ProxyResponse, ResponseBody,
    ResponseStatus, BAD_REQUEST, FOUND, INTERNAL_SERVER_ERROR, NOT_ACCEPTABLE, NOT_FOUND, OK,
    UNAUTHORIZED,
};
use shared_lib::store::{
    FindOptions, FindRequest, InsertOneResult, ObjectId, QueryDocument, StoreError,
};
use shared_lib::utils::cors::cors;
use shared_lib::utils::headers::{header_map, ROOM};
use shared_lib::validation::{ParamValue, ValidationError, ValidationErrors};

fn config() -> Config {
    Config {
        database_uri: "mongodb://localhost:27017".to_string(),
        database_name: "blog".to_string(),
        frontend_base_url: "https://blog.example".to_string(),
        cookie_secret: "0123456789abcdef".repeat(4),
        cookie_name: "sessionToken".to_string(),
    }
}

fn pairs(list: &[(&str, &str)]) -> Vec<(String, String)> {
    list.iter().map(|(k, v)| (k.to_string(), v.to_string())).collect()
}

fn envelope_headers() -> Vec<(String, String)> {
    pairs(&[
        ("Content-Type", "application/json"),
        ("Access-Control-Allow-Origin", "https://blog.example"),
        ("Access-Control-Allow-Credentials", "true"),
    ])
}

fn enveloped(status_code: i64, body: &str) -> ProxyResponse {
    ProxyResponse {
        status_code,
        headers: envelope_headers(),
        multi_value_headers: envelope_headers(),
        body: Some(body.to_string()),
        is_base64_encoded: false,
    }
}

#[test]
fn status_codes() {
    assert_eq!(OK, 200);
    assert_eq!(FOUND, 302);
    assert_eq!(BAD_REQUEST, 400);
    assert_eq!(UNAUTHORIZED, 401);
    assert_eq!(NOT_FOUND, 404);
    assert_eq!(NOT_ACCEPTABLE, 406);
    assert_eq!(INTERNAL_SERVER_ERROR, 500);
}

#[test]
fn a_success_is_enveloped() {
    let response = AppSuccessResponse::new(
        &config(),
        200,
        Some("Request successful".to_string()),
        Some("{\"posts\":[]}".to_string()),
    );
    assert_eq!(
        response,
        enveloped(
            200,
            "{\"status\":\"success\",\"message\":\"Request successful\",\"data\":{\"posts\":[]}}"
        )
    );
}

#[test]
fn an_error_is_enveloped() {
    let response = AppErrorResponse::new(&config(), 404, Some("Not found".to_string()), None);
    assert_eq!(
        response,
        enveloped(404, "{\"status\":\"error\",\"message\":\"Not found\",\"data\":null}")
    );
}

#[test]
fn an_envelope_without_message_and_data_holds_nulls() {
    let response = AppErrorResponse::new(&config(), 401, None, None);
    assert_eq!(response, enveloped(401, "{\"status\":\"error\",\"message\":null,\"data\":null}"));
    let response = AppSuccessResponse::new(&config(), 200, None, None);
    assert_eq!(response, enveloped(200, "{\"status\":\"success\",\"message\":null,\"data\":null}"));
}

#[test]
fn a_message_is_escaped_as_json_asks() {
    let response = AppErrorResponse::new(
        &config(),
        400,
        Some("an error occurred: \"my-post\" already exists.\n\t\\".to_string()),
        None,
    );
    assert_eq!(
        response.body.as_deref(),
        Some("{\"status\":\"error\",\"message\":\"an error occurred: \\\"my-post\\\" already exists.\\n\\t\\\\\",\"data\":null}")
    );
    let response = AppErrorResponse::new(&config(), 400, Some("Größe \u{1}".to_string()), None);
    assert_eq!(
        response.body.as_deref(),
        Some("{\"status\":\"error\",\"message\":\"Größe \\u0001\",\"data\":null}")
    );
}

#[test]
fn the_origin_comes_from_the_configuration() {
    let other = Config { frontend_base_url: "http://localhost:3000".to_string(), ..config() };
    let response = build(&other, ResponseStatus::Success, 200, None, None);
    assert_eq!(
        response.headers[1],
        ("Access-Control-Allow-Origin".to_string(), "http://localhost:3000".to_string())
    );
    assert_eq!(response.multi_value_headers, response.headers);
    assert_eq!(response.headers.len(), 3);
    assert!(!response.is_base64_encoded);
    let empty = Config { frontend_base_url: String::new(), ..config() };
    let response = build(&empty, ResponseStatus::Error, 500, None, None);
    assert_eq!(response.headers[1].1, "");
    assert_eq!(response.status_code, 500);
}

#[test]
fn a_body_as_json() {
    let body = ResponseBody {
        status: ResponseStatus::Success,
        message: Some("ok".to_string()),
        data: Some("[1,2]".to_string()),
    };
    assert_eq!(body.to_json(), "{\"status\":\"success\",\"message\":\"ok\",\"data\":[1,2]}");
    assert_eq!(ResponseStatus::Success.to_json(), "\"success\"");
    assert_eq!(ResponseStatus::Error.to_json(), "\"error\"");
    assert_eq!(
        envelope(ResponseStatus::Error, Some("\"m\"".to_string()), None),
        "{\"status\":\"error\",\"message\":\"m\",\"data\":null}"
    );
    assert_eq!(
        envelope(ResponseStatus::Error, None, Some("7".to_string())),
        "{\"status\":\"error\",\"message\":null,\"data\":7}"
    );
}

#[test]
fn a_preflight_request_is_let_through() {
    let headers = pairs(&[
        ("content-type", "application/json"),
        ("Access-Control-Allow-Origin", "https://blog.example"),
        ("Access-Control-Allow-Methods", "POST, GET, OPTIONS"),
        ("Access-Control-Allow-Headers", "*"),
        ("Access-Control-Allow-Credentials", "true"),
    ]);
    assert_eq!(
        cors(&config()),
        ProxyResponse {
            status_code: 200,
            headers: headers.clone(),
            multi_value_headers: headers,
            body: Some(String::new()),
            is_base64_encoded: false,
        }
    );
}

#[test]
fn a_saved_entity_is_reported_as_added() {
    let id = InsertOneResult { inserted_id: ObjectId { bytes: [3; 12] } };
    let expected = enveloped(
        200,
        "{\"status\":\"success\",\"message\":\"Data added successfully\",\"data\":null}",
    );
    assert_eq!(add_post(&config(), Ok(id)), expected);
    assert_eq!(add_user(&config(), Ok(id)), expected);
    assert_eq!(respond_to_save(&config(), Ok(id)), expected);
}

#[test]
fn violations_are_a_bad_request_with_the_fields() {
    let errors = || ValidationErrors {
        fields: vec![(
            "title".to_string(),
            vec![ValidationError {
                code: "required".to_string(),
                message: Some("Title is required".to_string()),
                params: vec![("value".to_string(), ParamValue::Null)],
            }],
        )],
    };
    let expected = enveloped(
        400,
        "{\"status\":\"error\",\"message\":\"An error occured\",\"data\":{\"errors\":{\"title\":[{\"code\":\"required\",\"message\":\"Title is required\",\"params\":{\"value\":null}}]}}}",
    );
    assert_eq!(add_post(&config(), Err(DataInsertError::FieldValidationError(errors()))), expected);
    assert_eq!(add_user(&config(), Err(DataInsertError::FieldValidationError(errors()))), expected);
}

#[test]
fn a_duplicate_key_is_a_bad_request_with_the_value() {
    let report = "E11000 duplicate key error collection: blog.posts index: slug_1 dup key: { slug: \"my-post\" }";
    assert_eq!(
        add_post(&config(), Err(DataInsertError::DuplicateKeyError(report.to_string()))),
        enveloped(
            400,
            "{\"status\":\"error\",\"message\":\"an error occurred: \\\"my-post\\\" already exists.\",\"data\":null}"
        )
    );
    assert_eq!(
        add_user(&config(), Err(DataInsertError::DuplicateKeyError("refused".to_string()))),
        enveloped(400, "{\"status\":\"error\",\"message\":\"An error occured\",\"data\":null}")
    );
}

#[test]
fn other_failures_are_a_server_error_without_detail() {
    let expected =
        enveloped(500, "{\"status\":\"error\",\"message\":\"An error occured\",\"data\":null}");
    assert_eq!(
        add_post(&config(), Err(DataInsertError::WriteError("Document failed validation".to_string()))),
        expected
    );
    assert_eq!(
        add_post(&config(), Err(DataInsertError::OtherStoreError("connection refused to 10.0.0.5".to_string()))),
        expected
    );
}

#[test]
fn reads_are_reported() {
    assert_eq!(
        respond_to_read(&config(), "[]".to_string()),
        enveloped(200, "{\"status\":\"success\",\"message\":\"Request successful\",\"data\":[]}")
    );
    assert_eq!(
        respond_to_failed_read(&config()),
        enveloped(
            500,
            "{\"status\":\"error\",\"message\":\"An error occured fetching data\",\"data\":null}"
        )
    );
}

#[test]
fn the_listing_asks_for_published_posts_newest_first() {
    assert_eq!(POSTS_PER_PAGE, 4);
    let pending = get_posts(Some(3));
    assert_eq!(pending.count_request().collection, "posts");
    assert_eq!(pending.count_request().filter, QueryDocument::new().with_bool("is_published", true));
    let counted = pending.counted(Ok(11)).unwrap();
    assert_eq!(
        counted.find_request(),
        &FindRequest {
            collection: "posts".to_string(),
            filter: QueryDocument::new().with_bool("is_published", true),
            options: FindOptions {
                projection: Some(
                    QueryDocument::new()
                        .with_bool("title", true)
                        .with_bool("slug", true)
                        .with_bool("tags", true)
                        .with_bool("created_at", true)
                        .with_bool("_id", false)
                ),
                sort: Some(QueryDocument::new().with_int32("created_at", -1)),
                limit: Some(4),
                skip: Some(8),
            },
        }
    );
    let first = get_posts(None).counted(Ok(11)).unwrap();
    assert_eq!(first.find_request().options.skip, Some(0));
    let clamped = get_posts(Some(0)).counted(Ok(11)).unwrap();
    assert_eq!(clamped.find_request().options.skip, Some(0));
}

#[test]
fn the_listing_is_reported_with_its_metadata() {
    let page = PaginatedData {
        documents: vec!["{\"title\":\"A\"}".to_string(), "{\"title\":\"B\"}".to_string()],
        metadata: PaginationMetadata {
            current_page: Some(1),
            total_pages: Some(1),
            total_items: Some(2),
            items_per_page: Some(4),
        },
    };
    assert_eq!(
        get_posts_response(&config(), Ok(page)),
        enveloped(
            200,
            "{\"status\":\"success\",\"message\":\"Request successful\",\"data\":{\"posts\":[{\"title\":\"A\"},{\"title\":\"B\"}],\"metadata\":{\"pagination\":{\"current_page\":1,\"total_pages\":1,\"total_items\":2,\"items_per_page\":4}}}}"
        )
    );
    let empty = PaginatedData { documents: vec![], metadata: PaginationMetadata::default() };
    assert_eq!(
        get_posts_response(&config(), Ok(empty)),
        enveloped(
            200,
            "{\"status\":\"success\",\"message\":\"Request successful\",\"data\":{\"posts\":[],\"metadata\":{\"pagination\":{\"current_page\":null,\"total_pages\":null,\"total_items\":null,\"items_per_page\":null}}}}"
        )
    );
    assert_eq!(
        get_posts_response(&config(), Err(StoreError::Other { message: "down".to_string() })),
        respond_to_failed_read(&config())
    );
}

#[test]
fn one_post_is_asked_for_by_its_slug() {
    assert_eq!(
        get_post_by_slug("my-post".to_string()),
        FindRequest {
            collection: "posts".to_string(),
            filter: QueryDocument::new()
                .with_text("slug", "my-post".to_string())
                .with_bool("is_published", true),
            options: FindOptions {
                projection: Some(QueryDocument::new().with_bool("_id", false)),
                sort: None,
                limit: Some(1),
                skip: None,
            },
        }
    );
    assert_eq!(
        get_post_by_slug_response(&config(), Ok(vec!["{\"slug\":\"my-post\"}".to_string()])),
        enveloped(
            200,
            "{\"status\":\"success\",\"message\":\"Request successful\",\"data\":{\"post\":[{\"slug\":\"my-post\"}]}}"
        )
    );
    assert_eq!(
        get_post_by_slug_response(&config(), Ok(vec![])),
        enveloped(
            200,
            "{\"status\":\"success\",\"message\":\"Request successful\",\"data\":{\"post\":[]}}"
        )
    );
    assert_eq!(
        get_post_by_slug_response(&config(), Err(StoreError::Other { message: "down".to_string() })),
        respond_to_failed_read(&config())
    );
}

#[test]
fn three_featured_posts_are_asked_for_last_changed_first() {
    assert_eq!(FEATURED_POSTS, 3);
    assert_eq!(
        get_featured_posts(),
        FindRequest {
            collection: "posts".to_string(),
            filter: QueryDocument::new()
                .with_bool("is_featured", true)
                .with_bool("is_published", true),
            options: FindOptions {
                projection: Some(
                    QueryDocument::new()
                        .with_bool("title", true)
                        .with_bool("slug", true)
                        .with_bool("tags", true)
                        .with_bool("updated_at", true)
                        .with_bool("_id", false)
                ),
                sort: Some(QueryDocument::new().with_int32("updated_at", -1)),
                limit: Some(3),
                skip: None,
            },
        }
    );
    assert_eq!(
        get_featured_posts_response(&config(), Ok(vec!["{\"a\":1}".to_string(), "{\"b\":2}".to_string()])),
        enveloped(
            200,
            "{\"status\":\"success\",\"message\":\"Request successful\",\"data\":[{\"a\":1},{\"b\":2}]}"
        )
    );
    assert_eq!(
        get_featured_posts_response(&config(), Err(StoreError::Other { message: "down".to_string() })),
        respond_to_failed_read(&config())
    );
}

#[test]
fn headers_are_carried_out_under_their_names_in_lower_case() {
    let response = AppErrorResponse::new(&config(), 404, Some("Not found".to_string()), None);
    let carried = header_map(&response.headers).unwrap();
    assert_eq!(carried.len(), 3);
    assert_eq!(carried.get("content-type").unwrap(), "application/json");
    assert_eq!(carried.get("access-control-allow-origin").unwrap(), "https://blog.example");
    assert_eq!(carried.get("access-control-allow-credentials").unwrap(), "true");
    let names: Vec<&str> = carried.keys().map(|name| name.as_str()).collect();
    assert_eq!(
        names,
        vec!["content-type", "access-control-allow-origin", "access-control-allow-credentials"]
    );
    let preflight = header_map(&cors(&config()).headers).unwrap();
    assert_eq!(preflight.len(), 5);
    assert_eq!(preflight.get("access-control-allow-methods").unwrap(), "POST, GET, OPTIONS");
    assert_eq!(header_map(&vec![]).unwrap().len(), 0);
}

#[test]
fn a_later_header_takes_the_place_of_an_earlier_one_of_the_same_name() {
    let carried = header_map(&pairs(&[
        ("Content-Type", "text/plain"),
        ("X-Other", "kept"),
        ("content-type", "application/json"),
    ]))
    .unwrap();
    assert_eq!(carried.len(), 2);
    assert_eq!(carried.get("content-type").unwrap(), "application/json");
    assert_eq!(carried.get_all("content-type").iter().count(), 1);
    assert_eq!(carried.get("x-other").unwrap(), "kept");
}

#[test]
fn a_name_that_is_none_or_a_value_that_cannot_be_one_makes_no_map() {
    assert!(header_map(&pairs(&[("Content Type", "text/plain")])).is_none());
    assert!(header_map(&pairs(&[("", "text/plain")])).is_none());
    assert!(header_map(&pairs(&[("Content-Type", "text\nplain")])).is_none());
    assert!(header_map(&pairs(&[("a", "b"), ("Content-Type", "\u{7f}")])).is_none());
    assert!(header_map(&pairs(&[("Content-Type", "tab\tand Größe")])).is_some());
    let broken = Config { frontend_base_url: "https://blog.example\r\n".to_string(), ..config() };
    let response = AppSuccessResponse::new(&broken, 200, None, None);
    assert!(header_map(&response.headers).is_none());
}

#[test]
fn a_list_of_fewer_than_a_thousand_and_twenty_four_headers_has_its_map() {
    assert_eq!(ROOM, 1024);
    let many: Vec<(String, String)> =
        (0..1023).map(|i| (format!("x-header-{}", i), format!("value {}", i))).collect();
    let carried = header_map(&many).unwrap();
    assert_eq!(carried.len(), 1023);
    assert_eq!(carried.get("x-header-0").unwrap(), "value 0");
    assert_eq!(carried.get("x-header-1022").unwrap(), "value 1022");
    let same: Vec<(String, String)> =
        (0..1023).map(|i| ("X-Same".to_string(), format!("value {}", i))).collect();
    let carried = header_map(&same).unwrap();
    assert_eq!(carried.len(), 1);
    assert_eq!(carried.get("x-same").unwrap(), "value 1022");
    for response in [
        AppSuccessResponse::new(&config(), 200, None, None),
        AppErrorResponse::new(&config(), 500, Some("An error occured".to_string()), None),
        cors(&config()),
    ] {
        assert!(header_map(&response.headers).is_some());
        assert!(header_map(&response.multi_value_headers).is_some());
    }
}
