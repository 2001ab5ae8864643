use shared_lib::models::post::Post;
use shared_lib::models::user::User;
use shared_lib::pagination::{
    collect_documents, count_pages, found, normalize_page, normalize_page_size, offset_of_page,
    paginate, PaginatedData, PaginationMetadata,
};
use shared_lib::store::{
    CountRequest, FieldValue, FindOptions, FindRequest, QueryDocument, StoreError,
};
use shared_lib::traits::model_traits::ModelTraits;

fn published() -> QueryDocument {
    QueryDocument::new().with_bool("is_published", true)
}

fn newest_first() -> QueryDocument {
    QueryDocument::new().with_int32("created_at", -1)
}

/// Runs a find as a store that holds `stored` would: the documents in the
/// order that the sort asks for, without those that the request passes over,
/// and no more of them than the limit allows.
fn run_find(stored: &[(i64, &str)], request: &FindRequest) -> Vec<Result<String, StoreError>> {
    let mut documents: Vec<(i64, &str)> = stored.to_vec();
    if let Some(sort) = &request.options.sort {
        if sort.entries == vec![("created_at".to_string(), FieldValue::Int32(-1))] {
            documents.sort_by(|a, b| b.0.cmp(&a.0));
        }
    }
    let skip = request.options.skip.unwrap_or(0) as usize;
    let limit = request.options.limit.unwrap_or(i64::MAX) as usize;
    documents
        .into_iter()
        .skip(skip)
        .take(limit)
        .map(|(_, title)| Ok(title.to_string()))
        .collect()
}

fn page_of_23(page: i64) -> (FindRequest, PaginatedData<String>) {
    let titles: Vec<String> = (0..23).map(|i| format!("post {}", i)).collect();
    let stored: Vec<(i64, &str)> =
        titles.iter().enumerate().map(|(i, t)| (i as i64, t.as_str())).collect();
    let pending = Post::find_paginated(published(), None, None, Some(page), Some(10));
    let counted = pending.counted(Ok(23)).unwrap();
    let request = FindRequest {
        collection: counted.find_request().collection.clone(),
        filter: counted.find_request().filter.copy(),
        options: FindOptions {
            projection: None,
            sort: None,
            limit: counted.find_request().options.limit,
            skip: counted.find_request().options.skip,
        },
    };
    let items = run_find(&stored, counted.find_request());
    (request, counted.fetched(Ok(items)).unwrap())
}

#[test]
fn collections_are_lowercased_plurals() {
    assert_eq!(Post::get_struct_name_as_plural_string(), "posts");
    assert_eq!(User::get_struct_name_as_plural_string(), "users");
}

#[test]
fn twenty_three_items_by_ten_fill_three_pages() {
    assert_eq!(count_pages(23, 10), 3);
    assert_eq!(count_pages(20, 10), 2);
    assert_eq!(count_pages(21, 10), 3);
    assert_eq!(count_pages(0, 10), 0);
    assert_eq!(count_pages(1, 1), 1);
    assert_eq!(count_pages(4, 4), 1);
    assert_eq!(count_pages(u64::MAX, 1), u64::MAX);
    assert_eq!(count_pages(u64::MAX, 2), 9223372036854775808);
    assert_eq!(count_pages(5, i64::MAX), 1);
}

#[test]
fn third_page_of_twenty_three_holds_three() {
    let (request, page) = page_of_23(3);
    assert_eq!(request.options.skip, Some(20));
    assert_eq!(request.options.limit, Some(10));
    assert_eq!(page.documents, vec!["post 20", "post 21", "post 22"]);
    assert_eq!(
        page.metadata,
        PaginationMetadata {
            current_page: Some(3),
            total_pages: Some(3),
            total_items: Some(23),
            items_per_page: Some(10),
        }
    );
}

#[test]
fn fourth_page_of_twenty_three_is_empty_and_reports_nothing() {
    let (request, page) = page_of_23(4);
    assert_eq!(request.options.skip, Some(30));
    assert_eq!(page.documents.len(), 0);
    assert_eq!(page.metadata, PaginationMetadata::default());
    assert_eq!(
        page.metadata,
        PaginationMetadata {
            current_page: None,
            total_pages: None,
            total_items: None,
            items_per_page: None,
        }
    );
}

#[test]
fn first_page_of_twenty_three_holds_ten() {
    let (request, page) = page_of_23(1);
    assert_eq!(request.options.skip, Some(0));
    assert_eq!(page.documents.len(), 10);
    assert_eq!(page.documents[0], "post 0");
    assert_eq!(page.metadata.current_page, Some(1));
    assert_eq!(page.metadata.total_pages, Some(3));
}

#[test]
fn page_zero_and_size_zero_mean_page_one_and_size_one() {
    let clamped = Post::find_paginated(published(), None, None, Some(0), Some(0));
    let first = Post::find_paginated(published(), None, None, Some(1), Some(1));
    assert_eq!(clamped, first);
    assert_eq!(clamped.count_request(), first.count_request());
    let clamped = clamped.counted(Ok(7)).unwrap();
    let first = first.counted(Ok(7)).unwrap();
    assert_eq!(clamped.find_request(), first.find_request());
    assert_eq!(clamped.find_request().options.skip, Some(0));
    assert_eq!(clamped.find_request().options.limit, Some(1));
    let items_a: Vec<Result<u8, StoreError>> = vec![Ok(9)];
    let items_b: Vec<Result<u8, StoreError>> = vec![Ok(9)];
    let a = clamped.fetched(Ok(items_a)).unwrap();
    let b = first.fetched(Ok(items_b)).unwrap();
    assert_eq!(a, b);
    assert_eq!(
        a.metadata,
        PaginationMetadata {
            current_page: Some(1),
            total_pages: Some(7),
            total_items: Some(7),
            items_per_page: Some(1),
        }
    );
}

#[test]
fn negative_page_and_size_mean_one() {
    assert_eq!(normalize_page(Some(-5)), 1);
    assert_eq!(normalize_page(Some(i64::MIN)), 1);
    assert_eq!(normalize_page(Some(0)), 1);
    assert_eq!(normalize_page(Some(1)), 1);
    assert_eq!(normalize_page(Some(12)), 12);
    assert_eq!(normalize_page_size(Some(-5)), 1);
    assert_eq!(normalize_page_size(Some(0)), 1);
    assert_eq!(normalize_page_size(Some(25)), 25);
}

#[test]
fn absent_page_is_the_first_and_absent_size_is_ten() {
    assert_eq!(normalize_page(None), 1);
    assert_eq!(normalize_page_size(None), 10);
    let pending = Post::find_paginated(published(), None, None, None, None);
    let counted = pending.counted(Ok(45)).unwrap();
    assert_eq!(counted.find_request().options.skip, Some(0));
    assert_eq!(counted.find_request().options.limit, Some(10));
    let items: Vec<Result<u8, StoreError>> = vec![Ok(1), Ok(2)];
    let page = counted.fetched(Ok(items)).unwrap();
    assert_eq!(page.metadata.total_pages, Some(5));
    assert_eq!(page.metadata.items_per_page, Some(10));
}

#[test]
fn offset_is_pages_before_times_size() {
    assert_eq!(offset_of_page(1, 10), Some(0));
    assert_eq!(offset_of_page(3, 10), Some(20));
    assert_eq!(offset_of_page(7, 4), Some(24));
    assert_eq!(offset_of_page(i64::MAX, 2), Some(18446744073709551612));
    assert_eq!(offset_of_page(i64::MAX, 3), None);
    assert_eq!(offset_of_page(i64::MAX, i64::MAX), None);
}

#[test]
fn the_plan_counts_by_the_filter_alone() {
    let projection = QueryDocument::new().with_bool("title", true);
    let pending = paginate(
        "posts".to_string(),
        published(),
        Some(projection),
        Some(newest_first()),
        Some(2),
        Some(4),
    );
    assert_eq!(
        pending.count_request(),
        &CountRequest { collection: "posts".to_string(), filter: published() }
    );
    let counted = pending.counted(Ok(9)).unwrap();
    assert_eq!(
        counted.find_request(),
        &FindRequest {
            collection: "posts".to_string(),
            filter: published(),
            options: FindOptions {
                projection: Some(QueryDocument::new().with_bool("title", true)),
                sort: Some(newest_first()),
                limit: Some(4),
                skip: Some(4),
            },
        }
    );
}

#[test]
fn a_failed_count_ends_the_find() {
    let pending = Post::find_paginated(published(), None, None, Some(1), Some(4));
    let failure = StoreError::Other { message: "no connection".to_string() };
    assert_eq!(
        pending.counted(Err(failure)).err(),
        Some(StoreError::Other { message: "no connection".to_string() })
    );
}

#[test]
fn a_failed_find_ends_the_find() {
    let pending = Post::find_paginated(published(), None, None, Some(1), Some(4));
    let counted = pending.counted(Ok(3)).unwrap();
    let reply: Result<Vec<Result<u8, StoreError>>, StoreError> =
        Err(StoreError::Other { message: "cursor lost".to_string() });
    assert_eq!(
        counted.fetched(reply),
        Err(StoreError::Other { message: "cursor lost".to_string() })
    );
}

#[test]
fn four_published_posts_come_newest_first_on_one_page() {
    let stored = vec![(20, "second"), (40, "fourth"), (10, "first"), (30, "third")];
    let pending = Post::find_paginated(published(), None, Some(newest_first()), Some(1), Some(4));
    assert_eq!(pending.count_request().filter, published());
    let counted = pending.counted(Ok(stored.len() as u64)).unwrap();
    let items = run_find(&stored, counted.find_request());
    let page = counted.fetched(Ok(items)).unwrap();
    assert_eq!(page.documents, vec!["fourth", "third", "second", "first"]);
    assert_eq!(
        page.metadata,
        PaginationMetadata {
            current_page: Some(1),
            total_pages: Some(1),
            total_items: Some(4),
            items_per_page: Some(4),
        }
    );
}

#[test]
fn a_corrupt_document_is_passed_by() {
    let items: Vec<Result<&str, StoreError>> = vec![
        Ok("first"),
        Err(StoreError::Other { message: "invalid document".to_string() }),
        Ok("second"),
    ];
    assert_eq!(found(Ok(items)), Ok(vec!["first", "second"]));
}

#[test]
fn a_page_with_a_corrupt_document_reports_the_totals() {
    let pending = Post::find_paginated(published(), None, None, Some(1), Some(10));
    let counted = pending.counted(Ok(3)).unwrap();
    let items: Vec<Result<&str, StoreError>> = vec![
        Err(StoreError::Other { message: "invalid document".to_string() }),
        Ok("first"),
        Ok("second"),
    ];
    let page = counted.fetched(Ok(items)).unwrap();
    assert_eq!(page.documents, vec!["first", "second"]);
    assert_eq!(page.metadata.total_items, Some(3));
    assert_eq!(page.metadata.total_pages, Some(1));
}

#[test]
fn a_page_of_corrupt_documents_only_reports_nothing() {
    let pending = Post::find_paginated(published(), None, None, Some(1), Some(10));
    let counted = pending.counted(Ok(1)).unwrap();
    let items: Vec<Result<&str, StoreError>> =
        vec![Err(StoreError::Other { message: "invalid document".to_string() })];
    let page = counted.fetched(Ok(items)).unwrap();
    assert_eq!(page.documents.len(), 0);
    assert_eq!(page.metadata, PaginationMetadata::default());
}

#[test]
fn collecting_keeps_the_order_of_arrival() {
    let items: Vec<Result<u8, ()>> = vec![Ok(3), Err(()), Ok(1), Ok(2), Err(())];
    assert_eq!(collect_documents(items), vec![3, 1, 2]);
    let none: Vec<Result<u8, ()>> = vec![];
    assert_eq!(collect_documents(none), Vec::<u8>::new());
}

#[test]
fn a_failed_find_is_handed_on() {
    let reply: Result<Vec<Result<u8, StoreError>>, StoreError> =
        Err(StoreError::Other { message: "down".to_string() });
    assert_eq!(found(reply), Err(StoreError::Other { message: "down".to_string() }));
}

#[test]
fn metadata_as_json() {
    let metadata = PaginationMetadata {
        current_page: Some(1),
        total_pages: Some(3),
        total_items: Some(23),
        items_per_page: Some(10),
    };
    assert_eq!(
        metadata.to_json(),
        "{\"current_page\":1,\"total_pages\":3,\"total_items\":23,\"items_per_page\":10}"
    );
    assert_eq!(
        PaginationMetadata::default().to_json(),
        "{\"current_page\":null,\"total_pages\":null,\"total_items\":null,\"items_per_page\":null}"
    );
}
