//! The routes of the blog: adding a post and reading posts.

use vstd::prelude::*;
use crate::config::Config;
use crate::error::DataInsertError;
use crate::handlers::{
    failed_read, respond_to_failed_read, respond_to_read, respond_to_save, save_response,
    saved_view, successful_read,
};
use crate::json::{array, array_text, object, object_text};
use crate::models::post::Post;
use crate::pagination::{
    effective_page, metadata_json, page_offset, page_plan, PaginatedData, PaginationMetadata,
    PendingPage,
};
use crate::response::ProxyResponse;
use crate::store::{
    FieldValueView, FindOptionsView, FindRequest, FindRequestView, InsertOneResult, QueryDocument,
    StoreError,
};
use crate::traits::model_traits::{collection_name, find_request, ModelTraits};

verus! {

/// The number of posts on a page of the listing.
pub const POSTS_PER_PAGE: i64 = 4;

/// The number of featured posts that are shown.
pub const FEATURED_POSTS: i64 = 3;

/// The filter for the posts that are published.
pub open spec fn published() -> Seq<(Seq<char>, FieldValueView)> {
    seq![("is_published"@, FieldValueView::Bool(true))]
}

/// The fields of a post in the listing.
pub open spec fn listed_fields() -> Seq<(Seq<char>, FieldValueView)> {
    seq![
        ("title"@, FieldValueView::Bool(true)),
        ("slug"@, FieldValueView::Bool(true)),
        ("tags"@, FieldValueView::Bool(true)),
        ("created_at"@, FieldValueView::Bool(true)),
        ("_id"@, FieldValueView::Bool(false)),
    ]
}

/// The order of the listing: the post created last comes first.
pub open spec fn newest_first() -> Seq<(Seq<char>, FieldValueView)> {
    seq![("created_at"@, FieldValueView::Int32(-1i32))]
}

/// The filter for the published post with the given slug.
pub open spec fn published_with_slug(slug: Seq<char>) -> Seq<(Seq<char>, FieldValueView)> {
    seq![("slug"@, FieldValueView::Text(slug)), ("is_published"@, FieldValueView::Bool(true))]
}

/// Every field of a post but the store's identifier.
pub open spec fn without_identifier() -> Seq<(Seq<char>, FieldValueView)> {
    seq![("_id"@, FieldValueView::Bool(false))]
}

/// The filter for the posts that are featured and published.
pub open spec fn featured_and_published() -> Seq<(Seq<char>, FieldValueView)> {
    seq![
        ("is_featured"@, FieldValueView::Bool(true)),
        ("is_published"@, FieldValueView::Bool(true)),
    ]
}

/// The fields of a featured post.
pub open spec fn featured_fields() -> Seq<(Seq<char>, FieldValueView)> {
    seq![
        ("title"@, FieldValueView::Bool(true)),
        ("slug"@, FieldValueView::Bool(true)),
        ("tags"@, FieldValueView::Bool(true)),
        ("updated_at"@, FieldValueView::Bool(true)),
        ("_id"@, FieldValueView::Bool(false)),
    ]
}

/// The order of the featured posts: the post changed last comes first.
pub open spec fn last_changed_first() -> Seq<(Seq<char>, FieldValueView)> {
    seq![("updated_at"@, FieldValueView::Int32(-1i32))]
}

/// The data of the listing: the posts of the page, and the page's metadata.
pub open spec fn listing_data(
    documents: Seq<Seq<char>>,
    metadata: PaginationMetadata,
) -> Seq<char> {
    object_text(
        seq![
            ("\"posts\""@, array_text(documents)),
            ("\"metadata\""@, object_text(seq![("\"pagination\""@, metadata_json(metadata))])),
        ],
    )
}

/// The response to the adding of a post that ended with `result`.
pub fn add_post(config: &Config, result: Result<InsertOneResult, DataInsertError>) -> (response:
    ProxyResponse)
    ensures
        response.deep_view() == save_response(config.frontend_base_url@, saved_view(result)),
{
    respond_to_save(config, result)
}

/// The paginated find for a page of the listing: the published posts, four
/// to a page, the newest first.
pub fn get_posts(current_page: Option<i64>) -> (pending: PendingPage)
    requires
        page_offset(effective_page(current_page), POSTS_PER_PAGE as int) <= u64::MAX,
    ensures
        pending@ == page_plan(
            collection_name(Post::struct_name()),
            published(),
            Some(listed_fields()),
            Some(newest_first()),
            current_page,
            Some(POSTS_PER_PAGE),
        ),
{
    let filter = QueryDocument::new().with_bool("is_published", true);
    let projection = QueryDocument::new().with_bool("title", true).with_bool(
        "slug",
        true,
    ).with_bool("tags", true).with_bool("created_at", true).with_bool("_id", false);
    let sort = QueryDocument::new().with_int32("created_at", -1);
    assert(filter.deep_view() =~= published());
    assert(projection.deep_view() =~= listed_fields());
    assert(sort.deep_view() =~= newest_first());
    Post::find_paginated(filter, Some(projection), Some(sort), current_page, Some(POSTS_PER_PAGE))
}

/// The response to a page of the listing, given the page with each post as
/// JSON text, or the store's failure.
pub fn get_posts_response(
    config: &Config,
    result: Result<PaginatedData<String>, StoreError>,
) -> (response: ProxyResponse)
    ensures
        response.deep_view() == match result {
            Ok(page) => successful_read(
                config.frontend_base_url@,
                listing_data(page.documents.deep_view(), page.metadata),
            ),
            Err(_) => failed_read(config.frontend_base_url@),
        },
{
    match result {
        Ok(page) => {
            let mut pagination: Vec<(String, String)> = Vec::new();
            pagination.push(("\"pagination\"".to_owned(), page.metadata.to_json()));
            assert(pagination.deep_view() =~= seq![
                ("\"pagination\""@, metadata_json(page.metadata)),
            ]);
            let mut members: Vec<(String, String)> = Vec::new();
            members.push(("\"posts\"".to_owned(), array(&page.documents)));
            members.push(("\"metadata\"".to_owned(), object(&pagination)));
            assert(members.deep_view() =~= seq![
                ("\"posts\""@, array_text(page.documents.deep_view())),
                (
                    "\"metadata\""@,
                    object_text(seq![("\"pagination\""@, metadata_json(page.metadata))]),
                ),
            ]);
            respond_to_read(config, object(&members))
        },
        Err(_) => respond_to_failed_read(config),
    }
}

/// The find for the published post with the given slug.
pub fn get_post_by_slug(slug: String) -> (request: FindRequest)
    ensures
        request.deep_view() == (FindRequestView {
            collection: collection_name(Post::struct_name()),
            filter: published_with_slug(slug@),
            options: FindOptionsView {
                projection: Some(without_identifier()),
                sort: None,
                limit: Some(1),
                skip: None,
            },
        }),
{
    let filter = QueryDocument::new().with_text("slug", slug).with_bool("is_published", true);
    let projection = QueryDocument::new().with_bool("_id", false);
    assert(filter.deep_view() =~= published_with_slug(slug@));
    assert(projection.deep_view() =~= without_identifier());
    Post::find_one(filter, Some(projection), 1)
}

/// The response to the find for one post, given what was found, each post
/// as JSON text, or the store's failure.
pub fn get_post_by_slug_response(
    config: &Config,
    result: Result<Vec<String>, StoreError>,
) -> (response: ProxyResponse)
    ensures
        response.deep_view() == match result {
            Ok(documents) => successful_read(
                config.frontend_base_url@,
                object_text(seq![("\"post\""@, array_text(documents.deep_view()))]),
            ),
            Err(_) => failed_read(config.frontend_base_url@),
        },
{
    match result {
        Ok(documents) => {
            let mut members: Vec<(String, String)> = Vec::new();
            members.push(("\"post\"".to_owned(), array(&documents)));
            assert(members.deep_view() =~= seq![
                ("\"post\""@, array_text(documents.deep_view())),
            ]);
            respond_to_read(config, object(&members))
        },
        Err(_) => respond_to_failed_read(config),
    }
}

/// The find for the featured posts: at most three of the posts that are
/// featured and published, the one changed last first.
pub fn get_featured_posts() -> (request: FindRequest)
    ensures
        request.deep_view() == find_request(
            collection_name(Post::struct_name()),
            featured_and_published(),
            Some(featured_fields()),
            Some(last_changed_first()),
            FEATURED_POSTS,
        ),
{
    let filter = QueryDocument::new().with_bool("is_featured", true).with_bool(
        "is_published",
        true,
    );
    let projection = QueryDocument::new().with_bool("title", true).with_bool(
        "slug",
        true,
    ).with_bool("tags", true).with_bool("updated_at", true).with_bool("_id", false);
    let sort = QueryDocument::new().with_int32("updated_at", -1);
    assert(filter.deep_view() =~= featured_and_published());
    assert(projection.deep_view() =~= featured_fields());
    assert(sort.deep_view() =~= last_changed_first());
    Post::find(filter, Some(projection), Some(sort), FEATURED_POSTS)
}

/// The response to the find for the featured posts, given what was found,
/// each post as JSON text, or the store's failure.
pub fn get_featured_posts_response(
    config: &Config,
    result: Result<Vec<String>, StoreError>,
) -> (response: ProxyResponse)
    ensures
        response.deep_view() == match result {
            Ok(documents) => successful_read(
                config.frontend_base_url@,
                array_text(documents.deep_view()),
            ),
            Err(_) => failed_read(config.frontend_base_url@),
        },
{
    match result {
        Ok(documents) => respond_to_read(config, array(&documents)),
        Err(_) => respond_to_failed_read(config),
    }
}

} // verus!
