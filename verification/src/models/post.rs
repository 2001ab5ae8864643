//! The blog post.

use vstd::prelude::*;
use crate::models::{current_time, Timestamp};
use crate::store::{
    FindOptions, FindOptionsView, FindRequest, FindRequestView, ObjectId, QueryDocument,
};
use crate::traits::model_traits::{collection_for, collection_name, ModelTraits};
use crate::validation::{
    check_list_length, check_non_empty, check_required, check_text_length, field_entry,
    length_rule, list_value, non_empty_rule, required_rule, text_value, ValidationError,
    ValidationErrorView, ValidationErrors, ValidationErrorsView,
};

verus! {

/// A post of the blog. Title and slug are its own among all posts, and it
/// names at least one author.
#[derive(Clone, Debug, PartialEq, Eq)]
pub struct Post {
    pub title: Option<String>,
    pub slug: Option<String>,
    pub rust_code_snippet: Option<String>,
    pub content: Option<String>,
    pub published_by: Option<Vec<ObjectId>>,
    pub tags: Option<Vec<String>>,
    pub code_snippet_enabled: Option<bool>,
    pub playground_enabled: Option<bool>,
    pub is_published: Option<bool>,
    pub is_featured: Option<bool>,
    pub created_at: Option<Timestamp>,
    pub updated_at: Option<Timestamp>,
}

/// The fields of a post whose values no two posts share.
#[derive(Clone, Copy, Debug, PartialEq, Eq)]
pub struct UniquePostFields {
    pub title: bool,
    pub slug: bool,
}

impl Default for UniquePostFields {
    fn default() -> (fields: UniquePostFields)
        ensures
            fields == (UniquePostFields { title: false, slug: false }),
    {
        UniquePostFields { title: false, slug: false }
    }
}

impl UniquePostFields {
    /// The names of the fields, in the order of their declaration.
    pub open spec fn names() -> Seq<Seq<char>> {
        seq!["title"@, "slug"@]
    }

    /// The names of the fields, in the order of their declaration.
    pub fn field_names(&self) -> (names: Vec<String>)
        ensures
            names.deep_view() == Self::names(),
    {
        let mut names: Vec<String> = Vec::new();
        names.push("title".to_owned());
        names.push("slug".to_owned());
        assert(names.deep_view() =~= Self::names());
        names
    }
}

impl Post {
    /// The rules that the title breaks: it is required, and has from 10 to
    /// 70 characters.
    pub open spec fn title_violations(&self) -> Seq<ValidationErrorView> {
        required_rule(self.title is Some, Some("Title is required"@)) + length_rule(
            text_value(self.title.deep_view()),
            Some(10),
            None,
            Some("Username cannot be less than 10 characters"@),
        ) + length_rule(
            text_value(self.title.deep_view()),
            None,
            Some(70),
            Some("Username cannot be more than 70 characters"@),
        )
    }

    /// The number of the post's authors, where it names any.
    pub open spec fn authors(&self) -> Option<nat> {
        match self.published_by {
            Some(list) => Some(list@.len()),
            None => None,
        }
    }

    /// The rules that the list of authors breaks: it is required, and names
    /// at least one author.
    pub open spec fn author_violations(&self) -> Seq<ValidationErrorView> {
        required_rule(self.published_by is Some, Some("Post author is required"@))
            + non_empty_rule(self.authors(), Some("Post author is required"@))
    }

    /// The post as it is before anything is known of it but the times of
    /// its creation and of its last change: no text, no author, no tags, and
    /// every flag off.
    pub fn new_at(created_at: Timestamp, updated_at: Timestamp) -> (post: Post)
        ensures
            post.title is None,
            post.slug is None,
            post.rust_code_snippet is None,
            post.content is None,
            post.published_by is None,
            post.tags is None,
            post.code_snippet_enabled == Some(false),
            post.playground_enabled == Some(false),
            post.is_published == Some(false),
            post.is_featured == Some(false),
            post.created_at == Some(created_at),
            post.updated_at == Some(updated_at),
    {
        Post {
            title: None,
            slug: None,
            rust_code_snippet: None,
            content: None,
            published_by: None,
            tags: None,
            code_snippet_enabled: Some(false),
            playground_enabled: Some(false),
            is_published: Some(false),
            is_featured: Some(false),
            created_at: Some(created_at),
            updated_at: Some(updated_at),
        }
    }

    /// The query for at most `limit` posts that match `filter`, in the
    /// store's own order.
    pub fn find_one(
        filter: QueryDocument,
        projection: Option<QueryDocument>,
        limit: i64,
    ) -> (request: FindRequest)
        ensures
            request.deep_view() == (FindRequestView {
                collection: collection_name(Self::struct_name()),
                filter: filter.deep_view(),
                options: FindOptionsView {
                    projection: projection.deep_view(),
                    sort: None,
                    limit: Some(limit),
                    skip: None,
                },
            }),
    {
        FindRequest {
            collection: Self::get_struct_name_as_plural_string(),
            filter,
            options: FindOptions { projection, sort: None, limit: Some(limit), skip: None },
        }
    }
}

impl ModelTraits for Post {
    open spec fn struct_name() -> Seq<char> {
        "Post"@
    }

    open spec fn unique_field_names() -> Seq<Seq<char>> {
        UniquePostFields::names()
    }

    open spec fn violations(&self) -> ValidationErrorsView {
        field_entry("title"@, self.title_violations()) + field_entry(
            "slug"@,
            required_rule(self.slug is Some, None),
        ) + field_entry(
            "content"@,
            required_rule(self.content is Some, Some("Post content is required"@)),
        ) + field_entry("published_by"@, self.author_violations()) + field_entry(
            "tags"@,
            length_rule(
                list_value(self.tags.deep_view()),
                None,
                Some(5),
                Some("Tags exceed the limit of 5"@),
            ),
        ) + field_entry("created_at"@, required_rule(self.created_at is Some, None)) + field_entry(
            "updated_at"@,
            required_rule(self.updated_at is Some, None),
        )
    }

    fn get_struct_name_as_plural_string() -> (name: String) {
        collection_for("Post")
    }

    fn unique_fields() -> (fields: Vec<String>) {
        let unique = UniquePostFields { title: true, slug: true };
        unique.field_names()
    }

    fn validate(&self) -> (r: Result<(), ValidationErrors>) {
        let mut errors = ValidationErrors::new();

        let mut title: Vec<ValidationError> = Vec::new();
        assert(title.deep_view() =~= Seq::empty());
        check_required(self.title.is_some(), Some("Title is required"), &mut title);
        check_text_length(
            &self.title,
            Some(10),
            None,
            Some("Username cannot be less than 10 characters"),
            &mut title,
        );
        check_text_length(
            &self.title,
            None,
            Some(70),
            Some("Username cannot be more than 70 characters"),
            &mut title,
        );
        assert(title.deep_view() =~= self.title_violations());
        errors.add_field("title", title);

        let mut slug: Vec<ValidationError> = Vec::new();
        assert(slug.deep_view() =~= Seq::empty());
        check_required(self.slug.is_some(), None, &mut slug);
        assert(slug.deep_view() =~= required_rule(self.slug is Some, None));
        errors.add_field("slug", slug);

        let mut content: Vec<ValidationError> = Vec::new();
        assert(content.deep_view() =~= Seq::empty());
        check_required(self.content.is_some(), Some("Post content is required"), &mut content);
        assert(content.deep_view() =~= required_rule(
            self.content is Some,
            Some("Post content is required"@),
        ));
        errors.add_field("content", content);

        let mut published_by: Vec<ValidationError> = Vec::new();
        assert(published_by.deep_view() =~= Seq::empty());
        check_required(
            self.published_by.is_some(),
            Some("Post author is required"),
            &mut published_by,
        );
        let authors = match &self.published_by {
            Some(list) => Some(list.len()),
            None => None,
        };
        check_non_empty(authors, Some("Post author is required"), &mut published_by);
        assert(published_by.deep_view() =~= self.author_violations());
        errors.add_field("published_by", published_by);

        let mut tags: Vec<ValidationError> = Vec::new();
        assert(tags.deep_view() =~= Seq::empty());
        check_list_length(&self.tags, None, Some(5), Some("Tags exceed the limit of 5"), &mut tags);
        assert(tags.deep_view() =~= length_rule(
            list_value(self.tags.deep_view()),
            None,
            Some(5),
            Some("Tags exceed the limit of 5"@),
        ));
        errors.add_field("tags", tags);

        let mut created_at: Vec<ValidationError> = Vec::new();
        assert(created_at.deep_view() =~= Seq::empty());
        check_required(self.created_at.is_some(), None, &mut created_at);
        assert(created_at.deep_view() =~= required_rule(self.created_at is Some, None));
        errors.add_field("created_at", created_at);

        let mut updated_at: Vec<ValidationError> = Vec::new();
        assert(updated_at.deep_view() =~= Seq::empty());
        check_required(self.updated_at.is_some(), None, &mut updated_at);
        assert(updated_at.deep_view() =~= required_rule(self.updated_at is Some, None));
        errors.add_field("updated_at", updated_at);

        assert(errors.deep_view() =~= self.violations());
        errors.into_result()
    }
}

impl Default for Post {
    /// The post as it is before anything is known of it, created and last
    /// changed now.
    fn default() -> (post: Post)
        ensures
            post.title is None,
            post.slug is None,
            post.rust_code_snippet is None,
            post.content is None,
            post.published_by is None,
            post.tags is None,
            post.code_snippet_enabled == Some(false),
            post.playground_enabled == Some(false),
            post.is_published == Some(false),
            post.is_featured == Some(false),
            post.created_at is Some,
            post.updated_at is Some,
    {
        let created_at = current_time();
        let updated_at = current_time();
        Post::new_at(created_at, updated_at)
    }
}

} // verus!
