//! The routes of the dashboard: what an administrator sees of the blog.

use vstd::prelude::*;
use crate::config::Config;
use crate::handlers::{failed_read, respond_to_failed_read, respond_to_read, successful_read};
use crate::json::{array, array_text, decimal, number, object, object_text};
use crate::models::post::Post;
use crate::models::user::{User, UserRole};
use crate::request::{method_named, text_or_empty, valid_method, Method, RequestPayload};
use crate::response::{
    enveloped, AppErrorResponse, ProxyResponse, ProxyResponseView, ResponseStatus, NOT_ACCEPTABLE,
    NOT_FOUND, UNAUTHORIZED,
};
use crate::store::{
    CountRequest, CountRequestView, FieldValueView, FindOptionsView, FindRequest, FindRequestView,
    QueryDocument, StoreError,
};
use crate::text::{contains, equal, str_contains, uppercase};
use crate::traits::model_traits::{collection_name, find_request, ModelTraits};
use crate::utils::cors::{cors, preflight_response};

verus! {

/// What the dashboard shows.
#[derive(Clone, Debug, PartialEq, Eq)]
pub struct DashboardMetadata {
    pub posts_count: u64,
    pub published_posts_count: u64,
    pub draft_posts_count: u64,
    pub featured_posts_count: u64,
    /// The posts created last, each as JSON text.
    pub recent_posts: Vec<String>,
}

impl Default for DashboardMetadata {
    fn default() -> (metadata: DashboardMetadata)
        ensures
            metadata.posts_count == 0,
            metadata.published_posts_count == 0,
            metadata.draft_posts_count == 0,
            metadata.featured_posts_count == 0,
            metadata.recent_posts@.len() == 0,
    {
        DashboardMetadata {
            posts_count: 0,
            published_posts_count: 0,
            draft_posts_count: 0,
            featured_posts_count: 0,
            recent_posts: Vec::new(),
        }
    }
}

/// The JSON members of what the dashboard shows.
pub open spec fn dashboard_members(
    posts: u64,
    published: u64,
    drafts: u64,
    featured: u64,
    recent_posts: Seq<Seq<char>>,
) -> Seq<(Seq<char>, Seq<char>)> {
    seq![
        ("\"posts_count\""@, decimal(posts as nat)),
        ("\"published_posts_count\""@, decimal(published as nat)),
        ("\"draft_posts_count\""@, decimal(drafts as nat)),
        ("\"featured_posts_count\""@, decimal(featured as nat)),
        ("\"recent_posts\""@, array_text(recent_posts)),
    ]
}

/// The data of the dashboard's response.
pub open spec fn dashboard_data(
    posts: u64,
    published: u64,
    drafts: u64,
    featured: u64,
    recent_posts: Seq<Seq<char>>,
) -> Seq<char> {
    object_text(
        seq![
            (
                "\"dashboard_metadata\""@,
                object_text(dashboard_members(posts, published, drafts, featured, recent_posts)),
            ),
        ],
    )
}

impl DashboardMetadata {
    /// What the dashboard shows, as JSON text.
    pub fn to_json(&self) -> (text: String)
        ensures
            text@ == object_text(
                dashboard_members(
                    self.posts_count,
                    self.published_posts_count,
                    self.draft_posts_count,
                    self.featured_posts_count,
                    self.recent_posts.deep_view(),
                ),
            ),
    {
        let mut members: Vec<(String, String)> = Vec::new();
        members.push(("\"posts_count\"".to_owned(), number(self.posts_count)));
        members.push(("\"published_posts_count\"".to_owned(), number(self.published_posts_count)));
        members.push(("\"draft_posts_count\"".to_owned(), number(self.draft_posts_count)));
        members.push(("\"featured_posts_count\"".to_owned(), number(self.featured_posts_count)));
        members.push(("\"recent_posts\"".to_owned(), array(&self.recent_posts)));
        assert(members.deep_view() =~= dashboard_members(
            self.posts_count,
            self.published_posts_count,
            self.draft_posts_count,
            self.featured_posts_count,
            self.recent_posts.deep_view(),
        ));
        object(&members)
    }
}

/// The number of recent posts that the dashboard shows.
pub const RECENT_POSTS: i64 = 5;

/// The number of counts that the dashboard shows.
pub const COUNTS: usize = 4;

/// The fields of a recent post.
pub open spec fn recent_fields() -> Seq<(Seq<char>, FieldValueView)> {
    seq![
        ("title"@, FieldValueView::Bool(true)),
        ("is_published"@, FieldValueView::Bool(true)),
        ("created_at"@, FieldValueView::Bool(true)),
        ("_id"@, FieldValueView::Bool(true)),
    ]
}

/// The order of the recent posts: the post created last comes first.
pub open spec fn newest_first() -> Seq<(Seq<char>, FieldValueView)> {
    seq![("created_at"@, FieldValueView::Int32(-1i32))]
}

/// The filter of the count at `position`: all posts, the published ones,
/// the drafts, the featured ones.
pub open spec fn counted_posts(position: int) -> Seq<(Seq<char>, FieldValueView)> {
    if position == 0 {
        Seq::empty()
    } else if position == 1 {
        seq![("is_published"@, FieldValueView::Bool(true))]
    } else if position == 2 {
        seq![("is_published"@, FieldValueView::Bool(false))]
    } else {
        seq![("is_featured"@, FieldValueView::Bool(true))]
    }
}

/// The count at `position`.
pub open spec fn count_at(position: int) -> CountRequestView {
    CountRequestView {
        collection: collection_name(Post::struct_name()),
        filter: counted_posts(position),
    }
}

/// What the dashboard has learnt so far: the recent posts, each as JSON
/// text, and the counts that came back, fewer than it shows.
#[derive(Debug, PartialEq, Eq)]
pub struct MetadataProgress {
    recent_posts: Vec<String>,
    counts: Vec<u64>,
}

pub struct MetadataProgressView {
    pub recent_posts: Seq<Seq<char>>,
    pub counts: Seq<u64>,
}

impl View for MetadataProgress {
    type V = MetadataProgressView;

    closed spec fn view(&self) -> MetadataProgressView {
        MetadataProgressView { recent_posts: self.recent_posts.deep_view(), counts: self.counts@ }
    }
}

impl MetadataProgress {
    #[verifier::type_invariant]
    spec fn well_formed(&self) -> bool {
        self.counts@.len() < COUNTS
    }
}

/// Where the gathering of the dashboard's data stands.
#[derive(Debug, PartialEq, Eq)]
pub enum MetadataStep {
    /// The store is to run the count; its reply, with the progress,
    /// continues the gathering.
    Count { request: CountRequest, progress: MetadataProgress },
    /// The gathering is over.
    Done(ProxyResponse),
}

pub enum MetadataStepView {
    Count { request: CountRequestView, progress: MetadataProgressView },
    Done(ProxyResponseView),
}

impl View for MetadataStep {
    type V = MetadataStepView;

    open spec fn view(&self) -> MetadataStepView {
        match self {
            MetadataStep::Count { request, progress } => MetadataStepView::Count {
                request: request.deep_view(),
                progress: progress@,
            },
            MetadataStep::Done(response) => MetadataStepView::Done(response.deep_view()),
        }
    }
}

/// The step once the recent posts are known, and after each count: the
/// store's first failure ends the gathering with the response to a failed
/// read; the last count ends it with the data; and every other reply leads
/// on to the next count.
pub open spec fn next_step(
    origin: Seq<char>,
    recent_posts: Seq<Seq<char>>,
    counts: Seq<u64>,
) -> MetadataStepView {
    if counts.len() < COUNTS {
        MetadataStepView::Count {
            request: count_at(counts.len() as int),
            progress: MetadataProgressView { recent_posts, counts },
        }
    } else {
        MetadataStepView::Done(
            successful_read(
                origin,
                dashboard_data(counts[0], counts[1], counts[2], counts[3], recent_posts),
            ),
        )
    }
}

/// The find for the recent posts: the five posts created last.
pub fn get_metadata() -> (request: FindRequest)
    ensures
        request.deep_view() == find_request(
            collection_name(Post::struct_name()),
            Seq::empty(),
            Some(recent_fields()),
            Some(newest_first()),
            RECENT_POSTS,
        ),
{
    let projection = QueryDocument::new().with_bool("title", true).with_bool(
        "is_published",
        true,
    ).with_bool("created_at", true).with_bool("_id", true);
    let sort = QueryDocument::new().with_int32("created_at", -1);
    assert(projection.deep_view() =~= recent_fields());
    assert(sort.deep_view() =~= newest_first());
    Post::find(QueryDocument::new(), Some(projection), Some(sort), RECENT_POSTS)
}

fn count_request(position: usize) -> (request: CountRequest)
    ensures
        request.deep_view() == count_at(position as int),
{
    let filter = if position == 0 {
        QueryDocument::new()
    } else if position == 1 {
        QueryDocument::new().with_bool("is_published", true)
    } else if position == 2 {
        QueryDocument::new().with_bool("is_published", false)
    } else {
        QueryDocument::new().with_bool("is_featured", true)
    };
    assert(filter.deep_view() =~= counted_posts(position as int));
    Post::count_documents(filter)
}

fn step_from(config: &Config, recent_posts: Vec<String>, counts: Vec<u64>) -> (step: MetadataStep)
    requires
        counts@.len() <= COUNTS,
    ensures
        step@ == next_step(config.frontend_base_url@, recent_posts.deep_view(), counts@),
{
    if counts.len() < COUNTS {
        let request = count_request(counts.len());
        MetadataStep::Count { request, progress: MetadataProgress { recent_posts, counts } }
    } else {
        let metadata = DashboardMetadata {
            posts_count: counts[0],
            published_posts_count: counts[1],
            draft_posts_count: counts[2],
            featured_posts_count: counts[3],
            recent_posts,
        };
        let mut members: Vec<(String, String)> = Vec::new();
        members.push(("\"dashboard_metadata\"".to_owned(), metadata.to_json()));
        assert(members.deep_view() =~= seq![
            (
                "\"dashboard_metadata\""@,
                object_text(
                    dashboard_members(
                        counts[0],
                        counts[1],
                        counts[2],
                        counts[3],
                        recent_posts.deep_view(),
                    ),
                ),
            ),
        ]);
        MetadataStep::Done(respond_to_read(config, object(&members)))
    }
}

/// Continues with the store's reply to the find for the recent posts, each
/// post as JSON text.
pub fn recent_posts_found(config: &Config, reply: Result<Vec<String>, StoreError>) -> (step:
    MetadataStep)
    ensures
        step@ == match reply {
            Ok(recent_posts) => next_step(
                config.frontend_base_url@,
                recent_posts.deep_view(),
                Seq::empty(),
            ),
            Err(_) => MetadataStepView::Done(failed_read(config.frontend_base_url@)),
        },
{
    match reply {
        Ok(recent_posts) => step_from(config, recent_posts, Vec::new()),
        Err(_) => MetadataStep::Done(respond_to_failed_read(config)),
    }
}

/// Continues with the store's reply to a count.
pub fn counted(
    config: &Config,
    progress: MetadataProgress,
    reply: Result<u64, StoreError>,
) -> (step: MetadataStep)
    ensures
        step@ == match reply {
            Ok(count) => next_step(
                config.frontend_base_url@,
                progress@.recent_posts,
                progress@.counts.push(count),
            ),
            Err(_) => MetadataStepView::Done(failed_read(config.frontend_base_url@)),
        },
{
    proof {
        use_type_invariant(&progress);
    }
    match reply {
        Ok(count) => {
            let mut counts = progress.counts;
            counts.push(count);
            step_from(config, progress.recent_posts, counts)
        },
        Err(_) => MetadataStep::Done(respond_to_failed_read(config)),
    }
}

/// The filter for the administrator with the given name.
pub open spec fn named_admin(username: Seq<char>) -> Seq<(Seq<char>, FieldValueView)> {
    seq![
        ("username"@, FieldValueView::Text(username)),
        ("role"@, FieldValueView::Text(UserRole::Admin.stored_name())),
    ]
}

/// The find for the administrator with the given name.
pub fn find_admin_user(username: String) -> (request: FindRequest)
    ensures
        request.deep_view() == (FindRequestView {
            collection: collection_name(User::struct_name()),
            filter: named_admin(username@),
            options: FindOptionsView { projection: None, sort: None, limit: Some(1), skip: None },
        }),
{
    let filter = QueryDocument::new().with_text("username", username).with_text(
        "role",
        UserRole::Admin.name().to_owned(),
    );
    assert(filter.deep_view() =~= named_admin(username@));
    User::find(filter, None, None, 1)
}

/// The administrator that was found: the first document, where the store
/// found any.
pub fn admin_user_found<D>(result: Result<Vec<D>, StoreError>) -> (user: Option<D>)
    ensures
        user == match result {
            Ok(documents) => if documents@.len() == 0 {
                None
            } else {
                Some(documents@[0])
            },
            Err(_) => None,
        },
{
    match result {
        Ok(documents) => {
            let mut documents = documents;
            if documents.len() != 0 {
                Some(documents.swap_remove(0))
            } else {
                None
            }
        },
        Err(_) => None,
    }
}

/// The response to a request that may not see the dashboard.
pub open spec fn unauthorized(origin: Seq<char>) -> ProxyResponseView {
    enveloped(origin, ResponseStatus::Error, UNAUTHORIZED, None, None)
}

/// The response to a request that may not see the dashboard.
pub fn refuse(config: &Config) -> (response: ProxyResponse)
    ensures
        response.deep_view() == unauthorized(config.frontend_base_url@),
{
    AppErrorResponse::new(config, UNAUTHORIZED, None, None)
}

/// Whether a user of the given role is turned away: everyone is but an
/// administrator and a super administrator.
pub open spec fn turned_away(role: UserRole) -> bool {
    role != UserRole::Admin && role != UserRole::SuperAdmin
}

/// The role that a request is judged by, given the role of the user that
/// was found: a user without a role counts as a plain user.
pub open spec fn judged_role(role: Option<UserRole>) -> UserRole {
    match role {
        Some(r) => r,
        None => UserRole::User,
    }
}

/// The response that turns a request away, given the role of the user that
/// was found for it, where one was found: a request without a user is
/// turned away, and so is one whose user's role is.
pub open spec fn turning_away(origin: Seq<char>, found: Option<Option<UserRole>>) -> Option<
    ProxyResponseView,
> {
    match found {
        Some(role) => if turned_away(judged_role(role)) {
            Some(unauthorized(origin))
        } else {
            None
        },
        None => Some(unauthorized(origin)),
    }
}

/// The response that turns the request away, given the role of the user
/// that was found for it, where one was found; nothing for a request that is
/// let in.
pub fn authorize(config: &Config, found: Option<Option<UserRole>>) -> (response: Option<
    ProxyResponse,
>)
    ensures
        response.deep_view() == turning_away(config.frontend_base_url@, found),
{
    match found {
        Some(role) => {
            let role = match role {
                Some(r) => r,
                None => UserRole::default(),
            };
            if role != UserRole::Admin && role != UserRole::SuperAdmin {
                return Some(refuse(config));
            }
            None
        },
        None => Some(refuse(config)),
    }
}

/// What the route does with a request of a user that was let in.
#[derive(Debug, PartialEq, Eq)]
pub enum DashboardRoute {
    /// The request is answered at once.
    Respond(ProxyResponse),
    /// The dashboard's data is to be gathered.
    Metadata,
}

/// What the route does with a request on `path` by the method that `method`
/// (in upper case) names: a request on another path is not found, a
/// preflight request is answered as one, a `GET` on the path of the
/// metadata gathers them, and nothing else is accepted.
pub open spec fn route_of(
    origin: Seq<char>,
    path: Seq<char>,
    method: Seq<char>,
    named: Method,
) -> Option<ProxyResponseView> {
    if !contains(path, "/api/dashboard"@) {
        Some(enveloped(origin, ResponseStatus::Error, NOT_FOUND, Some("Not found"@), None))
    } else if method == "OPTIONS"@ {
        Some(preflight_response(origin))
    } else if named == Method::Get && path == "/api/dashboard/metadata"@ {
        None
    } else {
        Some(
            enveloped(
                origin,
                ResponseStatus::Error,
                NOT_ACCEPTABLE,
                Some("Not acceptable"@),
                None,
            ),
        )
    }
}

/// The view of a route: the response, unless the data is to be gathered.
pub open spec fn route_view(route: DashboardRoute) -> Option<ProxyResponseView> {
    match route {
        DashboardRoute::Respond(response) => Some(response.deep_view()),
        DashboardRoute::Metadata => None,
    }
}

/// What the route does with a request on `path` by `method`, given the
/// method that `method` names.
pub fn route_given(config: &Config, path: &str, method: &str, named: Method) -> (route:
    DashboardRoute)
    ensures
        route_view(route) == route_of(config.frontend_base_url@, path@, method@, named),
{
    if !str_contains(path, "/api/dashboard") {
        return DashboardRoute::Respond(
            AppErrorResponse::new(config, NOT_FOUND, Some("Not found".to_owned()), None),
        );
    }
    if equal(method, "OPTIONS") {
        return DashboardRoute::Respond(cors(config));
    }
    match named {
        Method::Get => if equal(path, "/api/dashboard/metadata") {
            DashboardRoute::Metadata
        } else {
            DashboardRoute::Respond(
                AppErrorResponse::new(
                    config,
                    NOT_ACCEPTABLE,
                    Some("Not acceptable".to_owned()),
                    None,
                ),
            )
        },
        _ => DashboardRoute::Respond(
            AppErrorResponse::new(config, NOT_ACCEPTABLE, Some("Not acceptable".to_owned()), None),
        ),
    }
}

/// What the route does with a request of a user that was let in.
pub fn handler(config: &Config, payload: &RequestPayload) -> (route: DashboardRoute)
    ensures
        route_view(route) == route_of(
            config.frontend_base_url@,
            text_or_empty(payload.path),
            uppercase(text_or_empty(payload.http_method)),
            method_named(
                uppercase(text_or_empty(payload.http_method)),
                valid_method(uppercase(text_or_empty(payload.http_method))),
            ),
        ),
{
    let method = payload.method();
    let path = payload.path_or_empty();
    route_given(config, path.as_str(), method.as_str(), Method::parse(method.as_str()))
}

} // verus!
