//! The route of the blog's readers.

use vstd::prelude::*;
use crate::config::Config;
use crate::handlers::query::RequestPostsQueryParams;
use crate::request::{method_named, text_or_empty, valid_method, Method, RequestPayload};
use crate::response::{
    enveloped, AppErrorResponse, ProxyResponse, ProxyResponseView, ResponseStatus, NOT_ACCEPTABLE,
    NOT_FOUND,
};
use crate::text::{equal, uppercase};
use crate::utils::cors::{cors, preflight_response};

verus! {

/// What the route does with a request.
#[derive(Debug, PartialEq, Eq)]
pub enum BlogRoute {
    /// The request is answered at once.
    Respond(ProxyResponse),
    /// The featured posts are to be read.
    FeaturedPosts,
    /// The page `current_page` of the listing is to be read.
    Posts { current_page: Option<i64> },
}

pub enum BlogRouteView {
    Respond(ProxyResponseView),
    FeaturedPosts,
    Posts { current_page: Option<i64> },
}

impl View for BlogRoute {
    type V = BlogRouteView;

    open spec fn view(&self) -> BlogRouteView {
        match self {
            BlogRoute::Respond(response) => BlogRouteView::Respond(response.deep_view()),
            BlogRoute::FeaturedPosts => BlogRouteView::FeaturedPosts,
            BlogRoute::Posts { current_page } => BlogRouteView::Posts {
                current_page: *current_page,
            },
        }
    }
}

/// The path of the route.
pub open spec fn route_path() -> Seq<char> {
    "/api/blog/posts"@
}

/// What the route does with a request on `path` by the method that `method`
/// (in upper case) names: a request on another path is not found, a
/// preflight request is answered as one, a `GET` reads the featured posts
/// where they are asked for and a page of the listing where they are not,
/// and no other method is accepted.
pub open spec fn route_of(
    origin: Seq<char>,
    path: Seq<char>,
    method: Seq<char>,
    named: Method,
    params: RequestPostsQueryParams,
) -> BlogRouteView {
    if path != route_path() {
        BlogRouteView::Respond(
            enveloped(origin, ResponseStatus::Error, NOT_FOUND, Some("Not found"@), None),
        )
    } else if method == "OPTIONS"@ {
        BlogRouteView::Respond(preflight_response(origin))
    } else if named == Method::Get {
        if params.featured {
            BlogRouteView::FeaturedPosts
        } else {
            BlogRouteView::Posts { current_page: Some(params.current_page) }
        }
    } else {
        BlogRouteView::Respond(
            enveloped(
                origin,
                ResponseStatus::Error,
                NOT_ACCEPTABLE,
                Some("Not acceptable"@),
                None,
            ),
        )
    }
}

/// What the route does with a request on `path` by `method`, given the
/// method that `method` names.
pub fn route_given(
    config: &Config,
    path: &str,
    method: &str,
    named: Method,
    params: RequestPostsQueryParams,
) -> (route: BlogRoute)
    ensures
        route@ == route_of(config.frontend_base_url@, path@, method@, named, params),
{
    if !equal(path, "/api/blog/posts") {
        return BlogRoute::Respond(
            AppErrorResponse::new(config, NOT_FOUND, Some("Not found".to_owned()), None),
        );
    }
    if equal(method, "OPTIONS") {
        return BlogRoute::Respond(cors(config));
    }
    match named {
        Method::Get => if params.featured {
            BlogRoute::FeaturedPosts
        } else {
            BlogRoute::Posts { current_page: Some(params.current_page) }
        },
        _ => BlogRoute::Respond(
            AppErrorResponse::new(config, NOT_ACCEPTABLE, Some("Not acceptable".to_owned()), None),
        ),
    }
}

/// What the route does with a request, given the parameters of its query.
pub fn handler(
    config: &Config,
    payload: &RequestPayload,
    params: RequestPostsQueryParams,
) -> (route: BlogRoute)
    ensures
        route@ == route_of(
            config.frontend_base_url@,
            text_or_empty(payload.path),
            uppercase(text_or_empty(payload.http_method)),
            method_named(
                uppercase(text_or_empty(payload.http_method)),
                valid_method(uppercase(text_or_empty(payload.http_method))),
            ),
            params,
        ),
{
    let method = payload.method();
    let path = payload.path_or_empty();
    route_given(config, path.as_str(), method.as_str(), Method::parse(method.as_str()), params)
}

} // verus!
