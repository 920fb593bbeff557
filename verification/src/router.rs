//! Maps an incoming method and path to one of the three routes of the
//! service and extracts the path parameter.
//!
//! The patterns are `POST /users/add/{name}`, `GET /users/read/{name}` and
//! `GET /hello`; `{name}` stands for one non-empty path segment.

use vstd::prelude::*;
use vstd::string::StrSliceExecFns;

use crate::text::{contains_char, spec_starts_with, starts_with, str_eq};

verus! {

/// The HTTP methods the service routes.
#[derive(Debug, Clone, Copy, PartialEq, Eq)]
pub enum Method {
    Get,
    Post,
}

/// A matched route, with the extracted path parameter where the pattern
/// has one.
#[derive(Debug)]
pub enum RouteMatch {
    AddUser { name: String },
    ReadUser { name: String },
    Hello,
}

/// A valid `{name}` segment: non-empty and without a path separator.
pub open spec fn valid_name(name: Seq<char>) -> bool {
    name.len() > 0 && !name.contains('/')
}

/// The request matches `POST /users/add/{name}`.
pub open spec fn is_add_request(method: Method, path: Seq<char>) -> bool {
    &&& method is Post
    &&& spec_starts_with(path, "/users/add/"@)
    &&& valid_name(path.skip("/users/add/"@.len() as int))
}

/// The request matches `GET /users/read/{name}`.
pub open spec fn is_read_request(method: Method, path: Seq<char>) -> bool {
    &&& method is Get
    &&& spec_starts_with(path, "/users/read/"@)
    &&& valid_name(path.skip("/users/read/"@.len() as int))
}

/// The request matches `GET /hello`.
pub open spec fn is_hello_request(method: Method, path: Seq<char>) -> bool {
    method is Get && path == "/hello"@
}

/// The name extracted from an add request's path.
pub open spec fn add_name_of(path: Seq<char>) -> Seq<char> {
    path.skip("/users/add/"@.len() as int)
}

/// The name extracted from a read request's path.
pub open spec fn read_name_of(path: Seq<char>) -> Seq<char> {
    path.skip("/users/read/"@.len() as int)
}

/// Dispatches a request to the route it matches, if any, extracting the
/// `{name}` parameter.
pub fn route_request(method: Method, path: &str) -> (r: Option<RouteMatch>)
    ensures
        match r {
            Some(RouteMatch::AddUser { name }) => is_add_request(method, path@) && name@
                == add_name_of(path@),
            Some(RouteMatch::ReadUser { name }) => is_read_request(method, path@) && name@
                == read_name_of(path@),
            Some(RouteMatch::Hello) => is_hello_request(method, path@),
            None => {
                &&& !is_add_request(method, path@)
                &&& !is_read_request(method, path@)
                &&& !is_hello_request(method, path@)
            },
        },
{
    proof {
        reveal_strlit("/users/add/");
        reveal_strlit("/users/read/");
        reveal_strlit("/hello");
    }
    match method {
        Method::Post => {
            if starts_with(path, "/users/add/") {
                let n = path.unicode_len();
                let rest = path.substring_char(11, n);
                assert(rest@ =~= add_name_of(path@));
                if rest.unicode_len() > 0 && !contains_char(rest, '/') {
                    return Some(RouteMatch::AddUser { name: rest.to_owned() });
                }
            }
            None
        },
        Method::Get => {
            if starts_with(path, "/users/read/") {
                let n = path.unicode_len();
                let rest = path.substring_char(12, n);
                assert(rest@ =~= read_name_of(path@));
                if rest.unicode_len() > 0 && !contains_char(rest, '/') {
                    return Some(RouteMatch::ReadUser { name: rest.to_owned() });
                }
                return None;
            }
            if str_eq(path, "/hello") {
                return Some(RouteMatch::Hello);
            }
            None
        },
    }
}

/// The route pattern a matched request is tagged with on its span.
pub fn matched_pattern(r: &RouteMatch) -> (p: &'static str)
    ensures
        match r {
            RouteMatch::AddUser { .. } => p@ == "/users/add/{name}"@,
            RouteMatch::ReadUser { .. } => p@ == "/users/read/{name}"@,
            RouteMatch::Hello => p@ == "/hello"@,
        },
{
    match r {
        RouteMatch::AddUser { .. } => "/users/add/{name}",
        RouteMatch::ReadUser { .. } => "/users/read/{name}",
        RouteMatch::Hello => "/hello",
    }
}

} // verus!
