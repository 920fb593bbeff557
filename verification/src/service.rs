//! The handlers of the three endpoints and the full per-request pipeline:
//! route, open the span, dispatch, close the span with one latency
//! measurement.
//!
//! Internal error detail never reaches a response body: a failed store
//! operation surfaces as a bare 500, and the error kind rides on the span
//! record for server-side triage.

use vstd::prelude::*;

use crate::router::{
    add_name_of, is_add_request, is_hello_request, is_read_request, matched_pattern, read_name_of,
    route_request, Method, RouteMatch,
};
use crate::store::{matches_for, model_insert, NewUser, ReadUser, StoreError, User, UserManager};
use crate::telemetry::{begin_request, correlation_resolved, finish_request, SpanRecord};
use crate::text::{join_with_colon, spec_join};

verus! {

/// An HTTP-like response: a status code and a body.
#[derive(Debug)]
pub struct Response {
    pub status: u16,
    pub body: String,
}

/// The fixed text of the hello endpoint.
pub fn hello_route() -> (r: &'static str)
    ensures
        r@ == "hello"@,
{
    "hello"
}

/// Maps a create outcome to the response of the add-user endpoint: 200
/// with an empty body on success, a bare 500 on any store error.
pub fn add_user_response(outcome: &Result<String, StoreError>) -> (r: Response)
    ensures
        r.body@ == Seq::<char>::empty(),
        r.status == 200 <==> outcome is Ok,
        r.status == 200 || r.status == 500,
{
    match outcome {
        Ok(_) => Response { status: 200, body: String::new() },
        Err(_) => Response { status: 500, body: String::new() },
    }
}

/// The add-user handler: creates the user and reports only success or
/// failure; the error kind is returned for the span, never for the body.
/// On 200 the store gained a record with the given name under some fresh
/// 36-character identifier; on 500 it is untouched.
pub fn add_user(store: &mut UserManager, name: &str) -> (r: (Response, Option<StoreError>))
    requires
        old(store).wf(),
    ensures
        final(store).wf(),
        final(store).same_availability(old(store)),
        r.0.body@ == Seq::<char>::empty(),
        r.0.status == 200 || r.0.status == 500,
        r.1 is Some <==> r.0.status == 500,
        old(store).create_availability is Always ==> r.0.status == 200,
        old(store).create_availability is Never ==> r.0.status == 500,
        r.0.status == 200 ==> exists|id: Seq<char>|
            id.len() == 36 && final(store).model() == #[trigger] model_insert(
                old(store).model(),
                id,
                name@,
            ),
        r.0.status == 500 ==> final(store).model() == old(store).model() && r.1 == Some(
            StoreError::BackendUnavailable,
        ),
{
    let outcome = store.create(NewUser::new(name));
    let resp = add_user_response(&outcome);
    let error = match outcome {
        Ok(_) => None,
        Err(e) => Some(e),
    };
    (resp, error)
}

/// Maps a read outcome to the response of the read-user endpoint and the
/// identifier to record on the span: a found user is returned as
/// `"{id}:{name}"` with 200, an absent one as 204 with a generic message,
/// and a store error as a bare 500.
pub fn read_user_response(outcome: Result<Option<User>, StoreError>) -> (r: (
    Response,
    Option<String>,
))
    ensures
        match outcome {
            Ok(Some(u)) => r.0.status == 200 && r.0.body@ == spec_join(u.id@, ':', u.name@)
                && r.1 is Some && r.1.unwrap()@ == u.id@,
            Ok(None) => r.0.status == 204 && r.0.body@ == "no user found"@ && r.1 is None,
            Err(_) => r.0.status == 500 && r.0.body@ == Seq::<char>::empty() && r.1 is None,
        },
{
    match outcome {
        Ok(Some(u)) => {
            let body = join_with_colon(u.id.as_str(), u.name.as_str());
            proof {
                reveal_strlit(":");
            }
            (Response { status: 200, body }, Some(u.id))
        },
        Ok(None) => (Response { status: 204, body: "no user found".to_owned() }, None),
        Err(_) => (Response { status: 500, body: String::new() }, None),
    }
}

/// The read-user handler. The status pins the store's contents for the
/// looked-up name: 200 returns the one match as `"{id}:{name}"` and its
/// identifier for the span, 204 means no match, 500 a store error whose
/// kind is returned for the span; with an always-available backend the
/// three cases are exact.
pub fn read_user(store: &mut UserManager, name: &str) -> (r: (
    Response,
    Option<String>,
    Option<StoreError>,
))
    requires
        old(store).wf(),
    ensures
        *final(store) == *old(store),
        r.0.status == 200 || r.0.status == 204 || r.0.status == 500,
        r.2 is Some <==> r.0.status == 500,
        ({
            let found = matches_for(old(store).model(), name@);
            &&& (r.0.status == 200 ==> found.len() == 1 && r.0.body@ == spec_join(
                found[0].0,
                ':',
                found[0].1,
            ) && r.1 is Some && r.1.unwrap()@ == found[0].0)
            &&& (r.0.status == 204 ==> found.len() == 0 && r.0.body@ == "no user found"@
                && r.1 is None)
            &&& (r.0.status == 500 ==> r.0.body@ == Seq::<char>::empty() && r.1 is None)
            &&& (r.2 == Some(StoreError::Corrupt) ==> found.len() > 1)
            &&& (old(store).read_availability is Always ==> ((found.len() == 0 ==> r.0.status
                == 204) && (found.len() == 1 ==> r.0.status == 200) && (found.len() > 1
                ==> r.0.status == 500)))
        }),
{
    let outcome = store.read_by_name(ReadUser::new(name));
    let error = match &outcome {
        Ok(_) => None,
        Err(e) => Some(*e),
    };
    let (resp, user_id) = read_user_response(outcome);
    (resp, user_id, error)
}

/// The pipeline's verdict on one request, before middleware dressing: the
/// response, the identifier a read resolved, and the store error kind.
fn dispatch(store: &mut UserManager, routed: Option<RouteMatch>) -> (r: (
    Response,
    Option<String>,
    Option<StoreError>,
))
    requires
        old(store).wf(),
    ensures
        final(store).wf(),
        final(store).same_availability(old(store)),
        r.2 is Some <==> r.0.status == 500,
        match routed {
            Some(RouteMatch::AddUser { name }) => {
                &&& r.1 is None
                &&& r.0.body@ == Seq::<char>::empty()
                &&& (r.0.status == 200 || r.0.status == 500)
                &&& (old(store).create_availability is Always ==> r.0.status == 200)
                &&& (r.0.status == 200 ==> exists|id: Seq<char>|
                    id.len() == 36 && final(store).model() == #[trigger] model_insert(
                        old(store).model(),
                        id,
                        name@,
                    ))
                &&& (r.0.status == 500 ==> final(store).model() == old(store).model() && r.2
                    == Some(StoreError::BackendUnavailable))
            },
            Some(RouteMatch::ReadUser { name }) => {
                let found = matches_for(old(store).model(), name@);
                &&& final(store).model() == old(store).model()
                &&& (r.0.status == 200 || r.0.status == 204 || r.0.status == 500)
                &&& (r.0.status == 200 ==> found.len() == 1 && r.0.body@ == spec_join(
                    found[0].0,
                    ':',
                    found[0].1,
                ) && r.1 is Some && r.1.unwrap()@ == found[0].0)
                &&& (r.0.status == 204 ==> found.len() == 0 && r.0.body@ == "no user found"@)
                &&& (r.2 == Some(StoreError::Corrupt) ==> found.len() > 1)
                &&& (old(store).read_availability is Always ==> ((found.len() == 0 ==> r.0.status
                    == 204) && (found.len() == 1 ==> r.0.status == 200) && (found.len() > 1
                    ==> r.0.status == 500)))
            },
            Some(RouteMatch::Hello) => r.0.status == 200 && r.0.body@ == "hello"@
                && final(store).model() == old(store).model() && r.1 is None,
            None => r.0.status == 404 && r.0.body@ == Seq::<char>::empty() && final(store).model()
                == old(store).model() && r.1 is None,
        },
{
    match routed {
        Some(RouteMatch::AddUser { name }) => {
            let (resp, error) = add_user(store, name.as_str());
            (resp, None, error)
        },
        Some(RouteMatch::ReadUser { name }) => read_user(store, name.as_str()),
        Some(RouteMatch::Hello) => (
            Response { status: 200, body: hello_route().to_owned() },
            None,
            None,
        ),
        None => (Response { status: 404, body: String::new() }, None, None),
    }
}

/// Handles one request end to end: routes it, opens the span with the
/// matched pattern and a correlation identifier resolved exactly once,
/// dispatches, and closes the span with the response status, the internal
/// error kind if any, and exactly one latency measurement, the elapsed
/// time the transport observed.
pub fn handle_request(
    store: &mut UserManager,
    method: Method,
    path: &str,
    correlation_header: Option<&str>,
    elapsed_micros: u64,
) -> (r: (Response, SpanRecord))
    requires
        old(store).wf(),
    ensures
        final(store).wf(),
        final(store).same_availability(old(store)),
        r.1.latency_micros == elapsed_micros,
        r.1.status == r.0.status,
        r.1.method == method,
        r.1.error is Some <==> r.0.status == 500,
        correlation_resolved(correlation_header, r.1.correlation_id@),
        r.1.correlation_id@.len() > 0,
        is_hello_request(method, path@) ==> r.0.status == 200 && r.0.body@ == "hello"@
            && final(store).model() == old(store).model() && r.1.pattern@ == "/hello"@,
        is_add_request(method, path@) ==> {
            &&& (r.0.status == 200 || r.0.status == 500)
            &&& (old(store).create_availability is Always ==> r.0.status == 200)
            &&& (r.0.status == 200 ==> exists|id: Seq<char>|
                id.len() == 36 && final(store).model() == #[trigger] model_insert(
                    old(store).model(),
                    id,
                    add_name_of(path@),
                ))
            &&& (r.0.status == 500 ==> final(store).model() == old(store).model() && r.1.error
                == Some(StoreError::BackendUnavailable))
            &&& r.1.pattern@ == "/users/add/{name}"@
        },
        is_read_request(method, path@) ==> {
            let found = matches_for(old(store).model(), read_name_of(path@));
            &&& final(store).model() == old(store).model()
            &&& (r.0.status == 200 || r.0.status == 204 || r.0.status == 500)
            &&& (r.0.status == 200 ==> found.len() == 1 && r.0.body@ == spec_join(
                found[0].0,
                ':',
                found[0].1,
            ) && r.1.user_id is Some && r.1.user_id.unwrap()@ == found[0].0)
            &&& (r.0.status == 204 ==> found.len() == 0 && r.0.body@ == "no user found"@)
            &&& (r.1.error == Some(StoreError::Corrupt) ==> found.len() > 1)
            &&& (old(store).read_availability is Always ==> ((found.len() == 0 ==> r.0.status
                == 204) && (found.len() == 1 ==> r.0.status == 200) && (found.len() > 1
                ==> r.0.status == 500)))
            &&& r.1.pattern@ == "/users/read/{name}"@
        },
        !is_add_request(method, path@) && !is_read_request(method, path@) && !is_hello_request(
            method,
            path@,
        ) ==> r.0.status == 404 && final(store).model() == old(store).model() && r.1.pattern@
            == Seq::<char>::empty(),
{
    proof {
        reveal_strlit("/users/add/");
        reveal_strlit("/users/read/");
        reveal_strlit("/hello");
        reveal_strlit("");
    }
    let routed = route_request(method, path);
    let pattern: &str = match &routed {
        Some(m) => matched_pattern(m),
        None => "",
    };
    let ctx = begin_request(method, pattern, correlation_header);
    let (resp, user_id, error) = dispatch(store, routed);
    let span = finish_request(ctx, resp.status, user_id, error, elapsed_micros);
    (resp, span)
}

/// One recorded request for the sequential driver.
#[derive(Debug)]
pub struct RequestInput {
    pub method: Method,
    pub path: String,
    pub correlation_header: Option<String>,
    pub elapsed_micros: u64,
}

/// Drives a whole sequence of requests through the pipeline. After `n`
/// completed requests exactly `n` latency measurements have been emitted,
/// each carrying the elapsed time of its own request.
pub fn run_requests(store: &mut UserManager, requests: &Vec<RequestInput>) -> (r: (
    Vec<Response>,
    Vec<SpanRecord>,
))
    requires
        old(store).wf(),
    ensures
        final(store).wf(),
        final(store).same_availability(old(store)),
        r.0@.len() == requests@.len(),
        r.1@.len() == requests@.len(),
        forall|i: int|
            0 <= i < requests@.len() ==> (#[trigger] r.1@[i]).latency_micros
                == requests@[i].elapsed_micros && r.1@[i].status == r.0@[i].status
                && r.1@[i].method == requests@[i].method,
        forall|i: int|
            0 <= i < requests@.len() ==> match requests@[i].correlation_header {
                Some(h) => (h@.len() > 0 ==> (#[trigger] r.1@[i]).correlation_id@ == h@) && (
                h@.len() == 0 ==> r.1@[i].correlation_id@.len() == 36),
                None => (#[trigger] r.1@[i]).correlation_id@.len() == 36,
            },
{
    let mut responses: Vec<Response> = Vec::new();
    let mut spans: Vec<SpanRecord> = Vec::new();
    let n = requests.len();
    let mut i: usize = 0;
    while i < n
        invariant
            0 <= i <= n,
            n == requests@.len(),
            store.wf(),
            store.same_availability(old(store)),
            responses@.len() == i,
            spans@.len() == i,
            forall|j: int|
                0 <= j < i ==> (#[trigger] spans@[j]).latency_micros == requests@[j].elapsed_micros
                    && spans@[j].status == responses@[j].status && spans@[j].method
                    == requests@[j].method,
            forall|j: int|
                0 <= j < i ==> match requests@[j].correlation_header {
                    Some(h) => (h@.len() > 0 ==> (#[trigger] spans@[j]).correlation_id@ == h@) && (
                    h@.len() == 0 ==> spans@[j].correlation_id@.len() == 36),
                    None => (#[trigger] spans@[j]).correlation_id@.len() == 36,
                },
        decreases n - i,
    {
        let req = &requests[i];
        let header: Option<&str> = match &req.correlation_header {
            Some(h) => Some(h.as_str()),
            None => None,
        };
        let (resp, span) = handle_request(
            store,
            req.method,
            req.path.as_str(),
            header,
            req.elapsed_micros,
        );
        responses.push(resp);
        spans.push(span);
        i = i + 1;
    }
    (responses, spans)
}

} // verus!
