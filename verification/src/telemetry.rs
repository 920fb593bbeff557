//! The observability contract of the middleware: one span per request with
//! method, matched route pattern and a correlation identifier resolved
//! exactly once, and one latency measurement per completed request.

use vstd::prelude::*;
use vstd::string::StrSliceExecFns;

use crate::outside::fresh_uuid_string;
use crate::router::Method;
use crate::store::StoreError;

verus! {

/// Per-request context, created when the middleware begins processing.
#[derive(Debug)]
pub struct RequestContext {
    pub method: Method,
    pub pattern: String,
    pub correlation_id: String,
}

/// What the middleware emits when a request completes: the span fields,
/// the response status, the dynamic field a handler may have recorded, the
/// internal error kind when the store failed (never sent to the client,
/// only logged), and exactly one latency measurement in microseconds.
#[derive(Debug)]
pub struct SpanRecord {
    pub method: Method,
    pub pattern: String,
    pub correlation_id: String,
    pub status: u16,
    pub user_id: Option<String>,
    pub error: Option<StoreError>,
    pub latency_micros: u64,
}

/// The resolved identifier agrees with a non-empty inbound header, and is a
/// freshly generated 36-character identifier otherwise.
pub open spec fn correlation_resolved(header: Option<&str>, id: Seq<char>) -> bool {
    match header {
        Some(h) => (h@.len() > 0 ==> id == h@) && (h@.len() == 0 ==> id.len() == 36),
        None => id.len() == 36,
    }
}

/// Resolves the correlation identifier for one request: the inbound
/// `correlation_id` header when it is present and non-empty, a freshly
/// generated identifier otherwise. Never empty.
pub fn resolve_correlation_id(header: Option<&str>) -> (r: String)
    ensures
        correlation_resolved(header, r@),
        r@.len() > 0,
{
    match header {
        Some(h) => {
            if h.unicode_len() > 0 {
                h.to_owned()
            } else {
                fresh_uuid_string()
            }
        },
        None => fresh_uuid_string(),
    }
}

/// Opens the span for one request: tags it with the method and the matched
/// route pattern, and resolves the correlation identifier exactly once.
pub fn begin_request(method: Method, pattern: &str, header: Option<&str>) -> (r: RequestContext)
    ensures
        r.method == method,
        r.pattern@ == pattern@,
        correlation_resolved(header, r.correlation_id@),
        r.correlation_id@.len() > 0,
{
    RequestContext {
        method,
        pattern: pattern.to_owned(),
        correlation_id: resolve_correlation_id(header),
    }
}

/// Closes the span when the response is ready: keeps the span fields,
/// records the status, the handler-supplied field and the internal error
/// kind, and emits the elapsed time as the request's one latency
/// measurement.
pub fn finish_request(
    ctx: RequestContext,
    status: u16,
    user_id: Option<String>,
    error: Option<StoreError>,
    elapsed_micros: u64,
) -> (r: SpanRecord)
    ensures
        r.method == ctx.method,
        r.pattern@ == ctx.pattern@,
        r.correlation_id@ == ctx.correlation_id@,
        r.status == status,
        r.user_id == user_id,
        r.error == error,
        r.latency_micros == elapsed_micros,
{
    SpanRecord {
        method: ctx.method,
        pattern: ctx.pattern,
        correlation_id: ctx.correlation_id,
        status,
        user_id,
        error,
        latency_micros: elapsed_micros,
    }
}

} // verus!
