//! The request router: a table from normalized paths to handlers.
//!
//! The table is filled before serving begins and only read afterwards. A
//! second registration for a path replaces the first.
//!
//! Handling a request reads the clock, looks the handler up, lets the caller
//! run it, reads the clock again and writes the line for the access log. The
//! router never calls a handler itself: it hands the one it found to a function
//! of the caller, so a handler can be anything that the caller can run. A
//! handler that fails gives no answer; the log then shows the status 0.

use crate::access_log::{access_line, access_log_line, elapsed};
use crate::clock::{is_timestamp, monotonic_ns, utc_timestamp};
use crate::http::{Response, ResponseView, STATUS_NOT_FOUND};
use crate::table::Table;
use vstd::prelude::*;

verus! {

/// The texts of a list of path segments.
pub open spec fn segment_texts(segments: Seq<String>) -> Seq<Seq<char>> {
    Seq::new(segments.len(), |i: int| segments[i]@)
}

/// The segments joined by `/`: the path without its leading slash.
pub open spec fn joined(segments: Seq<Seq<char>>) -> Seq<char>
    decreases segments.len(),
{
    if segments.len() == 0 {
        Seq::empty()
    } else if segments.len() == 1 {
        segments[0]
    } else {
        joined(segments.drop_last()) + seq!['/'] + segments.last()
    }
}

/// The normalized path of a request for `segments`.
pub open spec fn request_path(segments: Seq<String>) -> Seq<char> {
    joined(segment_texts(segments))
}

/// Joins the segments of a request path by `/`.
pub fn normalize_path(segments: &Vec<String>) -> (path: String)
    ensures
        path@ == request_path(segments@),
{
    let mut path = String::new();
    let mut i: usize = 0;
    while i < segments.len()
        invariant
            i <= segments.len(),
            path@ == joined(segment_texts(segments@).take(i as int)),
        decreases segments.len() - i,
    {
        let ghost before = segment_texts(segments@).take(i as int);
        let ghost after = segment_texts(segments@).take(i + 1);
        proof {
            assert(after.drop_last() =~= before);
            assert(after.last() == segments@[i as int]@);
        }
        if i > 0 {
            path.append("/");
            proof {
                reveal_strlit("/");
                assert("/"@ =~= seq!['/']);
            }
        }
        path.append(segments[i].as_str());
        assert(path@ =~= joined(after));
        i = i + 1;
    }
    assert(segment_texts(segments@).take(i as int) =~= segment_texts(segments@));
    path
}

/// A handled request: the answer, if the handler gave one, and the line for
/// the access log.
pub struct Served {
    pub response: Option<Response>,
    pub log_line: String,
}

/// The status of an answer, if there is one.
pub open spec fn status_of(response: Option<Response>) -> Option<u16> {
    match response {
        Some(response) => Some(response.status),
        None => None,
    }
}

/// A table from normalized paths to handlers of type `H`.
pub struct Router<H> {
    routes: Table<H>,
}

impl<H> View for Router<H> {
    type V = Map<Seq<char>, H>;

    closed spec fn view(&self) -> Map<Seq<char>, H> {
        self.routes@
    }
}

impl<H> Router<H> {
    /// A router without routes.
    pub fn new() -> (router: Router<H>)
        ensures
            router@ == Map::<Seq<char>, H>::empty(),
    {
        Router { routes: Table::new() }
    }

    /// Registers `handler` for `path`. Where the path had a handler, the new
    /// one takes its place.
    pub fn add_route(&mut self, path: String, handler: H)
        ensures
            final(self)@ == old(self)@.insert(path@, handler),
    {
        self.routes.insert(path, handler);
    }

    /// The handler registered for the normalized path `path`.
    pub fn lookup(&self, path: &String) -> (r: Option<&H>)
        ensures
            match r {
                Some(handler) => self@.dom().contains(path@) && self@[path@] == *handler,
                None => !self@.dom().contains(path@),
            },
    {
        self.routes.get(path)
    }

    /// The handler that a request for the path made of `segments` reaches.
    pub fn route(&self, segments: &Vec<String>) -> (r: Option<&H>)
        ensures
            match r {
                Some(handler) => self@.dom().contains(request_path(segments@)) && self@[request_path(
                    segments@,
                )] == *handler,
                None => !self@.dom().contains(request_path(segments@)),
            },
    {
        let path = normalize_path(segments);
        self.routes.get(&path)
    }

    /// Handles a request, given the two readings of the monotonic clock and
    /// the calendar time at which the line is written. The handler for the path
    /// is run by `serve`; a path without a handler is answered with "not
    /// found" and `serve` is not called.
    pub fn handle_at<F: FnOnce(&H) -> Option<Response>>(
        &self,
        method: &str,
        segments: &Vec<String>,
        serve: F,
        started_ns: u64,
        finished_ns: u64,
        timestamp: &str,
    ) -> (served: Served)
        requires
            self@.dom().contains(request_path(segments@)) ==> call_requires(
                serve,
                (&self@[request_path(segments@)],),
            ),
        ensures
            self@.dom().contains(request_path(segments@)) ==> call_ensures(
                serve,
                (&self@[request_path(segments@)],),
                served.response,
            ),
            !self@.dom().contains(request_path(segments@)) ==> served.response is Some
                && served.response->0@ == ResponseView::bare(STATUS_NOT_FOUND),
            served.log_line@ == access_line(
                timestamp@,
                status_of(served.response),
                elapsed(started_ns, finished_ns),
                method@,
                request_path(segments@),
            ),
    {
        let path = normalize_path(segments);
        let response = self.answer(&path, serve);
        conclude(response, method, path.as_str(), started_ns, finished_ns, timestamp)
    }

    /// Handles a request: the clock is read, the handler for the path is
    /// looked up and run by `serve`, the clock is read again and the line for
    /// the access log is written. A path without a handler is answered with
    /// "not found" and `serve` is not called. Each request gives one line; it
    /// names the request's method and normalized path and the status of the
    /// answer. The line begins with the calendar time in the form of RFC 3339,
    /// or with nothing where the clock shows a time that is out of range.
    pub fn handle<F: FnOnce(&H) -> Option<Response>>(
        &self,
        method: &str,
        segments: &Vec<String>,
        serve: F,
    ) -> (served: Served)
        requires
            self@.dom().contains(request_path(segments@)) ==> call_requires(
                serve,
                (&self@[request_path(segments@)],),
            ),
        ensures
            self@.dom().contains(request_path(segments@)) ==> call_ensures(
                serve,
                (&self@[request_path(segments@)],),
                served.response,
            ),
            !self@.dom().contains(request_path(segments@)) ==> served.response is Some
                && served.response->0@ == ResponseView::bare(STATUS_NOT_FOUND),
            exists|timestamp: Seq<char>, span: nat|
                (is_timestamp(timestamp) || timestamp == Seq::<char>::empty()) && served.log_line@
                    == #[trigger] access_line(
                    timestamp,
                    status_of(served.response),
                    span,
                    method@,
                    request_path(segments@),
                ),
    {
        let started_ns = monotonic_ns();
        let path = normalize_path(segments);
        let response = self.answer(&path, serve);
        let finished_ns = monotonic_ns();
        let timestamp = match utc_timestamp() {
            Some(text) => text,
            None => String::new(),
        };
        conclude(response, method, path.as_str(), started_ns, finished_ns, timestamp.as_str())
    }

    /// The answer to a request for the normalized path `path`: that of the
    /// handler registered for it, run by `serve`, or "not found".
    fn answer<F: FnOnce(&H) -> Option<Response>>(&self, path: &String, serve: F) -> (response: Option<
        Response,
    >)
        requires
            self@.dom().contains(path@) ==> call_requires(serve, (&self@[path@],)),
        ensures
            self@.dom().contains(path@) ==> call_ensures(serve, (&self@[path@],), response),
            !self@.dom().contains(path@) ==> response is Some && response->0@ == ResponseView::bare(
                STATUS_NOT_FOUND,
            ),
    {
        match self.routes.get(path) {
            Some(handler) => serve(handler),
            None => Some(Response::not_found()),
        }
    }
}

/// Writes the log line of a request that was answered with `response`.
fn conclude(
    response: Option<Response>,
    method: &str,
    path: &str,
    started_ns: u64,
    finished_ns: u64,
    timestamp: &str,
) -> (served: Served)
    ensures
        served.response == response,
        served.log_line@ == access_line(
            timestamp@,
            status_of(response),
            elapsed(started_ns, finished_ns),
            method@,
            path@,
        ),
{
    let span = if finished_ns >= started_ns {
        finished_ns - started_ns
    } else {
        0
    };
    let status = match &response {
        Some(response) => Some(response.status),
        None => None,
    };
    let log_line = access_log_line(timestamp, status, span, method, path);
    Served { response, log_line }
}

} // verus!
