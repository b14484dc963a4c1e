//! The endpoints of the server and the paths that they are served under.
//!
//! | Method | Path         | Answer                                        |
//! |--------|--------------|-----------------------------------------------|
//! | GET    | `/`          | 200, the page                                 |
//! | POST   | `/submit`    | 200, the server's identity as JSON; 400; 405  |
//! | GET    | `/heartbeat` | 200, the current time as plain text           |
//!
//! Any other path is answered with 404 by the router. The liveness check
//! gives no answer where the calendar clock shows a time that cannot be written
//! in the form of RFC 3339 with a year of four digits.

use crate::clock::{rfc3339_form, stamp, utc_now, CalendarFields, UtcTime};
use crate::http::{view_of, ContentType, Response, ResponseView};
use crate::router::Router;
use vstd::prelude::*;

verus! {

/// An endpoint of the server.
#[derive(Clone, Copy, Debug, PartialEq, Eq, Structural)]
pub enum Endpoint {
    /// The page of the game.
    Index,
    /// The score submission endpoint.
    Submit,
    /// The liveness check.
    Heartbeat,
}

/// The route table of the server: each normalized path and its endpoint.
pub open spec fn route_table() -> Map<Seq<char>, Endpoint> {
    Map::<Seq<char>, Endpoint>::empty().insert(""@, Endpoint::Index).insert(
        "submit"@,
        Endpoint::Submit,
    ).insert("heartbeat"@, Endpoint::Heartbeat)
}

/// Builds the router of the server.
pub fn server_routes() -> (router: Router<Endpoint>)
    ensures
        router@ == route_table(),
{
    let mut router = Router::new();
    router.add_route(String::from_str(""), Endpoint::Index);
    router.add_route(String::from_str("submit"), Endpoint::Submit);
    router.add_route(String::from_str("heartbeat"), Endpoint::Heartbeat);
    router
}

/// The answer of the page endpoint: the rendered page.
pub fn index_response(markup: String) -> (response: Response)
    ensures
        response@ == ResponseView::ok(ContentType::Html, markup@),
{
    Response::ok(ContentType::Html, markup)
}

/// What the liveness endpoint answers to a reading of the calendar clock:
/// the time in the form of RFC 3339 as plain text, or nothing where the
/// reading is out of range.
pub open spec fn heartbeat_answer(fields: CalendarFields) -> Option<ResponseView> {
    match stamp(fields) {
        Some(text) => Some(ResponseView::ok(ContentType::Plain, text)),
        None => None,
    }
}

/// The answer of the liveness endpoint at the calendar time `moment`.
pub fn heartbeat_at(moment: &UtcTime) -> (response: Response)
    ensures
        response@ == ResponseView::ok(ContentType::Plain, rfc3339_form(moment@)),
        moment@.valid(),
{
    Response::ok(ContentType::Plain, moment.rfc3339())
}

/// The answer of the liveness endpoint to a reading of the calendar clock.
pub fn heartbeat_for(fields: CalendarFields) -> (response: Option<Response>)
    ensures
        view_of(response) == heartbeat_answer(fields),
{
    match UtcTime::from_fields(fields) {
        Some(moment) => Some(heartbeat_at(&moment)),
        None => None,
    }
}

/// The answer of the liveness endpoint: the current calendar time in the form
/// of RFC 3339, as plain text. The clock is read once, and the answer is that
/// to the reading.
pub fn heartbeat() -> (response: Option<Response>)
    ensures
        exists|fields: CalendarFields| view_of(response) == #[trigger] heartbeat_answer(fields),
{
    heartbeat_for(utc_now())
}

} // verus!
