use score_relay::clock::{CalendarFields, UtcTime};
use score_relay::endpoints::{heartbeat, heartbeat_at, heartbeat_for, index_response, server_routes, Endpoint};
use score_relay::http::{ContentType, Response};
use score_relay::identity::ServerIdentity;
use score_relay::score::{ScoreStore, DEFAULT_THRESHOLD_NS};
use score_relay::submission::{ApiHandler, Submission};

fn api() -> ApiHandler {
    ApiHandler {
        identity: ServerIdentity::from_draws(0, 1, 2),
        leaderboard_url: "http://localhost:8080".to_string(),
    }
}

fn segments(parts: &[&str]) -> Vec<String> {
    parts.iter().map(|part| part.to_string()).collect()
}

#[test]
fn post_submit_returns_the_identity() {
    let api = api();
    let mut store = ScoreStore::starting_at(0);
    let outcome = api.handle_at(&mut store, "POST", "{\"name\": \"Alice\"}", 1, DEFAULT_THRESHOLD_NS);
    assert_eq!(outcome.response.status, 200);
    assert_eq!(outcome.response.content_type, ContentType::Json);
    assert_eq!(outcome.response.body, "{\"id\":\"AB\",\"color\":\"rgb(74,111,227)\"}");
    assert!(outcome.payload.is_none());
    assert_eq!(store.count(&"Alice".to_string()), 1);
}

#[test]
fn the_answer_is_a_json_document_with_id_and_color() {
    let api = api();
    let mut store = ScoreStore::new();
    let outcome = api.handle(&mut store, "POST", "{\"name\": \"Alice\"}");
    let document: serde_json::Value = serde_json::from_str(&outcome.response.body).expect("the body is JSON");
    assert_eq!(document.get("id").and_then(|id| id.as_str()), Some("AB"));
    assert_eq!(document.get("color").and_then(|color| color.as_str()), Some("rgb(74,111,227)"));
}

#[test]
fn repeated_submissions_get_the_same_answer() {
    let api = ApiHandler { identity: ServerIdentity::generate(), leaderboard_url: String::new() };
    let mut store = ScoreStore::new();
    let first = api.handle(&mut store, "POST", "{\"name\": \"Alice\"}");
    let second = api.handle(&mut store, "POST", "{\"name\": \"Alice\"}");
    let third = api.handle(&mut store, "POST", "{\"name\": \"Bob\"}");
    assert_eq!(first.response.status, 200);
    assert_eq!(second.response.status, 200);
    assert_eq!(first.response.body, second.response.body);
    assert_eq!(first.response.body, third.response.body);
    assert_eq!(first.response.body, api.get_res_str());
    assert_eq!(store.count(&"Alice".to_string()), 2);
    assert_eq!(store.count(&"Bob".to_string()), 1);
}

#[test]
fn post_submit_with_a_name_that_is_no_string_returns_400() {
    let api = api();
    let mut store = ScoreStore::starting_at(0);
    let outcome = api.handle_at(&mut store, "POST", "{\"name\": 5}", DEFAULT_THRESHOLD_NS, DEFAULT_THRESHOLD_NS);
    assert_eq!(outcome.response.status, 400);
    assert_eq!(outcome.response.content_type, ContentType::Empty);
    assert_eq!(outcome.response.body, "");
    assert!(outcome.payload.is_none());
    assert!(store.is_empty());
    assert_eq!(store.last_submit_at(), 0);
}

#[test]
fn post_submit_with_an_empty_body_returns_400() {
    let api = api();
    let mut store = ScoreStore::starting_at(0);
    let outcome = api.handle_at(&mut store, "POST", "", DEFAULT_THRESHOLD_NS, DEFAULT_THRESHOLD_NS);
    assert_eq!(outcome.response.status, 400);
    assert!(outcome.payload.is_none());
    assert!(store.is_empty());
    assert_eq!(store.last_submit_at(), 0);
}

#[test]
fn post_submit_with_malformed_or_nameless_bodies_returns_400() {
    let api = api();
    let mut store = ScoreStore::starting_at(0);
    for body in ["{", "{}", "[]", "\"Alice\"", "{\"Name\": \"Alice\"}", "{\"name\": null}", "name=Alice"] {
        let outcome = api.handle_at(&mut store, "POST", body, 1, 0);
        assert_eq!(outcome.response.status, 400);
        assert!(outcome.payload.is_none());
    }
    assert!(store.is_empty());
    assert_eq!(store.last_submit_at(), 0);
}

#[test]
fn get_submit_returns_405() {
    let api = api();
    let mut store = ScoreStore::starting_at(0);
    let outcome = api.handle_at(&mut store, "GET", "", DEFAULT_THRESHOLD_NS, DEFAULT_THRESHOLD_NS);
    assert_eq!(outcome.response.status, 405);
    assert_eq!(outcome.response.content_type, ContentType::Empty);
    assert_eq!(outcome.response.body, "");
    assert!(outcome.payload.is_none());
    assert!(store.is_empty());
    assert_eq!(store.last_submit_at(), 0);
}

#[test]
fn other_methods_are_not_allowed_even_with_a_good_body() {
    let api = api();
    let mut store = ScoreStore::starting_at(0);
    for method in ["GET", "PUT", "DELETE", "HEAD", "PATCH", "post", "POST ", ""] {
        let outcome = api.handle_at(&mut store, method, "{\"name\": \"Alice\"}", 1, 0);
        assert_eq!(outcome.response.status, 405);
        assert!(outcome.payload.is_none());
    }
    assert!(store.is_empty());
}

#[test]
fn the_method_decides_before_the_body() {
    let api = api();
    let mut store = ScoreStore::starting_at(0);
    assert_eq!(api.handle_at(&mut store, "GET", "{", 1, 0).response.status, 405);
    assert_eq!(api.handle_at(&mut store, "POST", "{", 1, 0).response.status, 400);
    assert_eq!(api.handle_at(&mut store, "GET", "{\"name\": 5}", 1, 0).response.status, 405);
    assert!(store.is_empty());
    assert_eq!(api.handle_at(&mut store, "POST", "{\"name\": \"Alice\"}", 1, 10).response.status, 200);
    assert_eq!(store.count(&"Alice".to_string()), 1);
}

#[test]
fn a_request_whose_body_was_read_elsewhere() {
    match ApiHandler::judge("POST", Some("Alice".to_string())) {
        Submission::Accepted(name) => assert_eq!(name, "Alice"),
        Submission::Rejected(_) => panic!("the request names Alice"),
    }
    match ApiHandler::judge("POST", None) {
        Submission::Rejected(response) => assert_eq!(response.status, 400),
        Submission::Accepted(_) => panic!("the request names nobody"),
    }
    match ApiHandler::judge("GET", Some("Alice".to_string())) {
        Submission::Rejected(response) => assert_eq!(response.status, 405),
        Submission::Accepted(_) => panic!("a GET submits nothing"),
    }
    let api = api();
    let mut store = ScoreStore::starting_at(0);
    let outcome = api.handle_named(&mut store, "POST", Some("Alice".to_string()), 3, 3);
    assert_eq!(outcome.response.status, 200);
    assert_eq!(outcome.payload.expect("the window has passed").count(&"Alice".to_string()), 1);
    let outcome = api.handle_named(&mut store, "POST", None, 9, 3);
    assert_eq!(outcome.response.status, 400);
    assert!(outcome.payload.is_none());
    assert_eq!(store.last_submit_at(), 3);
}

#[test]
fn names_are_decoded_as_json_strings() {
    let api = api();
    let mut store = ScoreStore::starting_at(0);
    let outcome = api.handle_at(&mut store, "POST", "{\"name\": \"Al \\\"the\\\" ice\"}", 1, 10);
    assert_eq!(outcome.response.status, 200);
    assert_eq!(store.count(&"Al \"the\" ice".to_string()), 1);
    assert_eq!(store.count(&"Al the ice".to_string()), 0);
}

#[test]
fn a_submission_after_the_window_sets_off_a_flush() {
    let api = api();
    let mut store = ScoreStore::starting_at(0);
    let body = "{\"name\": \"Alice\"}";
    assert!(api.handle_at(&mut store, "POST", body, 1, DEFAULT_THRESHOLD_NS).payload.is_none());
    assert!(api.handle_at(&mut store, "POST", body, 2, DEFAULT_THRESHOLD_NS).payload.is_none());
    let outcome = api.handle_at(&mut store, "POST", body, DEFAULT_THRESHOLD_NS, DEFAULT_THRESHOLD_NS);
    assert_eq!(outcome.response.status, 200);
    let payload = outcome.payload.expect("the window has passed");
    assert_eq!(payload.count(&"Alice".to_string()), 3);
    assert_eq!(payload.last_submit_at(), 0);
    assert!(store.is_empty());
    assert_eq!(store.last_submit_at(), DEFAULT_THRESHOLD_NS);
    let next = api.handle_at(&mut store, "POST", body, DEFAULT_THRESHOLD_NS + 1, DEFAULT_THRESHOLD_NS);
    assert_eq!(next.response.status, 200);
    assert!(next.payload.is_none());
    assert_eq!(store.count(&"Alice".to_string()), 1);
}

#[test]
fn the_tally_is_posted_below_the_leaderboard_address() {
    assert_eq!(api().submit_url(), "http://localhost:8080/submit");
    let other = ApiHandler { identity: ServerIdentity::from_draws(0, 0, 0), leaderboard_url: String::new() };
    assert_eq!(other.submit_url(), "/submit");
}

#[test]
fn the_accepted_answer() {
    let response: Response = api().accepted();
    assert_eq!(response.status, 200);
    assert_eq!(response.content_type, ContentType::Json);
    assert_eq!(response.body, api().get_res_str());
}

fn fields(year: i32, month: i32, day: i32, hour: i32, minute: i32, second: i32) -> CalendarFields {
    CalendarFields {
        second,
        minute,
        hour,
        day_of_month: day,
        month_index: month - 1,
        years_since_1900: year - 1900,
        weekday: 0,
        day_of_year: 0,
        daylight_saving: 0,
        utc_offset: 0,
        nanosecond: 0,
    }
}

#[test]
fn heartbeat_returns_the_current_time() {
    let response = heartbeat().expect("the clock shows a time of this age");
    assert_eq!(response.status, 200);
    assert_eq!(response.content_type, ContentType::Plain);
    assert_eq!(response.body.len(), 20);
    let written = time::strptime(&response.body, "%Y-%m-%dT%H:%M:%SZ").expect("the time is in the form of RFC 3339");
    let delta = time::now_utc().to_timespec().sec - written.to_timespec().sec;
    assert!((-5..=5).contains(&delta));
}

#[test]
fn heartbeat_at_a_given_time() {
    let moment = UtcTime::from_fields(fields(2012, 2, 22, 14, 53, 18)).expect("the fields are in range");
    let response = heartbeat_at(&moment);
    assert_eq!(response.status, 200);
    assert_eq!(response.content_type, ContentType::Plain);
    assert_eq!(response.body, "2012-02-22T14:53:18Z");
}

#[test]
fn heartbeat_for_a_reading_of_the_clock() {
    let response = heartbeat_for(fields(2024, 12, 31, 23, 59, 60)).expect("the fields are in range");
    assert_eq!(response.status, 200);
    assert_eq!(response.content_type, ContentType::Plain);
    assert_eq!(response.body, "2024-12-31T23:59:60Z");
    assert!(heartbeat_for(fields(999, 1, 1, 0, 0, 0)).is_none());
    assert!(heartbeat_for(fields(2024, 13, 1, 0, 0, 0)).is_none());
}

#[test]
fn the_page_is_served_as_html() {
    let response = index_response("<!DOCTYPE html><html></html>".to_string());
    assert_eq!(response.status, 200);
    assert_eq!(response.content_type, ContentType::Html);
    assert_eq!(response.body, "<!DOCTYPE html><html></html>");
}

#[test]
fn a_server_in_one_piece() {
    let api = api();
    let mut store = ScoreStore::new();
    let router = server_routes();
    let requests = [
        ("GET", vec![""], "", 200u16),
        ("POST", vec!["submit"], "{\"name\": \"Alice\"}", 200),
        ("POST", vec!["submit"], "{\"name\": 5}", 400),
        ("POST", vec!["submit"], "", 400),
        ("GET", vec!["submit"], "", 405),
        ("GET", vec!["unknown-path"], "", 404),
        ("GET", vec!["heartbeat"], "", 200),
    ];
    for (method, path, body, status) in requests {
        let served = router.handle(method, &segments(&path), |route| match route {
            Endpoint::Index => Some(index_response("page".to_string())),
            Endpoint::Submit => Some(api.handle(&mut store, method, body).response),
            Endpoint::Heartbeat => heartbeat(),
        });
        assert_eq!(served.response.expect("every endpoint answers").status, status);
        assert!(served.log_line.contains(&format!(" | {} |\t", status)));
        assert!(served.log_line.ends_with(&format!("ms | {}\t/{}", method, path.join("/"))));
    }
    assert_eq!(store.count(&"Alice".to_string()), 1);
}

#[test]
fn the_server_has_three_routes() {
    let router = server_routes();
    assert_eq!(router.route(&segments(&[""])), Some(&Endpoint::Index));
    assert_eq!(router.route(&segments(&["submit"])), Some(&Endpoint::Submit));
    assert_eq!(router.route(&segments(&["heartbeat"])), Some(&Endpoint::Heartbeat));
    assert_eq!(router.route(&segments(&["unknown-path"])), None);
    assert_eq!(router.route(&segments(&["submit", "x"])), None);
    assert_eq!(router.route(&segments(&[])), Some(&Endpoint::Index));
}

#[test]
fn the_leaderboard_defaults_to_the_local_host() {
    let unset = ApiHandler::new(ServerIdentity::from_draws(0, 0, 0), None);
    assert_eq!(unset.leaderboard_url, "http://localhost:8080");
    assert_eq!(unset.submit_url(), "http://localhost:8080/submit");
    let set = ApiHandler::new(ServerIdentity::from_draws(0, 0, 0), Some("http://board:9000".to_string()));
    assert_eq!(set.leaderboard_url, "http://board:9000");
    assert_eq!(set.submit_url(), "http://board:9000/submit");
    assert_eq!(set.identity.code, "AA");
}
