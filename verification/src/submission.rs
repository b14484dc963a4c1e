//! The score submission endpoint.
//!
//! A submission is a POST whose body is a JSON object with a string member
//! `name`. It is answered with the identity of the server; the name is counted,
//! and where the flush window has passed the tally is handed out for the
//! leaderboard. Any other request is turned away and changes nothing: one
//! with another method with "method not allowed", whatever its body holds, and
//! a POST without such a name with "bad request".

use crate::clock::monotonic_ns;
use crate::http::{ContentType, Response, ResponseView, STATUS_BAD_REQUEST, STATUS_METHOD_NOT_ALLOWED};
use crate::identity::ServerIdentity;
use crate::json::{read_string_member, string_member};
use crate::score::{ScoreRecord, ScoreStore, SubmissionPayload, DEFAULT_THRESHOLD_NS};
use vstd::prelude::*;

verus! {

/// The JSON document that names a server: `{"id":"<code>","color":"<color>"}`.
pub open spec fn identity_json(code: Seq<char>, color: Seq<char>) -> Seq<char> {
    "{\"id\":\""@ + code + "\",\"color\":\""@ + color + "\"}"@
}

/// The address that the tally is posted to: the leaderboard's base address
/// followed by `/submit`.
pub open spec fn submit_address(base: Seq<char>) -> Seq<char> {
    base + "/submit"@
}

/// The leaderboard's base address where none is configured.
pub open spec fn default_leaderboard() -> Seq<char> {
    "http://localhost:8080"@
}

/// The leaderboard's base address: the configured one, or the default.
pub open spec fn leaderboard_address(configured: Option<Seq<char>>) -> Seq<char> {
    match configured {
        Some(address) => address,
        None => default_leaderboard(),
    }
}

/// Whether `method` is the one that the endpoint serves.
pub open spec fn is_post(method: Seq<char>) -> bool {
    method == "POST"@
}

/// The name that a body submits: its string member `name`, if it is a JSON
/// object that has one.
pub open spec fn name_in(body: Seq<char>) -> Option<Seq<char>> {
    string_member(body, "name"@)
}

/// The answer to a request that does not submit a name.
pub open spec fn rejection(method: Seq<char>) -> ResponseView {
    if is_post(method) {
        ResponseView::bare(STATUS_BAD_REQUEST)
    } else {
        ResponseView::bare(STATUS_METHOD_NOT_ALLOWED)
    }
}

/// The answer to a request, given the name that it submits.
pub open spec fn answer(identity: ServerIdentity, method: Seq<char>, name: Option<Seq<char>>) -> ResponseView {
    if is_post(method) && name.is_some() {
        ResponseView::ok(ContentType::Json, identity_json(identity.code@, identity.color@))
    } else {
        rejection(method)
    }
}

/// What a request does to the tally, given the name that it submits and the
/// time at which it is handled: the record afterwards, and the snapshot that is
/// handed out, if any.
pub open spec fn effect(
    record: ScoreRecord,
    method: Seq<char>,
    name: Option<Seq<char>>,
    now: nat,
    threshold: nat,
) -> (ScoreRecord, Option<ScoreRecord>) {
    if is_post(method) && name.is_some() {
        record.increment(name.unwrap()).try_flush(now, threshold)
    } else {
        (record, None)
    }
}

/// The model of an optional text.
pub open spec fn text_of(text: Option<String>) -> Option<Seq<char>> {
    match text {
        Some(text) => Some(text@),
        None => None,
    }
}

/// The model of an optional snapshot.
pub open spec fn snapshot_of(payload: Option<SubmissionPayload>) -> Option<ScoreRecord> {
    match payload {
        Some(payload) => Some(payload@),
        None => None,
    }
}

/// Every accepted submission gets the same answer: it names the server and
/// depends neither on the name that was submitted nor on the tally or the time.
pub proof fn lemma_accepted_answer_is_fixed(identity: ServerIdentity, one: Seq<char>, other: Seq<char>)
    ensures
        answer(identity, "POST"@, Some(one)) == answer(identity, "POST"@, Some(other)),
        answer(identity, "POST"@, Some(one)) == ResponseView::ok(
            ContentType::Json,
            identity_json(identity.code@, identity.color@),
        ),
{
}

/// Whether two texts are the same.
fn same_text(a: &str, b: &str) -> (r: bool)
    ensures
        r == (a@ == b@),
{
    a.to_owned() == b.to_owned()
}

/// What the endpoint makes of a request before it touches the tally.
pub enum Submission {
    /// The request submits this name.
    Accepted(String),
    /// The request is turned away with this answer.
    Rejected(Response),
}

/// What handling a request came to: the answer, and the snapshot to send to
/// the leaderboard, if the request set off a flush.
pub struct SubmitOutcome {
    pub response: Response,
    pub payload: Option<SubmissionPayload>,
}

/// The score submission endpoint of one server.
pub struct ApiHandler {
    pub identity: ServerIdentity,
    pub leaderboard_url: String,
}

impl ApiHandler {
    /// The endpoint of the server `identity`, which reports to the leaderboard
    /// at `configured`, or at the default address where none is configured.
    pub fn new(identity: ServerIdentity, configured: Option<String>) -> (api: ApiHandler)
        ensures
            api.identity == identity,
            api.leaderboard_url@ == leaderboard_address(text_of(configured)),
    {
        let leaderboard_url = match configured {
            Some(address) => address,
            None => String::from_str("http://localhost:8080"),
        };
        ApiHandler { identity, leaderboard_url }
    }

    /// The body of the answer to a submission.
    pub fn get_res_str(&self) -> (body: String)
        ensures
            body@ == identity_json(self.identity.code@, self.identity.color@),
    {
        let mut body = String::from_str("{\"id\":\"");
        body.append(self.identity.code.as_str());
        body.append("\",\"color\":\"");
        body.append(self.identity.color.as_str());
        body.append("\"}");
        body
    }

    /// The address that the tally is posted to.
    pub fn submit_url(&self) -> (url: String)
        ensures
            url@ == submit_address(self.leaderboard_url@),
    {
        let mut url = self.leaderboard_url.clone();
        url.append("/submit");
        url
    }

    /// The answer to a submission that was counted.
    pub fn accepted(&self) -> (response: Response)
        ensures
            response@ == ResponseView::ok(
                ContentType::Json,
                identity_json(self.identity.code@, self.identity.color@),
            ),
    {
        Response::ok(ContentType::Json, self.get_res_str())
    }

    /// Decides on a request whose body has been read: `name` is the string
    /// member `name` of the body, if it has one. The method is judged first,
    /// then the name.
    pub fn judge(method: &str, name: Option<String>) -> (submission: Submission)
        ensures
            match submission {
                Submission::Accepted(accepted) => is_post(method@) && text_of(name) == Some(accepted@),
                Submission::Rejected(response) => !(is_post(method@) && name.is_some()) && response@
                    == rejection(method@),
            },
    {
        if !same_text(method, "POST") {
            return Submission::Rejected(Response::bare(STATUS_METHOD_NOT_ALLOWED));
        }
        match name {
            Some(name) => Submission::Accepted(name),
            None => Submission::Rejected(Response::bare(STATUS_BAD_REQUEST)),
        }
    }

    /// Handles a request whose body has been read, at the time `now`: `name`
    /// is the string member `name` of the body, if it has one.
    pub fn handle_named(
        &self,
        store: &mut ScoreStore,
        method: &str,
        name: Option<String>,
        now: u64,
        threshold: u64,
    ) -> (outcome: SubmitOutcome)
        ensures
            outcome.response@ == answer(self.identity, method@, text_of(name)),
            final(store)@ == effect(old(store)@, method@, text_of(name), now as nat, threshold as nat).0,
            snapshot_of(outcome.payload) == effect(
                old(store)@,
                method@,
                text_of(name),
                now as nat,
                threshold as nat,
            ).1,
    {
        match ApiHandler::judge(method, name) {
            Submission::Accepted(accepted) => {
                let payload = store.record(accepted, now, threshold);
                SubmitOutcome { response: self.accepted(), payload }
            },
            Submission::Rejected(response) => SubmitOutcome { response, payload: None },
        }
    }

    /// Handles a request at the time `now`: the name is read out of the body
    /// and the request is handled with it.
    pub fn handle_at(&self, store: &mut ScoreStore, method: &str, body: &str, now: u64, threshold: u64) -> (outcome:
        SubmitOutcome)
        ensures
            outcome.response@ == answer(self.identity, method@, name_in(body@)),
            final(store)@ == effect(old(store)@, method@, name_in(body@), now as nat, threshold as nat).0,
            snapshot_of(outcome.payload) == effect(
                old(store)@,
                method@,
                name_in(body@),
                now as nat,
                threshold as nat,
            ).1,
    {
        let name = read_string_member(body, "name");
        self.handle_named(store, method, name, now, threshold)
    }

    /// Handles a request now, with the server's flush window. The answer does
    /// not depend on the time; the tally changes as it does at some time `now`.
    pub fn handle(&self, store: &mut ScoreStore, method: &str, body: &str) -> (outcome: SubmitOutcome)
        ensures
            outcome.response@ == answer(self.identity, method@, name_in(body@)),
            exists|now: nat|
                {
                    &&& final(store)@ == (#[trigger] effect(
                        old(store)@,
                        method@,
                        name_in(body@),
                        now,
                        DEFAULT_THRESHOLD_NS as nat,
                    )).0
                    &&& snapshot_of(outcome.payload) == effect(
                        old(store)@,
                        method@,
                        name_in(body@),
                        now,
                        DEFAULT_THRESHOLD_NS as nat,
                    ).1
                },
    {
        let now = monotonic_ns();
        self.handle_at(store, method, body, now, DEFAULT_THRESHOLD_NS)
    }
}

} // verus!
