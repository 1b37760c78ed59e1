//! Replies and the request/response contract of the handler.
//!
//! A request body either parses to a store path — then the caller is to
//! fetch the value at that path and answer with [`success_reply`] — or it
//! does not, and the handler answers at once with a status 400 reply whose
//! text describes the parse failure. Both replies carry the `text/html`
//! content type. The contract of the whole exchange is fixed by
//! [`decision_model`] and [`interaction_model`] over the body grammar of
//! [`crate::json`], and the proof functions at the end state the laws that
//! hold of it.

use crate::json;
use vstd::prelude::*;
use vstd::string::StringExecFns;

verus! {

/// A request names one path in the remote configuration store.
pub struct StorePath {
    path: Vec<u8>,
}

impl View for StorePath {
    type V = Seq<u8>;

    closed spec fn view(&self) -> Seq<u8> {
        self.path@
    }
}

impl StorePath {
    /// Wrap the raw bytes of a store path.
    pub fn new(path: Vec<u8>) -> (r: StorePath)
        ensures
            r@ == path@,
    {
        StorePath { path }
    }

    /// The raw bytes of the path.
    pub fn path_bytes(&self) -> (r: &Vec<u8>)
        ensures
            r@ == self@,
    {
        &self.path
    }

    /// Give up the wrapper and keep the raw bytes of the path.
    pub fn into_bytes(self) -> (r: Vec<u8>)
        ensures
            r@ == self@,
    {
        self.path
    }
}

/// One HTTP reply: a status, a content type, and a text body.
pub struct HttpReply {
    pub status: u16,
    pub content_type: String,
    pub body: String,
}

/// The mathematical shape of a reply.
pub struct ReplyModel {
    pub status: int,
    pub content_type: Seq<char>,
    pub body: Seq<char>,
}

impl View for HttpReply {
    type V = ReplyModel;

    open spec fn view(&self) -> ReplyModel {
        ReplyModel {
            status: self.status as int,
            content_type: self.content_type@,
            body: self.body@,
        }
    }
}

/// What the handler does with a request body: answer at once, or fetch the
/// value at a path and answer afterwards.
pub enum Decision {
    Reply(HttpReply),
    Fetch(StorePath),
}

/// The mathematical shape of a decision.
pub enum OutcomeModel {
    Reply(ReplyModel),
    Fetch(Seq<u8>),
}

impl View for Decision {
    type V = OutcomeModel;

    open spec fn view(&self) -> OutcomeModel {
        match self {
            Decision::Reply(r) => OutcomeModel::Reply(r@),
            Decision::Fetch(p) => OutcomeModel::Fetch(p@),
        }
    }
}

/// The reply sent when the body does not parse.
pub open spec fn error_reply_model() -> ReplyModel {
    ReplyModel {
        status: 400,
        content_type: "text/html"@,
        body: "invalid request body: expected a JSON object with a string member named path"@,
    }
}

/// The reply sent when the fetched value is `v`.
pub open spec fn success_reply_model(v: Seq<char>) -> ReplyModel {
    ReplyModel { status: 200, content_type: "text/html"@, body: v }
}

/// What the handler decides on a body: fetch the parsed path, or reject.
pub open spec fn decision_model(body: Seq<u8>) -> OutcomeModel {
    match json::parsed_path(body) {
        Some(p) => OutcomeModel::Fetch(p),
        None => OutcomeModel::Reply(error_reply_model()),
    }
}

/// The reply of the whole exchange, given the body and the value the
/// backend returns for its path (unused when the body is rejected).
pub open spec fn interaction_model(body: Seq<u8>, fetched: Seq<char>) -> ReplyModel {
    match json::parsed_path(body) {
        Some(_) => success_reply_model(fetched),
        None => error_reply_model(),
    }
}

/// The status 400 reply for a body that does not parse.
fn error_reply() -> (r: HttpReply)
    ensures
        r@ == error_reply_model(),
{
    HttpReply {
        status: 400,
        content_type: String::from_str("text/html"),
        body: String::from_str(
            "invalid request body: expected a JSON object with a string member named path",
        ),
    }
}

/// The status 200 reply carrying a fetched value.
pub fn success_reply(value: String) -> (r: HttpReply)
    ensures
        r@ == success_reply_model(value@),
{
    HttpReply { status: 200, content_type: String::from_str("text/html"), body: value }
}

/// Decide a request: parse the body, and either name the path whose value
/// is to be fetched, or reject with the status 400 reply.
pub fn handle_request_body(body: &Vec<u8>) -> (d: Decision)
    ensures
        d@ == decision_model(body@),
{
    match json::parse_body(body) {
        Some(p) => Decision::Fetch(StorePath::new(p)),
        None => Decision::Reply(error_reply()),
    }
}

/// For every body that parses to a path, the decision is to fetch that
/// path, and when the backend returns a value the reply is status 200 with
/// the value, exactly, as its body.
pub proof fn lemma_success_relay(body: Seq<u8>, p: Seq<u8>, fetched: Seq<char>)
    requires
        json::parsed_path(body) == Some(p),
    ensures
        decision_model(body) == OutcomeModel::Fetch(p),
        interaction_model(body, fetched).status == 200,
        interaction_model(body, fetched).body == fetched,
{
}

/// For every body that does not parse — not JSON, or no string member
/// named `path` — the reply is status 400 with a non-empty body describing
/// the parse failure, whatever the backend would have returned.
pub proof fn lemma_rejected_body(body: Seq<u8>, fetched: Seq<char>)
    requires
        json::parsed_path(body) is None,
    ensures
        decision_model(body) == OutcomeModel::Reply(error_reply_model()),
        interaction_model(body, fetched).status == 400,
        interaction_model(body, fetched).body.len() > 0,
{
    reveal_strlit("invalid request body: expected a JSON object with a string member named path");
}

/// Every reply of the exchange carries the `text/html` content type, on
/// the success path and on the rejection path alike.
pub proof fn lemma_content_type_html(body: Seq<u8>, fetched: Seq<char>)
    ensures
        interaction_model(body, fetched).content_type == "text/html"@,
        (match decision_model(body) {
            OutcomeModel::Reply(r) => r.content_type == "text/html"@,
            OutcomeModel::Fetch(_) => true,
        }),
{
}

/// For every path `p` of plain string bytes, the canonical body
/// `{"path":"<p>"}` is decided as a fetch of `p`, and with the backend's
/// value `fetched` the reply is status 200 carrying `fetched` exactly.
pub proof fn lemma_canonical_success(p: Seq<u8>, fetched: Seq<char>)
    requires
        json::all_plain(p),
    ensures
        decision_model(json::canonical_body(p)) == OutcomeModel::Fetch(p),
        interaction_model(json::canonical_body(p), fetched) == success_reply_model(fetched),
{
    json::lemma_canonical_body_parses(p);
}

/// The handler holds no state and caches nothing: two identical bodies
/// yield the same decision, and with the backend's current value for the
/// path they yield the same reply.
pub proof fn lemma_idempotent(b1: Seq<u8>, b2: Seq<u8>, fetched: Seq<char>)
    requires
        b1 == b2,
    ensures
        decision_model(b1) == decision_model(b2),
        interaction_model(b1, fetched) == interaction_model(b2, fetched),
{
}

} // verus!
