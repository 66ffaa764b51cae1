//! The decisions of the webhook endpoint: which route a request takes,
//! whether a push event is authentic and concerns the tracked branch, and
//! what the endpoint answers. Reading requests, sending answers and handing
//! admitted commits to the job queue are left to the caller.

use vstd::prelude::*;
use vstd::string::StringSliceAdditionalSpecFns;

use crate::error::Error;
use crate::signature::{is_authentic, signature_accepted};
use crate::util::opt_view;

verus! {

/// The path that the endpoint serves.
pub const BENCH_PATH: &'static str = "/bench";

/// The branch whose pushes are benchmarked.
pub const TRACKED_BRANCH: &'static str = "main";

/// The full reference name of the tracked branch.
pub const TRACKED_REF: &'static str = "refs/heads/main";

/// The only event kind that the endpoint acts on.
pub const PUSH_EVENT: &'static str = "push";

/// The reason given for a request without an event kind.
pub const MISSING_EVENT: &'static str = "missing X-GitHub-Event header";

/// The start of the reason given for an event other than a push.
pub const WRONG_EVENT: &'static str = "Only runs on `push` but got ";

/// The reason given for a push without a `ref` field.
pub const MISSING_REF: &'static str = "`ref` is missing";

/// The reason given for a push to the tracked branch without an `after` field.
pub const MISSING_AFTER: &'static str = "`after` is missing";

/// The start of the reason given for a body that is not JSON.
pub const INVALID_JSON: &'static str = "Invalid JSON: ";

/// The answer to a push whose signature does not check out.
pub const BAD_HMAC: &'static str = "bad hmac";

/// How many admitted commits may wait for the benchmark runner.
pub const JOB_QUEUE_CAPACITY: usize = 64;

/// The routes of the endpoint.
#[derive(Clone, Copy, Debug, PartialEq, Eq, Structural)]
pub enum Route {
    /// `GET /bench`: the most recent records.
    ListRecent,
    /// `POST /bench`: a push notification.
    SubmitPush,
    /// Anything else.
    NotFound,
}

/// The route of a request with `method` and `path`.
pub open spec fn route_of(method: Seq<char>, path: Seq<char>) -> Route {
    if path == BENCH_PATH@ && method == "GET"@ {
        Route::ListRecent
    } else if path == BENCH_PATH@ && method == "POST"@ {
        Route::SubmitPush
    } else {
        Route::NotFound
    }
}

fn same_text(a: &str, b: &str) -> (r: bool)
    ensures
        r == (a@ == b@),
{
    a.to_owned() == b.to_owned()
}

/// The route that a request with `method` and `path` takes.
pub fn route(method: &str, path: &str) -> (r: Route)
    ensures
        r == route_of(method@, path@),
{
    if same_text(path, BENCH_PATH) && same_text(method, "GET") {
        Route::ListRecent
    } else if same_text(path, BENCH_PATH) && same_text(method, "POST") {
        Route::SubmitPush
    } else {
        Route::NotFound
    }
}

/// Accepts a request whose event kind is a push; refuses one with another
/// kind or none, giving the reason.
pub fn check_event(event: Option<&str>) -> (r: Result<(), Error>)
    ensures
        match event {
            None => r matches Err(Error::BadRequest(m)) && m@ == MISSING_EVENT@,
            Some(e) => if e@ == PUSH_EVENT@ {
                r is Ok
            } else {
                r matches Err(Error::BadRequest(m)) && m@ == WRONG_EVENT@ + e@
            },
        },
{
    match event {
        None => Err(Error::BadRequest(MISSING_EVENT.to_owned())),
        Some(e) => {
            if same_text(e, PUSH_EVENT) {
                Ok(())
            } else {
                Err(Error::BadRequest(String::from_str(WRONG_EVENT).concat(e)))
            }
        },
    }
}

/// What the endpoint makes of an authentic-looking push.
#[derive(Clone, Debug, PartialEq, Eq)]
pub enum PushOutcome {
    /// The commit is queued for benchmarking.
    Admitted(String),
    /// The push concerns another branch, which is named; nothing is queued.
    Ignored(String),
    /// The signature does not check out; nothing is queued.
    Forbidden,
}

impl PushOutcome {
    /// The HTTP status of the answer.
    pub open spec fn spec_status(&self) -> u16 {
        match self {
            PushOutcome::Forbidden => 403,
            _ => 200,
        }
    }

    /// The body of the answer.
    pub open spec fn spec_body(&self) -> Seq<char> {
        match self {
            PushOutcome::Admitted(hash) => "{\"hash\": \""@ + hash@ + "\"}"@,
            PushOutcome::Ignored(branch) => "{\"branch\": \""@ + branch@ + "\"}"@,
            PushOutcome::Forbidden => BAD_HMAC@,
        }
    }

    /// The HTTP status of the answer.
    pub fn status(&self) -> (r: u16)
        ensures
            r == self.spec_status(),
    {
        match self {
            PushOutcome::Forbidden => 403,
            _ => 200,
        }
    }

    /// The body of the answer: the queued commit or the ignored branch as a
    /// JSON object, or the refusal.
    pub fn body(&self) -> (r: String)
        ensures
            r@ == self.spec_body(),
    {
        match self {
            PushOutcome::Admitted(hash) => String::from_str("{\"hash\": \"").concat(
                hash.as_str(),
            ).concat("\"}"),
            PushOutcome::Ignored(branch) => String::from_str("{\"branch\": \"").concat(
                branch.as_str(),
            ).concat("\"}"),
            PushOutcome::Forbidden => BAD_HMAC.to_owned(),
        }
    }
}

/// Whether a push to `git_ref` is one to benchmark: the tracked branch, by
/// its short or its full name.
pub open spec fn is_tracked(git_ref: Seq<char>) -> bool {
    git_ref == TRACKED_BRANCH@ || git_ref == TRACKED_REF@
}

/// Whether `r` is the verdict on a push whose `ref` and `after` fields hold
/// `git_ref` and `after`.
pub open spec fn fields_verdict(
    r: Result<PushOutcome, Error>,
    git_ref: Option<Seq<char>>,
    after: Option<Seq<char>>,
) -> bool {
    match git_ref {
        None => r matches Err(Error::BadRequest(m)) && m@ == MISSING_REF@,
        Some(g) => if !is_tracked(g) {
            r matches Ok(PushOutcome::Ignored(b)) && b@ == g
        } else {
            match after {
                None => r matches Err(Error::BadRequest(m)) && m@ == MISSING_AFTER@,
                Some(a) => r matches Ok(PushOutcome::Admitted(h)) && h@ == a,
            }
        },
    }
}

/// The verdict on a push whose `ref` and `after` fields hold `git_ref` and
/// `after`: a push to the tracked branch queues its `after` commit, one to
/// another branch is ignored, and a missing field is a bad request.
pub fn decide_fields(git_ref: Option<&str>, after: Option<&str>) -> (r: Result<PushOutcome, Error>)
    ensures
        fields_verdict(r, opt_view(git_ref), opt_view(after)),
{
    let g = match git_ref {
        Some(g) => g,
        None => {
            return Err(Error::BadRequest(MISSING_REF.to_owned()));
        },
    };
    if !(same_text(g, TRACKED_BRANCH) || same_text(g, TRACKED_REF)) {
        return Ok(PushOutcome::Ignored(g.to_owned()));
    }
    match after {
        Some(a) => Ok(PushOutcome::Admitted(a.to_owned())),
        None => Err(Error::BadRequest(MISSING_AFTER.to_owned())),
    }
}

/// What a JSON field lookup finds in `body` under `key`: `None` where
/// `body` is not JSON, `Some(None)` where it holds no string under `key`, and
/// `Some(Some(text))` where it is an object holding `text` under `key`.
pub uninterp spec fn json_lookup(body: Seq<u8>, key: Seq<char>) -> Option<Option<Seq<char>>>;

/// Relies on serde_json's `from_slice` into a `Value`, then `Value::get` and
/// `Value::as_str`: whether `body` is JSON and, if so, the string held under
/// `key` where it is an object holding one. The outcome depends on `body`
/// and `key` alone; nothing is assumed of the parser's account of an error.
#[verifier::external_body]
fn json_string_field(body: &[u8], key: &str) -> (r: Result<Option<String>, String>)
    ensures
        match r {
            Ok(field) => json_lookup(body@, key@) == Some(field.deep_view()),
            Err(_) => json_lookup(body@, key@) is None,
        },
{
    serde_json::from_slice::<serde_json::Value>(body).map(
        |v| v.get(key).and_then(serde_json::Value::as_str).map(str::to_owned),
    ).map_err(|e| e.to_string())
}

/// Whether a push with this `body` fails its signature check: a secret
/// `key` is set and the claimed `signature` does not match.
pub open spec fn signature_refused(
    key: Option<&str>,
    signature: Option<&str>,
    body: Seq<u8>,
) -> bool {
    key matches Some(k) && !signature_accepted(k.spec_bytes(), body, opt_view(signature))
}

/// Whether `r` refuses a body that is not JSON, giving the parser's reason.
pub open spec fn refuses_invalid_json(r: Result<PushOutcome, Error>) -> bool {
    r matches Err(Error::BadRequest(m)) && INVALID_JSON@.len() <= m@.len() && m@.take(
        INVALID_JSON@.len() as int,
    ) == INVALID_JSON@
}

/// Whether `r` is the verdict on a push event with `body`, signed with
/// `signature`, where the secret is `key`.
pub open spec fn push_verdict(
    r: Result<PushOutcome, Error>,
    key: Option<&str>,
    signature: Option<&str>,
    body: Seq<u8>,
) -> bool {
    if signature_refused(key, signature, body) {
        r matches Ok(PushOutcome::Forbidden)
    } else {
        match (json_lookup(body, "ref"@), json_lookup(body, "after"@)) {
            (Some(git_ref), Some(after)) => fields_verdict(r, git_ref, after),
            _ => refuses_invalid_json(r),
        }
    }
}

fn as_str_opt(s: &Option<String>) -> (r: Option<&str>)
    ensures
        opt_view(r) == s.deep_view(),
{
    match s {
        Some(t) => Some(t.as_str()),
        None => None,
    }
}

/// The verdict on a push event with `body`, signed with `signature`. Where a
/// secret `key` is set, a push without the matching signature is forbidden.
/// Otherwise a body that is not JSON is a bad request, and the `ref` and
/// `after` fields found in it decide as `decide_fields` does.
pub fn admit_push(key: Option<&str>, signature: Option<&str>, body: &[u8]) -> (r: Result<
    PushOutcome,
    Error,
>)
    ensures
        push_verdict(r, key, signature, body@),
{
    if let Some(k) = key {
        if !is_authentic(k, body, signature) {
            return Ok(PushOutcome::Forbidden);
        }
    }
    let git_ref = match json_string_field(body, "ref") {
        Ok(g) => g,
        Err(reason) => {
            return Err(invalid_json(reason));
        },
    };
    let after = match json_string_field(body, "after") {
        Ok(a) => a,
        Err(reason) => {
            return Err(invalid_json(reason));
        },
    };
    decide_fields(as_str_opt(&git_ref), as_str_opt(&after))
}

/// The refusal of a body that is not JSON, for the parser's `reason`.
fn invalid_json(reason: String) -> (r: Error)
    ensures
        refuses_invalid_json(Err(r)),
{
    let m = String::from_str(INVALID_JSON).concat(reason.as_str());
    assert(m@.take(INVALID_JSON@.len() as int) =~= INVALID_JSON@);
    Error::BadRequest(m)
}

} // verus!
