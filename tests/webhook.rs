use tremor_benchmark::signature::{is_authentic, signature_for};
use tremor_benchmark::webhook::{
    admit_push, check_event, decide_fields, route, PushOutcome, Route, JOB_QUEUE_CAPACITY,
};
use tremor_benchmark::Error;

const KEY: &str = "It's a Secret to Everybody";

fn push_body(git_ref: &str, after: &str) -> Vec<u8> {
    format!(r#"{{"ref":"{}","after":"{}","repository":{{"name":"x"}}}}"#, git_ref, after).into_bytes()
}

#[test]
fn signature_matches_known_hmac() {
    // HMAC-SHA256 of "what do ya want for nothing?" under the key "Jefe".
    let sig = signature_for("Jefe", b"what do ya want for nothing?");
    assert_eq!(
        sig,
        "sha256=5bdcc146bf60754e6a042426089575c75a003f089d2739839dec58b964ec3843"
    );
}

#[test]
fn computed_signature_is_accepted() {
    let body = b"Hello, World!";
    let sig = signature_for(KEY, body);
    assert!(sig.starts_with("sha256="));
    assert_eq!(sig.len(), 7 + 64);
    assert!(is_authentic(KEY, body, Some(&sig)));
}

#[test]
fn altered_body_or_signature_is_refused() {
    let body = b"Hello, World!".to_vec();
    let sig = signature_for(KEY, &body);
    let mut other_body = body.clone();
    other_body[0] ^= 1;
    assert!(!is_authentic(KEY, &other_body, Some(&sig)));
    let mut chars: Vec<char> = sig.chars().collect();
    let last = chars.len() - 1;
    chars[last] = if chars[last] == '0' { '1' } else { '0' };
    let other_sig: String = chars.into_iter().collect();
    assert!(!is_authentic(KEY, &body, Some(&other_sig)));
    assert!(!is_authentic(KEY, &body, None));
    assert!(!is_authentic("another key", &body, Some(&sig)));
}

#[test]
fn routes() {
    assert_eq!(route("GET", "/bench"), Route::ListRecent);
    assert_eq!(route("POST", "/bench"), Route::SubmitPush);
    assert_eq!(route("PUT", "/bench"), Route::NotFound);
    assert_eq!(route("GET", "/"), Route::NotFound);
    assert_eq!(route("POST", "/bench/"), Route::NotFound);
}

#[test]
fn event_kinds() {
    assert_eq!(check_event(Some("push")), Ok(()));
    assert_eq!(
        check_event(None),
        Err(Error::BadRequest("missing X-GitHub-Event header".to_string()))
    );
    assert_eq!(
        check_event(Some("ping")),
        Err(Error::BadRequest("Only runs on `push` but got ping".to_string()))
    );
}

#[test]
fn signed_push_to_tracked_ref_is_admitted() {
    let body = push_body("refs/heads/main", "abc1234567");
    let sig = signature_for(KEY, &body);
    let outcome = admit_push(Some(KEY), Some(&sig), &body).unwrap();
    assert_eq!(outcome, PushOutcome::Admitted("abc1234567".to_string()));
    assert_eq!(outcome.status(), 200);
    assert_eq!(outcome.body(), r#"{"hash": "abc1234567"}"#);
}

#[test]
fn signed_push_to_main_is_admitted() {
    let body = push_body("main", "abc1234567");
    let sig = signature_for(KEY, &body);
    let outcome = admit_push(Some(KEY), Some(&sig), &body).unwrap();
    assert_eq!(outcome, PushOutcome::Admitted("abc1234567".to_string()));
}

#[test]
fn push_to_other_branch_is_ignored() {
    let body = push_body("feature/x", "abc1234567");
    let sig = signature_for(KEY, &body);
    let outcome = admit_push(Some(KEY), Some(&sig), &body).unwrap();
    assert_eq!(outcome, PushOutcome::Ignored("feature/x".to_string()));
    assert_eq!(outcome.status(), 200);
    assert_eq!(outcome.body(), r#"{"branch": "feature/x"}"#);
}

#[test]
fn bad_signature_is_forbidden() {
    let body = push_body("main", "abc1234567");
    let outcome = admit_push(Some(KEY), Some("sha256=00"), &body).unwrap();
    assert_eq!(outcome, PushOutcome::Forbidden);
    assert_eq!(outcome.status(), 403);
    assert_eq!(outcome.body(), "bad hmac");
    assert_eq!(admit_push(Some(KEY), None, &body), Ok(PushOutcome::Forbidden));
}

#[test]
fn unsigned_push_is_admitted_without_secret() {
    let body = push_body("main", "abc1234567");
    assert_eq!(
        admit_push(None, None, &body),
        Ok(PushOutcome::Admitted("abc1234567".to_string()))
    );
}

#[test]
fn invalid_json_is_a_bad_request() {
    let body = b"not json".to_vec();
    match admit_push(None, None, &body) {
        Err(Error::BadRequest(m)) => assert!(m.starts_with("Invalid JSON: ") && m.len() > 14),
        other => panic!("unexpected {:?}", other),
    }
}

#[test]
fn missing_fields_are_bad_requests() {
    let no_ref = br#"{"after":"abc1234567"}"#.to_vec();
    assert_eq!(
        admit_push(None, None, &no_ref),
        Err(Error::BadRequest("`ref` is missing".to_string()))
    );
    let no_after = br#"{"ref":"main"}"#.to_vec();
    assert_eq!(
        admit_push(None, None, &no_after),
        Err(Error::BadRequest("`after` is missing".to_string()))
    );
    let other_no_after = br#"{"ref":"dev"}"#.to_vec();
    assert_eq!(
        admit_push(None, None, &other_no_after),
        Ok(PushOutcome::Ignored("dev".to_string()))
    );
}

#[test]
fn field_decisions() {
    assert_eq!(
        decide_fields(Some("main"), Some("abc1234567")),
        Ok(PushOutcome::Admitted("abc1234567".to_string()))
    );
    assert_eq!(
        decide_fields(Some("refs/heads/main"), Some("f00")),
        Ok(PushOutcome::Admitted("f00".to_string()))
    );
    assert_eq!(
        decide_fields(Some("refs/heads/mainline"), Some("f00")),
        Ok(PushOutcome::Ignored("refs/heads/mainline".to_string()))
    );
    assert_eq!(
        decide_fields(None, Some("f00")),
        Err(Error::BadRequest("`ref` is missing".to_string()))
    );
    assert_eq!(
        decide_fields(Some("main"), None),
        Err(Error::BadRequest("`after` is missing".to_string()))
    );
}

#[test]
fn queue_capacity() {
    assert_eq!(JOB_QUEUE_CAPACITY, 64);
}

#[test]
fn non_string_ref_counts_as_missing() {
    let body = br#"{"ref":7,"after":"abc1234567"}"#.to_vec();
    assert_eq!(
        admit_push(None, None, &body),
        Err(Error::BadRequest("`ref` is missing".to_string()))
    );
    let array = b"[1,2]".to_vec();
    assert_eq!(
        admit_push(None, None, &array),
        Err(Error::BadRequest("`ref` is missing".to_string()))
    );
}
