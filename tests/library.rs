use fakeyou::protocol::{job_request_body, AUDIO_BASE_URL, JOB_STATUS_URL};
use fakeyou::{
    check_status, decode_job_response, login_body, login_outcome, new_job_request, poll_status,
    poll_url, Category, Error, FakeYouClient, JobStatus, JsonValue, Voice,
};

fn to_json(v: &serde_json::Value) -> JsonValue {
    match v {
        serde_json::Value::Null => JsonValue::Null,
        serde_json::Value::Bool(b) => JsonValue::Bool(*b),
        serde_json::Value::Number(n) => JsonValue::Number(n.to_string()),
        serde_json::Value::String(s) => JsonValue::Str(s.clone()),
        serde_json::Value::Array(items) => JsonValue::Array(items.iter().map(to_json).collect()),
        serde_json::Value::Object(members) => JsonValue::Object(
            members.iter().map(|(k, v)| (k.clone(), to_json(v))).collect(),
        ),
    }
}

fn parse(text: &str) -> JsonValue {
    to_json(&serde_json::from_str::<serde_json::Value>(text).unwrap())
}

const CATEGORIES: &str = r#"{"success":true,"categories":[
    {"name":"Cartoons","category_token":"CAT:1","model_type":"tts","extra":5},
    {"name":"Games","category_token":"CAT:2","model_type":"tts"}]}"#;

const VOICES: &str = r#"{"success":true,"models":[
    {"title":"Alpha","model_token":"TM:a","category_tokens":["CAT:1"]},
    {"title":"Beta","model_token":"TM:b","category_tokens":["CAT:1","CAT:2"]},
    {"title":"Gamma","model_token":"TM:c","category_tokens":[]}]}"#;

fn client() -> FakeYouClient {
    FakeYouClient::new(
        reqwest::blocking::Client::new(),
        &parse(CATEGORIES),
        &parse(VOICES),
        1_700_000_000_000,
    )
    .unwrap()
}

fn titles(vs: &[Voice]) -> Vec<String> {
    vs.iter().map(|v| v.title.clone()).collect()
}

#[test]
fn cache_is_filled_from_listings() {
    let c = client();
    let cats = c.list_categories();
    assert_eq!(cats.len(), 2);
    assert_eq!(cats[0].title, "Cartoons");
    assert_eq!(cats[0].category_token, "CAT:1");
    assert_eq!(cats[0].model_type, "tts");
    assert_eq!(titles(&c.list_voices()), vec!["Alpha", "Beta", "Gamma"]);
    assert_eq!(c.list_voices()[1].category_tokens, vec!["CAT:1", "CAT:2"]);
    assert_eq!(c.cache_generated(), 1_700_000_000_000);
}

#[test]
fn voices_by_category_token() {
    let c = client();
    assert_eq!(titles(&c.list_voices_by_category_token("CAT:1")), vec!["Alpha", "Beta"]);
    assert_eq!(titles(&c.list_voices_by_category_token("CAT:2")), vec!["Beta"]);
    assert!(c.list_voices_by_category_token("CAT:9").is_empty());
    assert!(c.list_voices_by_category_token("CAT").is_empty());
}

#[test]
fn voices_by_category_value() {
    let c = client();
    let games = Category {
        title: "Games".to_string(),
        category_token: "CAT:2".to_string(),
        model_type: "tts".to_string(),
    };
    assert_eq!(titles(&c.list_voices_by_category(&games)), vec!["Beta"]);
}

#[test]
fn empty_cache_selects_nothing() {
    let c = FakeYouClient::new(
        reqwest::blocking::Client::new(),
        &parse(r#"{"categories":[]}"#),
        &parse(r#"{"models":[]}"#),
        5,
    )
    .unwrap();
    assert!(c.list_voices().is_empty());
    assert!(c.list_categories().is_empty());
    assert!(c.list_voices_by_category_token("CAT:1").is_empty());
}

#[test]
fn malformed_category_leaves_cache_unchanged() {
    let mut c = client();
    let before = c.cache_generated();
    let bad = parse(r#"{"categories":[{"name":"X","category_token":7,"model_type":"tts"}]}"#);
    let fresh = parse(r#"{"models":[{"title":"Z","model_token":"TM:z","category_tokens":[]}]}"#);
    assert!(matches!(c.invalidate_cache(&bad, &fresh, 42), Err(Error::ImproperResponse)));
    assert_eq!(c.list_categories().len(), 2);
    assert_eq!(titles(&c.list_voices()), vec!["Alpha", "Beta", "Gamma"]);
    assert_eq!(c.cache_generated(), before);
}

#[test]
fn malformed_voice_leaves_cache_unchanged() {
    let mut c = client();
    let fresh = parse(r#"{"categories":[]}"#);
    for bad in [
        r#"{"models":[{"title":"Z","model_token":"TM:z","category_tokens":[1]}]}"#,
        r#"{"models":[{"title":"Z","model_token":"TM:z"}]}"#,
        r#"{"models":[{"model_token":"TM:z","category_tokens":[]}]}"#,
        r#"{"voices":[]}"#,
        r#"[]"#,
    ] {
        assert!(matches!(c.invalidate_cache(&fresh, &parse(bad), 42), Err(Error::ImproperResponse)));
        assert_eq!(c.list_categories().len(), 2);
        assert_eq!(c.list_voices().len(), 3);
        assert_eq!(c.cache_generated(), 1_700_000_000_000);
    }
}

#[test]
fn refresh_replaces_cache_wholesale() {
    let mut c = client();
    let cats = parse(r#"{"categories":[{"name":"New","category_token":"CAT:3","model_type":"vc"}]}"#);
    let voices = parse(r#"{"models":[{"title":"Z","model_token":"TM:z","category_tokens":["CAT:3"]}]}"#);
    assert!(c.invalidate_cache(&cats, &voices, 1_700_000_060_000).is_ok());
    assert_eq!(c.cache_generated(), 1_700_000_060_000);
    assert_eq!(c.list_categories().len(), 1);
    assert_eq!(c.list_categories()[0].model_type, "vc");
    assert_eq!(titles(&c.list_voices()), vec!["Z"]);
    assert_eq!(titles(&c.list_voices_by_category_token("CAT:3")), vec!["Z"]);
}

#[test]
fn client_is_not_made_from_malformed_listing() {
    let r = FakeYouClient::new(reqwest::blocking::Client::new(), &parse("{}"), &parse(VOICES), 0);
    assert!(matches!(r, Err(Error::ImproperResponse)));
}

#[test]
fn too_many_requests_at_every_endpoint() {
    assert!(matches!(check_status(429), Err(Error::TooManyRequests)));
    assert!(matches!(login_outcome(429, ""), Err(Error::TooManyRequests)));
    assert!(matches!(login_outcome(429, "{\"success\":true}"), Err(Error::TooManyRequests)));
    assert!(check_status(200).is_ok());
    assert!(check_status(404).is_ok());
    assert!(check_status(500).is_ok());
}

#[test]
fn login_statuses() {
    assert!(login_outcome(200, "{\"success\":true}").is_ok());
    assert!(matches!(login_outcome(200, "{\"success\":false}"), Err(Error::InvalidCredentials)));
    assert!(matches!(login_outcome(200, "{\"success\": true}"), Err(Error::InvalidCredentials)));
    assert!(matches!(login_outcome(200, ""), Err(Error::InvalidCredentials)));
    assert!(matches!(login_outcome(401, ""), Err(Error::InvalidCredentials)));
    assert!(matches!(login_outcome(500, "{\"success\":true}"), Err(Error::UndefinedResponse)));
    assert!(matches!(login_outcome(302, ""), Err(Error::UndefinedResponse)));
    assert!(matches!(login_outcome(201, ""), Err(Error::UndefinedResponse)));
}

#[test]
fn login_body_is_escaped_json() {
    let body = login_body("me@example.com", "pa\"ss\\word").unwrap();
    assert_eq!(body, r#"{"username_or_email":"me@example.com","password":"pa\"ss\\word"}"#);
    let v: serde_json::Value = serde_json::from_str(&body).unwrap();
    assert_eq!(v["username_or_email"], "me@example.com");
    assert_eq!(v["password"], "pa\"ss\\word");
}

#[test]
fn job_request_body_has_three_members() {
    let body = job_request_body("tok", "TM:a", "Hello!").unwrap();
    assert_eq!(
        body,
        r#"{"uuid_idempotency_token":"tok","tts_model_token":"TM:a","inference_text":"Hello!"}"#
    );
}

#[test]
fn idempotency_tokens_differ_between_calls() {
    let a = new_job_request("TM:a", "Hello!").unwrap();
    let b = new_job_request("TM:a", "Hello!").unwrap();
    assert_ne!(a, b);
    let va: serde_json::Value = serde_json::from_str(&a).unwrap();
    let vb: serde_json::Value = serde_json::from_str(&b).unwrap();
    assert_eq!(va["tts_model_token"], "TM:a");
    assert_eq!(va["inference_text"], "Hello!");
    assert_eq!(va["uuid_idempotency_token"].as_str().unwrap().len(), 36);
    assert_ne!(va["uuid_idempotency_token"], vb["uuid_idempotency_token"]);
}

#[test]
fn job_response_is_decoded() {
    let doc = parse(
        r#"{"success":true,"inference_job_token":"JTINF:1","inference_job_token_type":"inference"}"#,
    );
    let job = decode_job_response(&doc).unwrap();
    assert!(job.success);
    assert_eq!(job.inference_job_token, "JTINF:1");
    assert_eq!(job.inference_job_token_type, "inference");
    let bad = parse(r#"{"success":"yes","inference_job_token":"J","inference_job_token_type":"t"}"#);
    assert!(matches!(decode_job_response(&bad), Err(Error::SerializationError(_))));
}

#[test]
fn poll_address() {
    assert_eq!(poll_url("JTINF:1"), "https://api.fakeyou.com/tts/job/JTINF:1");
    assert_eq!(JOB_STATUS_URL, "https://api.fakeyou.com/tts/job/");
}

fn status(s: &str) -> JsonValue {
    parse(&format!(r#"{{"success":true,"state":{{"status":"{}"}}}}"#, s))
}

#[test]
fn poll_waits_while_running() {
    assert!(matches!(poll_status(&status("started")), Ok(JobStatus::Waiting)));
    assert!(matches!(poll_status(&status("pending")), Ok(JobStatus::Waiting)));
}

#[test]
fn poll_fails_on_failure_states() {
    assert!(matches!(poll_status(&status("attempt_failed")), Err(Error::JobFailed)));
    assert!(matches!(poll_status(&status("dead")), Err(Error::JobFailed)));
}

#[test]
fn poll_rejects_unknown_or_missing_status() {
    assert!(matches!(poll_status(&status("finished")), Err(Error::ImproperResponse)));
    assert!(matches!(poll_status(&parse(r#"{"state":{"status":3}}"#)), Err(Error::ImproperResponse)));
    assert!(matches!(poll_status(&parse(r#"{"state":{}}"#)), Err(Error::ImproperResponse)));
    assert!(matches!(poll_status(&parse(r#"{"status":"started"}"#)), Err(Error::ImproperResponse)));
    assert!(matches!(poll_status(&status("complete_success")), Err(Error::ImproperResponse)));
}

#[test]
fn end_to_end_poll_resolves_audio_url() {
    let done = parse(
        r#"{"state":{"status":"complete_success","maybe_public_bucket_wav_audio_path":"/weights/x.wav"}}"#,
    );
    let responses = vec![status("started"), status("started"), done];
    let mut url = None;
    let mut polls = 0;
    for r in &responses {
        polls += 1;
        match poll_status(r).unwrap() {
            JobStatus::Waiting => {}
            JobStatus::Complete(u) => {
                url = Some(u);
                break;
            }
        }
    }
    assert_eq!(polls, 3);
    assert_eq!(url.unwrap(), "https://storage.googleapis.com/vocodes-public/weights/x.wav");
    assert_eq!(AUDIO_BASE_URL, "https://storage.googleapis.com/vocodes-public");
}

#[test]
fn duplicate_keeps_voice() {
    let v = Voice {
        title: "A".to_string(),
        model_token: "TM:a".to_string(),
        category_tokens: vec!["CAT:1".to_string()],
    };
    let d = v.duplicate();
    assert_eq!(d.title, "A");
    assert_eq!(d.model_token, "TM:a");
    assert_eq!(d.category_tokens, vec!["CAT:1"]);
    assert!(v.in_category("CAT:1"));
    assert!(!v.in_category("CAT:2"));
}

#[test]
fn last_duplicate_member_counts() {
    let doc = JsonValue::Object(vec![
        ("k".to_string(), JsonValue::Str("first".to_string())),
        ("k".to_string(), JsonValue::Str("second".to_string())),
    ]);
    assert_eq!(doc.text_field("k").unwrap(), "second");
    assert!(doc.text_field("j").is_none());
}

#[test]
fn control_characters_are_escaped() {
    let body = login_body("a\tb\n", "\u{1}\u{1f}\u{8}\u{c}\r/é").unwrap();
    assert_eq!(
        body,
        "{\"username_or_email\":\"a\\tb\\n\",\"password\":\"\\u0001\\u001f\\b\\f\\r/é\"}"
    );
}
