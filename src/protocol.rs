use vstd::prelude::*;

use crate::error::Error;
use crate::json::{field_of, str_eq, str_of, JsonValue};

verus! {

/// Where credentials are posted.
pub const LOGIN_URL: &'static str = "https://api.fakeyou.com/login";

/// Where the category listing is read.
pub const CATEGORY_LIST_URL: &'static str = "https://api.fakeyou.com/category/list/tts";

/// Where the voice listing is read.
pub const VOICE_LIST_URL: &'static str = "https://api.fakeyou.com/tts/list";

/// Where speech jobs are submitted.
pub const JOB_SUBMIT_URL: &'static str = "https://api.fakeyou.com/tts/inference";

/// The prefix of the status address of a job.
pub const JOB_STATUS_URL: &'static str = "https://api.fakeyou.com/tts/job/";

/// The prefix of the address of a finished job's audio.
pub const AUDIO_BASE_URL: &'static str = "https://storage.googleapis.com/vocodes-public";

/// The body by which the login endpoint reports success.
pub const LOGIN_SUCCESS_BODY: &'static str = "{\"success\":true}";

/// The HTTP status of a refusal for too many requests.
pub const STATUS_TOO_MANY_REQUESTS: u16 = 429;

/// The lowercase hexadecimal digit of `d`, below 16.
pub open spec fn hex_digit(d: int) -> char {
    seq!['0', '1', '2', '3', '4', '5', '6', '7', '8', '9', 'a', 'b', 'c', 'd', 'e', 'f'][d]
}

/// How one character is written inside a JSON string literal: the quote
/// mark, the backslash and the control characters are escaped, the short
/// forms used where JSON has one; everything else stands as it is.
pub open spec fn escaped_char(c: char) -> Seq<char> {
    if c == '"' {
        seq!['\\', '"']
    } else if c == '\\' {
        seq!['\\', '\\']
    } else if c == '\u{8}' {
        seq!['\\', 'b']
    } else if c == '\t' {
        seq!['\\', 't']
    } else if c == '\n' {
        seq!['\\', 'n']
    } else if c == '\u{c}' {
        seq!['\\', 'f']
    } else if c == '\r' {
        seq!['\\', 'r']
    } else if (c as u32) < 0x20 {
        seq!['\\', 'u', '0', '0', hex_digit((c as u32) as int / 16), hex_digit((c as u32) as int % 16)]
    } else {
        seq![c]
    }
}

/// The characters of `s`, each written as inside a JSON string literal.
pub open spec fn escaped_text(s: Seq<char>) -> Seq<char>
    decreases s.len(),
{
    if s.len() == 0 {
        Seq::empty()
    } else {
        escaped_text(s.drop_last()) + escaped_char(s.last())
    }
}

/// The JSON string literal of `s`.
pub open spec fn json_quoted(s: Seq<char>) -> Seq<char> {
    seq!['"'] + escaped_text(s) + seq!['"']
}

/// Relies on serde_json::to_string on a `str`: the JSON string literal of
/// `s`, quotes and escapes included. Writing a string into memory never
/// fails.
#[verifier::external_body]
fn quote(s: &str) -> (r: Result<String, String>)
    ensures
        r is Ok,
        r matches Ok(q) ==> q@ == json_quoted(s@),
{
    serde_json::to_string(s).map_err(|e| e.to_string())
}

/// Relies on uuid::Uuid::new_v4, written in its hyphenated form: a random
/// token of 36 characters. It panics only where the operating system
/// cannot supply random bytes.
#[verifier::external_body]
fn new_idempotency_token() -> (r: String)
    ensures
        r@.len() == 36,
{
    uuid::Uuid::new_v4().to_string()
}

/// What a response status means at any endpoint but login: HTTP 429 is a
/// refusal, everything else is left to the caller.
pub open spec fn status_result(status: u16) -> Result<(), Error> {
    if status == 429 {
        Err(Error::TooManyRequests)
    } else {
        Ok(())
    }
}

/// What a login response means.
pub open spec fn login_result(status: u16, body: Seq<char>) -> Result<(), Error> {
    if status == 200 {
        if body == LOGIN_SUCCESS_BODY@ {
            Ok(())
        } else {
            Err(Error::InvalidCredentials)
        }
    } else if status == 401 {
        Err(Error::InvalidCredentials)
    } else if status == 429 {
        Err(Error::TooManyRequests)
    } else {
        Err(Error::UndefinedResponse)
    }
}

/// Checks the status of a response at any endpoint but login.
pub fn check_status(status: u16) -> (r: Result<(), Error>)
    ensures
        r == status_result(status),
{
    if status == STATUS_TOO_MANY_REQUESTS {
        Err(Error::TooManyRequests)
    } else {
        Ok(())
    }
}

/// Reads the response of the login endpoint: its status, and its body
/// (only read when the status is 200).
pub fn login_outcome(status: u16, body: &str) -> (r: Result<(), Error>)
    ensures
        r == login_result(status, body@),
{
    if status == 200 {
        if str_eq(body, LOGIN_SUCCESS_BODY) {
            Ok(())
        } else {
            Err(Error::InvalidCredentials)
        }
    } else if status == 401 {
        Err(Error::InvalidCredentials)
    } else if status == 429 {
        Err(Error::TooManyRequests)
    } else {
        Err(Error::UndefinedResponse)
    }
}

/// The text of one member of a JSON object.
pub open spec fn member_text(key: Seq<char>, value: Seq<char>) -> Seq<char> {
    json_quoted(key) + ":"@ + json_quoted(value)
}

/// The members of a JSON object, separated by commas.
pub open spec fn members_text(ms: Seq<(Seq<char>, Seq<char>)>) -> Seq<char>
    decreases ms.len(),
{
    if ms.len() == 0 {
        Seq::empty()
    } else if ms.len() == 1 {
        member_text(ms[0].0, ms[0].1)
    } else {
        members_text(ms.drop_last()) + ","@ + member_text(ms.last().0, ms.last().1)
    }
}

/// The text of a JSON object whose members are strings.
pub open spec fn object_text(ms: Seq<(Seq<char>, Seq<char>)>) -> Seq<char> {
    "{"@ + members_text(ms) + "}"@
}

/// The members of a list of string pairs, as mathematical values.
pub open spec fn pair_views(ms: Seq<(String, String)>) -> Seq<(Seq<char>, Seq<char>)> {
    ms.map_values(|m: (String, String)| (m.0@, m.1@))
}

/// Whether `r` failed with a serialization error.
pub open spec fn is_serialization_error<T>(r: Result<T, Error>) -> bool {
    r matches Err(Error::SerializationError(_))
}

/// The JSON text of an object whose members are the given strings, in
/// the given order.
pub fn encode_object(members: &Vec<(String, String)>) -> (r: Result<String, Error>)
    ensures
        r matches Ok(t) ==> t@ == object_text(pair_views(members@)),
        r is Ok,
{
    let mut out = String::from_str("{");
    let mut i: usize = 0;
    while i < members.len()
        invariant
            i <= members@.len(),
            out@ == "{"@ + members_text(pair_views(members@.subrange(0, i as int))),
        decreases members@.len() - i,
    {
        let ghost before = pair_views(members@.subrange(0, i as int));
        let ghost after = pair_views(members@.subrange(0, i + 1));
        assert(after.drop_last() =~= before);
        let key = match quote(members[i].0.as_str()) {
            Ok(q) => q,
            Err(m) => return Err(Error::SerializationError(m)),
        };
        let value = match quote(members[i].1.as_str()) {
            Ok(q) => q,
            Err(m) => return Err(Error::SerializationError(m)),
        };
        if i > 0 {
            out.append(",");
        }
        out.append(key.as_str());
        out.append(":");
        out.append(value.as_str());
        i = i + 1;
        assert(out@ =~= "{"@ + members_text(after));
    }
    assert(members@.subrange(0, members@.len() as int) =~= members@);
    out.append("}");
    Ok(out)
}

/// The body of a login request.
pub open spec fn login_text(user_name: Seq<char>, password: Seq<char>) -> Seq<char> {
    object_text(seq![("username_or_email"@, user_name), ("password"@, password)])
}

/// The JSON body that carries the credentials to the login endpoint.
pub fn login_body(user_name: &str, password: &str) -> (r: Result<String, Error>)
    ensures
        r matches Ok(t) ==> t@ == login_text(user_name@, password@),
        r is Ok,
{
    let mut members: Vec<(String, String)> = Vec::new();
    members.push((String::from_str("username_or_email"), String::from_str(user_name)));
    members.push((String::from_str("password"), String::from_str(password)));
    assert(pair_views(members@) =~= seq![("username_or_email"@, user_name@), ("password"@, password@)]);
    encode_object(&members)
}

/// The body of a job request.
pub open spec fn job_request_text(
    idempotency_token: Seq<char>,
    tts_model_token: Seq<char>,
    text: Seq<char>,
) -> Seq<char> {
    object_text(
        seq![
            ("uuid_idempotency_token"@, idempotency_token),
            ("tts_model_token"@, tts_model_token),
            ("inference_text"@, text),
        ],
    )
}

/// The JSON body of a request to speak `text` with the voice
/// `tts_model_token`, under the given idempotency token.
pub fn job_request_body(
    idempotency_token: &str,
    tts_model_token: &str,
    text: &str,
) -> (r: Result<String, Error>)
    ensures
        r matches Ok(t) ==> t@ == job_request_text(idempotency_token@, tts_model_token@, text@),
        r is Ok,
{
    let mut members: Vec<(String, String)> = Vec::new();
    members.push((String::from_str("uuid_idempotency_token"), String::from_str(idempotency_token)));
    members.push((String::from_str("tts_model_token"), String::from_str(tts_model_token)));
    members.push((String::from_str("inference_text"), String::from_str(text)));
    assert(pair_views(members@) =~= seq![
        ("uuid_idempotency_token"@, idempotency_token@),
        ("tts_model_token"@, tts_model_token@),
        ("inference_text"@, text@),
    ]);
    encode_object(&members)
}

/// The JSON body of a new job request: a fresh random idempotency token of
/// 36 characters is drawn for every call, so that a retried submission can
/// be told apart from a new one.
pub fn new_job_request(tts_model_token: &str, text: &str) -> (r: Result<String, Error>)
    ensures
        r matches Ok(t) ==> exists|token: Seq<char>|
            token.len() == 36 && t@ == #[trigger] job_request_text(
                token,
                tts_model_token@,
                text@,
            ),
        r is Ok,
{
    let token = new_idempotency_token();
    let r = job_request_body(token.as_str(), tts_model_token, text);
    r
}

/// The service's answer to a job submission.
#[derive(Clone, Debug)]
pub struct JobResponse {
    pub success: bool,
    pub inference_job_token: String,
    pub inference_job_token_type: String,
}

/// The value of `v` when it is a JSON boolean.
pub open spec fn bool_of(v: Option<JsonValue>) -> Option<bool> {
    match v {
        Some(JsonValue::Bool(b)) => Some(b),
        _ => None,
    }
}

/// The answer to a job submission, when it has the boolean member
/// `success` and the string members `inference_job_token` and
/// `inference_job_token_type`.
pub open spec fn job_response_of(doc: JsonValue) -> Option<(bool, Seq<char>, Seq<char>)> {
    match (
        bool_of(field_of(doc, "success"@)),
        str_of(field_of(doc, "inference_job_token"@)),
        str_of(field_of(doc, "inference_job_token_type"@)),
    ) {
        (Some(s), Some(t), Some(k)) => Some((s, t, k)),
        _ => None,
    }
}

/// Reads the answer to a job submission.
pub fn decode_job_response(doc: &JsonValue) -> (r: Result<JobResponse, Error>)
    ensures
        r is Ok <==> job_response_of(*doc) is Some,
        r matches Ok(j) ==> job_response_of(*doc) == Some(
            (j.success, j.inference_job_token@, j.inference_job_token_type@),
        ),
        r is Err ==> is_serialization_error(r),
{
    let success = match doc.field("success") {
        Some(JsonValue::Bool(b)) => Some(*b),
        _ => None,
    };
    let token = doc.text_field("inference_job_token");
    let token_type = doc.text_field("inference_job_token_type");
    match (success, token, token_type) {
        (Some(success), Some(inference_job_token), Some(inference_job_token_type)) => {
            Ok(JobResponse { success, inference_job_token, inference_job_token_type })
        },
        _ => Err(
            Error::SerializationError(
                String::from_str(
                    "job response lacks success, inference_job_token or inference_job_token_type",
                ),
            ),
        ),
    }
}

/// The status address of the job `job_token`.
pub fn poll_url(job_token: &str) -> (r: String)
    ensures
        r@ == JOB_STATUS_URL@ + job_token@,
{
    let mut url = String::from_str(JOB_STATUS_URL);
    url.append(job_token);
    url
}

/// Where a job stands after one status response.
#[derive(Clone, Debug)]
pub enum JobStatus {
    /// The job is still running: ask again later.
    Waiting,
    /// The job is done; its audio is at this address.
    Complete(String),
}

/// The member `state` of a status response.
pub open spec fn state_of(resp: JsonValue) -> Option<JsonValue> {
    field_of(resp, "state"@)
}

/// The text of `state.status` in a status response.
pub open spec fn status_text(resp: JsonValue) -> Option<Seq<char>> {
    match state_of(resp) {
        Some(st) => str_of(field_of(st, "status"@)),
        None => None,
    }
}

/// The text of `state.maybe_public_bucket_wav_audio_path` in a status
/// response.
pub open spec fn audio_path_of(resp: JsonValue) -> Option<Seq<char>> {
    match state_of(resp) {
        Some(st) => str_of(field_of(st, "maybe_public_bucket_wav_audio_path"@)),
        None => None,
    }
}

/// The states in which a job is still running.
pub open spec fn is_waiting_status(s: Seq<char>) -> bool {
    s == "started"@ || s == "pending"@
}

/// The states in which a job has failed for good.
pub open spec fn is_failed_status(s: Seq<char>) -> bool {
    s == "attempt_failed"@ || s == "dead"@
}

/// The state in which a job has succeeded.
pub open spec fn is_success_status(s: Seq<char>) -> bool {
    s == "complete_success"@
}

/// What one status response means for the job.
pub open spec fn poll_result_ok(resp: JsonValue, r: Result<JobStatus, Error>) -> bool {
    match status_text(resp) {
        None => r == Err::<JobStatus, Error>(Error::ImproperResponse),
        Some(s) => if is_waiting_status(s) {
            r matches Ok(JobStatus::Waiting)
        } else if is_failed_status(s) {
            r == Err::<JobStatus, Error>(Error::JobFailed)
        } else if is_success_status(s) {
            match audio_path_of(resp) {
                Some(p) => r matches Ok(JobStatus::Complete(u)) && u@ == AUDIO_BASE_URL@ + p,
                None => r == Err::<JobStatus, Error>(Error::ImproperResponse),
            }
        } else {
            r == Err::<JobStatus, Error>(Error::ImproperResponse)
        },
    }
}

/// Reads one status response of a running job: a job that is started or
/// pending is waited for, a failed or dead one is an error, and a
/// successful one yields the address of its audio. Any other status, or
/// none, is an improper response.
pub fn poll_status(resp: &JsonValue) -> (r: Result<JobStatus, Error>)
    ensures
        poll_result_ok(*resp, r),
{
    let state = match resp.field("state") {
        Some(st) => st,
        None => return Err(Error::ImproperResponse),
    };
    let status = match state.text_field("status") {
        Some(s) => s,
        None => return Err(Error::ImproperResponse),
    };
    if str_eq(status.as_str(), "started") || str_eq(status.as_str(), "pending") {
        Ok(JobStatus::Waiting)
    } else if str_eq(status.as_str(), "attempt_failed") || str_eq(status.as_str(), "dead") {
        Err(Error::JobFailed)
    } else if str_eq(status.as_str(), "complete_success") {
        match state.text_field("maybe_public_bucket_wav_audio_path") {
            Some(path) => {
                let mut url = String::from_str(AUDIO_BASE_URL);
                url.append(path.as_str());
                Ok(JobStatus::Complete(url))
            },
            None => Err(Error::ImproperResponse),
        }
    } else {
        Err(Error::ImproperResponse)
    }
}

} // verus!
