use vstd::prelude::*;

use crate::catalog::{belongs_to, voices_in_category, VoiceView};
use crate::error::Error;
use crate::json::JsonValue;
use crate::protocol::{
    is_failed_status, is_success_status, is_waiting_status, login_result, poll_result_ok,
    status_result, status_text, JobStatus, LOGIN_SUCCESS_BODY,
};

verus! {

/// A voice is selected for a category exactly when it is cached and lists
/// that category; an empty cache selects nothing.
pub proof fn category_selection_is_exact(vs: Seq<VoiceView>, token: Seq<char>, v: VoiceView)
    ensures
        voices_in_category(vs, token).contains(v) <==> (vs.contains(v)
            && v.category_tokens.contains(token)),
        vs.len() == 0 ==> voices_in_category(vs, token).len() == 0,
{
    let pred = belongs_to(token);
    if vs.contains(v) && pred(v) {
        let i = choose|i: int| 0 <= i < vs.len() && vs[i] == v;
        vs.lemma_filter_contains(pred, i);
    }
    if voices_in_category(vs, token).contains(v) {
        vs.lemma_filter_contains_rev(pred, v);
        let j = choose|j: int| 0 <= j < vs.filter(pred).len() && vs.filter(pred)[j] == v;
        vs.lemma_filter_pred(pred, j);
    }
    if vs.len() == 0 {
        reveal(Seq::filter);
    }
}

/// Whether `part` is read from `whole` at the strictly increasing
/// positions `pos`.
pub open spec fn picks_in_order<A>(whole: Seq<A>, part: Seq<A>, pos: Seq<int>) -> bool {
    &&& pos.len() == part.len()
    &&& forall|k: int|
        0 <= k < pos.len() ==> 0 <= #[trigger] pos[k] < whole.len() && whole[pos[k]] == part[k]
    &&& forall|k: int, l: int| 0 <= k < l < pos.len() ==> pos[k] < pos[l]
}

/// The positions of `vs` that a filter keeps.
proof fn filter_positions(vs: Seq<VoiceView>, pred: spec_fn(VoiceView) -> bool) -> (pos: Seq<int>)
    ensures
        picks_in_order(vs, vs.filter(pred), pos),
    decreases vs.len(),
{
    reveal(Seq::filter);
    if vs.len() == 0 {
        Seq::empty()
    } else {
        let init = vs.drop_last();
        let rest = filter_positions(init, pred);
        assert forall|k: int| 0 <= k < rest.len() implies rest[k] < vs.len() - 1 && vs[rest[k]]
            == init[rest[k]] by {}
        if pred(vs.last()) {
            let pos = rest.push(vs.len() - 1);
            assert(vs.filter(pred) == init.filter(pred).push(vs.last()));
            assert forall|k: int| 0 <= k < pos.len() implies 0 <= #[trigger] pos[k] < vs.len()
                && vs[pos[k]] == vs.filter(pred)[k] by {
                if k < rest.len() {
                    assert(pos[k] == rest[k]);
                }
            }
            pos
        } else {
            assert(vs.filter(pred) == init.filter(pred));
            rest
        }
    }
}

/// The voices selected for a category are a subsequence of the cache: each
/// comes from its own position of the cache, in the cache's order.
pub proof fn category_selection_keeps_order(vs: Seq<VoiceView>, token: Seq<char>)
    ensures
        exists|pos: Seq<int>| #[trigger] picks_in_order(vs, voices_in_category(vs, token), pos),
        voices_in_category(vs, token).len() <= vs.len(),
{
    let pos = filter_positions(vs, belongs_to(token));
    assert(picks_in_order(vs, voices_in_category(vs, token), pos));
    vs.lemma_filter_len(belongs_to(token));
}

/// HTTP 429 is reported as a refusal for too many requests wherever it
/// comes: at login and at every other endpoint, status polls included.
pub proof fn too_many_requests_everywhere(status: u16, body: Seq<char>)
    requires
        status == 429,
    ensures
        status_result(status) == Err::<(), Error>(Error::TooManyRequests),
        login_result(status, body) == Err::<(), Error>(Error::TooManyRequests),
{
}

/// At login, a status other than 200, 401 and 429 is an undefined
/// response, and a 200 whose body is not the success marker means that the
/// credentials were refused.
pub proof fn login_statuses(status: u16, body: Seq<char>)
    ensures
        status != 200 && status != 401 && status != 429 ==> login_result(status, body) == Err::<
            (),
            Error,
        >(Error::UndefinedResponse),
        status == 200 && body != LOGIN_SUCCESS_BODY@ ==> login_result(status, body) == Err::<
            (),
            Error,
        >(Error::InvalidCredentials),
{
}

/// Polling goes on exactly while the job is started or pending; it stops
/// at the first success, failure or death, and at any other status with an
/// improper response.
pub proof fn polling_stops_at_first_terminal_status(resp: JsonValue, r: Result<JobStatus, Error>)
    requires
        poll_result_ok(resp, r),
    ensures
        (r matches Ok(JobStatus::Waiting)) <==> (status_text(resp) matches Some(s)
            && is_waiting_status(s)),
        status_text(resp) matches Some(s) && is_failed_status(s) ==> r == Err::<JobStatus, Error>(
            Error::JobFailed,
        ),
        status_text(resp) matches Some(s) && is_success_status(s) ==> !(r matches Ok(
            JobStatus::Waiting,
        )),
        (status_text(resp) matches Some(s) && !is_waiting_status(s) && !is_failed_status(s)
            && !is_success_status(s)) ==> r == Err::<JobStatus, Error>(Error::ImproperResponse),
{
    reveal_strlit("started");
    reveal_strlit("pending");
    reveal_strlit("attempt_failed");
    reveal_strlit("dead");
    reveal_strlit("complete_success");
    assert("started"@.len() == 7 && "pending"@.len() == 7);
    assert("attempt_failed"@.len() == 14 && "dead"@.len() == 4);
    assert("complete_success"@.len() == 16);
}

} // verus!
