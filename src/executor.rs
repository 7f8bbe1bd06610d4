use vstd::prelude::*;
use crate::descriptor::{Descriptor, RequestPlan, is_get, is_post, plan_matches, plan_request};

verus! {

/// Whether one request completed with a well-formed response body.
#[derive(PartialEq, Eq, Structural, Clone, Copy, Debug)]
pub enum Status {
    Success,
    Fail,
}

/// What came back from the network for one request.
pub enum Reply {
    /// No request was sent (the plan was to reject the descriptor).
    NotSent,
    /// The request could not be sent or its response could not be read.
    TransportFailed,
    /// The full response body.
    Body(Vec<u8>),
}

/// The outcome of one descriptor: the descriptor itself, the time it took in
/// nanoseconds, and its status. The response body is not kept.
pub struct ResultRecord {
    pub request: Descriptor,
    pub dur_nanos: u64,
    pub status: Status,
}

/// Whether serde_json reads the bytes as one JSON value.
pub uninterp spec fn json_accepts(bytes: Seq<u8>) -> bool;

/// Relies on serde_json::from_slice into serde_json::Value: whether the bytes
/// hold one JSON value (its result depends on the bytes alone).
#[verifier::external_body]
fn body_is_json(bytes: &[u8]) -> (r: bool)
    ensures
        r == json_accepts(bytes@),
{
    serde_json::from_slice::<serde_json::Value>(bytes).is_ok()
}

/// The status for a plan and what came back, given whether the body parsed as
/// JSON.
pub open spec fn status_spec(plan_rejects: bool, reply: Reply, body_json: bool) -> Status {
    if !plan_rejects && reply is Body && body_json {
        Status::Success
    } else {
        Status::Fail
    }
}

/// Whether a reply's body is accepted as JSON (`false` when there is no body).
pub open spec fn reply_json(reply: Reply) -> bool {
    reply is Body && json_accepts(reply->Body_0@)
}

/// Whether the plan for a descriptor is to send nothing.
pub open spec fn rejects(d: Descriptor) -> bool {
    !(d.url is Some && (is_get(d.method) || is_post(d.method)))
}

/// The record that one descriptor, its reply and its two clock readings give.
pub open spec fn record_of(d: Descriptor, reply: Reply, started_at: u64, ended_at: u64) -> ResultRecord {
    ResultRecord {
        request: d,
        dur_nanos: (ended_at - started_at) as u64,
        status: status_spec(rejects(d), reply, reply_json(reply)),
    }
}

/// Classifies a reply: success only when a request was planned, a body came
/// back, and that body is JSON.
pub fn status_of(plan: &RequestPlan, reply: &Reply, body_json: bool) -> (r: Status)
    ensures
        r == status_spec(plan is Reject, *reply, body_json),
{
    match (plan, reply) {
        (RequestPlan::Reject, _) => Status::Fail,
        (_, Reply::Body(_)) => if body_json { Status::Success } else { Status::Fail },
        _ => Status::Fail,
    }
}

/// Builds the record of one request from its reply and the clock readings
/// taken just before it was dispatched and just after its outcome was known.
pub fn finish_request(request: Descriptor, reply: &Reply, started_at: u64, ended_at: u64) -> (r: ResultRecord)
    requires
        started_at <= ended_at,
    ensures
        r == record_of(request, *reply, started_at, ended_at),
{
    let plan = plan_request(&request);
    let body_json = match reply {
        Reply::Body(b) => body_is_json(b.as_slice()),
        _ => false,
    };
    let status = status_of(&plan, reply, body_json);
    ResultRecord { request, dur_nanos: ended_at - started_at, status }
}

/// A descriptor whose method is neither `get` nor `post` is planned to send
/// nothing, and its record fails whatever its url and whatever came back.
pub proof fn lemma_unsupported_method_fails(d: Descriptor, p: RequestPlan, reply: Reply, started_at: u64, ended_at: u64)
    requires
        !is_get(d.method),
        !is_post(d.method),
        plan_matches(d, p),
    ensures
        p is Reject,
        record_of(d, reply, started_at, ended_at).status == Status::Fail,
{
}

/// A descriptor whose url is not a string is planned to send nothing, and its
/// record fails whatever came back.
pub proof fn lemma_non_string_url_fails(d: Descriptor, p: RequestPlan, reply: Reply, started_at: u64, ended_at: u64)
    requires
        d.url is None,
        plan_matches(d, p),
    ensures
        p is Reject,
        record_of(d, reply, started_at, ended_at).status == Status::Fail,
{
}

/// The descriptor in a record is the very descriptor that produced it, and
/// its duration is the time between the two clock readings.
pub proof fn lemma_record_echoes_descriptor(d: Descriptor, reply: Reply, started_at: u64, ended_at: u64)
    requires
        started_at <= ended_at,
    ensures
        record_of(d, reply, started_at, ended_at).request == d,
        record_of(d, reply, started_at, ended_at).dur_nanos == ended_at - started_at,
{
}

} // verus!
