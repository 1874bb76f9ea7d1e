//! The status synchronizer: merges status events, published by backing jobs
//! and by the manifest applier, into a build request's status.

use vstd::prelude::*;

use crate::job::{job_name_for, job_name_spec};
use crate::status::{needs_update_spec, pending_status, NixBuildStatus, StatusView};

verus! {

/// A status event as carried over the message bus.
pub struct DeployStatusMessage {
    pub build_name: String,
    pub status: String,
    pub message: String,
    pub timestamp: String,
}

impl DeployStatusMessage {
    pub fn new(build_name: String, status: String, message: String, timestamp: String) -> (r: Self)
        ensures
            r.build_name == build_name,
            r.status == status,
            r.message == message,
            r.timestamp == timestamp,
    {
        DeployStatusMessage { build_name, status, message, timestamp }
    }
}

/// The status an event asks for: its status as the phase, its message, and
/// the job of the build it names; the rest of the current status is kept.
pub open spec fn event_status(cur: StatusView, event: DeployStatusMessage, now: Seq<char>) -> StatusView {
    StatusView {
        phase: event.status@,
        job_name: Some(job_name_spec(event.build_name@)),
        message: Some(event.message@),
        last_transition_time: Some(now),
        ..cur
    }
}

/// The status to write for an event, if any: the event's status where it
/// differs from the current one by the field-wise rule, else nothing.
pub open spec fn sync_spec(cur: StatusView, event: DeployStatusMessage, now: Seq<char>) -> Option<StatusView> {
    let new = event_status(cur, event, now);
    if needs_update_spec(cur, new) {
        Some(new)
    } else {
        None
    }
}

pub open spec fn status_or_pending(s: Option<NixBuildStatus>) -> StatusView {
    match s {
        Some(s) => s@,
        None => pending_status(),
    }
}

/// The status write an event calls for, at the given time, against the
/// build request's current status (absent: Pending); `None`: no write.
pub fn status_update_for_event(
    current: &Option<NixBuildStatus>,
    event: &DeployStatusMessage,
    now: &str,
) -> (r: Option<NixBuildStatus>)
    ensures
        match r {
            Some(s) => sync_spec(status_or_pending(*current), *event, now@) == Some(s@),
            None => sync_spec(status_or_pending(*current), *event, now@) is None,
        },
{
    let cur = match current {
        Some(s) => s.duplicate(),
        None => NixBuildStatus::pending(),
    };
    let mut new = cur.duplicate();
    new.phase = event.status.clone();
    new.job_name = Some(job_name_for(event.build_name.as_str()));
    new.message = Some(event.message.clone());
    new.last_transition_time = Some(now.to_owned());
    if cur.needs_update(&new) {
        Some(new)
    } else {
        None
    }
}

/// Status events are idempotent: where an event calls for a write, the same
/// event against the written status calls for none; where it calls for
/// none, it calls for none at any other time either. Redelivery is a no-op.
pub proof fn lemma_status_event_idempotent(
    cur: StatusView,
    event: DeployStatusMessage,
    t1: Seq<char>,
    t2: Seq<char>,
)
    ensures
        match sync_spec(cur, event, t1) {
            Some(s1) => sync_spec(s1, event, t2) is None,
            None => sync_spec(cur, event, t2) is None,
        },
{
}

} // verus!
