use build_controller::status::NixBuildStatus;
use build_controller::sync::{status_update_for_event, DeployStatusMessage};

fn event(status: &str, message: &str) -> DeployStatusMessage {
    DeployStatusMessage::new(
        "demo".to_string(),
        status.to_string(),
        message.to_string(),
        "2024-01-01T00:00:00Z".to_string(),
    )
}

/// Applies an event the way the synchronizer does, counting writes.
fn deliver(stored: &mut Option<NixBuildStatus>, ev: &DeployStatusMessage, now: &str, writes: &mut u32) {
    if let Some(new) = status_update_for_event(stored, ev, now) {
        *writes += 1;
        *stored = Some(new);
    }
}

#[test]
fn same_event_twice_writes_once() {
    let mut base = NixBuildStatus::pending();
    base.phase = "Completed".to_string();
    base.job_name = Some("build-demo".to_string());
    base.observed_generation = Some(1);
    base.set_condition_at("Ready", "True", "BuildSucceeded", "ok", "t0");
    let mut stored = Some(base);
    let mut writes = 0;
    let ev = event("Deploying", "Build proccess completed successfully ");
    deliver(&mut stored, &ev, "t1", &mut writes);
    deliver(&mut stored, &ev, "t2", &mut writes);
    assert_eq!(writes, 1);
    let s = stored.unwrap();
    assert_eq!(s.phase, "Deploying");
    assert_eq!(s.message.as_deref(), Some("Build proccess completed successfully "));
    assert_eq!(s.job_name.as_deref(), Some("build-demo"));
    assert_eq!(s.observed_generation, Some(1));
    assert_eq!(s.conditions.len(), 1);
    assert_eq!(s.last_transition_time.as_deref(), Some("t1"));
}

#[test]
fn scenario_deploying_then_deployed() {
    let mut stored = Some(NixBuildStatus::pending());
    let mut writes = 0;
    deliver(&mut stored, &event("Deploying", "building done"), "t1", &mut writes);
    assert_eq!(stored.as_ref().unwrap().phase, "Deploying");
    deliver(&mut stored, &event("Deployed", "Deployment completed"), "t2", &mut writes);
    assert_eq!(stored.as_ref().unwrap().phase, "Deployed");
    deliver(&mut stored, &event("Deployed", "Deployment completed"), "t3", &mut writes);
    assert_eq!(writes, 2);
}

#[test]
fn absent_status_reads_as_pending() {
    let stored: Option<NixBuildStatus> = None;
    let new = status_update_for_event(&stored, &event("Pending", "m"), "t").unwrap();
    assert_eq!(new.phase, "Pending");
    assert_eq!(new.message.as_deref(), Some("m"));
    assert_eq!(new.job_name.as_deref(), Some("build-demo"));
    assert_eq!(new.last_transition_time.as_deref(), Some("t"));
}
