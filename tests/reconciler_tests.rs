use build_controller::job::{create_build_job, job_name_for, EnvSource, OwnerRef, CACHE_HOST};
use build_controller::reconciler::{
    error_policy, reconcile, BuildSnapshot, JobCounts, ReconcileError, Requeue,
};
use build_controller::status::{NixBuildSpec, NixBuildStatus};

fn owner(name: &str) -> OwnerRef {
    OwnerRef {
        api_version: "build.example.com/v1alpha1".to_string(),
        kind: "NixBuild".to_string(),
        name: name.to_string(),
        uid: "uid-1".to_string(),
        controller: Some(true),
        block_owner_deletion: Some(true),
    }
}

fn scenario_spec() -> NixBuildSpec {
    NixBuildSpec::new(
        "https://example/repo".to_string(),
        None,
        Some("default".to_string()),
        "img:1".to_string(),
    )
}

fn snapshot(name: &str, generation: i64, status: Option<NixBuildStatus>) -> BuildSnapshot {
    BuildSnapshot {
        name: name.to_string(),
        generation: Some(generation),
        spec: scenario_spec(),
        status,
        owner: Some(owner(name)),
    }
}

fn counts(active: Option<i32>, succeeded: Option<i32>, failed: Option<i32>) -> JobCounts {
    JobCounts { active, succeeded, failed }
}

fn status(phase: &str, job: Option<&str>, generation: Option<i64>) -> NixBuildStatus {
    let mut s = NixBuildStatus::pending();
    s.phase = phase.to_string();
    s.job_name = job.map(|j| j.to_string());
    s.observed_generation = generation;
    s
}

#[test]
fn requeue_intervals() {
    assert_eq!(Requeue::Short.seconds(), Some(30));
    assert_eq!(Requeue::Long.seconds(), Some(300));
    assert_eq!(Requeue::AwaitChange.seconds(), None);
    assert_eq!(error_policy(), 60);
}

#[test]
fn scenario_first_pass_creates_job() {
    let build = snapshot("demo", 1, None);
    assert_eq!(build.job_to_observe().as_deref(), Some("build-demo"));
    let out = reconcile(&build, &None, "t1").unwrap();
    assert!(out.delete_job.is_none());
    assert_eq!(out.requeue, Requeue::Short);
    let job = out.create_job.expect("a job is created");
    assert_eq!(job.name, "build-demo");
    assert_eq!(job.owner.name, "demo");
    let patch = out.patch.expect("the status is written");
    assert_eq!(patch.phase, "Building");
    assert_eq!(patch.observed_generation, Some(1));
    assert_eq!(patch.job_name.as_deref(), Some("build-demo"));
    assert_eq!(patch.message.as_deref(), Some("Creating build job"));
    assert_eq!(patch.conditions.len(), 1);
    assert_eq!(patch.conditions[0].type_, "Ready");
    assert_eq!(patch.conditions[0].status, "False");
    assert_eq!(patch.conditions[0].reason, "BuildStarting");
    assert_eq!(patch.conditions[0].last_transition_time.as_deref(), Some("t1"));
}

#[test]
fn scenario_success_completes_build() {
    let first = reconcile(&snapshot("demo", 1, None), &None, "t1").unwrap();
    let written = first.patch.unwrap();
    let build = snapshot("demo", 1, Some(written));
    assert_eq!(build.job_to_observe().as_deref(), Some("build-demo"));
    let out = reconcile(&build, &Some(counts(Some(0), Some(1), None)), "t2").unwrap();
    assert!(out.create_job.is_none());
    assert!(out.delete_job.is_none());
    assert_eq!(out.requeue, Requeue::Long);
    let patch = out.patch.expect("completion is written");
    assert_eq!(patch.phase, "Completed");
    assert_eq!(patch.message.as_deref(), Some("Build completed successfully"));
    assert_eq!(patch.conditions.len(), 1);
    assert_eq!(patch.conditions[0].status, "True");
    assert_eq!(patch.conditions[0].reason, "BuildSucceeded");
    assert_eq!(patch.conditions[0].last_transition_time.as_deref(), Some("t2"));

    let done = snapshot("demo", 1, Some(patch));
    assert!(done.job_to_observe().is_none());
    let out = reconcile(&done, &None, "t3").unwrap();
    assert_eq!(out.requeue, Requeue::AwaitChange);
    assert!(out.create_job.is_none() && out.delete_job.is_none() && out.patch.is_none());
}

#[test]
fn failed_job_fails_build() {
    let build = snapshot("demo", 1, Some(status("Building", Some("build-demo"), Some(1))));
    let out = reconcile(&build, &Some(counts(None, None, Some(1))), "t").unwrap();
    let patch = out.patch.unwrap();
    assert_eq!(patch.phase, "Failed");
    assert_eq!(patch.message.as_deref(), Some("Build job failed"));
    assert_eq!(patch.conditions[0].reason, "BuildFailed");
    assert_eq!(out.requeue, Requeue::Long);
}

#[test]
fn active_job_polls_soon() {
    let build = snapshot("demo", 1, Some(status("Building", Some("build-demo"), Some(1))));
    let out = reconcile(&build, &Some(counts(Some(1), None, None)), "t").unwrap();
    assert_eq!(out.requeue, Requeue::Short);
    let patch = out.patch.expect("the message changes");
    assert_eq!(patch.message.as_deref(), Some("Build in progress"));
    assert_eq!(patch.conditions[0].reason, "Building");
    assert!(out.create_job.is_none());
}

#[test]
fn silent_job_polls_soon_without_writing() {
    let build = snapshot("demo", 1, Some(status("Building", Some("build-demo"), Some(1))));
    let out = reconcile(&build, &Some(counts(None, None, None)), "t").unwrap();
    assert_eq!(out.requeue, Requeue::Short);
    assert!(out.patch.is_none());
    assert!(out.create_job.is_none());
}

#[test]
fn generation_gating_never_creates() {
    let build = snapshot("demo", 3, Some(status("Building", Some("build-demo"), Some(3))));
    for _ in 0..3 {
        let out = reconcile(&build, &None, "t").unwrap();
        assert!(out.create_job.is_none());
        assert!(out.delete_job.is_none());
        assert_eq!(out.requeue, Requeue::Long);
    }
    let no_ref = snapshot("demo", 3, Some(status("Building", None, Some(3))));
    assert!(no_ref.job_to_observe().is_none());
    let out = reconcile(&no_ref, &None, "t").unwrap();
    assert!(out.create_job.is_none());
    assert_eq!(out.requeue, Requeue::Long);
}

#[test]
fn spec_change_deletes_existing_job_first() {
    let build = snapshot("demo", 2, Some(status("Building", Some("build-demo"), Some(1))));
    assert_eq!(build.job_to_observe().as_deref(), Some("build-demo"));
    let out = reconcile(&build, &Some(counts(Some(1), None, None)), "t").unwrap();
    assert_eq!(out.delete_job.as_deref(), Some("build-demo"));
    assert!(out.create_job.is_none());
    assert!(out.patch.is_none());
    assert_eq!(out.requeue, Requeue::Short);
    // Once the job is gone, the next pass creates it anew.
    let out = reconcile(&build, &None, "t").unwrap();
    assert!(out.delete_job.is_none());
    assert_eq!(out.create_job.unwrap().name, "build-demo");
    assert_eq!(out.patch.unwrap().observed_generation, Some(2));
}

#[test]
fn terminal_phases_absorb() {
    for phase in ["Completed", "Failed", "Deployed"] {
        let build = snapshot("demo", 5, Some(status(phase, Some("build-demo"), Some(1))));
        assert!(build.job_to_observe().is_none());
        let out = reconcile(&build, &Some(counts(Some(1), None, None)), "t").unwrap();
        assert_eq!(out.requeue, Requeue::AwaitChange);
        assert!(out.create_job.is_none());
        assert!(out.delete_job.is_none());
        assert!(out.patch.is_none());
    }
}

#[test]
fn missing_owner_is_an_error() {
    let mut build = snapshot("demo", 1, None);
    build.owner = None;
    assert!(matches!(reconcile(&build, &None, "t"), Err(ReconcileError::MissingOwner)));
}

#[test]
fn job_factory_builds_one_shot_job() {
    assert_eq!(job_name_for("demo"), "build-demo");
    let job = create_build_job(&scenario_spec(), "build-demo".to_string(), owner("demo"));
    assert_eq!(job.name, "build-demo");
    assert_eq!(job.backoff_limit, 0);
    assert_eq!(job.restart_policy, "Never");
    assert_eq!(job.container_name, "builder");
    assert_eq!(job.image_pull_secret, "nix-serve-regcred");
    assert_eq!(job.command.len(), 3);
    assert_eq!(job.command[0], "/bin/bash");
    assert_eq!(job.command[1], "-c");
    assert!(job.command[2].contains("build .#default"));
    assert!(job.command[2].contains(CACHE_HOST));
    assert_eq!(job.env.len(), 3);
    assert_eq!(job.env[0].name, "BUILD_NAME");
    assert!(matches!(&job.env[0].source, EnvSource::Literal(v) if v == "build-demo"));
    assert!(matches!(&job.env[1].source, EnvSource::SecretKey { secret, key } if secret == "zot-creds" && key == "ZOT_USERNAME"));
    assert!(matches!(&job.env[2].source, EnvSource::SecretKey { key, .. } if key == "ZOT_PASSWORD"));
}

#[test]
fn job_factory_defaults_attribute() {
    let spec = NixBuildSpec::new("r".to_string(), None, None, "i".to_string());
    let job = create_build_job(&spec, "build-x".to_string(), owner("x"));
    assert!(job.command[2].contains("build .#default \\"));
    let spec = NixBuildSpec::new("r".to_string(), None, Some("server".to_string()), "i".to_string());
    let job = create_build_job(&spec, "build-x".to_string(), owner("x"));
    assert!(job.command[2].contains("build .#server \\"));
    // The same request gives the same job.
    let again = create_build_job(&spec, "build-x".to_string(), owner("x"));
    assert_eq!(job.command, again.command);
}
