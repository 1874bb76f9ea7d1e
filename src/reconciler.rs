//! The reconciler: one level-triggered pass over a build request. A pass
//! reads the request, looks at most at one backing job, and decides which
//! writes to make and when to look again. The caller performs the lookup and
//! the writes; the decisions are here.

use vstd::prelude::*;

use crate::job::{
    build_job_spec, create_build_job, job_name_for, job_name_spec, BuildJob, BuildJobView,
    OwnerRef, OwnerRefView,
};
use crate::status::{
    is_terminal, needs_update_spec, pending_status, phase_building, phase_completed, phase_failed,
    lemma_index_from, text_is, upsert_condition, condition_index, NixBuildSpec, NixBuildStatus, StatusView,
};

verus! {

/// Seconds before the next pass while a job is in flight.
pub const SHORT_REQUEUE_SECS: u64 = 30;

/// Seconds before the next pass once things are stable.
pub const LONG_REQUEUE_SECS: u64 = 300;

/// Seconds before the next pass after a pass failed.
pub const ERROR_REQUEUE_SECS: u64 = 60;

/// The counts a backing job reports; a count the job has not reported is
/// `None`.
#[derive(Clone, Copy, Debug, PartialEq, Eq, Structural)]
pub struct JobCounts {
    pub active: Option<i32>,
    pub succeeded: Option<i32>,
    pub failed: Option<i32>,
}

pub open spec fn positive(c: Option<i32>) -> bool {
    match c {
        Some(n) => n > 0,
        None => false,
    }
}

fn positive_count(c: Option<i32>) -> (r: bool)
    ensures
        r == positive(c),
{
    match c {
        Some(n) => n > 0,
        None => false,
    }
}

/// The status projector: what a job's counts say of a status. Success wins
/// over failure, failure over activity; a job that reports nothing leaves the
/// status as it is.
pub open spec fn project_status(s: StatusView, job: JobCounts, now: Seq<char>) -> StatusView {
    if positive(job.succeeded) {
        upsert_condition(
            StatusView {
                phase: phase_completed(),
                message: Some("Build completed successfully"@),
                ..s
            },
            "Ready"@,
            "True"@,
            "BuildSucceeded"@,
            "Build job completed successfully"@,
            now,
        )
    } else if positive(job.failed) {
        upsert_condition(
            StatusView { phase: phase_failed(), message: Some("Build job failed"@), ..s },
            "Ready"@,
            "False"@,
            "BuildFailed"@,
            "Build job failed to complete"@,
            now,
        )
    } else if positive(job.active) {
        upsert_condition(
            StatusView { phase: phase_building(), message: Some("Build in progress"@), ..s },
            "Ready"@,
            "False"@,
            "Building"@,
            "Build job is running"@,
            now,
        )
    } else {
        s
    }
}

/// Projects a job's counts into a status, at the given time.
pub fn update_status_from_job(status: &mut NixBuildStatus, job: &JobCounts, now: &str)
    ensures
        final(status)@ == project_status(old(status)@, *job, now@),
{
    if positive_count(job.succeeded) {
        status.phase = "Completed".to_owned();
        status.message = Some("Build completed successfully".to_owned());
        status.set_condition_at(
            "Ready",
            "True",
            "BuildSucceeded",
            "Build job completed successfully",
            now,
        );
    } else if positive_count(job.failed) {
        status.phase = "Failed".to_owned();
        status.message = Some("Build job failed".to_owned());
        status.set_condition_at("Ready", "False", "BuildFailed", "Build job failed to complete", now);
    } else if positive_count(job.active) {
        status.phase = "Building".to_owned();
        status.message = Some("Build in progress".to_owned());
        status.set_condition_at("Ready", "False", "Building", "Build job is running", now);
    }
}

/// When to run the next pass over a request.
#[derive(Clone, Copy, Debug, PartialEq, Eq, Structural)]
pub enum Requeue {
    /// Soon: work is in flight.
    Short,
    /// Later: nothing is expected to change soon.
    Long,
    /// Only when the request changes.
    AwaitChange,
}

impl Requeue {
    /// The delay in seconds, or `None` for no timed pass at all.
    pub fn seconds(&self) -> (r: Option<u64>)
        ensures
            r == match *self {
                Requeue::Short => Some(SHORT_REQUEUE_SECS),
                Requeue::Long => Some(LONG_REQUEUE_SECS),
                Requeue::AwaitChange => None::<u64>,
            },
    {
        match self {
            Requeue::Short => Some(SHORT_REQUEUE_SECS),
            Requeue::Long => Some(LONG_REQUEUE_SECS),
            Requeue::AwaitChange => None,
        }
    }
}

/// The delay in seconds before a pass that failed is run again.
pub fn error_policy() -> (r: u64)
    ensures
        r == ERROR_REQUEUE_SECS,
{
    ERROR_REQUEUE_SECS
}

/// Why a reconcile pass could not decide.
#[derive(Clone, Copy, Debug, PartialEq, Eq, Structural)]
pub enum ReconcileError {
    /// A job must be created and the request has no identity to own it.
    MissingOwner,
}

/// What a pass reads of a build request.
pub struct BuildSnapshot {
    pub name: String,
    pub generation: Option<i64>,
    pub spec: NixBuildSpec,
    pub status: Option<NixBuildStatus>,
    /// The owner link for a job of this request, where the request has an
    /// identity the control plane gave it.
    pub owner: Option<OwnerRef>,
}

/// The status a pass starts from: the request's own, or Pending.
pub open spec fn current_status(b: BuildSnapshot) -> StatusView {
    match b.status {
        Some(s) => s@,
        None => pending_status(),
    }
}

/// The job a pass looks at, if any, for a request of the given name and
/// generation whose status is `cur`: none once the phase is terminal; the
/// referenced job while the generation is unchanged; the request's own job
/// name after a spec change.
pub open spec fn observed_job(name: Seq<char>, generation: Option<i64>, cur: StatusView) -> Option<Seq<char>> {
    if is_terminal(cur.phase) {
        None
    } else if cur.observed_generation == generation {
        cur.job_name
    } else {
        Some(job_name_spec(name))
    }
}

pub open spec fn job_to_observe(b: BuildSnapshot) -> Option<Seq<char>> {
    observed_job(b.name@, b.generation, current_status(b))
}

/// What a pass does: a job to delete, a job to create, a status to write (in
/// that order), and when to run again.
pub struct Outcome {
    pub delete_job: Option<String>,
    pub create_job: Option<BuildJob>,
    pub patch: Option<NixBuildStatus>,
    pub requeue: Requeue,
}

pub struct OutcomeView {
    pub delete_job: Option<Seq<char>>,
    pub create_job: Option<BuildJobView>,
    pub patch: Option<StatusView>,
    pub requeue: Requeue,
}

impl View for Outcome {
    type V = OutcomeView;

    open spec fn view(&self) -> OutcomeView {
        OutcomeView {
            delete_job: match self.delete_job {
                Some(n) => Some(n@),
                None => None,
            },
            create_job: match self.create_job {
                Some(j) => Some(j@),
                None => None,
            },
            patch: match self.patch {
                Some(p) => Some(p@),
                None => None,
            },
            requeue: self.requeue,
        }
    }
}

/// A pass that writes nothing.
pub open spec fn quiet(requeue: Requeue) -> OutcomeView {
    OutcomeView { delete_job: None, create_job: None, patch: None, requeue }
}

/// The status a pass writes after a spec change: phase Building, the new
/// job's name, the generation acted on, and Ready=False/BuildStarting.
pub open spec fn fresh_status(name: Seq<char>, generation: Option<i64>, cur: StatusView, now: Seq<char>) -> StatusView {
    upsert_condition(
        StatusView {
            job_name: Some(job_name_spec(name)),
            phase: phase_building(),
            message: Some("Creating build job"@),
            observed_generation: generation,
            ..cur
        },
        "Ready"@,
        "False"@,
        "BuildStarting"@,
        "Creating new build job"@,
        now,
    )
}

/// Poll soon while the job is active, or while it has reported nothing yet.
pub open spec fn polls_soon(job: JobCounts) -> bool {
    positive(job.active) || (!positive(job.succeeded) && !positive(job.failed))
}

/// One reconcile pass over a request of the given name, generation and spec
/// whose status is `cur`, given what was observed of the job that
/// `observed_job` names (`None`: no such job, or no job to look at), and the
/// owner link for a new job. `None` here: the pass must create a job and
/// there is no owner link for it.
pub open spec fn pass_spec(
    name: Seq<char>,
    generation: Option<i64>,
    spec: NixBuildSpec,
    cur: StatusView,
    owner: Option<OwnerRefView>,
    job: Option<JobCounts>,
    now: Seq<char>,
) -> Option<OutcomeView> {
    if is_terminal(cur.phase) {
        Some(quiet(Requeue::AwaitChange))
    } else if cur.observed_generation == generation {
        match (cur.job_name, job) {
            (Some(_), Some(c)) => {
                let new = project_status(cur, c, now);
                Some(
                    OutcomeView {
                        delete_job: None,
                        create_job: None,
                        patch: if needs_update_spec(cur, new) {
                            Some(new)
                        } else {
                            None
                        },
                        requeue: if polls_soon(c) {
                            Requeue::Short
                        } else {
                            Requeue::Long
                        },
                    },
                )
            },
            _ => Some(quiet(Requeue::Long)),
        }
    } else {
        let job_name = job_name_spec(name);
        match job {
            Some(_) => Some(
                OutcomeView { delete_job: Some(job_name), create_job: None, patch: None, requeue: Requeue::Short },
            ),
            None => match owner {
                None => None,
                Some(o) => Some(
                    OutcomeView {
                        delete_job: None,
                        create_job: Some(build_job_spec(spec, job_name, o)),
                        patch: Some(fresh_status(name, generation, cur, now)),
                        requeue: Requeue::Short,
                    },
                ),
            },
        }
    }
}

pub open spec fn owner_view(b: BuildSnapshot) -> Option<OwnerRefView> {
    match b.owner {
        Some(o) => Some(o@),
        None => None,
    }
}

/// One reconcile pass over the request `b` (see `pass_spec`).
pub open spec fn reconcile_spec(b: BuildSnapshot, job: Option<JobCounts>, now: Seq<char>) -> Option<OutcomeView> {
    pass_spec(b.name@, b.generation, b.spec, current_status(b), owner_view(b), job, now)
}

fn is_terminal_phase(phase: &String) -> (r: bool)
    ensures
        r == is_terminal(phase@),
{
    text_is(phase, "Completed") || text_is(phase, "Failed") || text_is(phase, "Deployed")
}

fn same_generation(a: Option<i64>, b: Option<i64>) -> (r: bool)
    ensures
        r == (a == b),
{
    match (a, b) {
        (Some(x), Some(y)) => x == y,
        (None, None) => true,
        _ => false,
    }
}

fn starting_status(build: &BuildSnapshot) -> (r: NixBuildStatus)
    ensures
        r@ == current_status(*build),
{
    match &build.status {
        Some(s) => s.duplicate(),
        None => NixBuildStatus::pending(),
    }
}

fn quiet_outcome(requeue: Requeue) -> (r: Outcome)
    ensures
        r@ == quiet(requeue),
{
    Outcome { delete_job: None, create_job: None, patch: None, requeue }
}

impl BuildSnapshot {
    /// The name of the job a pass over this request looks at, if any.
    pub fn job_to_observe(&self) -> (r: Option<String>)
        ensures
            match r {
                Some(n) => job_to_observe(*self) == Some(n@),
                None => job_to_observe(*self) is None,
            },
    {
        let cur = starting_status(self);
        if is_terminal_phase(&cur.phase) {
            None
        } else if same_generation(cur.observed_generation, self.generation) {
            cur.job_name
        } else {
            Some(job_name_for(self.name.as_str()))
        }
    }
}

/// One reconcile pass over `build`; `job` is what was observed of the job
/// that `build.job_to_observe()` names, `None` where there is no such job.
pub fn reconcile(build: &BuildSnapshot, job: &Option<JobCounts>, now: &str) -> (r: Result<Outcome, ReconcileError>)
    ensures
        match r {
            Ok(o) => reconcile_spec(*build, *job, now@) == Some(o@),
            Err(e) => reconcile_spec(*build, *job, now@) is None && e == ReconcileError::MissingOwner,
        },
{
    let current = starting_status(build);
    if is_terminal_phase(&current.phase) {
        return Ok(quiet_outcome(Requeue::AwaitChange));
    }
    if same_generation(current.observed_generation, build.generation) {
        if current.job_name.is_some() {
            if let Some(counts) = job {
                let mut new_status = current.duplicate();
                update_status_from_job(&mut new_status, counts, now);
                let requeue = if positive_count(counts.active) || (!positive_count(counts.succeeded)
                    && !positive_count(counts.failed)) {
                    Requeue::Short
                } else {
                    Requeue::Long
                };
                let patch = if current.needs_update(&new_status) {
                    Some(new_status)
                } else {
                    None
                };
                return Ok(Outcome { delete_job: None, create_job: None, patch, requeue });
            }
        }
        return Ok(quiet_outcome(Requeue::Long));
    }
    let job_name = job_name_for(build.name.as_str());
    if job.is_some() {
        return Ok(
            Outcome {
                delete_job: Some(job_name),
                create_job: None,
                patch: None,
                requeue: Requeue::Short,
            },
        );
    }
    match &build.owner {
        None => Err(ReconcileError::MissingOwner),
        Some(owner) => {
            let mut new_status = current;
            new_status.job_name = Some(job_name.clone());
            new_status.phase = "Building".to_owned();
            new_status.message = Some("Creating build job".to_owned());
            new_status.observed_generation = build.generation;
            new_status.set_condition_at(
                "Ready",
                "False",
                "BuildStarting",
                "Creating new build job",
                now,
            );
            let created = create_build_job(&build.spec, job_name, owner.duplicate());
            Ok(
                Outcome {
                    delete_job: None,
                    create_job: Some(created),
                    patch: Some(new_status),
                    requeue: Requeue::Short,
                },
            )
        },
    }
}

/// Terminal absorption: once the phase is Completed, Failed or Deployed, a
/// pass looks at no job, creates and deletes nothing, writes nothing, and
/// waits for the request to change.
pub proof fn lemma_terminal_absorbs(
    name: Seq<char>,
    generation: Option<i64>,
    spec: NixBuildSpec,
    cur: StatusView,
    owner: Option<OwnerRefView>,
    job: Option<JobCounts>,
    now: Seq<char>,
)
    requires
        is_terminal(cur.phase),
    ensures
        observed_job(name, generation, cur) is None,
        pass_spec(name, generation, spec, cur, owner, job, now) == Some(quiet(Requeue::AwaitChange)),
{
}

/// Generation gating: while the status has acted on the request's current
/// generation, a pass creates no job and deletes none, and a status it
/// writes still records that generation, so the next pass is gated too.
pub proof fn lemma_generation_gating(
    name: Seq<char>,
    generation: Option<i64>,
    spec: NixBuildSpec,
    cur: StatusView,
    owner: Option<OwnerRefView>,
    job: Option<JobCounts>,
    now: Seq<char>,
)
    requires
        cur.observed_generation == generation,
    ensures
        pass_spec(name, generation, spec, cur, owner, job, now) matches Some(o) && o.create_job is None
            && o.delete_job is None && (o.patch matches Some(p) ==> p.observed_generation
            == generation),
{
}

/// No job is created over an existing one: a pass creates a job only where
/// it observed no job of the request's deterministic name, and then under
/// that name; it deletes a job only where it observed one of that name, and
/// then creates nothing in the same pass.
pub proof fn lemma_create_only_when_absent(
    name: Seq<char>,
    generation: Option<i64>,
    spec: NixBuildSpec,
    cur: StatusView,
    owner: Option<OwnerRefView>,
    job: Option<JobCounts>,
    now: Seq<char>,
)
    ensures
        pass_spec(name, generation, spec, cur, owner, job, now) matches Some(o) ==> {
            &&& (o.create_job matches Some(j) ==> job is None && o.delete_job is None
                && j.name == job_name_spec(name) && observed_job(name, generation, cur) == Some(
                j.name,
            ))
            &&& (o.delete_job matches Some(d) ==> job is Some && o.create_job is None && d
                == job_name_spec(name) && observed_job(name, generation, cur) == Some(d))
        },
{
}

/// The number of jobs of a given name once a pass's writes are made, from
/// the number before them.
pub open spec fn jobs_after(count: nat, o: OutcomeView, name: Seq<char>) -> nat {
    let kept: nat = if o.delete_job == Some(name) && count > 0 {
        (count - 1) as nat
    } else {
        count
    };
    if o.create_job matches Some(j) && j.name == name {
        kept + 1
    } else {
        kept
    }
}

/// At most one job of the request's deterministic name exists at any time:
/// where there is at most one before a pass, and the pass's observation of
/// that name (when it looks at it) is truthful, there is at most one after
/// the pass's writes.
pub proof fn lemma_at_most_one_job(
    name: Seq<char>,
    generation: Option<i64>,
    spec: NixBuildSpec,
    cur: StatusView,
    owner: Option<OwnerRefView>,
    job: Option<JobCounts>,
    now: Seq<char>,
    count: nat,
)
    requires
        count <= 1,
        observed_job(name, generation, cur) == Some(job_name_spec(name)) ==> (job is Some <==> count
            > 0),
    ensures
        pass_spec(name, generation, spec, cur, owner, job, now) matches Some(o) ==> jobs_after(
            count,
            o,
            job_name_spec(name),
        ) <= 1,
{
    lemma_create_only_when_absent(name, generation, spec, cur, owner, job, now);
}

/// At most one job per generation: once a pass has created the job and its
/// status has been written, no later pass over the same generation creates
/// or deletes a job, whatever it observes.
pub proof fn lemma_single_creation(
    name: Seq<char>,
    generation: Option<i64>,
    spec: NixBuildSpec,
    cur: StatusView,
    owner: Option<OwnerRefView>,
    now: Seq<char>,
    job2: Option<JobCounts>,
    owner2: Option<OwnerRefView>,
    now2: Seq<char>,
)
    requires
        pass_spec(name, generation, spec, cur, owner, None, now) matches Some(o) && o.create_job is Some,
    ensures
        pass_spec(name, generation, spec, cur, owner, None, now) matches Some(o) && o.patch matches Some(
            p,
        ) && pass_spec(name, generation, spec, p, owner2, job2, now2) matches Some(o2)
            && o2.create_job is None && o2.delete_job is None,
{
    let o = pass_spec(name, generation, spec, cur, owner, None, now).unwrap();
    let p = o.patch.unwrap();
    lemma_generation_gating(name, generation, spec, p, owner2, job2, now2);
}

/// A job that succeeded completes its build: while the generation is
/// unchanged, a pass that finds the referenced job succeeded and no longer
/// active writes phase Completed with a Ready condition that is True for
/// reason BuildSucceeded, creates and deletes nothing, and waits long.
/// Where a Ready condition is already True with the same message, the
/// upsert rule keeps it as it is, so that case is left out.
pub proof fn lemma_success_completes(
    name: Seq<char>,
    generation: Option<i64>,
    spec: NixBuildSpec,
    cur: StatusView,
    owner: Option<OwnerRefView>,
    job: JobCounts,
    now: Seq<char>,
)
    requires
        cur.observed_generation == generation,
        cur.job_name is Some,
        !is_terminal(cur.phase),
        positive(job.succeeded),
        !positive(job.active),
        forall|i: int|
            0 <= i < cur.conditions.len() && cur.conditions[i].kind == "Ready"@ ==> cur.conditions[i].status
                != "True"@,
    ensures
        pass_spec(name, generation, spec, cur, owner, Some(job), now) is Some,
        ({
            let o = pass_spec(name, generation, spec, cur, owner, Some(job), now).unwrap();
            &&& o.create_job is None
            &&& o.delete_job is None
            &&& o.requeue == Requeue::Long
            &&& o.patch is Some
            &&& o.patch.unwrap().phase == phase_completed()
            &&& exists|i: int|
                {
                    let c = #[trigger] o.patch.unwrap().conditions[i];
                    &&& 0 <= i < o.patch.unwrap().conditions.len()
                    &&& c.kind == "Ready"@
                    &&& c.status == "True"@
                    &&& c.reason == "BuildSucceeded"@
                    &&& c.last_transition_time == Some(now)
                }
        }),
{
    let s = StatusView { phase: phase_completed(), message: Some("Build completed successfully"@), ..cur };
    let p = project_status(cur, job, now);
    lemma_index_from(s.conditions, "Ready"@, 0);
    let i = condition_index(s.conditions, "Ready"@);
    if i < 0 {
        assert(p.conditions[s.conditions.len() as int].kind == "Ready"@);
    } else {
        assert(p.conditions[i].kind == "Ready"@);
    }
}

} // verus!
