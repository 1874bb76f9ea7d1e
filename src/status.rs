//! The build request resource, its observed status and the condition list
//! that the status carries.

use vstd::prelude::*;

use crate::clock::current_timestamp;

verus! {

/// The phases of a build: Pending before anything was done, then Building,
/// and the terminal Completed, Failed and Deployed (a status event may also
/// name the intermediate Checking and Deploying).
pub open spec fn phase_pending() -> Seq<char> {
    "Pending"@
}

pub open spec fn phase_building() -> Seq<char> {
    "Building"@
}

pub open spec fn phase_completed() -> Seq<char> {
    "Completed"@
}

pub open spec fn phase_failed() -> Seq<char> {
    "Failed"@
}

pub open spec fn phase_deployed() -> Seq<char> {
    "Deployed"@
}

/// Completed, Failed and Deployed are terminal: no reconcile pass leaves them.
pub open spec fn is_terminal(phase: Seq<char>) -> bool {
    phase == phase_completed() || phase == phase_failed() || phase == phase_deployed()
}

/// A typed, timestamped fact attached to a build status (for example "Ready").
pub struct BuildCondition {
    pub type_: String,
    pub status: String,
    pub reason: String,
    pub message: String,
    pub last_transition_time: Option<String>,
    pub observed_generation: Option<i64>,
}

/// The mathematical value of a `BuildCondition`.
pub struct ConditionView {
    pub kind: Seq<char>,
    pub status: Seq<char>,
    pub reason: Seq<char>,
    pub message: Seq<char>,
    pub last_transition_time: Option<Seq<char>>,
    pub observed_generation: Option<i64>,
}

/// The text of an optional string.
pub open spec fn text_opt(o: Option<String>) -> Option<Seq<char>> {
    match o {
        Some(s) => Some(s@),
        None => None,
    }
}

impl View for BuildCondition {
    type V = ConditionView;

    open spec fn view(&self) -> ConditionView {
        ConditionView {
            kind: self.type_@,
            status: self.status@,
            reason: self.reason@,
            message: self.message@,
            last_transition_time: text_opt(self.last_transition_time),
            observed_generation: self.observed_generation,
        }
    }
}

/// String equality, stated over views.
pub fn text_eq(a: &String, b: &String) -> (r: bool)
    ensures
        r == (a@ == b@),
{
    <String as PartialEq>::eq(a, b)
}

/// Whether a string holds the given text.
pub fn text_is(a: &String, b: &str) -> (r: bool)
    ensures
        r == (a@ == b@),
{
    let t = b.to_owned();
    text_eq(a, &t)
}

/// Equality of optional strings, stated over views.
pub fn text_opt_eq(a: &Option<String>, b: &Option<String>) -> (r: bool)
    ensures
        r == (text_opt(*a) == text_opt(*b)),
{
    match (a, b) {
        (Some(x), Some(y)) => text_eq(x, y),
        (None, None) => true,
        _ => false,
    }
}

/// A copy of an optional string.
pub fn copy_text_opt(a: &Option<String>) -> (r: Option<String>)
    ensures
        text_opt(r) == text_opt(*a),
{
    match a {
        Some(x) => Some(x.clone()),
        None => None,
    }
}

impl BuildCondition {
    /// A copy of the condition with the same value.
    pub fn duplicate(&self) -> (r: BuildCondition)
        ensures
            r@ == self@,
    {
        BuildCondition {
            type_: self.type_.clone(),
            status: self.status.clone(),
            reason: self.reason.clone(),
            message: self.message.clone(),
            last_transition_time: copy_text_opt(&self.last_transition_time),
            observed_generation: self.observed_generation,
        }
    }
}

/// What a build request asks for: the source repository, an optional
/// reference in it, an optional build attribute, and the image to publish.
pub struct NixBuildSpec {
    pub git_repo: String,
    pub git_ref: Option<String>,
    pub nix_attr: Option<String>,
    pub image_name: String,
}

impl NixBuildSpec {
    pub fn new(
        git_repo: String,
        git_ref: Option<String>,
        nix_attr: Option<String>,
        image_name: String,
    ) -> (r: Self)
        ensures
            r.git_repo == git_repo,
            r.git_ref == git_ref,
            r.nix_attr == nix_attr,
            r.image_name == image_name,
    {
        Self { git_repo, git_ref, nix_attr, image_name }
    }
}

/// The observed status of a build request.
pub struct NixBuildStatus {
    pub phase: String,
    pub job_name: Option<String>,
    pub message: Option<String>,
    pub conditions: Vec<BuildCondition>,
    pub observed_generation: Option<i64>,
    pub last_transition_time: Option<String>,
}

/// The mathematical value of a `NixBuildStatus`.
pub struct StatusView {
    pub phase: Seq<char>,
    pub job_name: Option<Seq<char>>,
    pub message: Option<Seq<char>>,
    pub conditions: Seq<ConditionView>,
    pub observed_generation: Option<i64>,
    pub last_transition_time: Option<Seq<char>>,
}

pub open spec fn conditions_view(conds: Seq<BuildCondition>) -> Seq<ConditionView> {
    conds.map_values(|c: BuildCondition| c@)
}

impl View for NixBuildStatus {
    type V = StatusView;

    open spec fn view(&self) -> StatusView {
        StatusView {
            phase: self.phase@,
            job_name: text_opt(self.job_name),
            message: text_opt(self.message),
            conditions: conditions_view(self.conditions@),
            observed_generation: self.observed_generation,
            last_transition_time: text_opt(self.last_transition_time),
        }
    }
}

/// The status of a build request that nothing has acted on yet.
pub open spec fn pending_status() -> StatusView {
    StatusView {
        phase: phase_pending(),
        job_name: None,
        message: None,
        conditions: Seq::empty(),
        observed_generation: None,
        last_transition_time: None,
    }
}

/// The field-wise difference rule: a status write is owed when the phase,
/// the job reference, the message, the observed generation or the number of
/// conditions differ.
pub open spec fn needs_update_spec(cur: StatusView, new: StatusView) -> bool {
    cur.phase != new.phase || cur.job_name != new.job_name || cur.message != new.message
        || cur.observed_generation != new.observed_generation || cur.conditions.len()
        != new.conditions.len()
}

/// The index of the first condition of the given type at or after `i`, or -1.
pub open spec fn index_from(conds: Seq<ConditionView>, kind: Seq<char>, i: int) -> int
    decreases conds.len() - i,
{
    if i < 0 || i >= conds.len() {
        -1
    } else if conds[i].kind == kind {
        i
    } else {
        index_from(conds, kind, i + 1)
    }
}

/// `index_from` finds the first condition of the type at or after `i`.
pub proof fn lemma_index_from(conds: Seq<ConditionView>, kind: Seq<char>, i: int)
    requires
        0 <= i,
    ensures
        ({
            let r = index_from(conds, kind, i);
            &&& r == -1 || (i <= r < conds.len() && conds[r].kind == kind)
            &&& forall|j: int| i <= j < conds.len() && (r == -1 || j < r) ==> conds[j].kind != kind
        }),
    decreases conds.len() - i,
{
    if i < conds.len() && conds[i].kind != kind {
        lemma_index_from(conds, kind, i + 1);
    }
}

/// Sequences with the same types at the same places give the same index.
pub proof fn lemma_index_same_kinds(a: Seq<ConditionView>, b: Seq<ConditionView>, kind: Seq<char>, i: int)
    requires
        0 <= i,
        a.len() == b.len(),
        forall|j: int| 0 <= j < a.len() ==> a[j].kind == b[j].kind,
    ensures
        index_from(a, kind, i) == index_from(b, kind, i),
    decreases a.len() - i,
{
    if i < a.len() {
        lemma_index_same_kinds(a, b, kind, i + 1);
    }
}

/// Appending a condition leaves an earlier match in place.
pub proof fn lemma_index_push(a: Seq<ConditionView>, c: ConditionView, kind: Seq<char>, i: int)
    requires
        0 <= i <= a.len(),
    ensures
        index_from(a.push(c), kind, i) == (if index_from(a, kind, i) != -1 {
            index_from(a, kind, i)
        } else if c.kind == kind {
            a.len() as int
        } else {
            -1
        }),
    decreases a.len() - i,
{
    if i < a.len() {
        assert(a.push(c)[i] == a[i]);
        lemma_index_push(a, c, kind, i + 1);
    } else {
        assert(a.push(c)[i] == c);
        assert(index_from(a.push(c), kind, i + 1) == -1);
    }
}

/// The index of the first condition of the given type, or -1 where there is none.
pub open spec fn condition_index(conds: Seq<ConditionView>, kind: Seq<char>) -> int {
    index_from(conds, kind, 0)
}

/// No two conditions share a type.
pub open spec fn conditions_unique(conds: Seq<ConditionView>) -> bool {
    forall|i: int, j: int|
        0 <= i < conds.len() && 0 <= j < conds.len() && i != j ==> conds[i].kind != conds[j].kind
}

/// Condition upsert by type. A new type is appended with the given time; an
/// existing one is rewritten, with the given time, only where its status or
/// message differs, and is otherwise left as it is. The status's own
/// transition time follows the condition's.
pub open spec fn upsert_condition(
    s: StatusView,
    kind: Seq<char>,
    status: Seq<char>,
    reason: Seq<char>,
    message: Seq<char>,
    now: Seq<char>,
) -> StatusView {
    let i = condition_index(s.conditions, kind);
    if i < 0 {
        StatusView {
            conditions: s.conditions.push(
                ConditionView {
                    kind,
                    status,
                    reason,
                    message,
                    last_transition_time: Some(now),
                    observed_generation: None,
                },
            ),
            last_transition_time: Some(now),
            ..s
        }
    } else if s.conditions[i].status == status && s.conditions[i].message == message {
        s
    } else {
        StatusView {
            conditions: s.conditions.update(
                i,
                ConditionView {
                    status,
                    reason,
                    message,
                    last_transition_time: Some(now),
                    ..s.conditions[i]
                },
            ),
            last_transition_time: Some(now),
            ..s
        }
    }
}

impl Default for NixBuildStatus {
    /// An absent status reads as Pending.
    fn default() -> (r: NixBuildStatus)
        ensures
            r@ == pending_status(),
    {
        NixBuildStatus::pending()
    }
}

impl NixBuildStatus {
    /// The status of a request that nothing has acted on yet: phase Pending.
    pub fn pending() -> (r: NixBuildStatus)
        ensures
            r@ == pending_status(),
    {
        let r = NixBuildStatus {
            phase: "Pending".to_owned(),
            job_name: None,
            message: None,
            conditions: Vec::new(),
            observed_generation: None,
            last_transition_time: None,
        };
        assert(r@.conditions =~= Seq::<ConditionView>::empty());
        r
    }

    /// A copy with the same value.
    pub fn duplicate(&self) -> (r: NixBuildStatus)
        ensures
            r@ == self@,
    {
        let mut conditions: Vec<BuildCondition> = Vec::new();
        let n = self.conditions.len();
        let mut i: usize = 0;
        while i < n
            invariant
                n == self.conditions.len(),
                0 <= i <= n,
                conditions@.len() == i,
                forall|j: int| 0 <= j < i ==> (#[trigger] conditions@[j])@ == self.conditions@[j]@,
            decreases n - i,
        {
            let c = self.conditions[i].duplicate();
            conditions.push(c);
            i = i + 1;
        }
        assert(conditions_view(conditions@) =~= conditions_view(self.conditions@));
        NixBuildStatus {
            phase: self.phase.clone(),
            job_name: copy_text_opt(&self.job_name),
            message: copy_text_opt(&self.message),
            conditions,
            observed_generation: self.observed_generation,
            last_transition_time: copy_text_opt(&self.last_transition_time),
        }
    }

    /// Whether `new_status` differs from `self` by the field-wise rule.
    pub fn needs_update(&self, new_status: &NixBuildStatus) -> (r: bool)
        ensures
            r == needs_update_spec(self@, new_status@),
    {
        !text_eq(&self.phase, &new_status.phase) || !text_opt_eq(&self.job_name, &new_status.job_name)
            || !text_opt_eq(&self.message, &new_status.message) || self.observed_generation
            != new_status.observed_generation || self.conditions.len()
            != new_status.conditions.len()
    }

    /// The index of the first condition of type `kind`, if any.
    pub fn find_condition(&self, kind: &String) -> (r: Option<usize>)
        ensures
            match r {
                Some(i) => i as int == condition_index(self@.conditions, kind@),
                None => condition_index(self@.conditions, kind@) == -1,
            },
    {
        let ghost conds = self@.conditions;
        let n = self.conditions.len();
        let mut i: usize = 0;
        while i < n
            invariant
                n == self.conditions.len(),
                conds == self@.conditions,
                0 <= i <= n,
                condition_index(conds, kind@) == index_from(conds, kind@, i as int),
            decreases n - i,
        {
            if text_eq(&self.conditions[i].type_, kind) {
                return Some(i);
            }
            i = i + 1;
        }
        None
    }

    /// Condition upsert by type, stamped with the current time.
    pub fn set_condition(&mut self, type_: &str, status: &str, reason: &str, message: &str)
        ensures
            exists|now: Seq<char>|
                final(self)@ == upsert_condition(old(self)@, type_@, status@, reason@, message@, now),
            conditions_unique(old(self)@.conditions) ==> conditions_unique(final(self)@.conditions),
    {
        let now = current_timestamp();
        self.set_condition_at(type_, status, reason, message, now.as_str());
    }

    /// Condition upsert by type, at the given time (see `upsert_condition`).
    pub fn set_condition_at(
        &mut self,
        type_: &str,
        status: &str,
        reason: &str,
        message: &str,
        now: &str,
    )
        ensures
            final(self)@ == upsert_condition(old(self)@, type_@, status@, reason@, message@, now@),
            conditions_unique(old(self)@.conditions) ==> conditions_unique(final(self)@.conditions),
    {
        let ghost s0 = self@;
        let kind = type_.to_owned();
        proof {
            lemma_index_from(self@.conditions, type_@, 0);
        }
        match self.find_condition(&kind) {
            Some(i) => {
                let existing = &self.conditions[i];
                if text_is(&existing.status, status) && text_is(&existing.message, message) {
                    return;
                }
                let updated = BuildCondition {
                    type_: existing.type_.clone(),
                    status: status.to_owned(),
                    reason: reason.to_owned(),
                    message: message.to_owned(),
                    last_transition_time: Some(now.to_owned()),
                    observed_generation: existing.observed_generation,
                };
                let ghost u = updated@;
                self.conditions.set(i, updated);
                self.last_transition_time = Some(now.to_owned());
                assert(self@.conditions =~= s0.conditions.update(i as int, u));
            },
            None => {
                self.conditions.push(
                    BuildCondition {
                        type_: kind,
                        status: status.to_owned(),
                        reason: reason.to_owned(),
                        message: message.to_owned(),
                        last_transition_time: Some(now.to_owned()),
                        observed_generation: None,
                    },
                );
                self.last_transition_time = Some(now.to_owned());
                assert(self@.conditions =~= s0.conditions.push(
                    ConditionView {
                        kind: type_@,
                        status: status@,
                        reason: reason@,
                        message: message@,
                        last_transition_time: Some(now@),
                        observed_generation: None,
                    },
                ));
            },
        }
    }
}

/// Setting a condition a second time with the same type, status and message
/// writes nothing: the status stays as the first call left it, transition
/// times included, whatever time the second call is given.
pub proof fn lemma_condition_upsert_idempotent(
    s: StatusView,
    kind: Seq<char>,
    status: Seq<char>,
    reason: Seq<char>,
    message: Seq<char>,
    t1: Seq<char>,
    t2: Seq<char>,
)
    ensures
        upsert_condition(upsert_condition(s, kind, status, reason, message, t1), kind, status, reason, message, t2)
            == upsert_condition(s, kind, status, reason, message, t1),
{
    let s1 = upsert_condition(s, kind, status, reason, message, t1);
    let i = condition_index(s.conditions, kind);
    lemma_index_from(s.conditions, kind, 0);
    if i < 0 {
        let c = ConditionView {
            kind,
            status,
            reason,
            message,
            last_transition_time: Some(t1),
            observed_generation: None,
        };
        lemma_index_push(s.conditions, c, kind, 0);
        assert(condition_index(s1.conditions, kind) == s.conditions.len());
    } else if !(s.conditions[i].status == status && s.conditions[i].message == message) {
        lemma_index_same_kinds(s.conditions, s1.conditions, kind, 0);
    }
}

/// Setting a condition whose type is present with another status rewrites it
/// with the new status and stamps it, and the status, with the given time.
pub proof fn lemma_condition_status_change_stamps(
    s: StatusView,
    kind: Seq<char>,
    status: Seq<char>,
    reason: Seq<char>,
    message: Seq<char>,
    now: Seq<char>,
)
    requires
        0 <= condition_index(s.conditions, kind),
        s.conditions[condition_index(s.conditions, kind)].status != status,
    ensures
        ({
            let i = condition_index(s.conditions, kind);
            let s1 = upsert_condition(s, kind, status, reason, message, now);
            &&& s1.conditions.len() == s.conditions.len()
            &&& s1.conditions[i].kind == kind
            &&& s1.conditions[i].status == status
            &&& s1.conditions[i].last_transition_time == Some(now)
            &&& s1.last_transition_time == Some(now)
        }),
{
    lemma_index_from(s.conditions, kind, 0);
}

/// Where condition types are unique, the index of a type is the place of
/// the one condition of that type.
pub proof fn lemma_unique_index(conds: Seq<ConditionView>, kind: Seq<char>, i: int)
    requires
        conditions_unique(conds),
        0 <= i < conds.len(),
        conds[i].kind == kind,
    ensures
        condition_index(conds, kind) == i,
{
    lemma_index_from(conds, kind, 0);
}

/// Where condition types are unique, setting a condition that is present
/// with the same status and message changes nothing, transition times
/// included, whatever the time given.
pub proof fn lemma_condition_unchanged_at(
    s: StatusView,
    i: int,
    status: Seq<char>,
    reason: Seq<char>,
    message: Seq<char>,
    now: Seq<char>,
)
    requires
        conditions_unique(s.conditions),
        0 <= i < s.conditions.len(),
        s.conditions[i].status == status,
        s.conditions[i].message == message,
    ensures
        upsert_condition(s, s.conditions[i].kind, status, reason, message, now) == s,
{
    lemma_unique_index(s.conditions, s.conditions[i].kind, i);
}

/// Where condition types are unique, setting a condition that is present
/// with another status rewrites exactly that condition, stamped with the
/// given time, and stamps the status; nothing else changes.
pub proof fn lemma_condition_changed_at(
    s: StatusView,
    i: int,
    status: Seq<char>,
    reason: Seq<char>,
    message: Seq<char>,
    now: Seq<char>,
)
    requires
        conditions_unique(s.conditions),
        0 <= i < s.conditions.len(),
        s.conditions[i].status != status,
    ensures
        upsert_condition(s, s.conditions[i].kind, status, reason, message, now) == (StatusView {
            conditions: s.conditions.update(
                i,
                ConditionView {
                    kind: s.conditions[i].kind,
                    status,
                    reason,
                    message,
                    last_transition_time: Some(now),
                    observed_generation: s.conditions[i].observed_generation,
                },
            ),
            last_transition_time: Some(now),
            ..s
        }),
{
    lemma_unique_index(s.conditions, s.conditions[i].kind, i);
}

} // verus!
