//! The reconciler: one add or modify event, from reading the deployment's
//! identity through the tiers of ensures to the status that records it.
use vstd::prelude::*;
use vstd::string::StringExecFns;

use crate::error::{debug_quoted, missing_property_text, ControllerError};
use crate::configmap::needs_drift_check;
use crate::naming::{config_suffix, nifi_configmap_name};
use crate::plan::{
    join_results, joined, lemma_joined_ok, ops_view, tier_ops, tier_plan, EnsureOp, LAST_TIER,
};
use crate::resource::{is_missing, read_name, read_namespace, Deployment, TemplateKind};
use crate::plan::all_ok;
use crate::sync::{after_render_spec, issues_create, EnsureNext, EnsureOutcome};

verus! {

/// The event that a status records.
#[derive(Clone, Copy, Debug, PartialEq, Eq, Structural)]
pub enum LastAction {
    Add,
    Modify,
    Delete,
}

impl LastAction {
    pub open spec fn label_spec(self) -> Seq<char> {
        match self {
            LastAction::Add => "add"@,
            LastAction::Modify => "modify"@,
            LastAction::Delete => "delete"@,
        }
    }

    pub fn label(self) -> (r: String)
        ensures
            r@ == self.label_spec(),
    {
        match self {
            LastAction::Add => "add".to_owned(),
            LastAction::Modify => "modify".to_owned(),
            LastAction::Delete => "delete".to_owned(),
        }
    }
}

/// What the deployment's status holds after an event: the empty string in
/// `error` for success.
pub struct DeploymentStatus {
    pub error: String,
    pub last_action: String,
}

/// A status to write onto the deployment of this name.
pub struct ReplaceStatus {
    pub name: String,
    pub status: DeploymentStatus,
}

/// The text that a status shows for a failure whose own text is empty: an
/// empty error means success.
pub open spec fn unnamed_failure_text() -> Seq<char> {
    "reconciliation failed"@
}

/// The text that a status shows for the outcome of an event: empty exactly
/// for success.
pub open spec fn outcome_text(outcome: Result<(), ControllerError>) -> Seq<char> {
    match outcome {
        Ok(()) => Seq::empty(),
        Err(e) => if e.text().len() > 0 {
            e.text()
        } else {
            unnamed_failure_text()
        },
    }
}

/// The status for an outcome. Failures are recorded here and never passed
/// on to the dispatcher.
pub fn status_for(action: LastAction, outcome: &Result<(), ControllerError>) -> (r: DeploymentStatus)
    ensures
        r.error@ == outcome_text(*outcome),
        r.error@.len() == 0 <==> outcome is Ok,
        r.last_action@ == action.label_spec(),
{
    proof {
        reveal_strlit("reconciliation failed");
    }
    let error = match outcome {
        Ok(()) => String::new(),
        Err(e) => {
            let m = e.message();
            let empty = String::new();
            proof {
                assert(m@.len() == 0 ==> m@ =~= empty@);
            }
            if m == empty {
                "reconciliation failed".to_owned()
            } else {
                m
            }
        },
    };
    DeploymentStatus { error, last_action: action.label() }
}

/// How an add or modify event begins.
pub enum ActionStart {
    /// Reconcile the deployment of this name.
    Run(String),
    /// The deployment has no name: no cluster call is made, and this status
    /// says why.
    Rejected(DeploymentStatus),
}

/// Reads the name of the deployment that an add or modify event carries.
pub fn start_action(d: &Deployment, action: LastAction) -> (r: ActionStart)
    ensures
        d.name is Some ==> r == ActionStart::Run(d.name->0),
        d.name is None ==> (r matches ActionStart::Rejected(s) && s.error@ == missing_property_text(
            "name"@,
            d.kind@,
        ) && s.last_action@ == action.label_spec()),
{
    proof {
        reveal_strlit("Property ");
    }
    match read_name(d) {
        Ok(n) => ActionStart::Run(n),
        Err(e) => {
            let outcome: Result<(), ControllerError> = Err(e);
            ActionStart::Rejected(status_for(action, &outcome))
        },
    }
}

/// The status that an event on the deployment `name` leaves, given how its
/// run ended.
pub fn finish_action(name: String, action: LastAction, outcome: &Result<(), ControllerError>) -> (r: ReplaceStatus)
    ensures
        r.name == name,
        r.status.error@ == outcome_text(*outcome),
        r.status.error@.len() == 0 <==> outcome is Ok,
        r.status.last_action@ == action.label_spec(),
{
    ReplaceStatus { name, status: status_for(action, outcome) }
}

/// A reconciliation under way: the tier whose ensures are running, or, in
/// the first tier, the drift check of the NiFi ConfigMap that follows them.
pub struct EventRun {
    pub name: String,
    pub namespace: String,
    pub tier: u8,
    pub checking_drift: bool,
}

impl EventRun {
    pub open spec fn wf(&self) -> bool {
        &&& 1 <= self.tier <= LAST_TIER
        &&& self.checking_drift ==> self.tier == 1
    }

    /// `run` and `ops` start tier `tier` of this run.
    pub open spec fn starts_tier(&self, run: EventRun, ops: Vec<EnsureOp>, tier: int) -> bool {
        &&& run.wf()
        &&& run.tier == tier
        &&& !run.checking_drift
        &&& run.name == self.name
        &&& run.namespace == self.namespace
        &&& ops_view(ops@) == tier_plan(tier, self.name@)
    }
}

/// What a run does next.
pub enum EventStep {
    /// Run these ensures, all of them, and report their results in order.
    Next(EventRun, Vec<EnsureOp>),
    /// Check the existing NiFi ConfigMap of this name for drift, and report
    /// how that ended.
    CheckDrift(EventRun, String),
    /// The run is over.
    Finished(Result<(), ControllerError>),
}

/// An ensure's result as its tier counts it.
pub open spec fn unit_of(r: Result<EnsureOutcome, ControllerError>) -> Result<(), ControllerError> {
    match r {
        Ok(_) => Ok(()),
        Err(e) => Err(e),
    }
}

pub open spec fn units(rs: Seq<Result<EnsureOutcome, ControllerError>>) -> Seq<Result<(), ControllerError>> {
    rs.map_values(|r: Result<EnsureOutcome, ControllerError>| unit_of(r))
}

/// The result that an ensure reports to its tier.
pub fn ensure_result(outcome: &Result<EnsureOutcome, ControllerError>) -> (r: Result<(), ControllerError>)
    ensures
        r == unit_of(*outcome),
{
    match outcome {
        Ok(_) => Ok(()),
        Err(e) => Err(e.clone_error()),
    }
}

impl EventRun {
    /// Begins reconciling the deployment `name`: its namespace must be set,
    /// and the first tier is the two ConfigMaps.
    pub fn start(d: &Deployment, name: &str) -> (r: Result<(EventRun, Vec<EnsureOp>), ControllerError>)
        ensures
            d.namespace is None ==> (r matches Err(e) && is_missing(e, "namespace"@, *d)),
            d.namespace is Some ==> (r matches Ok((run, ops)) && run.wf() && run.tier == 1
                && !run.checking_drift && run.name@ == name@ && run.namespace == d.namespace->0
                && ops_view(ops@) == tier_plan(1, name@)),
    {
        match read_namespace(d) {
            Err(e) => Err(e),
            Ok(ns) => {
                let ops = tier_ops(1, name);
                Ok((EventRun { name: name.to_owned(), namespace: ns, tier: 1, checking_drift: false }, ops))
            },
        }
    }

    fn next_tier(self) -> (r: EventStep)
        requires
            self.wf(),
            self.tier < LAST_TIER,
        ensures
            r matches EventStep::Next(run, ops) && self.starts_tier(run, ops, self.tier + 1),
    {
        let tier = self.tier + 1;
        let ops = tier_ops(tier, self.name.as_str());
        EventStep::Next(EventRun { name: self.name, namespace: self.namespace, tier, checking_drift: false }, ops)
    }

    /// After every ensure of the current tier has finished, with their
    /// results in the order of the tier's operations. A failure ends the run
    /// with the first failure; no later tier starts, and nothing already
    /// created is undone. After the ConfigMaps, an existing NiFi ConfigMap is
    /// checked for drift before the next tier.
    pub fn tier_done(self, results: &Vec<Result<EnsureOutcome, ControllerError>>) -> (r: EventStep)
        requires
            self.wf(),
            !self.checking_drift,
            results@.len() == tier_plan(self.tier as int, self.name@).len(),
        ensures
            joined(units(results@)) is Err ==> r == EventStep::Finished(joined(units(results@))),
            joined(units(results@)) is Ok && self.tier == 1 && results@[1] == Ok::<
                EnsureOutcome,
                ControllerError,
            >(EnsureOutcome::Existing) ==> (r matches EventStep::CheckDrift(run, cm) && run.wf()
                && run.checking_drift && run.name == self.name && run.namespace == self.namespace
                && cm@ == self.name@ + config_suffix()),
            joined(units(results@)) is Ok && self.tier == 1 && results@[1] != Ok::<
                EnsureOutcome,
                ControllerError,
            >(EnsureOutcome::Existing) ==> (r matches EventStep::Next(run, ops)
                && self.starts_tier(run, ops, 2)),
            joined(units(results@)) is Ok && self.tier == 2 ==> (r matches EventStep::Next(run, ops)
                && self.starts_tier(run, ops, 3)),
            joined(units(results@)) is Ok && self.tier == LAST_TIER ==> r == EventStep::Finished(
                Ok(()),
            ),
    {
        let mut rs: Vec<Result<(), ControllerError>> = Vec::new();
        let mut i: usize = 0;
        while i < results.len()
            invariant
                0 <= i <= results.len(),
                rs@ == units(results@).take(i as int),
            decreases results.len() - i,
        {
            rs.push(ensure_result(&results[i]));
            proof {
                assert(rs@ =~= units(results@).take(i + 1));
            }
            i = i + 1;
        }
        assert(rs@ =~= units(results@));
        match join_results(&rs) {
            Err(e) => EventStep::Finished(Err(e)),
            Ok(()) => {
                if self.tier == 1 {
                    let existing = match &results[1] {
                        Ok(o) => needs_drift_check(TemplateKind::NiFiConfigMap, *o),
                        Err(_) => false,
                    };
                    if existing {
                        let cm = nifi_configmap_name(self.name.as_str());
                        return EventStep::CheckDrift(
                            EventRun { name: self.name, namespace: self.namespace, tier: 1, checking_drift: true },
                            cm,
                        );
                    }
                }
                if self.tier < LAST_TIER {
                    self.next_tier()
                } else {
                    EventStep::Finished(Ok(()))
                }
            },
        }
    }

    /// After the drift check of the NiFi ConfigMap: its failure ends the run,
    /// else the StatefulSets follow.
    pub fn drift_done(self, result: Result<bool, ControllerError>) -> (r: EventStep)
        requires
            self.wf(),
            self.checking_drift,
        ensures
            result matches Err(e) ==> r == EventStep::Finished(Err(e)),
            result is Ok ==> (r matches EventStep::Next(run, ops) && self.starts_tier(run, ops, 2)),
    {
        match result {
            Err(e) => EventStep::Finished(Err(e)),
            Ok(_) => self.next_tier(),
        }
    }
}

/// A deployment without a name is rejected with a status whose error names
/// the missing field, quoted, and the resource's kind.
pub proof fn lemma_missing_name_status_mentions(kind: Seq<char>)
    ensures
        ({
            let text = missing_property_text("name"@, kind);
            let field = debug_quoted("name"@);
            let at: int = 9 + field.len() as int + 5;
            &&& text.subrange(9, 9 + field.len() as int) == field
            &&& text.subrange(at, at + kind.len()) == kind
        }),
{
    reveal_strlit("Property ");
    reveal_strlit(" for ");
    let text = missing_property_text("name"@, kind);
    let field = debug_quoted("name"@);
    let at: int = 9 + field.len() as int + 5;
    assert(text.subrange(9, 9 + field.len() as int) =~= field);
    assert(text.subrange(at, at + kind.len()) =~= kind);
}

/// A resource whose renderer gives no manifest is not created, its ensure
/// succeeds, and a run in which every ensure succeeded leaves an empty error.
pub proof fn lemma_disabled_resource_succeeds(op: EnsureOp, results: Seq<Result<(), ControllerError>>)
    requires
        all_ok(results),
    ensures
        after_render_spec(Ok(None)) == EnsureNext::Done(Ok(EnsureOutcome::Disabled)),
        !issues_create(false, op, Ok(None)),
        joined(results) == Ok::<(), ControllerError>(()),
        outcome_text(joined(results)).len() == 0,
{
    lemma_joined_ok(results);
}

/// One failed ensure makes its whole tier fail, so the run finishes there
/// and no operation of a later tier is issued: a failure of the ZooKeeper
/// ConfigMap means no StatefulSet is ever created.
pub proof fn lemma_failure_stops_later_tiers(results: Seq<Result<EnsureOutcome, ControllerError>>, i: int)
    requires
        0 <= i < results.len(),
        results[i] is Err,
    ensures
        joined(units(results)) is Err,
{
    lemma_joined_ok(units(results));
    assert(units(results)[i] is Err);
}

} // verus!
