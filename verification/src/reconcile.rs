//! What a reconciliation of a data source decides, and the names and intervals that the
//! controllers use.
use vstd::prelude::*;
use kube::runtime::controller::Action;
use crate::status::{patch_defined, status_patch, status_view, DataSourceStatus, StatusCondition};

verus! {

/// API group of the resources.
pub const OSLO_GROUP: &'static str = "oslo.sre.macpaw.dev";

/// API version of the resources.
pub const OSLO_VERSION: &'static str = "v1alpha1";

/// Seconds after which an object is reconciled again, after a reconciliation and after
/// a failed one alike.
pub const REQUEUE_SECS: u64 = 300;

#[verifier::external_type_specification]
#[verifier::external_body]
pub struct ExAction(Action);

/// The `Action` that `kube`'s `Action::requeue` builds for a delay of `secs` seconds.
pub uninterp spec fn requeue_action(secs: u64) -> Action;

/// Calls `kube::runtime::controller::Action::requeue` with a delay of `secs` seconds;
/// the result is named `requeue_action(secs)`.
#[verifier::external_body]
fn requeue_after(secs: u64) -> (a: Action)
    ensures
        a == requeue_action(secs),
{
    Action::requeue(std::time::Duration::from_secs(secs))
}

/// Calls `kube::runtime::controller::Action::await_change`, the action that waits for
/// the next change of the object instead of reconciling it again later. It holds no
/// delay, while every `Action::requeue` holds one, so it differs from
/// `requeue_action(secs)` for every `secs`.
#[verifier::external_body]
fn await_change() -> (a: Action)
    ensures
        forall|secs: u64| a != #[trigger] requeue_action(secs),
{
    Action::await_change()
}

/// When an object is reconciled next: after a delay in seconds, or only once it changes.
#[derive(Clone, Copy, Debug, PartialEq, Eq, Structural)]
pub enum Requeue {
    After(u64),
    AwaitChange,
}

impl Requeue {
    /// The `kube` action that carries this decision: `Action::requeue` with the delay,
    /// or `Action::await_change`.
    pub fn to_action(&self) -> (a: Action)
        ensures
            *self matches Requeue::After(secs) ==> a == requeue_action(secs),
            *self matches Requeue::AwaitChange ==> forall|secs: u64| a != #[trigger] requeue_action(secs),
    {
        match self {
            Requeue::After(secs) => requeue_after(*secs),
            Requeue::AwaitChange => await_change(),
        }
    }
}

/// The text that `str::to_lowercase` gives for a text.
pub uninterp spec fn lowercase(s: Seq<char>) -> Seq<char>;

/// Calls `str::to_lowercase`; the result is named `lowercase` of the text.
#[verifier::external_body]
fn to_lowercase(s: &str) -> (r: String)
    ensures
        r@ == lowercase(s@),
{
    s.to_lowercase()
}

/// The `apiVersion` of the resources: `<group>/<version>`.
pub fn api_version() -> (v: String)
    ensures
        v@ == OSLO_GROUP@ + "/"@ + OSLO_VERSION@,
{
    String::from_str(OSLO_GROUP).concat("/").concat(OSLO_VERSION)
}

/// The finalizer that a controller puts on the objects of a kind: the kind's name in
/// lower case, a dot, and the API group.
pub fn finalizer_name(kind: &str) -> (name: String)
    ensures
        name@ == lowercase(kind@) + "."@ + OSLO_GROUP@,
{
    to_lowercase(kind).concat(".").concat(OSLO_GROUP)
}

/// What to do after a failed reconciliation: try again after `REQUEUE_SECS` seconds.
pub fn error_policy_action() -> (a: Action)
    ensures
        a == requeue_action(REQUEUE_SECS),
{
    requeue_after(REQUEUE_SECS)
}

/// The outcome of a data source reconciliation: the status to patch, if any, and when
/// to reconcile again.
pub struct ReconcilePlan {
    pub patch: Option<DataSourceStatus>,
    pub requeue: Requeue,
}

/// Plans a data source reconciliation after a connection check that gave `condition`:
/// the status patch that `DataSourceStatus::patch_after_check` computes, and a new
/// reconciliation after `REQUEUE_SECS` seconds.
pub fn plan_reconcile(current: &Option<DataSourceStatus>, condition: StatusCondition) -> (plan: ReconcilePlan)
    requires
        patch_defined(status_view(*current), condition),
    ensures
        status_view(plan.patch) == status_patch(status_view(*current), condition),
        plan.requeue == Requeue::After(REQUEUE_SECS),
{
    let patch = DataSourceStatus::patch_after_check(current, condition);
    ReconcilePlan { patch, requeue: Requeue::After(REQUEUE_SECS) }
}

/// The note of the event published when an object is deleted: ``Delete `<name>` ``.
pub fn delete_note(name: &str) -> (note: String)
    ensures
        note@ == "Delete `"@ + name@ + "`"@,
{
    String::from_str("Delete `").concat(name).concat("`")
}

/// The severity of a published event.
#[derive(Clone, Copy, Debug, PartialEq, Eq, Structural)]
pub enum EventKind {
    Normal,
    Warning,
}

/// An event to publish about an object; it refers to no second object.
#[derive(Clone, Debug)]
pub struct ObjectEvent {
    pub kind: EventKind,
    pub reason: String,
    pub note: Option<String>,
    pub action: String,
}

/// What the cleanup of a deleted object does: publish an event, then wait for the
/// next change of the object.
pub struct CleanupPlan {
    pub event: ObjectEvent,
    pub requeue: Requeue,
}

/// Plans the cleanup of the deleted object `name`: a normal event with reason
/// `DeleteRequested`, action `Deleting` and the note ``Delete `<name>` ``, and no
/// further reconciliation until the object changes.
pub fn plan_cleanup(name: &str) -> (plan: CleanupPlan)
    ensures
        plan.event.kind == EventKind::Normal,
        plan.event.reason@ == "DeleteRequested"@,
        plan.event.note matches Some(note) && note@ == "Delete `"@ + name@ + "`"@,
        plan.event.action@ == "Deleting"@,
        plan.requeue == Requeue::AwaitChange,
{
    CleanupPlan {
        event: ObjectEvent {
            kind: EventKind::Normal,
            reason: String::from_str("DeleteRequested"),
            note: Some(delete_note(name)),
            action: String::from_str("Deleting"),
        },
        requeue: Requeue::AwaitChange,
    }
}

/// The controller for the objects of one kind.
pub struct Manager<K> {
    _data: K,
}

} // verus!
