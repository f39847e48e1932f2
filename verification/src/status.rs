//! Status conditions of the resources and how a data source's status is updated
//! after a connection check.
use vstd::prelude::*;
use crate::error::{error_text, OSLOError};

verus! {

/// Whether a resource is ready.
#[derive(Clone, Copy, Debug, PartialEq, Eq, Structural)]
pub enum StatusType {
    Ready,
    NotReady,
}

/// Whether a condition holds.
#[derive(Clone, Copy, Debug, PartialEq, Eq, Structural)]
pub enum Status {
    True,
    False,
    Unknown,
}

/// Why a condition was recorded.
#[derive(Clone, Copy, Debug, PartialEq, Eq, Structural)]
pub enum StatusReason {
    Connected,
    CanNotConnect,
    DependencyNotReady,
}

/// A point in time in UTC: seconds since the Unix epoch and nanoseconds within the second.
#[derive(Clone, Copy, Debug, PartialEq, Eq, Structural)]
pub struct Timestamp {
    pub secs: i64,
    pub nanos: u32,
}

/// One entry of a resource's status history.
#[derive(Debug)]
pub struct StatusCondition {
    pub condition_type: StatusType,
    pub status: Status,
    pub observd_generation: Option<i64>,
    pub last_transition_time: Timestamp,
    pub reason: StatusReason,
    pub message: String,
}

impl Clone for StatusCondition {
    fn clone(&self) -> (c: Self)
        ensures
            c == *self,
    {
        StatusCondition {
            condition_type: self.condition_type,
            status: self.status,
            observd_generation: self.observd_generation,
            last_transition_time: self.last_transition_time,
            reason: self.reason,
            message: self.message.clone(),
        }
    }
}

/// The message recorded when a data source was reached.
pub open spec fn connected_message() -> Seq<char> {
    "Connected successful"@
}

/// The condition recorded when a check failed with `message`.
pub open spec fn is_not_connected_condition(c: StatusCondition, message: OSLOError, observd_generation: Option<i64>) -> bool {
    &&& c.condition_type == StatusType::NotReady
    &&& c.status == Status::True
    &&& c.reason == StatusReason::CanNotConnect
    &&& c.message@ == error_text(message@)
    &&& c.observd_generation == observd_generation
}

/// The condition recorded when a check succeeded.
pub open spec fn is_connected_condition(c: StatusCondition, observd_generation: Option<i64>) -> bool {
    &&& c.condition_type == StatusType::Ready
    &&& c.status == Status::True
    &&& c.reason == StatusReason::Connected
    &&& c.message@ == connected_message()
    &&& c.observd_generation == observd_generation
}

/// The condition recorded for the outcome of a connection check: `None` when it
/// succeeded, the error when it failed.
pub open spec fn is_check_condition(c: StatusCondition, check: Option<OSLOError>, observd_generation: Option<i64>) -> bool {
    match check {
        Some(e) => is_not_connected_condition(c, e, observd_generation),
        None => is_connected_condition(c, observd_generation),
    }
}

/// The condition recorded for a check says "ready" exactly when the check found no error.
pub proof fn lemma_check_condition_ready(c: StatusCondition, check: Option<OSLOError>, observd_generation: Option<i64>)
    requires
        is_check_condition(c, check, observd_generation),
    ensures
        is_ready(c) == (check is None),
{
}

/// The condition recorded for a check carries the generation it was given, says
/// "ready" and "connected" exactly when the check found no error, and otherwise
/// carries the error's message.
pub proof fn lemma_check_condition_fields(c: StatusCondition, check: Option<OSLOError>, observd_generation: Option<i64>)
    requires
        is_check_condition(c, check, observd_generation),
    ensures
        c.observd_generation == observd_generation,
        c.status == Status::True,
        (c.condition_type == StatusType::Ready) == (check is None),
        (c.reason == StatusReason::Connected) == (check is None),
        (c.reason == StatusReason::CanNotConnect) == (check is Some),
        check matches Some(OSLOError::PrometheusError(d)) ==> c.message@ == "Prometheus: "@ + d@,
        check matches Some(OSLOError::ProviderError(d)) ==> c.message@ == "Provider: "@ + d@,
        check is None ==> c.message@ == "Connected successful"@,
{
}

impl StatusCondition {
    /// "Not ready: cannot connect", with the error's message, recorded at `at`; the caller reads the clock.
    pub fn not_connected(message: &OSLOError, observd_generation: Option<i64>, at: Timestamp) -> (c: Self)
        ensures
            is_not_connected_condition(c, *message, observd_generation),
            c.last_transition_time == at,
            c.observd_generation == observd_generation,
            c.condition_type == StatusType::NotReady,
            c.reason == StatusReason::CanNotConnect,
            c.status == Status::True,
            match *message {
                OSLOError::PrometheusError(d) => c.message@ == "Prometheus: "@ + d@,
                OSLOError::ProviderError(d) => c.message@ == "Provider: "@ + d@,
            },
    {
        StatusCondition {
            condition_type: StatusType::NotReady,
            status: Status::True,
            last_transition_time: at,
            reason: StatusReason::CanNotConnect,
            message: message.to_string(),
            observd_generation,
        }
    }

    /// "Ready: connected", recorded at `at`; the caller reads the clock.
    pub fn connected(observd_generation: Option<i64>, at: Timestamp) -> (c: Self)
        ensures
            is_connected_condition(c, observd_generation),
            c.last_transition_time == at,
            c.observd_generation == observd_generation,
            c.condition_type == StatusType::Ready,
            c.reason == StatusReason::Connected,
            c.status == Status::True,
            c.message@ == "Connected successful"@,
    {
        StatusCondition {
            condition_type: StatusType::Ready,
            status: Status::True,
            last_transition_time: at,
            reason: StatusReason::Connected,
            message: String::from_str("Connected successful"),
            observd_generation,
        }
    }

    /// The condition for the outcome of a connection check (`None` when it
    /// succeeded), recorded at `at`; the caller reads the clock.
    pub fn for_check(check: &Option<OSLOError>, observd_generation: Option<i64>, at: Timestamp) -> (c: Self)
        ensures
            is_check_condition(c, *check, observd_generation),
            c.last_transition_time == at,
            c.observd_generation == observd_generation,
            c.status == Status::True,
            c.condition_type == (if check is None { StatusType::Ready } else { StatusType::NotReady }),
            c.reason == (if check is None { StatusReason::Connected } else { StatusReason::CanNotConnect }),
            *check is None ==> c.message@ == "Connected successful"@,
            *check matches Some(OSLOError::PrometheusError(d)) ==> c.message@ == "Prometheus: "@ + d@,
            *check matches Some(OSLOError::ProviderError(d)) ==> c.message@ == "Provider: "@ + d@,
    {
        match check {
            Some(e) => Self::not_connected(e, observd_generation, at),
            None => Self::connected(observd_generation, at),
        }
    }

    /// Whether the condition says the resource is ready.
    pub fn is_ready(&self) -> (b: bool)
        ensures
            b == (self.condition_type == StatusType::Ready),
    {
        self.condition_type == StatusType::Ready
    }
}

/// The status of a Service.
#[derive(Clone, Debug)]
pub struct ServiceStatus {
    pub conditions: Vec<StatusCondition>,
}

/// The status of an SLO.
#[derive(Clone, Debug)]
pub struct SLOStatus {
    pub conditions: Vec<StatusCondition>,
}

/// The status of an SLI.
#[derive(Clone, Debug)]
pub struct SLIStatus {
    pub conditions: Vec<StatusCondition>,
}

/// The status of an AlertPolicy.
#[derive(Clone, Debug)]
pub struct AlertPolicyStatus {
    pub conditions: Vec<StatusCondition>,
}

/// The status of an AlertCondition.
#[derive(Clone, Debug)]
pub struct AlertConditionStatus {
    pub conditions: Vec<StatusCondition>,
}

/// The status of an AlertNotificationTarget.
#[derive(Clone, Debug)]
pub struct AlertNotificationTargetStatus {
    pub conditions: Vec<StatusCondition>,
}

/// The status of a DataSource: its recent conditions and whether it is reachable.
#[derive(Debug)]
pub struct DataSourceStatus {
    pub conditions: Vec<StatusCondition>,
    pub connected: bool,
}

/// A data source status as its list of conditions and its reachability.
pub struct DataSourceStatusView {
    pub conditions: Seq<StatusCondition>,
    pub connected: bool,
}

impl View for DataSourceStatus {
    type V = DataSourceStatusView;

    open spec fn view(&self) -> DataSourceStatusView {
        DataSourceStatusView { conditions: self.conditions@, connected: self.connected }
    }
}

/// Whether a condition says the resource is ready.
pub open spec fn is_ready(c: StatusCondition) -> bool {
    c.condition_type == StatusType::Ready
}

/// Whether recording `condition` over the status `current` needs a status patch: when
/// there is no status yet, or when the reachability changes.
pub open spec fn needs_patch(current: Option<DataSourceStatusView>, condition: StatusCondition) -> bool {
    match current {
        None => true,
        Some(s) => s.connected != is_ready(condition),
    }
}

/// The status that a patch writes after a connection check that gave `condition`:
/// with no status yet, just that condition; when the reachability changed, the last
/// condition recorded so far followed by the new one. `None` when no patch is needed.
pub open spec fn status_patch(current: Option<DataSourceStatusView>, condition: StatusCondition) -> Option<DataSourceStatusView> {
    match current {
        None => Some(DataSourceStatusView { conditions: seq![condition], connected: is_ready(condition) }),
        Some(s) => if s.connected != is_ready(condition) {
            Some(DataSourceStatusView { conditions: seq![s.conditions.last(), condition], connected: is_ready(condition) })
        } else {
            None
        },
    }
}

/// The view of an optional status.
pub open spec fn status_view(s: Option<DataSourceStatus>) -> Option<DataSourceStatusView> {
    match s {
        Some(s) => Some(s@),
        None => None,
    }
}

/// A status can be patched over `current` unless the reachability changes while no
/// condition has been recorded yet.
pub open spec fn patch_defined(current: Option<DataSourceStatusView>, condition: StatusCondition) -> bool {
    match current {
        Some(s) => s.connected != is_ready(condition) ==> s.conditions.len() > 0,
        None => true,
    }
}

/// What a patch writes, stated on the statuses themselves: with no status yet, just the
/// new condition; when the reachability changes, exactly two conditions, the last one
/// recorded before and then the new one; when it does not change, nothing.
pub proof fn lemma_patch_keeps_last_condition(current: Option<DataSourceStatusView>, condition: StatusCondition)
    ensures
        current is None ==> (status_patch(current, condition) matches Some(s)
            && s.connected == (condition.condition_type == StatusType::Ready)
            && s.conditions.len() == 1 && s.conditions[0] == condition),
        current matches Some(prev) ==> (status_patch(current, condition) is Some
            == (prev.connected != (condition.condition_type == StatusType::Ready))),
        current matches Some(prev) ==> (status_patch(current, condition) matches Some(s) ==> {
            &&& s.connected == (condition.condition_type == StatusType::Ready)
            &&& s.conditions.len() == 2
            &&& s.conditions[0] == prev.conditions[prev.conditions.len() - 1]
            &&& s.conditions[1] == condition
        }),
{
}

impl DataSourceStatus {
    /// The status to patch after a connection check that gave `condition`, or `None`
    /// when the status needs no patch.
    pub fn patch_after_check(current: &Option<DataSourceStatus>, condition: StatusCondition) -> (r: Option<DataSourceStatus>)
        requires
            patch_defined(status_view(*current), condition),
        ensures
            status_view(r) == status_patch(status_view(*current), condition),
            *current is None ==> (r matches Some(s)
                && s.connected == (condition.condition_type == StatusType::Ready)
                && s.conditions@.len() == 1 && s.conditions@[0] == condition),
            *current matches Some(prev) ==> (r is Some == (prev.connected != (condition.condition_type == StatusType::Ready))),
            *current matches Some(prev) ==> (r matches Some(s) ==> {
                &&& s.connected == (condition.condition_type == StatusType::Ready)
                &&& s.conditions@.len() == 2
                &&& s.conditions@[0] == prev.conditions@[prev.conditions@.len() - 1]
                &&& s.conditions@[1] == condition
            }),
    {
        proof {
            lemma_patch_keeps_last_condition(status_view(*current), condition);
        }
        let connected = condition.is_ready();
        match current {
            Some(s) => {
                if s.connected != connected {
                    let last = s.conditions[s.conditions.len() - 1].clone();
                    let conditions = vec![last, condition];
                    assert(conditions@ =~= seq![s.conditions@.last(), condition]);
                    Some(DataSourceStatus { conditions, connected })
                } else {
                    None
                }
            },
            None => {
                let conditions = vec![condition];
                assert(conditions@ =~= seq![condition]);
                Some(DataSourceStatus { conditions, connected })
            },
        }
    }
}

/// The status after a check: the patched status where a patch is written, else the
/// status as it was.
pub open spec fn status_after(current: Option<DataSourceStatusView>, condition: StatusCondition) -> Option<DataSourceStatusView> {
    match status_patch(current, condition) {
        Some(s) => Some(s),
        None => current,
    }
}

/// Once the status records a check, a later check with the same outcome needs no
/// patch: the status update settles.
pub proof fn lemma_patch_settles(current: Option<DataSourceStatusView>, first: StatusCondition, second: StatusCondition)
    requires
        is_ready(first) == is_ready(second),
    ensures
        status_patch(status_after(current, first), second) is None,
{
}

/// A patch is written exactly when there is no status yet or the reachability changes;
/// the patched status records the new reachability, ends with the new condition and
/// keeps at most two conditions.
pub proof fn lemma_patch_shape(current: Option<DataSourceStatusView>, condition: StatusCondition)
    ensures
        (status_patch(current, condition) is Some) == needs_patch(current, condition),
        status_patch(current, condition) matches Some(s) ==> {
            &&& s.connected == is_ready(condition)
            &&& s.conditions.len() >= 1
            &&& s.conditions.len() <= 2
            &&& s.conditions.last() == condition
        },
{
}

/// After any check the status, which exists from then on, states the reachability
/// that the check found.
pub proof fn lemma_status_tracks_check(current: Option<DataSourceStatusView>, condition: StatusCondition)
    ensures
        status_after(current, condition) matches Some(s) && s.connected == is_ready(condition),
{
}

} // verus!
