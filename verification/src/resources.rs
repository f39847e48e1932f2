//! The specifications of the custom resources (Service, SLO indicators, data sources,
//! alert policies, alert conditions and notification targets) and their validation rules.
use vstd::prelude::*;
use std::collections::HashMap;
use crate::duration::DurationShorthand;

verus! {

/// A Service is a high-level grouping of SLOs.
#[derive(Clone, Debug)]
pub struct ServiceSpec {
    pub display_name: Option<String>,
    pub description: Option<String>,
}

/// How an SLO's error budget is counted.
#[derive(Clone, Copy, Debug, PartialEq, Eq, Structural)]
pub enum BudgetingMethod {
    Occurrences,
    Timeslices,
}

/// A service level indicator: how to read metrics from data sources.
#[derive(Clone, Debug)]
pub struct SLISpec {
    pub display_name: Option<String>,
    pub threshold_metric: ThresholdMetric,
    pub ratio_metric: RatioMetric,
}

/// Where a metric comes from.
#[derive(Clone, Debug)]
pub struct MetricSource {
    pub metric_source_ref: Option<String>,
    pub spec: MetricSourceType,
    pub source_type: Option<String>,
}

/// The kinds of metric sources.
#[derive(Clone, Debug)]
pub enum MetricSourceType {
    PromMetricSource(PromMetricSource),
}

/// A Prometheus metric source.
#[derive(Clone, Debug)]
pub struct PromMetricSource {}

/// A metric compared against a threshold.
#[derive(Clone, Debug)]
pub struct ThresholdMetric {
    pub metric_source: MetricSource,
}

/// A metric given as a ratio of good, bad or raw events to a total.
#[derive(Clone, Debug)]
pub struct RatioMetric {
    pub counter: Option<bool>,
    pub total: MetricSource,
    pub good: Option<MetricSource>,
    pub bad: Option<MetricSource>,
    pub raw_type: Option<RawType>,
    pub raw: Option<MetricSource>,
}

/// Whether a raw ratio counts successes or failures.
#[derive(Clone, Copy, Debug, PartialEq, Eq, Structural)]
pub enum RawType {
    Success,
    Failure,
}

/// A DataSource: connection details for a metric source.
#[derive(Clone, Debug)]
pub struct DataSourceSpec {
    pub display_name: Option<String>,
    pub description: Option<String>,
    pub connection_type: DataSourceConnectionType,
    pub connection_details: DataSourceConnectionDetails,
}

/// The kinds of data sources.
#[derive(Clone, Copy, Debug, PartialEq, Eq, Structural)]
pub enum DataSourceConnectionType {
    Prometheus,
    Datadog,
}

/// Connection details of a data source, one variant per kind of source.
#[derive(Clone, Debug)]
pub enum DataSourceConnectionDetails {
    PrometheusConnectionDetails(PrometheusConnectionDetails),
    DatadogConnectionDetails(DatadogConnectionDetails),
}

/// How to reach a Datadog source.
#[derive(Clone, Debug)]
pub struct DatadogConnectionDetails {
    pub url: String,
    pub paths: PrometheusPaths,
}

/// How to reach a Prometheus server.
#[derive(Clone, Debug)]
pub struct PrometheusConnectionDetails {
    pub url: String,
    pub paths: PrometheusPaths,
}

/// Paths of the Prometheus API below the server's URL.
#[derive(Clone, Debug)]
pub struct PrometheusPaths {
    pub status_config: String,
}

/// Connection details as plain text: the kind of source, its URL and its
/// status-config path.
pub enum ConnectionDetailsView {
    Prometheus { url: Seq<char>, status_config: Seq<char> },
    Datadog { url: Seq<char>, status_config: Seq<char> },
}

impl View for DataSourceConnectionDetails {
    type V = ConnectionDetailsView;

    open spec fn view(&self) -> ConnectionDetailsView {
        match self {
            DataSourceConnectionDetails::PrometheusConnectionDetails(c) => ConnectionDetailsView::Prometheus {
                url: c.url@,
                status_config: c.paths.status_config@,
            },
            DataSourceConnectionDetails::DatadogConnectionDetails(c) => ConnectionDetailsView::Datadog {
                url: c.url@,
                status_config: c.paths.status_config@,
            },
        }
    }
}

/// An Alert Policy: the alert conditions for an SLO and where to send alerts.
#[derive(Clone, Debug)]
pub struct AlertPolicySpec {
    pub display_name: Option<String>,
    pub description: Option<String>,
    pub alert_when_no_data: bool,
    pub alert_when_resolved: bool,
    pub alert_when_breaching: bool,
    pub conditions: Vec<AlertConditionRef>,
    pub notification_targets: Vec<AlertNotificationTargetRef>,
}

/// An alert condition, named or given inline.
#[derive(Clone, Debug)]
pub struct AlertConditionRef {
    pub condition_ref: Option<String>,
    pub kind: AlertConditionRefKind,
    pub metadata: Metadata,
    pub spec: AlertConditionSpec,
}

/// A notification target, named or given inline.
#[derive(Clone, Debug)]
pub struct AlertNotificationTargetRef {
    pub target_ref: Option<String>,
    pub kind: AlertNotificationTargetRefKind,
    pub metadata: Metadata,
    pub spec: AlertNotificationTargetSpec,
}

/// The kind tag of an inline notification target.
#[derive(Clone, Copy, Debug, PartialEq, Eq, Structural)]
pub enum AlertNotificationTargetRefKind {
    AlertNotificationTarget,
}

/// The kind tag of an inline alert condition.
#[derive(Clone, Copy, Debug, PartialEq, Eq, Structural)]
pub enum AlertConditionRefKind {
    AlertCondition,
}

/// An Alert Condition: when an alert for an SLO is triggered.
#[derive(Clone, Debug)]
pub struct AlertConditionSpec {
    pub display_name: Option<String>,
    pub description: Option<String>,
    pub severity: String,
    pub condition: Condition,
}

/// The rule of an alert condition.
#[derive(Clone, Debug)]
pub struct Condition {
    pub kind: ConditionKind,
    pub op: Op,
    pub threshold: i32,
    pub lookback_window: DurationShorthand,
    pub alert_after: DurationShorthand,
}

/// The kinds of alert rules.
#[derive(Clone, Copy, Debug, PartialEq, Eq, Structural)]
pub enum ConditionKind {
    Burnrate,
}

/// An Alert Notification Target: where alert notifications are delivered.
#[derive(Clone, Debug)]
pub struct AlertNotificationTargetSpec {
    pub display_name: Option<String>,
    pub description: Option<String>,
    pub target: String,
}

/// Comparison operators.
#[derive(Clone, Copy, Debug, PartialEq, Eq, Structural)]
pub enum Op {
    Lte,
    Gte,
    Lt,
    Gt,
}

/// Name, labels and annotations of an inline object.
#[derive(Clone, Debug)]
pub struct Metadata {
    pub name: String,
    pub labels: Option<HashMap<String, String>>,
    pub annotations: Option<HashMap<String, String>>,
}

/// A field that failed its validation rule.
#[derive(Clone, Copy, Debug, PartialEq, Eq, Structural)]
pub enum InvalidField {
    DisplayName,
    Description,
    Conditions,
    NotificationTargets,
}

/// Longest description that a resource accepts, in characters.
pub const MAX_DESCRIPTION_LEN: u64 = 1050;

/// The length rule of the `validator` crate: with `equal` the length must be exactly
/// that, otherwise at least `min` and at most `max` where they are given.
pub open spec fn length_within(len: nat, min: Option<u64>, max: Option<u64>, equal: Option<u64>) -> bool {
    match equal {
        Some(eq) => len == eq,
        None => {
            &&& (min matches Some(m) ==> len >= m)
            &&& (max matches Some(m) ==> len <= m)
        },
    }
}

/// An optional text passes a length rule when it is absent or its length in
/// characters passes.
pub open spec fn optional_text_within(s: Option<String>, min: Option<u64>, max: Option<u64>) -> bool {
    match s {
        None => true,
        Some(t) => length_within(t@.len(), min, max, None),
    }
}

/// A display name, where given, is not empty.
pub open spec fn display_name_ok(s: Option<String>) -> bool {
    optional_text_within(s, Some(1), None)
}

/// A description, where given, has at most 1050 characters.
pub open spec fn description_ok(s: Option<String>) -> bool {
    optional_text_within(s, None, Some(MAX_DESCRIPTION_LEN))
}

/// The fields among display name and description that fail their rules, in that order.
pub open spec fn named_field_failures(display_name: Option<String>, description: Option<String>) -> Seq<InvalidField> {
    (if display_name_ok(display_name) { Seq::empty() } else { seq![InvalidField::DisplayName] })
        + (if description_ok(description) { Seq::empty() } else { seq![InvalidField::Description] })
}

/// The result of a validation that found the given failing fields.
pub open spec fn validation_result(failures: Seq<InvalidField>, r: Result<(), Vec<InvalidField>>) -> bool {
    match r {
        Ok(()) => failures.len() == 0,
        Err(v) => failures.len() > 0 && v@ == failures,
    }
}

/// Checks the length of a text with the `validator` crate's `validate_length`
/// (the length of a `String` is its number of characters); the result is
/// `length_within` of that length.
#[verifier::external_body]
fn text_length_valid(s: &String, min: Option<u64>, max: Option<u64>, equal: Option<u64>) -> (r: bool)
    ensures
        r == length_within(s@.len(), min, max, equal),
{
    validator::validate_length(s, min, max, equal)
}

/// Checks the length of a list with the `validator` crate's `validate_length`
/// (the length of a `Vec` is its number of items); the result is `length_within`
/// of that length.
#[verifier::external_body]
fn list_length_valid<T>(v: &Vec<T>, min: Option<u64>, max: Option<u64>, equal: Option<u64>) -> (r: bool)
    ensures
        r == length_within(v@.len(), min, max, equal),
{
    validator::validate_length(v, min, max, equal)
}

/// Whether an optional text passes a length rule; an absent text always does.
fn optional_text_valid(s: &Option<String>, min: Option<u64>, max: Option<u64>) -> (r: bool)
    ensures
        r == optional_text_within(*s, min, max),
{
    match s {
        None => true,
        Some(t) => text_length_valid(t, min, max, None),
    }
}

/// The failing fields, stated on the texts themselves: the display name fails exactly
/// when it is given and empty, the description exactly when it is given and longer
/// than 1050 characters, and nothing fails otherwise.
pub proof fn lemma_named_field_failures(display_name: Option<String>, description: Option<String>)
    ensures
        (named_field_failures(display_name, description).len() == 0)
            == ((display_name matches Some(n) ==> n@.len() >= 1) && (description matches Some(d) ==> d@.len() <= 1050)),
        named_field_failures(display_name, description).contains(InvalidField::DisplayName)
            == (display_name matches Some(n) && n@.len() == 0),
        named_field_failures(display_name, description).contains(InvalidField::Description)
            == (description matches Some(d) && d@.len() > 1050),
{
    let f = named_field_failures(display_name, description);
    let a = if display_name_ok(display_name) { Seq::<InvalidField>::empty() } else { seq![InvalidField::DisplayName] };
    let b = if description_ok(description) { Seq::<InvalidField>::empty() } else { seq![InvalidField::Description] };
    assert(f == a + b);
    if !display_name_ok(display_name) {
        assert(f[0] == InvalidField::DisplayName);
    }
    if !description_ok(description) {
        assert(f[a.len() as int] == InvalidField::Description);
    }
    assert(f.contains(InvalidField::DisplayName) ==> !display_name_ok(display_name)) by {
        if f.contains(InvalidField::DisplayName) {
            let i = choose|i: int| 0 <= i < f.len() && f[i] == InvalidField::DisplayName;
            if i < a.len() {
                assert(f[i] == a[i]);
            } else {
                assert(f[i] == b[i - a.len()]);
            }
        }
    }
    assert(f.contains(InvalidField::Description) ==> !description_ok(description)) by {
        if f.contains(InvalidField::Description) {
            let i = choose|i: int| 0 <= i < f.len() && f[i] == InvalidField::Description;
            if i < a.len() {
                assert(f[i] == a[i]);
            } else {
                assert(f[i] == b[i - a.len()]);
            }
        }
    }
}

/// Checks the display name and the description, collecting the failing fields.
fn check_named_fields(display_name: &Option<String>, description: &Option<String>) -> (failures: Vec<InvalidField>)
    ensures
        failures@ == named_field_failures(*display_name, *description),
{
    let mut failures: Vec<InvalidField> = Vec::new();
    if !optional_text_valid(display_name, Some(1), None) {
        failures.push(InvalidField::DisplayName);
    }
    if !optional_text_valid(description, None, Some(MAX_DESCRIPTION_LEN)) {
        failures.push(InvalidField::Description);
    }
    assert(failures@ =~= named_field_failures(*display_name, *description));
    failures
}

/// `Ok` when no field failed, else `Err` with the failing fields.
fn finish_validation(failures: Vec<InvalidField>) -> (r: Result<(), Vec<InvalidField>>)
    ensures
        validation_result(failures@, r),
{
    if failures.len() == 0 {
        Ok(())
    } else {
        Err(failures)
    }
}

/// Validates a display name (not empty) and a description (at most 1050 characters):
/// the rules of every specification that has these two fields, such as an SLO's.
pub fn validate_named_fields(display_name: &Option<String>, description: &Option<String>) -> (r: Result<(), Vec<InvalidField>>)
    ensures
        validation_result(named_field_failures(*display_name, *description), r),
        (r is Ok) == ((*display_name matches Some(n) ==> n@.len() >= 1) && (*description matches Some(d) ==> d@.len() <= 1050)),
        r matches Err(v) ==> (v@.contains(InvalidField::DisplayName) == (*display_name matches Some(n) && n@.len() == 0)),
        r matches Err(v) ==> (v@.contains(InvalidField::Description) == (*description matches Some(d) && d@.len() > 1050)),
{
    proof {
        lemma_named_field_failures(*display_name, *description);
    }
    finish_validation(check_named_fields(display_name, description))
}

impl ServiceSpec {
    /// Validates the display name (not empty) and the description (at most 1050 characters).
    pub fn validate(&self) -> (r: Result<(), Vec<InvalidField>>)
        ensures
            validation_result(named_field_failures(self.display_name, self.description), r),
            (r is Ok) == ((self.display_name matches Some(n) ==> n@.len() >= 1) && (self.description matches Some(d) ==> d@.len() <= 1050)),
            r matches Err(v) ==> (v@.contains(InvalidField::DisplayName) == (self.display_name matches Some(n) && n@.len() == 0)),
            r matches Err(v) ==> (v@.contains(InvalidField::Description) == (self.description matches Some(d) && d@.len() > 1050)),
    {
        proof {
            lemma_named_field_failures(self.display_name, self.description);
        }
        finish_validation(check_named_fields(&self.display_name, &self.description))
    }
}

impl SLISpec {
    /// Validates the display name (not empty).
    pub fn validate(&self) -> (r: Result<(), Vec<InvalidField>>)
        ensures
            validation_result(
                if display_name_ok(self.display_name) { Seq::empty() } else { seq![InvalidField::DisplayName] },
                r,
            ),
            (r is Ok) == (self.display_name matches Some(n) ==> n@.len() >= 1),
            r matches Err(v) ==> v@ == seq![InvalidField::DisplayName],
    {
        let mut failures: Vec<InvalidField> = Vec::new();
        if !optional_text_valid(&self.display_name, Some(1), None) {
            failures.push(InvalidField::DisplayName);
        }
        finish_validation(failures)
    }
}

impl DataSourceSpec {
    /// Validates the display name (not empty) and the description (at most 1050 characters).
    pub fn validate(&self) -> (r: Result<(), Vec<InvalidField>>)
        ensures
            validation_result(named_field_failures(self.display_name, self.description), r),
            (r is Ok) == ((self.display_name matches Some(n) ==> n@.len() >= 1) && (self.description matches Some(d) ==> d@.len() <= 1050)),
            r matches Err(v) ==> (v@.contains(InvalidField::DisplayName) == (self.display_name matches Some(n) && n@.len() == 0)),
            r matches Err(v) ==> (v@.contains(InvalidField::Description) == (self.description matches Some(d) && d@.len() > 1050)),
    {
        proof {
            lemma_named_field_failures(self.display_name, self.description);
        }
        finish_validation(check_named_fields(&self.display_name, &self.description))
    }
}

impl AlertConditionSpec {
    /// Validates the display name (not empty) and the description (at most 1050 characters).
    pub fn validate(&self) -> (r: Result<(), Vec<InvalidField>>)
        ensures
            validation_result(named_field_failures(self.display_name, self.description), r),
            (r is Ok) == ((self.display_name matches Some(n) ==> n@.len() >= 1) && (self.description matches Some(d) ==> d@.len() <= 1050)),
            r matches Err(v) ==> (v@.contains(InvalidField::DisplayName) == (self.display_name matches Some(n) && n@.len() == 0)),
            r matches Err(v) ==> (v@.contains(InvalidField::Description) == (self.description matches Some(d) && d@.len() > 1050)),
    {
        proof {
            lemma_named_field_failures(self.display_name, self.description);
        }
        finish_validation(check_named_fields(&self.display_name, &self.description))
    }
}

impl AlertNotificationTargetSpec {
    /// Validates the display name (not empty) and the description (at most 1050 characters).
    pub fn validate(&self) -> (r: Result<(), Vec<InvalidField>>)
        ensures
            validation_result(named_field_failures(self.display_name, self.description), r),
            (r is Ok) == ((self.display_name matches Some(n) ==> n@.len() >= 1) && (self.description matches Some(d) ==> d@.len() <= 1050)),
            r matches Err(v) ==> (v@.contains(InvalidField::DisplayName) == (self.display_name matches Some(n) && n@.len() == 0)),
            r matches Err(v) ==> (v@.contains(InvalidField::Description) == (self.description matches Some(d) && d@.len() > 1050)),
    {
        proof {
            lemma_named_field_failures(self.display_name, self.description);
        }
        finish_validation(check_named_fields(&self.display_name, &self.description))
    }
}

/// The fields of an alert policy that fail their rules, in declaration order.
pub open spec fn alert_policy_failures(p: AlertPolicySpec) -> Seq<InvalidField> {
    named_field_failures(p.display_name, p.description)
        + (if p.conditions@.len() == 1 { Seq::empty() } else { seq![InvalidField::Conditions] })
        + (if p.notification_targets@.len() >= 1 { Seq::empty() } else { seq![InvalidField::NotificationTargets] })
}

/// The failing fields of an alert policy, stated on the policy itself: its display name
/// and description by their own rules first, then its condition count (exactly one)
/// and its notification targets (at least one).
pub proof fn lemma_alert_policy_failures(p: AlertPolicySpec)
    ensures
        (alert_policy_failures(p).len() == 0) == ((p.display_name matches Some(n) ==> n@.len() >= 1)
            && (p.description matches Some(d) ==> d@.len() <= 1050)
            && p.conditions@.len() == 1 && p.notification_targets@.len() >= 1),
        alert_policy_failures(p).contains(InvalidField::DisplayName) == (p.display_name matches Some(n) && n@.len() == 0),
        alert_policy_failures(p).contains(InvalidField::Description) == (p.description matches Some(d) && d@.len() > 1050),
        alert_policy_failures(p).contains(InvalidField::Conditions) == (p.conditions@.len() != 1),
        alert_policy_failures(p).contains(InvalidField::NotificationTargets) == (p.notification_targets@.len() == 0),
        alert_policy_failures(p).take(named_field_failures(p.display_name, p.description).len() as int)
            == named_field_failures(p.display_name, p.description),
{
    lemma_named_field_failures(p.display_name, p.description);
    let a = named_field_failures(p.display_name, p.description);
    let b = if p.conditions@.len() == 1 { Seq::<InvalidField>::empty() } else { seq![InvalidField::Conditions] };
    let c = if p.notification_targets@.len() >= 1 { Seq::<InvalidField>::empty() } else { seq![InvalidField::NotificationTargets] };
    let f = alert_policy_failures(p);
    assert(f == a + b + c);
    assert(f.take(a.len() as int) =~= a);
    assert forall|x: InvalidField| f.contains(x) == (a.contains(x) || b.contains(x) || c.contains(x)) by {
        if f.contains(x) {
            let i = choose|i: int| 0 <= i < f.len() && f[i] == x;
            if i < a.len() {
                assert(a[i] == x);
            } else if i < a.len() + b.len() {
                assert(b[i - a.len()] == x);
            } else {
                assert(c[i - a.len() - b.len()] == x);
            }
        }
        if a.contains(x) {
            let i = choose|i: int| 0 <= i < a.len() && a[i] == x;
            assert(f[i] == x);
        }
        if b.contains(x) {
            assert(f[a.len() as int] == x);
        }
        if c.contains(x) {
            assert(f[(a.len() + b.len()) as int] == x);
        }
    }
    if b.len() > 0 {
        assert(b[0] == InvalidField::Conditions);
    }
    if c.len() > 0 {
        assert(c[0] == InvalidField::NotificationTargets);
    }
    assert(!b.contains(InvalidField::DisplayName) && !c.contains(InvalidField::DisplayName));
    assert(!b.contains(InvalidField::Description) && !c.contains(InvalidField::Description));
    assert(!a.contains(InvalidField::Conditions)) by {
        if a.contains(InvalidField::Conditions) {
            let i = choose|i: int| 0 <= i < a.len() && a[i] == InvalidField::Conditions;
            assert(a == (if display_name_ok(p.display_name) { Seq::<InvalidField>::empty() } else { seq![InvalidField::DisplayName] })
                + (if description_ok(p.description) { Seq::<InvalidField>::empty() } else { seq![InvalidField::Description] }));
        }
    }
    assert(!a.contains(InvalidField::NotificationTargets)) by {
        if a.contains(InvalidField::NotificationTargets) {
            let i = choose|i: int| 0 <= i < a.len() && a[i] == InvalidField::NotificationTargets;
            assert(a == (if display_name_ok(p.display_name) { Seq::<InvalidField>::empty() } else { seq![InvalidField::DisplayName] })
                + (if description_ok(p.description) { Seq::<InvalidField>::empty() } else { seq![InvalidField::Description] }));
        }
    }
    assert(!c.contains(InvalidField::Conditions));
    assert(!b.contains(InvalidField::NotificationTargets));
}

impl AlertPolicySpec {
    /// Validates the display name (not empty), the description (at most 1050
    /// characters), that there is exactly one condition and at least one
    /// notification target.
    pub fn validate(&self) -> (r: Result<(), Vec<InvalidField>>)
        ensures
            validation_result(alert_policy_failures(*self), r),
            (r is Ok) == ((self.display_name matches Some(n) ==> n@.len() >= 1)
                && (self.description matches Some(d) ==> d@.len() <= 1050)
                && self.conditions@.len() == 1 && self.notification_targets@.len() >= 1),
            r matches Err(v) ==> (v@.contains(InvalidField::DisplayName) == (self.display_name matches Some(n) && n@.len() == 0)),
            r matches Err(v) ==> (v@.contains(InvalidField::Description) == (self.description matches Some(d) && d@.len() > 1050)),
            r matches Err(v) ==> (v@.contains(InvalidField::Conditions) == (self.conditions@.len() != 1)),
            r matches Err(v) ==> (v@.contains(InvalidField::NotificationTargets) == (self.notification_targets@.len() == 0)),
            r matches Err(v) ==> v@.take(named_field_failures(self.display_name, self.description).len() as int)
                == named_field_failures(self.display_name, self.description),
    {
        proof {
            lemma_alert_policy_failures(*self);
        }
        let mut failures = check_named_fields(&self.display_name, &self.description);
        let ghost named = failures@;
        if !list_length_valid(&self.conditions, Some(1), Some(1), None) {
            failures.push(InvalidField::Conditions);
        }
        if !list_length_valid(&self.notification_targets, Some(1), None, None) {
            failures.push(InvalidField::NotificationTargets);
        }
        assert(failures@ =~= alert_policy_failures(*self));
        finish_validation(failures)
    }
}

} // verus!
