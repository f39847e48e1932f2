use controller::duration::{DurationShorthand, DurationShorthandType};
use controller::resources::{
    AlertConditionRef, AlertConditionRefKind, AlertConditionSpec, AlertNotificationTargetRef,
    AlertNotificationTargetRefKind, AlertNotificationTargetSpec, AlertPolicySpec, Condition,
    ConditionKind, DataSourceConnectionDetails, DataSourceConnectionType, DataSourceSpec, InvalidField,
    Metadata, MetricSource, MetricSourceType, PromMetricSource, PrometheusConnectionDetails,
    PrometheusPaths, RatioMetric, SLISpec, ServiceSpec, ThresholdMetric, Op, validate_named_fields,
};

fn text(n: usize, c: char) -> String {
    std::iter::repeat(c).take(n).collect()
}

fn metadata() -> Metadata {
    Metadata { name: "a".to_string(), labels: None, annotations: None }
}

fn condition_spec() -> AlertConditionSpec {
    AlertConditionSpec {
        display_name: None,
        description: None,
        severity: "page".to_string(),
        condition: Condition {
            kind: ConditionKind::Burnrate,
            op: Op::Gte,
            threshold: 2,
            lookback_window: DurationShorthand { time: 1, unit: DurationShorthandType::Hour },
            alert_after: DurationShorthand { time: 5, unit: DurationShorthandType::Minute },
        },
    }
}

fn condition_ref() -> AlertConditionRef {
    AlertConditionRef {
        condition_ref: None,
        kind: AlertConditionRefKind::AlertCondition,
        metadata: metadata(),
        spec: condition_spec(),
    }
}

fn target_ref() -> AlertNotificationTargetRef {
    AlertNotificationTargetRef {
        target_ref: Some("pager".to_string()),
        kind: AlertNotificationTargetRefKind::AlertNotificationTarget,
        metadata: metadata(),
        spec: AlertNotificationTargetSpec { display_name: None, description: None, target: "pager".to_string() },
    }
}

fn policy(conditions: usize, targets: usize) -> AlertPolicySpec {
    AlertPolicySpec {
        display_name: Some("p".to_string()),
        description: None,
        alert_when_no_data: false,
        alert_when_resolved: true,
        alert_when_breaching: true,
        conditions: (0..conditions).map(|_| condition_ref()).collect(),
        notification_targets: (0..targets).map(|_| target_ref()).collect(),
    }
}

#[test]
fn service_spec_rules() {
    let ok = ServiceSpec { display_name: Some("svc".to_string()), description: Some(text(1050, 'x')) };
    assert_eq!(ok.validate(), Ok(()));
    let absent = ServiceSpec { display_name: None, description: None };
    assert_eq!(absent.validate(), Ok(()));
    let empty_name = ServiceSpec { display_name: Some(String::new()), description: None };
    assert_eq!(empty_name.validate(), Err(vec![InvalidField::DisplayName]));
    let long = ServiceSpec { display_name: Some(String::new()), description: Some(text(1051, 'x')) };
    assert_eq!(long.validate(), Err(vec![InvalidField::DisplayName, InvalidField::Description]));
}

#[test]
fn lengths_count_characters() {
    let wide = ServiceSpec { display_name: None, description: Some(text(1050, 'é')) };
    assert_eq!(wide.validate(), Ok(()));
    let wider = ServiceSpec { display_name: None, description: Some(text(1051, 'é')) };
    assert_eq!(wider.validate(), Err(vec![InvalidField::Description]));
}

#[test]
fn data_source_spec_rules() {
    let details = DataSourceConnectionDetails::PrometheusConnectionDetails(PrometheusConnectionDetails {
        url: "http://prom".to_string(),
        paths: PrometheusPaths { status_config: "/s".to_string() },
    });
    let spec = DataSourceSpec {
        display_name: Some(String::new()),
        description: None,
        connection_type: DataSourceConnectionType::Prometheus,
        connection_details: details,
    };
    assert_eq!(spec.validate(), Err(vec![InvalidField::DisplayName]));
}

#[test]
fn sli_spec_rules() {
    let source = MetricSource {
        metric_source_ref: None,
        spec: MetricSourceType::PromMetricSource(PromMetricSource {}),
        source_type: None,
    };
    let mut spec = SLISpec {
        display_name: Some(String::new()),
        threshold_metric: ThresholdMetric { metric_source: source.clone() },
        ratio_metric: RatioMetric { counter: None, total: source, good: None, bad: None, raw_type: None, raw: None },
    };
    assert_eq!(spec.validate(), Err(vec![InvalidField::DisplayName]));
    spec.display_name = Some("latency".to_string());
    assert_eq!(spec.validate(), Ok(()));
}

#[test]
fn alert_specs_rules() {
    assert_eq!(condition_spec().validate(), Ok(()));
    let mut target = AlertNotificationTargetSpec { display_name: None, description: Some(text(1051, 'a')), target: "t".to_string() };
    assert_eq!(target.validate(), Err(vec![InvalidField::Description]));
    target.description = None;
    assert_eq!(target.validate(), Ok(()));
}

#[test]
fn alert_policy_needs_one_condition_and_a_target() {
    assert_eq!(policy(1, 1).validate(), Ok(()));
    assert_eq!(policy(1, 3).validate(), Ok(()));
    assert_eq!(policy(0, 1).validate(), Err(vec![InvalidField::Conditions]));
    assert_eq!(policy(2, 1).validate(), Err(vec![InvalidField::Conditions]));
    assert_eq!(policy(1, 0).validate(), Err(vec![InvalidField::NotificationTargets]));
    assert_eq!(policy(0, 0).validate(), Err(vec![InvalidField::Conditions, InvalidField::NotificationTargets]));
}

#[test]
fn named_fields_rules() {
    assert_eq!(validate_named_fields(&None, &None), Ok(()));
    assert_eq!(validate_named_fields(&Some("slo".to_string()), &Some(text(1050, 'x'))), Ok(()));
    assert_eq!(
        validate_named_fields(&Some(String::new()), &Some(text(1051, 'x'))),
        Err(vec![InvalidField::DisplayName, InvalidField::Description])
    );
}
