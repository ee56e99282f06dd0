use kubefi_deployments::cascade::{begin_delete, cascade_kinds, cascade_result, labelled_targets};
use kubefi_deployments::configmap::{
    desired_payload, drift_next, manifest_lines_fit, needs_drift_check, payload_differs, plan_drift,
    plan_drift_from_manifest, ConfigMapCall, DriftNext,
};
use kubefi_deployments::error::{create_result, delete_result, ApiFailure, ControllerError};
use kubefi_deployments::naming::{
    cascade_label_query, headless_service_name, ingress_name, nifi_configmap_name,
    nifi_set_name, zk_configmap_name, zk_headless_service_name, zk_service_name, zk_set_name,
};
use kubefi_deployments::plan::{join_results, tier_ops, EnsureOp};
use kubefi_deployments::reconcile::{
    ensure_result, finish_action, start_action, status_for, ActionStart, EventRun, EventStep,
    LastAction,
};
use kubefi_deployments::resource::{read_name, read_namespace, Deployment, ResourceKind, TemplateKind};
use kubefi_deployments::sync::{after_create, after_lookup, after_render, EnsureNext, EnsureOutcome};

fn deployment(name: Option<&str>, namespace: Option<&str>) -> Deployment {
    Deployment {
        name: name.map(|s| s.to_string()),
        namespace: namespace.map(|s| s.to_string()),
        kind: "NiFiDeployment".to_string(),
    }
}

fn upstream(m: &str) -> ControllerError {
    ControllerError::Upstream(m.to_string())
}

fn data(entries: &[(&str, &str)]) -> Option<Vec<(String, String)>> {
    Some(entries.iter().map(|(k, v)| (k.to_string(), v.to_string())).collect())
}

#[test]
fn resource_names_follow_the_convention() {
    assert_eq!(zk_configmap_name("nifi"), "nifi-zookeeper");
    assert_eq!(nifi_configmap_name("nifi"), "nifi-config");
    assert_eq!(nifi_set_name("nifi"), "nifi");
    assert_eq!(zk_set_name("nifi"), "nifi-zookeeper");
    assert_eq!(headless_service_name("nifi"), "nifi-headless");
    assert_eq!(zk_service_name("nifi"), "nifi-zookeeper");
    assert_eq!(zk_headless_service_name("nifi"), "nifi-zookeeper-headless");
    assert_eq!(ingress_name("nifi"), "nifi-ingress");
    assert_eq!(cascade_label_query(), "app.kubernetes.io/managed-by=Kubefi,release=nifi");
}

#[test]
fn error_messages() {
    let e = ControllerError::MissingProperty("name".to_string(), "NiFiDeployment".to_string());
    assert_eq!(e.message(), "Property \"name\" for NiFiDeployment resource is missing");
    let e = ControllerError::MissingTemplateParameter("ldap".to_string());
    assert_eq!(
        e.message(),
        "Template parameter \"ldap\" is not specified in the resource nor in Kubefi-deployment controller config"
    );
    assert_eq!(upstream("boom").message(), "boom");
    assert_eq!(ControllerError::ManifestParse("bad yaml".to_string()).message(), "bad yaml");
}

#[test]
fn quoted_property_is_escaped() {
    let e = ControllerError::MissingProperty("a\"b".to_string(), "K".to_string());
    assert_eq!(e.message(), "Property \"a\\\"b\" for K resource is missing");
}

#[test]
fn missing_name_is_reported_in_status() {
    let d = deployment(None, Some("ns"));
    match start_action(&d, LastAction::Add) {
        ActionStart::Rejected(s) => {
            assert!(s.error.contains("\"name\""));
            assert!(s.error.contains("NiFiDeployment"));
            assert_eq!(s.last_action, "add");
        }
        ActionStart::Run(_) => panic!("a deployment without a name must not run"),
    }
    match start_action(&d, LastAction::Modify) {
        ActionStart::Rejected(s) => assert_eq!(s.last_action, "modify"),
        ActionStart::Run(_) => panic!("a deployment without a name must not run"),
    }
    assert!(matches!(start_action(&deployment(Some("n"), None), LastAction::Add), ActionStart::Run(n) if n == "n"));
}

#[test]
fn missing_namespace_issues_no_ensure() {
    let d = deployment(Some("nifi"), None);
    match EventRun::start(&d, "nifi") {
        Err(ControllerError::MissingProperty(p, k)) => {
            assert_eq!(p, "namespace");
            assert_eq!(k, "NiFiDeployment");
        }
        _ => panic!("expected a missing namespace"),
    }
}

#[test]
fn read_identity_fields() {
    let d = deployment(Some("nifi"), Some("ns"));
    assert_eq!(read_name(&d).ok(), Some("nifi".to_string()));
    assert_eq!(read_namespace(&d).ok(), Some("ns".to_string()));
    assert!(matches!(read_name(&deployment(None, None)), Err(ControllerError::MissingProperty(p, _)) if p == "name"));
}

#[test]
fn ensure_twice_creates_once() {
    let op = EnsureOp {
        kind: ResourceKind::ConfigMap,
        name: "nifi-zookeeper".to_string(),
        template: TemplateKind::ZkConfigMap,
        owner: "nifi".to_string(),
    };
    let mut creates = 0;
    let mut present = false;
    for _ in 0..2 {
        match after_lookup(present, &op) {
            EnsureNext::Render(t, owner) => {
                assert_eq!(t, TemplateKind::ZkConfigMap);
                assert_eq!(owner, "nifi");
                match after_render(Ok(Some("kind: ConfigMap".to_string()))) {
                EnsureNext::Create(m) => {
                    assert_eq!(m, "kind: ConfigMap");
                    creates += 1;
                    present = true;
                    assert!(matches!(after_create(Ok(())), Ok(EnsureOutcome::Created)));
                }
                _ => panic!("a manifest must be created"),
            }
            }
            EnsureNext::Done(r) => assert!(matches!(r, Ok(EnsureOutcome::Existing))),
            EnsureNext::Create(_) => panic!("a lookup never creates"),
        }
    }
    assert_eq!(creates, 1);
}

#[test]
fn ensure_failures_pass_through() {
    assert!(matches!(after_render(Err(upstream("r"))), EnsureNext::Done(Err(ControllerError::Upstream(m))) if m == "r"));
    assert!(matches!(after_create(Err(upstream("c"))), Err(ControllerError::Upstream(m)) if m == "c"));
    assert!(ensure_result(&Ok(EnsureOutcome::Disabled)).is_ok());
    assert!(ensure_result(&Err(upstream("x"))).is_err());
}

#[test]
fn disabled_resource_succeeds() {
    let next = after_render(Ok(None));
    let outcome = match next {
        EnsureNext::Done(r) => r,
        _ => panic!("no manifest means nothing to create"),
    };
    assert!(matches!(outcome, Ok(EnsureOutcome::Disabled)));
    let run = EventRun {
        name: "nifi".to_string(),
        namespace: "ns".to_string(),
        tier: 3,
        checking_drift: false,
    };
    let created = || Ok(EnsureOutcome::Created);
    let results = vec![created(), created(), created(), created(), outcome];
    match run.tier_done(&results) {
        EventStep::Finished(r) => {
            let status = finish_action("nifi".to_string(), LastAction::Add, &r);
            assert_eq!(status.name, "nifi");
            assert_eq!(status.status.error, "");
            assert_eq!(status.status.last_action, "add");
        }
        _ => panic!("the last tier ends the run"),
    }
}

#[test]
fn tiers_run_in_order() {
    let d = deployment(Some("nifi"), Some("ns"));
    let (run, ops) = match EventRun::start(&d, "nifi") {
        Ok(x) => x,
        Err(_) => panic!("identity is complete"),
    };
    assert_eq!(run.tier, 1);
    assert_eq!(run.namespace, "ns");
    let names: Vec<&str> = ops.iter().map(|o| o.name.as_str()).collect();
    assert_eq!(names, vec!["nifi-zookeeper", "nifi-config"]);
    assert!(ops.iter().all(|o| o.kind == ResourceKind::ConfigMap));
    let (run, ops) = match run.tier_done(&vec![Ok(EnsureOutcome::Created), Ok(EnsureOutcome::Created)]) {
        EventStep::Next(run, ops) => (run, ops),
        _ => panic!("tier two must follow"),
    };
    assert_eq!(run.tier, 2);
    let names: Vec<&str> = ops.iter().map(|o| o.name.as_str()).collect();
    assert_eq!(names, vec!["nifi", "nifi-zookeeper"]);
    assert!(ops.iter().all(|o| o.kind == ResourceKind::StatefulSet));
    let (run, ops) = match run.tier_done(&vec![Ok(EnsureOutcome::Existing), Ok(EnsureOutcome::Created)]) {
        EventStep::Next(run, ops) => (run, ops),
        _ => panic!("tier three must follow"),
    };
    assert_eq!(run.tier, 3);
    let names: Vec<&str> = ops.iter().map(|o| o.name.as_str()).collect();
    assert_eq!(
        names,
        vec!["nifi", "nifi-headless", "nifi-zookeeper", "nifi-zookeeper-headless", "nifi-ingress"]
    );
    assert_eq!(ops[4].kind, ResourceKind::Ingress);
    assert_eq!(ops[4].template, TemplateKind::Ingress);
    let ok = vec![
        Ok(EnsureOutcome::Created),
        Ok(EnsureOutcome::Existing),
        Ok(EnsureOutcome::Disabled),
        Ok(EnsureOutcome::Created),
        Ok(EnsureOutcome::Disabled),
    ];
    assert!(matches!(run.tier_done(&ok), EventStep::Finished(Ok(()))));
}

#[test]
fn zk_configmap_failure_stops_before_statefulsets() {
    let run = EventRun {
        name: "nifi".to_string(),
        namespace: "ns".to_string(),
        tier: 1,
        checking_drift: false,
    };
    let results = vec![Err(upstream("zk configmap")), Ok(EnsureOutcome::Existing)];
    match run.tier_done(&results) {
        EventStep::Finished(Err(e)) => {
            assert_eq!(e.message(), "zk configmap");
            let s = status_for(LastAction::Modify, &Err(e));
            assert_eq!(s.error, "zk configmap");
        }
        _ => panic!("a failed tier ends the run"),
    }
}

#[test]
fn tier_ops_for_each_tier() {
    assert_eq!(tier_ops(1, "a").len(), 2);
    assert_eq!(tier_ops(2, "a").len(), 2);
    assert_eq!(tier_ops(3, "a").len(), 5);
    assert_eq!(tier_ops(1, "a")[1].template, TemplateKind::NiFiConfigMap);
}

#[test]
fn join_keeps_the_first_failure() {
    assert!(join_results(&vec![]).is_ok());
    let r = join_results(&vec![Ok(()), Err(upstream("one")), Err(upstream("two"))]);
    assert!(matches!(r, Err(ControllerError::Upstream(m)) if m == "one"));
}

#[test]
fn payload_comparison() {
    assert!(!payload_differs(&None, &None));
    assert!(payload_differs(&None, &data(&[])));
    assert!(!payload_differs(&data(&[("a", "1")]), &data(&[("a", "1")])));
    assert!(payload_differs(&data(&[("a", "1")]), &data(&[("a", "2")])));
    assert!(payload_differs(&data(&[("a", "1")]), &data(&[("b", "1")])));
    assert!(payload_differs(&data(&[("a", "1")]), &data(&[("a", "1"), ("b", "2")])));
}

#[test]
fn drifted_configmap_is_replaced_once() {
    let name = "nifi-config".to_string();
    let calls = plan_drift(&name, &data(&[("a", "1")]), &Some(data(&[("a", "2")])));
    assert_eq!(calls.len(), 2);
    assert!(matches!(&calls[0], ConfigMapCall::Delete(n) if n == "nifi-config"));
    assert!(matches!(&calls[1], ConfigMapCall::Create(n) if n == "nifi-config"));
    assert!(matches!(drift_next(&calls, &vec![]), DriftNext::Issue(0)));
    assert!(matches!(drift_next(&calls, &vec![Ok(())]), DriftNext::Issue(1)));
    assert!(matches!(drift_next(&calls, &vec![Ok(()), Ok(())]), DriftNext::Done(Ok(true))));
    assert!(matches!(
        drift_next(&calls, &vec![Err(upstream("del"))]),
        DriftNext::Done(Err(ControllerError::Upstream(m))) if m == "del"
    ));
}

#[test]
fn matching_configmap_is_left_alone() {
    let name = "nifi-config".to_string();
    let calls = plan_drift(&name, &data(&[("a", "1")]), &Some(data(&[("a", "1")])));
    assert!(calls.is_empty());
    assert!(matches!(drift_next(&calls, &vec![]), DriftNext::Done(Ok(false))));
    assert!(plan_drift(&name, &data(&[("a", "1")]), &None).is_empty());
    assert!(needs_drift_check(TemplateKind::NiFiConfigMap, EnsureOutcome::Existing));
    assert!(!needs_drift_check(TemplateKind::NiFiConfigMap, EnsureOutcome::Created));
    assert!(!needs_drift_check(TemplateKind::NiFiConfigMap, EnsureOutcome::Disabled));
    assert!(!needs_drift_check(TemplateKind::ZkConfigMap, EnsureOutcome::Existing));
}

fn names(v: &[&str]) -> Result<Vec<String>, ControllerError> {
    Ok(v.iter().map(|s| s.to_string()).collect())
}

#[test]
fn cascade_attempts_every_delete() {
    let d = deployment(Some("nifi"), Some("ns"));
    let (ns, sets) = match begin_delete(&d) {
        Ok(x) => x,
        Err(_) => panic!("identity is complete"),
    };
    assert_eq!(ns, "ns");
    assert_eq!(sets, vec!["nifi".to_string(), "nifi-zookeeper".to_string()]);
    let kinds = cascade_kinds();
    assert_eq!(kinds, vec![ResourceKind::Service, ResourceKind::ConfigMap, ResourceKind::Ingress]);
    let lists = vec![
        (ResourceKind::Service, names(&["s1", "s2", "s3"])),
        (ResourceKind::ConfigMap, names(&["c1", "c2"])),
        (ResourceKind::Ingress, names(&["i1"])),
    ];
    let targets = labelled_targets(&lists);
    assert_eq!(targets.len(), 6);
    assert_eq!(sets.len() + targets.len(), 8);
    assert_eq!(targets[3], (ResourceKind::ConfigMap, "c1".to_string()));
    let set_results = vec![Err(upstream("sts")), Ok(())];
    let deletes: Vec<Result<(), ControllerError>> = targets.iter().map(|_| Ok(())).collect();
    assert!(matches!(cascade_result(&set_results, &lists, &deletes), Err(ControllerError::Upstream(m)) if m == "sts"));
    let mut one_fails: Vec<Result<(), ControllerError>> = targets.iter().map(|_| Ok(())).collect();
    one_fails[5] = Err(upstream("ingress"));
    assert!(cascade_result(&vec![Ok(()), Ok(())], &lists, &one_fails).is_err());
    assert!(cascade_result(&vec![Ok(()), Ok(())], &lists, &deletes).is_ok());
}

#[test]
fn failed_listing_contributes_no_targets() {
    let lists = vec![
        (ResourceKind::Service, Err(upstream("list"))),
        (ResourceKind::ConfigMap, names(&["c1"])),
    ];
    let targets = labelled_targets(&lists);
    assert_eq!(targets, vec![(ResourceKind::ConfigMap, "c1".to_string())]);
    assert!(matches!(cascade_result(&vec![Ok(()), Ok(())], &lists, &vec![Ok(())]), Err(ControllerError::Upstream(m)) if m == "list"));
}

#[test]
fn delete_needs_namespace_then_name() {
    assert!(matches!(begin_delete(&deployment(Some("n"), None)), Err(ControllerError::MissingProperty(p, _)) if p == "namespace"));
    assert!(matches!(begin_delete(&deployment(None, None)), Err(ControllerError::MissingProperty(p, _)) if p == "namespace"));
    assert!(matches!(begin_delete(&deployment(None, Some("ns"))), Err(ControllerError::MissingProperty(p, _)) if p == "name"));
}

const NIFI_CM: &str = "apiVersion: v1\nkind: ConfigMap\nmetadata:\n  name: nifi-config\ndata:\n  b: \"2\"\n  a: \"1\"\n";

#[test]
fn rendered_configmap_data_is_read() {
    match desired_payload(&Some(NIFI_CM.to_string())) {
        Ok(Some(d)) => assert_eq!(d, data(&[("a", "1"), ("b", "2")])),
        _ => panic!("the manifest reads"),
    }
    assert!(matches!(desired_payload(&None), Ok(None)));
    assert!(matches!(desired_payload(&Some("data: [".to_string())), Err(ControllerError::ManifestParse(_))));
}

#[test]
fn drift_from_rendered_manifest() {
    let name = "nifi-config".to_string();
    let rendered = Some(NIFI_CM.to_string());
    match plan_drift_from_manifest(&name, &data(&[("a", "1"), ("b", "3")]), &rendered) {
        Ok(calls) => {
            assert_eq!(calls.len(), 2);
            assert!(matches!(&calls[0], ConfigMapCall::Delete(n) if n == "nifi-config"));
        }
        Err(_) => panic!("the manifest reads"),
    }
    match plan_drift_from_manifest(&name, &data(&[("a", "1"), ("b", "2")]), &rendered) {
        Ok(calls) => assert!(calls.is_empty()),
        Err(_) => panic!("the manifest reads"),
    }
    assert!(matches!(plan_drift_from_manifest(&name, &None, &None), Ok(c) if c.is_empty()));
    assert!(matches!(
        plan_drift_from_manifest(&name, &None, &Some("data: [".to_string())),
        Err(ControllerError::ManifestParse(_))
    ));
}

fn api_failure(status: Option<u16>, message: &str) -> Result<(), ApiFailure> {
    Err(ApiFailure { status, message: message.to_string() })
}

#[test]
fn create_of_existing_resource_succeeds() {
    assert!(create_result(Ok(())).is_ok());
    assert!(create_result(api_failure(Some(409), "exists")).is_ok());
    assert!(matches!(create_result(api_failure(Some(404), "gone")), Err(ControllerError::Upstream(m)) if m == "gone"));
    assert!(matches!(create_result(api_failure(None, "io")), Err(ControllerError::Upstream(m)) if m == "io"));
}

#[test]
fn delete_of_absent_resource_succeeds() {
    assert!(delete_result(Ok(())).is_ok());
    assert!(delete_result(api_failure(Some(404), "gone")).is_ok());
    assert!(matches!(delete_result(api_failure(Some(409), "conflict")), Err(ControllerError::Upstream(m)) if m == "conflict"));
    assert!(matches!(delete_result(api_failure(Some(500), "boom")), Err(ControllerError::Upstream(m)) if m == "boom"));
}

#[test]
fn existing_nifi_configmap_is_checked_after_both_configmaps() {
    let run = |checking_drift| EventRun {
        name: "nifi".to_string(),
        namespace: "ns".to_string(),
        tier: 1,
        checking_drift,
    };
    let step = run(false).tier_done(&vec![Ok(EnsureOutcome::Created), Ok(EnsureOutcome::Existing)]);
    let checking = match step {
        EventStep::CheckDrift(r, cm) => {
            assert_eq!(cm, "nifi-config");
            assert!(r.checking_drift);
            r
        }
        _ => panic!("an existing NiFi ConfigMap is checked for drift"),
    };
    match checking.drift_done(Ok(true)) {
        EventStep::Next(r, ops) => {
            assert_eq!(r.tier, 2);
            assert!(!r.checking_drift);
            assert_eq!(ops.len(), 2);
        }
        _ => panic!("the StatefulSets follow the drift check"),
    }
    assert!(matches!(
        run(true).drift_done(Err(upstream("recreate"))),
        EventStep::Finished(Err(ControllerError::Upstream(m))) if m == "recreate"
    ));
}

#[test]
fn failure_is_never_an_empty_status() {
    let s = status_for(LastAction::Add, &Err(upstream("")));
    assert_eq!(s.error, "reconciliation failed");
    let s = status_for(LastAction::Add, &Err(ControllerError::ManifestParse(String::new())));
    assert!(!s.error.is_empty());
    assert_eq!(status_for(LastAction::Delete, &Ok(())).error, "");
    assert_eq!(status_for(LastAction::Delete, &Ok(())).last_action, "delete");
}

#[test]
fn manifest_with_overlong_line_is_refused_unread() {
    let deep = format!("data:\n  a: \"{}\"\n", "x".repeat(600));
    assert!(!manifest_lines_fit(&deep));
    assert!(manifest_lines_fit(NIFI_CM));
    assert!(manifest_lines_fit(&"x".repeat(512)));
    assert!(!manifest_lines_fit(&"x".repeat(513)));
    assert!(manifest_lines_fit(&format!("{}\n{}", "x".repeat(512), "y".repeat(512))));
    assert!(matches!(desired_payload(&Some(deep)), Err(ControllerError::ManifestParse(_))));
    let nested = "- ".repeat(20000) + "x\n";
    assert!(matches!(desired_payload(&Some(nested)), Err(ControllerError::ManifestParse(_))));
}
