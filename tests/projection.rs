use kubepanel::{
    decimal_string, format_ready, namespace_names, project_age, project_deployment,
    project_deployments, project_minimal, project_minimals, project_pod, project_pods,
    project_stateful_set, project_stateful_sets, ContainerStatus, Deployment, DeploymentSpec,
    DeploymentStatus, ObjectMeta, Pod, PodSpec, PodStatus, StatefulSet, StatefulSetSpec,
    StatefulSetStatus, StatefulSetUpdateStrategy, Timestamp,
};

fn ts(seconds: i64, nanos: u32) -> Timestamp {
    Timestamp::new(seconds, nanos).unwrap()
}

fn meta(name: Option<&str>, namespace: Option<&str>, created: Option<Timestamp>) -> ObjectMeta {
    ObjectMeta {
        name: name.map(|s| s.to_string()),
        namespace: namespace.map(|s| s.to_string()),
        creation_timestamp: created,
    }
}

fn deployment(ready: Option<i32>, desired: Option<i32>) -> Deployment {
    Deployment {
        metadata: meta(Some("web"), Some("default"), Some(ts(1_000, 0))),
        spec: desired.map(|r| DeploymentSpec { replicas: Some(r) }),
        status: ready.map(|r| DeploymentStatus { ready_replicas: Some(r) }),
    }
}

#[test]
fn age_is_zero_without_creation_time() {
    assert_eq!(project_age(None, ts(1_700_000_000, 0)), 0);
    assert_eq!(project_age(None, ts(0, 0)), 0);
}

#[test]
fn age_counts_whole_seconds() {
    assert_eq!(project_age(Some(ts(100, 0)), ts(160, 0)), 60);
    assert_eq!(project_age(Some(ts(100, 900_000_000)), ts(160, 100_000_000)), 59);
    assert_eq!(project_age(Some(ts(100, 0)), ts(100, 999_999_999)), 0);
    assert_eq!(project_age(Some(ts(100, 5)), ts(100, 5)), 0);
}

#[test]
fn age_of_future_creation_is_negative() {
    assert_eq!(project_age(Some(ts(160, 0)), ts(100, 0)), -60);
    assert_eq!(project_age(Some(ts(160, 100_000_000)), ts(100, 900_000_000)), -59);
    assert_eq!(project_age(Some(ts(100, 500_000_000)), ts(100, 0)), 0);
}

#[test]
fn age_spans_the_calendar_range() {
    let first = ts(kubepanel::MIN_SECONDS, 0);
    let last = ts(kubepanel::MAX_SECONDS, 999_999_999);
    assert_eq!(
        project_age(Some(first), last),
        kubepanel::MAX_SECONDS - kubepanel::MIN_SECONDS
    );
    assert_eq!(
        project_age(Some(last), first),
        kubepanel::MIN_SECONDS - kubepanel::MAX_SECONDS
    );
}

#[test]
fn timestamp_rejects_out_of_range_parts() {
    assert!(Timestamp::new(0, 1_000_000_000).is_none());
    assert!(Timestamp::new(kubepanel::MAX_SECONDS + 1, 0).is_none());
    assert!(Timestamp::new(kubepanel::MIN_SECONDS - 1, 0).is_none());
    assert_eq!(
        Timestamp::new(5, 7),
        Some(Timestamp { seconds: 5, nanos: 7 })
    );
}

#[test]
fn decimal_text() {
    assert_eq!(decimal_string(0), "0");
    assert_eq!(decimal_string(7), "7");
    assert_eq!(decimal_string(1234), "1234");
    assert_eq!(decimal_string(-45), "-45");
    assert_eq!(decimal_string(i32::MAX), "2147483647");
    assert_eq!(decimal_string(i32::MIN), "-2147483648");
    assert_eq!(format_ready(10, 12), "10/12");
}

#[test]
fn deployment_ready_reads_ready_over_desired() {
    let info = project_deployment(&deployment(Some(3), Some(5)), ts(1_060, 0));
    assert_eq!(info.ready, "3/5");
    assert_eq!(info.name, "web");
    assert_eq!(info.namespace, "default");
    assert_eq!(info.age, 60);
}

#[test]
fn deployment_without_status_or_spec_is_zero_of_zero() {
    let info = project_deployment(&deployment(None, None), ts(1_000, 0));
    assert_eq!(info.ready, "0/0");
    let partial = Deployment {
        metadata: meta(None, None, None),
        spec: Some(DeploymentSpec { replicas: None }),
        status: Some(DeploymentStatus { ready_replicas: None }),
    };
    let info = project_deployment(&partial, ts(1_000, 0));
    assert_eq!(info.ready, "0/0");
    assert_eq!(info.name, "");
    assert_eq!(info.namespace, "");
    assert_eq!(info.age, 0);
}

#[test]
fn stateful_set_defaults_update_strategy() {
    let sts = StatefulSet {
        metadata: meta(Some("db"), Some("data"), Some(ts(0, 0))),
        spec: Some(StatefulSetSpec { replicas: Some(3), update_strategy: None }),
        status: Some(StatefulSetStatus { ready_replicas: Some(2) }),
    };
    let info = project_stateful_set(&sts, ts(90, 0));
    assert_eq!(info.update_strategy, "RollingUpdate");
    assert_eq!(info.replicas, 3);
    assert_eq!(info.ready_replicas, 2);
    assert_eq!(info.name, "db");
    assert_eq!(info.namespace, "data");
    assert_eq!(info.age, 90);

    let unset_type = StatefulSet {
        metadata: meta(Some("db"), None, None),
        spec: Some(StatefulSetSpec {
            replicas: None,
            update_strategy: Some(StatefulSetUpdateStrategy { strategy_type: None }),
        }),
        status: None,
    };
    let info = project_stateful_set(&unset_type, ts(90, 0));
    assert_eq!(info.update_strategy, "RollingUpdate");
    assert_eq!(info.replicas, 0);
    assert_eq!(info.ready_replicas, 0);

    let bare = StatefulSet { metadata: meta(None, None, None), spec: None, status: None };
    assert_eq!(project_stateful_set(&bare, ts(90, 0)).update_strategy, "RollingUpdate");
}

#[test]
fn stateful_set_keeps_explicit_update_strategy() {
    let sts = StatefulSet {
        metadata: meta(Some("db"), Some("data"), None),
        spec: Some(StatefulSetSpec {
            replicas: Some(1),
            update_strategy: Some(StatefulSetUpdateStrategy {
                strategy_type: Some("OnDelete".to_string()),
            }),
        }),
        status: None,
    };
    assert_eq!(project_stateful_set(&sts, ts(90, 0)).update_strategy, "OnDelete");
}

#[test]
fn pod_reads_first_container_restarts() {
    let pod = Pod {
        metadata: meta(Some("api-1"), Some("prod"), Some(ts(50, 0))),
        spec: Some(PodSpec { node_name: Some("node-a".to_string()) }),
        status: Some(PodStatus {
            phase: Some("Running".to_string()),
            pod_ip: Some("10.0.0.7".to_string()),
            container_statuses: Some(vec![
                ContainerStatus { restart_count: 4 },
                ContainerStatus { restart_count: 9 },
            ]),
        }),
    };
    let info = project_pod(&pod, ts(80, 0));
    assert_eq!(info.name, "api-1");
    assert_eq!(info.namespace, "prod");
    assert_eq!(info.status, "Running");
    assert_eq!(info.restarts, 4);
    assert_eq!(info.ip, "10.0.0.7");
    assert_eq!(info.node, "node-a");
    assert_eq!(info.age, 30);
}

#[test]
fn pod_defaults_missing_fields() {
    let pod = Pod { metadata: meta(None, None, None), spec: None, status: None };
    let info = project_pod(&pod, ts(80, 0));
    assert_eq!(info.name, "");
    assert_eq!(info.namespace, "");
    assert_eq!(info.status, "");
    assert_eq!(info.restarts, 0);
    assert_eq!(info.ip, "");
    assert_eq!(info.node, "");
    assert_eq!(info.age, 0);

    let no_containers = Pod {
        metadata: meta(Some("p"), None, None),
        spec: Some(PodSpec { node_name: None }),
        status: Some(PodStatus {
            phase: None,
            pod_ip: None,
            container_statuses: Some(vec![]),
        }),
    };
    assert_eq!(project_pod(&no_containers, ts(80, 0)).restarts, 0);
}

#[test]
fn lists_keep_input_order() {
    let pods: Vec<Pod> = ["c", "a", "b"]
        .iter()
        .map(|n| Pod { metadata: meta(Some(n), None, None), spec: None, status: None })
        .collect();
    let names: Vec<String> = project_pods(&pods, ts(0, 0)).into_iter().map(|p| p.name).collect();
    assert_eq!(names, vec!["c", "a", "b"]);

    let deployments = vec![deployment(Some(1), Some(2)), deployment(Some(3), Some(3))];
    let ready: Vec<String> =
        project_deployments(&deployments, ts(1_000, 0)).into_iter().map(|d| d.ready).collect();
    assert_eq!(ready, vec!["1/2", "3/3"]);

    let sets = vec![
        StatefulSet { metadata: meta(Some("z"), None, None), spec: None, status: None },
        StatefulSet { metadata: meta(Some("y"), None, None), spec: None, status: None },
    ];
    let names: Vec<String> =
        project_stateful_sets(&sets, ts(0, 0)).into_iter().map(|s| s.name).collect();
    assert_eq!(names, vec!["z", "y"]);

    let metas = vec![
        meta(Some("svc-b"), None, Some(ts(10, 0))),
        meta(Some("svc-a"), None, Some(ts(20, 0))),
    ];
    let rows = project_minimals(&metas, ts(30, 0));
    assert_eq!(rows.len(), 2);
    assert_eq!(rows[0].name, "svc-b");
    assert_eq!(rows[0].age, 20);
    assert_eq!(rows[1].name, "svc-a");
    assert_eq!(rows[1].age, 10);
}

#[test]
fn empty_lists_project_to_empty() {
    assert!(project_pods(&vec![], ts(0, 0)).is_empty());
    assert!(project_deployments(&vec![], ts(0, 0)).is_empty());
    assert!(project_stateful_sets(&vec![], ts(0, 0)).is_empty());
    assert!(project_minimals(&vec![], ts(0, 0)).is_empty());
    assert!(namespace_names(&vec![]).is_empty());
}

#[test]
fn minimal_row_of_daemon_set() {
    let row = project_minimal(&meta(Some("fluentd"), Some("logging"), Some(ts(5, 0))), ts(65, 0));
    assert_eq!(row.name, "fluentd");
    assert_eq!(row.age, 60);
    let row = project_minimal(&meta(None, None, None), ts(65, 0));
    assert_eq!(row.name, "");
    assert_eq!(row.age, 0);
}

#[test]
fn namespace_names_skip_unnamed() {
    let metas = vec![
        meta(Some("kube-system"), None, None),
        meta(None, None, None),
        meta(Some("default"), None, None),
    ];
    assert_eq!(namespace_names(&metas), vec!["kube-system", "default"]);
}
