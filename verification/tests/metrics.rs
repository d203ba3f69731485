use kubernetes_metrics::batch::{take_full_batch, BATCH_SIZE_THRESHOLD};
use kubernetes_metrics::identity::{GroupVersionKind, ResourceIdentifier};
use kubernetes_metrics::metrics::{
    Container, ContainerStatus, KubernetesMetrics, Label, OwnerRecord, PodPhase,
};
use kubernetes_metrics::pods::{
    ContainerInfo, ContainerState, NodeInfo, PodInfo, PodStatus, TerminatedState, WaitingState,
};
use kubernetes_metrics::stats::now_timestamp;

fn json(text: &str) -> serde_json::Value {
    serde_json::from_str(text).expect("the text is JSON")
}

fn now() -> i64 {
    let since_epoch = std::time::SystemTime::now()
        .duration_since(std::time::UNIX_EPOCH)
        .expect("the clock is past the epoch");
    now_timestamp(since_epoch.as_secs() as i64)
}

fn pod_info(name: &str, namespace: &str, uid: &str, node: &str) -> PodInfo {
    PodInfo {
        name: Some(name.to_string()),
        generate_name: None,
        namespace: Some(namespace.to_string()),
        uid: Some(uid.to_string()),
        node_name: Some(node.to_string()),
        labels: None,
        status: None,
    }
}

fn label(key: &str, value: &str) -> Label {
    Label { key: key.to_string(), value: value.to_string() }
}

#[test]
fn extract_node_metrics_with_empty_results() {
    assert_eq!(None, KubernetesMetrics::from_node_json(json("[]"), now()));
}

#[test]
fn extract_node_metrics_with_swap_data() {
    let metric = KubernetesMetrics::from_node_json(
        json(
            r#"{
          "nodeName": "node",
          "swap": {
              "time": "2025-01-31T10:57:18Z",
              "swapAvailableBytes": 10465738752,
              "swapUsageBytes": 1024
          }
        }"#,
        ),
        now(),
    )
    .unwrap();

    assert_eq!("node", metric.node_name);
    assert_eq!(1024, metric.swap_usage_bytes);
    assert_eq!(10465738752, metric.swap_available_bytes);
}

#[test]
fn extract_volume_metrics_with_empty_results() {
    assert_eq!(None, KubernetesMetrics::from_volume_json(None, json("[]"), now()));
}

#[test]
fn extract_volume_metrics_with_results() {
    let metric = KubernetesMetrics::from_volume_json(
        Some("node"),
        json(
            r#"{
                "time": "2024-10-08T13:42:48Z",
                "availableBytes": 8318251008,
                "capacityBytes": 8318263296,
                "usedBytes": 12288,
                "inodesFree": 1015404,
                "inodes": 1015413,
                "inodesUsed": 9,
                "name": "kube-api-access-qz4b4"
            }"#,
        ),
        now(),
    )
    .unwrap();

    assert_eq!("node", metric.node_name);
    assert_eq!("kube-api-access-qz4b4", metric.volume_name);

    assert!(!metric.is_node());
    assert!(!metric.is_pod());
    assert!(metric.is_volume());

    assert!(metric.timestamp > 1736429031);
    assert!(metric.timestamp % 60 == 0);

    assert_eq!(8318251008, metric.fs_available_bytes);
}

#[test]
fn delta_from_node() {
    let node = KubernetesMetrics::from_node_json(
        json(r#"{"nodeName": "node", "network": {"rxBytes": 6011987255}}"#),
        now(),
    )
    .unwrap();

    let previous = vec![
        KubernetesMetrics::from_node_json(
            json(r#"{"nodeName": "other_node", "network": {"rxBytes": 6011987255}}"#),
            now(),
        )
        .unwrap(),
        KubernetesMetrics::from_node_json(
            json(r#"{"nodeName": "node", "network": {"rxBytes": 6011987250}}"#),
            now(),
        )
        .unwrap(),
    ];

    let new = node.delta_from(previous).unwrap();

    assert_eq!(5, new.network_rx_bytes);
}

#[test]
fn delta_from_pod() {
    let pod = pod_info("pod", "default", "eba341db-5f3c-4cbf-9f2d-1ca9e926c7e4", "node");

    let mut current = KubernetesMetrics::from_pod_api(&pod, now()).unwrap();
    current.enrich_with_stats(json(r#"{"network": {"rxBytes": 2732202444}}"#));

    let mut previous_different = current.clone();
    previous_different.pod_uuid = "differen-tuid-4cbf-9f2d-1ca9e926c7e4".to_string();
    previous_different.network_rx_bytes = 2732202444;

    let mut previous_same = current.clone();
    previous_same.network_rx_bytes = 2732202440;

    let previous = vec![previous_different, previous_same];

    let new = current.delta_from(previous).unwrap();

    assert_eq!(4, new.network_rx_bytes);
}

#[test]
fn from_pod_api_creates_base_metrics() {
    let mut pod = pod_info("test-pod", "default", "test-uid-123", "test-node");
    pod.status = Some(PodStatus {
        phase: Some("Running".to_string()),
        container_statuses: None,
        age_seconds: None,
    });

    let metric = KubernetesMetrics::from_pod_api(&pod, now()).unwrap();

    assert_eq!("test-pod", metric.pod_name);
    assert_eq!("default", metric.pod_namespace);
    assert_eq!("test-uid-123", metric.pod_uuid);
    assert_eq!("test-node", metric.node_name);
    assert_eq!(PodPhase::Running, metric.pod_phase);
    assert!(metric.is_pod());
    assert!(!metric.is_node());
    assert!(!metric.is_volume());

    assert_eq!(0, metric.cpu_usage_nano_cores);
    assert_eq!(0, metric.memory_usage_bytes);
    assert_eq!(0, metric.network_rx_bytes);
}

#[test]
fn enrich_with_stats_adds_metrics() {
    let pod = pod_info("test-pod", "default", "test-uid-123", "test-node");

    let mut metric = KubernetesMetrics::from_pod_api(&pod, now()).unwrap();

    let stats_json = json(
        r#"{
            "cpu": {
                "usageNanoCores": 1000000,
                "usageCoreNanoSeconds": 2000000000
            },
            "memory": {
                "usageBytes": 1048576,
                "workingSetBytes": 2097152
            },
            "network": {
                "rxBytes": 1024,
                "txBytes": 2048
            }
        }"#,
    );

    metric.enrich_with_stats(stats_json);

    assert_eq!(1000000, metric.cpu_usage_nano_cores);
    assert_eq!(2000000000, metric.cpu_usage_core_nano_seconds);
    assert_eq!(1048576, metric.memory_usage_bytes);
    assert_eq!(2097152, metric.memory_working_set_bytes);
    assert_eq!(1024, metric.network_rx_bytes);
    assert_eq!(2048, metric.network_tx_bytes);
}

#[test]
fn timestamp_is_the_start_of_the_minute() {
    assert_eq!(now_timestamp(0), 0);
    assert_eq!(now_timestamp(59), 0);
    assert_eq!(now_timestamp(60), 60);
    assert_eq!(now_timestamp(1736429031), 1736429031 - 51);
    assert_eq!(now_timestamp(-125), -120);
    assert_eq!(now_timestamp(i64::MAX), i64::MAX - 7);
    assert_eq!(now_timestamp(i64::MIN), i64::MIN + 8);
}

#[test]
fn node_metrics_read_every_counter() {
    let metric = KubernetesMetrics::from_node_json(
        json(
            r#"{
            "nodeName": "pool-1",
            "cpu": {"usageNanoCores": 44128133, "usageCoreNanoSeconds": 83361299610000},
            "memory": {"availableBytes": 1039441920, "usageBytes": 1565478912,
                       "workingSetBytes": 1023315968, "rssBytes": 450433024,
                       "pageFaults": 97153339, "majorPageFaults": 3780},
            "network": {"rxBytes": 6011987255, "rxErrors": 42, "txBytes": 5541026205, "txErrors": 43},
            "fs": {"availableBytes": 36804550656, "capacityBytes": 52666433536,
                   "usedBytes": 13682970624, "inodesFree": 3148894, "inodes": 3268608,
                   "inodesUsed": 119714},
            "rlimit": {"maxpid": 15432, "curproc": 363},
            "swap": {"swapUsageBytes": 41, "swapAvailableBytes": 42}
        }"#,
        ),
        120,
    )
    .unwrap();

    let mut expected = KubernetesMetrics::new();
    expected.node_name = "pool-1".to_string();
    expected.timestamp = 120;
    expected.cpu_usage_nano_cores = 44128133;
    expected.cpu_usage_core_nano_seconds = 83361299610000;
    expected.memory_available_bytes = 1039441920;
    expected.memory_usage_bytes = 1565478912;
    expected.memory_working_set_bytes = 1023315968;
    expected.memory_rss_bytes = 450433024;
    expected.memory_page_faults = 97153339;
    expected.memory_major_page_faults = 3780;
    expected.network_rx_bytes = 6011987255;
    expected.network_rx_errors = 42;
    expected.network_tx_bytes = 5541026205;
    expected.network_tx_errors = 43;
    expected.fs_available_bytes = 36804550656;
    expected.fs_capacity_bytes = 52666433536;
    expected.fs_used_bytes = 13682970624;
    expected.fs_inodes_free = 3148894;
    expected.fs_inodes = 3268608;
    expected.fs_inodes_used = 119714;
    expected.rlimit_maxpid = 15432;
    expected.rlimit_curproc = 363;
    expected.swap_usage_bytes = 41;
    expected.swap_available_bytes = 42;
    assert_eq!(metric, expected);
    assert!(metric.is_node());
    assert!(!metric.is_pod());
    assert!(!metric.is_volume());
}

#[test]
fn negative_numbers_are_not_read() {
    let metric = KubernetesMetrics::from_node_json(
        json(
            r#"{
            "nodeName": "node",
            "cpu": {"usageNanoCores": -1},
            "memory": {"usageBytes": -512, "pageFaults": -3},
            "network": {"rxBytes": -6011987255, "rxErrors": -42},
            "fs": {"capacityBytes": -1024, "usedBytes": 1024}
        }"#,
        ),
        0,
    )
    .unwrap();
    let mut expected = KubernetesMetrics::new();
    expected.node_name = "node".to_string();
    expected.fs_used_bytes = 1024;
    assert_eq!(metric, expected);

    let mut pod = KubernetesMetrics::new();
    pod.network_rx_bytes = 7;
    pod.process_count = 3;
    pod.enrich_with_stats(json(
        r#"{"network": {"rxBytes": -1, "txBytes": 5}, "process_stats": {"process_count": -2}}"#,
    ));
    assert_eq!(pod.network_rx_bytes, 7);
    assert_eq!(pod.network_tx_bytes, 5);
    assert_eq!(pod.process_count, 3);
}

#[test]
fn extract_i64_reads_integers_only() {
    let data = json(
        r#"{"a": {"b": 7, "c": 7.5, "d": "7", "e": -7, "f": 18446744073709551615, "g": [1, 2]}}"#,
    );
    assert_eq!(KubernetesMetrics::extract_i64(&data, "/a/b"), Some(7));
    assert_eq!(KubernetesMetrics::extract_i64(&data, "/a/c"), None);
    assert_eq!(KubernetesMetrics::extract_i64(&data, "/a/d"), None);
    assert_eq!(KubernetesMetrics::extract_i64(&data, "/a/e"), None);
    assert_eq!(KubernetesMetrics::extract_i64(&data, "/a/f"), None);
    assert_eq!(KubernetesMetrics::extract_i64(&data, "/a/g/1"), Some(2));
    assert_eq!(KubernetesMetrics::extract_i64(&data, "/a/x"), None);
    assert_eq!(KubernetesMetrics::extract_i64(&data, "a/b"), None);
}

#[test]
fn wide_counters_are_cut_to_32_bits() {
    let metric = KubernetesMetrics::from_node_json(
        json(
            r#"{"nodeName": "node", "memory": {"pageFaults": 4294967297},
                "rlimit": {"maxpid": 2147483648}}"#,
        ),
        0,
    )
    .unwrap();
    assert_eq!(metric.memory_page_faults, 1);
    assert_eq!(metric.rlimit_maxpid, i32::MIN);
}

#[test]
fn pod_stats_read_every_counter() {
    let mut metric = KubernetesMetrics::new();
    metric.pod_uuid = "uid".to_string();
    metric.memory_available_bytes = 99;
    metric.enrich_with_stats(json(
        r#"{
        "cpu": {"usageNanoCores": 409594, "usageCoreNanoSeconds": 631022780000},
        "memory": {"availableBytes": 1, "usageBytes": 10760192, "workingSetBytes": 10702848,
                   "rssBytes": 9584640, "pageFaults": 2832, "majorPageFaults": 7},
        "network": {"rxBytes": 2732202444, "rxErrors": 42, "txBytes": 2814051624, "txErrors": 43},
        "ephemeral-storage": {"availableBytes": 36804550656, "capacityBytes": 52666433536,
                              "usedBytes": 15360000, "inodesFree": 3148894, "inodes": 3268608,
                              "inodesUsed": 17},
        "process_stats": {"process_count": 1},
        "swap": {"swapUsageBytes": 42, "swapAvailableBytes": 43}
    }"#,
    ));
    let mut expected = KubernetesMetrics::new();
    expected.pod_uuid = "uid".to_string();
    expected.memory_available_bytes = 99;
    expected.cpu_usage_nano_cores = 409594;
    expected.cpu_usage_core_nano_seconds = 631022780000;
    expected.memory_usage_bytes = 10760192;
    expected.memory_working_set_bytes = 10702848;
    expected.memory_rss_bytes = 9584640;
    expected.memory_page_faults = 2832;
    expected.memory_major_page_faults = 7;
    expected.network_rx_bytes = 2732202444;
    expected.network_rx_errors = 42;
    expected.network_tx_bytes = 2814051624;
    expected.network_tx_errors = 43;
    expected.ephemeral_storage_available_bytes = 36804550656;
    expected.ephemeral_storage_capacity_bytes = 52666433536;
    expected.ephemeral_storage_used_bytes = 15360000;
    expected.ephemeral_storage_inodes_free = 3148894;
    expected.ephemeral_storage_inodes = 3268608;
    expected.ephemeral_storage_inodes_used = 17;
    expected.process_count = 1;
    expected.swap_usage_bytes = 42;
    assert_eq!(metric, expected);
}

#[test]
fn volume_metrics_read_members_as_they_are() {
    let metric = KubernetesMetrics::from_volume_json(
        Some("node"),
        json(
            r#"{"name": "data", "availableBytes": -5, "capacityBytes": 10, "usedBytes": 3,
                "inodesFree": 4, "inodes": 6, "inodesUsed": 2}"#,
        ),
        60,
    )
    .unwrap();
    let mut expected = KubernetesMetrics::new();
    expected.node_name = "node".to_string();
    expected.volume_name = "data".to_string();
    expected.timestamp = 60;
    expected.fs_available_bytes = -5;
    expected.fs_capacity_bytes = 10;
    expected.fs_used_bytes = 3;
    expected.fs_inodes_free = 4;
    expected.fs_inodes = 6;
    expected.fs_inodes_used = 2;
    assert_eq!(metric, expected);
    assert_eq!(None, KubernetesMetrics::from_volume_json(None, json(r#"{"name": "data"}"#), 60));
    assert_eq!(None, KubernetesMetrics::from_volume_json(Some("node"), json(r#"{"name": 5}"#), 60));
}

#[test]
fn node_without_a_name_is_no_node() {
    assert_eq!(None, KubernetesMetrics::from_node_json(json(r#"{"nodeName": 5}"#), 0));
    assert_eq!(None, KubernetesMetrics::from_node_json(json(r#"{"cpu": {}}"#), 0));
}

#[test]
fn kinds_of_record() {
    let mut metric = KubernetesMetrics::new();
    assert!(metric.is_node() && !metric.is_pod() && !metric.is_volume());
    metric.pod_uuid = "uid".to_string();
    assert!(!metric.is_node() && metric.is_pod() && !metric.is_volume());
    metric.volume_name = "vol".to_string();
    assert!(!metric.is_node() && metric.is_pod() && metric.is_volume());
    metric.pod_uuid = String::new();
    assert!(!metric.is_node() && !metric.is_pod() && metric.is_volume());
}

#[test]
fn delta_subtracts_the_network_counters_only() {
    let mut current = KubernetesMetrics::new();
    current.node_name = "node".to_string();
    current.network_rx_bytes = 100;
    current.network_rx_errors = 10;
    current.network_tx_bytes = 50;
    current.network_tx_errors = 5;
    current.cpu_usage_nano_cores = 77;
    current.labels = vec![label("a", "b")];
    let mut previous = KubernetesMetrics::new();
    previous.node_name = "other".to_string();
    previous.network_rx_bytes = 60;
    previous.network_rx_errors = 12;
    previous.network_tx_bytes = 50;
    previous.network_tx_errors = 1;
    previous.cpu_usage_nano_cores = 70;

    let new = current.delta(previous);

    let mut expected = current.clone();
    expected.network_rx_bytes = 40;
    expected.network_rx_errors = -2;
    expected.network_tx_bytes = 0;
    expected.network_tx_errors = 4;
    assert_eq!(new, expected);

    let zero = current.delta(current.clone());
    assert_eq!(0, zero.network_rx_bytes);
    assert_eq!(0, zero.network_rx_errors);
    assert_eq!(0, zero.network_tx_bytes);
    assert_eq!(0, zero.network_tx_errors);
}

#[test]
fn delta_from_takes_the_first_record_of_the_same_thing() {
    let mut volume = KubernetesMetrics::new();
    volume.node_name = "node".to_string();
    volume.volume_name = "data".to_string();
    volume.network_rx_bytes = 10;
    let mut node = KubernetesMetrics::new();
    node.node_name = "node".to_string();
    node.network_rx_bytes = 1;
    let mut first = volume.clone();
    first.network_rx_bytes = 4;
    let mut second = volume.clone();
    second.network_rx_bytes = 9;

    let new = volume.delta_from(vec![node.clone(), first, second]).unwrap();
    assert_eq!(new.network_rx_bytes, 6);

    assert_eq!(volume.delta_from(vec![node.clone()]), None);
    assert_eq!(volume.delta_from(vec![]), None);
    assert_eq!(node.delta_from(vec![volume.clone()]).unwrap().network_rx_bytes, -9);
}

#[test]
fn pod_without_a_node_has_no_record() {
    let complete = pod_info("p", "ns", "uid", "node");
    assert!(KubernetesMetrics::from_pod_api(&complete, 0).is_some());
    assert_eq!(None, KubernetesMetrics::from_pod_api(&PodInfo { name: None, ..complete.clone() }, 0));
    assert_eq!(
        None,
        KubernetesMetrics::from_pod_api(&PodInfo { namespace: None, ..complete.clone() }, 0)
    );
    assert_eq!(None, KubernetesMetrics::from_pod_api(&PodInfo { uid: None, ..complete.clone() }, 0));
    assert_eq!(
        None,
        KubernetesMetrics::from_pod_api(&PodInfo { node_name: None, ..complete.clone() }, 0)
    );
}

#[test]
fn pod_phases() {
    let cases = [
        ("Pending", PodPhase::Pending),
        ("Running", PodPhase::Running),
        ("Succeeded", PodPhase::Succeeded),
        ("Failed", PodPhase::Failed),
        ("Unknown", PodPhase::Unknown),
        ("running", PodPhase::Unknown),
    ];
    for (name, phase) in cases {
        let mut pod = pod_info("p", "ns", "uid", "node");
        pod.status = Some(PodStatus {
            phase: Some(name.to_string()),
            container_statuses: None,
            age_seconds: None,
        });
        let metric = KubernetesMetrics::from_pod_api(&pod, 180).unwrap();
        assert_eq!(metric.pod_phase, phase);
        assert_eq!(metric.timestamp, 180);
    }
    let metric = KubernetesMetrics::from_pod_api(&pod_info("p", "ns", "uid", "node"), 0).unwrap();
    assert_eq!(metric.pod_phase, PodPhase::Unknown);
}

fn container(name: &str, restarts: i32, state: Option<ContainerState>) -> ContainerInfo {
    ContainerInfo { name: name.to_string(), restart_count: restarts, state }
}

fn pod_with_containers() -> PodInfo {
    let mut pod = pod_info("p", "ns", "uid", "node");
    pod.labels = Some(vec![label("app", "web"), label("tier", "front")]);
    pod.status = Some(PodStatus {
        phase: None,
        container_statuses: Some(vec![
            container(
                "run",
                1,
                Some(ContainerState {
                    running: true,
                    waiting: Some(WaitingState { reason: Some("ignored".to_string()) }),
                    terminated: None,
                }),
            ),
            container(
                "wait",
                2,
                Some(ContainerState {
                    running: false,
                    waiting: Some(WaitingState { reason: Some("CrashLoopBackOff".to_string()) }),
                    terminated: Some(TerminatedState { reason: None, exit_code: 9 }),
                }),
            ),
            container(
                "done",
                3,
                Some(ContainerState {
                    running: false,
                    waiting: None,
                    terminated: Some(TerminatedState {
                        reason: Some("Error".to_string()),
                        exit_code: 137,
                    }),
                }),
            ),
            container(
                "none",
                4,
                Some(ContainerState { running: false, waiting: None, terminated: None }),
            ),
            container("stateless", 5, None),
        ]),
        age_seconds: Some(3600),
    });
    pod
}

fn expected_container(name: &str, status: ContainerStatus, reason: &str, exit_code: i32) -> Container {
    Container { name: name.to_string(), status, reason: reason.to_string(), exit_code }
}

#[test]
fn containers_of_the_pod_of_the_same_name() {
    let other = pod_info("other", "ns", "uid-2", "node");
    let pods = vec![other, pod_with_containers()];
    let mut metric = KubernetesMetrics::from_pod_api(&pods[1], 0).unwrap();
    metric.extract_containers(&pods);
    assert_eq!(
        metric.containers,
        vec![
            expected_container("run", ContainerStatus::Running, "", 0),
            expected_container("wait", ContainerStatus::Waiting, "CrashLoopBackOff", 0),
            expected_container("done", ContainerStatus::Terminated, "Error", 137),
            expected_container("none", ContainerStatus::Unknown, "", 0),
            expected_container("stateless", ContainerStatus::Unknown, "", 0),
        ]
    );
    let mut stranger = KubernetesMetrics::from_pod_api(&pods[1], 0).unwrap();
    stranger.pod_name = "nobody".to_string();
    stranger.extract_containers(&pods);
    assert!(stranger.containers.is_empty());
    let mut unlisted = KubernetesMetrics::from_pod_api(&pods[0], 0).unwrap();
    unlisted.containers = vec![expected_container("kept", ContainerStatus::Running, "", 0)];
    unlisted.extract_containers(&pods);
    assert_eq!(unlisted.containers.len(), 1);
}

#[test]
fn restarts_are_added_up_and_uptime_is_never_negative() {
    let pods = vec![pod_with_containers()];
    let mut metric = KubernetesMetrics::from_pod_api(&pods[0], 0).unwrap();
    metric.extract_pod_restart_count_and_uptime(&pods);
    assert_eq!(metric.pod_restart_count, 15);
    assert_eq!(metric.pod_uptime_seconds, 3600);

    let mut early = pod_with_containers();
    early.status = Some(PodStatus { phase: None, container_statuses: None, age_seconds: Some(-5) });
    let mut metric = KubernetesMetrics::from_pod_api(&early, 0).unwrap();
    metric.pod_restart_count = 8;
    metric.pod_uptime_seconds = 8;
    metric.extract_pod_restart_count_and_uptime(&vec![early]);
    assert_eq!(metric.pod_restart_count, 0);
    assert_eq!(metric.pod_uptime_seconds, 0);

    let bare = pod_info("p", "ns", "uid", "node");
    let mut metric = KubernetesMetrics::from_pod_api(&bare, 0).unwrap();
    metric.pod_restart_count = 8;
    metric.pod_uptime_seconds = 8;
    metric.extract_pod_restart_count_and_uptime(&vec![bare]);
    assert_eq!(metric.pod_restart_count, 8);
    assert_eq!(metric.pod_uptime_seconds, 8);
}

#[test]
fn labels_of_the_pod_and_of_the_node() {
    let pods = vec![pod_info("other", "ns", "uid-2", "node"), pod_with_containers()];
    let mut metric = KubernetesMetrics::from_pod_api(&pods[1], 0).unwrap();
    metric.extract_pod_labels(&pods);
    assert_eq!(metric.labels, vec![label("app", "web"), label("tier", "front")]);

    let nodes = vec![
        NodeInfo { name: None, labels: Some(vec![label("x", "y")]) },
        NodeInfo { name: Some("node".to_string()), labels: Some(vec![label("zone", "a")]) },
        NodeInfo { name: Some("node".to_string()), labels: Some(vec![label("zone", "b")]) },
    ];
    let mut node = KubernetesMetrics::new();
    node.node_name = "node".to_string();
    node.extract_node_labels(&nodes);
    assert_eq!(node.labels, vec![label("zone", "a")]);
    node.node_name = "elsewhere".to_string();
    node.extract_node_labels(&nodes);
    assert_eq!(node.labels, vec![label("zone", "a")]);
}

#[test]
fn owner_records_name_kind_name_and_namespace() {
    let pods = vec![pod_with_containers()];
    let mut metric = KubernetesMetrics::from_pod_api(&pods[0], 0).unwrap();
    let resource = metric.owned_resource(&pods).unwrap();
    assert_eq!(
        resource,
        ResourceIdentifier {
            gvk: GroupVersionKind::gvk("", "v1", "Pod"),
            name: "p".to_string(),
            namespace: Some("ns".to_string()),
        }
    );
    let owners = vec![
        ResourceIdentifier {
            gvk: GroupVersionKind::gvk("apps", "v1", "Deployment"),
            name: "web".to_string(),
            namespace: Some("ns".to_string()),
        },
        ResourceIdentifier {
            gvk: GroupVersionKind::gvk("", "v1", "Node"),
            name: "n1".to_string(),
            namespace: None,
        },
    ];
    metric.extract_owner_references(&owners);
    assert_eq!(
        metric.owner_references,
        vec![
            OwnerRecord {
                kind: "Deployment".to_string(),
                name: "web".to_string(),
                namespace: "ns".to_string(),
            },
            OwnerRecord { kind: "Node".to_string(), name: "n1".to_string(), namespace: String::new() },
        ]
    );
    metric.pod_name = "nobody".to_string();
    assert_eq!(metric.owned_resource(&pods), None);
}

fn record(name: &str) -> KubernetesMetrics {
    let mut metric = KubernetesMetrics::new();
    metric.node_name = name.to_string();
    metric
}

#[test]
fn batch_over_the_threshold_is_sent() {
    assert_eq!(BATCH_SIZE_THRESHOLD, 400_000);

    let mut batch = vec![record("a"), record("b")];
    let mut records = vec![record("x"), record("y")];
    assert_eq!(take_full_batch(&mut batch, &mut records, 400_000), None);
    assert_eq!(batch, vec![record("a"), record("b")]);
    assert_eq!(records, vec![record("x"), record("y")]);

    let full = take_full_batch(&mut batch, &mut records, 400_001).unwrap();
    assert_eq!(full, vec![record("a"), record("b")]);
    assert_eq!(batch, vec![record("y")]);
    assert_eq!(records, vec![record("x")]);

    let mut single = vec![record("a")];
    let full = take_full_batch(&mut single, &mut records, u32::MAX).unwrap();
    assert_eq!(full, vec![record("a")]);
    assert!(single.is_empty());
    assert_eq!(records, vec![record("x")]);

    let mut batch = vec![record("a"), record("b")];
    let mut none: Vec<KubernetesMetrics> = vec![];
    let full = take_full_batch(&mut batch, &mut none, 500_000).unwrap();
    assert_eq!(full.len(), 2);
    assert!(batch.is_empty());
}
