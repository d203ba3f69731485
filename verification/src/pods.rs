//! What the cluster's API tells of pods and nodes, and how it enters a usage
//! record.

use vstd::prelude::*;
use crate::identity::{ResourceId, ResourceIdentifier};
use crate::metrics::{
    blank, copy_labels, labels_of, records_of, Container, ContainerStatus, ContainerValue,
    KubernetesMetrics, Label, Metrics, OwnerRecord, OwnerRecordValue, PodPhase,
};

verus! {

/// A container that waits to start, and why.
#[derive(Debug, Clone, PartialEq, Eq)]
pub struct WaitingState {
    pub reason: Option<String>,
}

/// A container that has ended, why, and with what exit code.
#[derive(Debug, Clone, PartialEq, Eq)]
pub struct TerminatedState {
    pub reason: Option<String>,
    pub exit_code: i32,
}

/// The state that the cluster reports of a container.
#[derive(Debug, Clone, PartialEq, Eq)]
pub struct ContainerState {
    pub running: bool,
    pub waiting: Option<WaitingState>,
    pub terminated: Option<TerminatedState>,
}

/// What the cluster reports of one container of a pod.
#[derive(Debug, Clone, PartialEq, Eq)]
pub struct ContainerInfo {
    pub name: String,
    pub restart_count: i32,
    pub state: Option<ContainerState>,
}

/// What the cluster reports of a pod's status. `age_seconds` is the time in
/// whole seconds since the pod started, negative where the start lies ahead.
#[derive(Debug, Clone, PartialEq, Eq)]
pub struct PodStatus {
    pub phase: Option<String>,
    pub container_statuses: Option<Vec<ContainerInfo>>,
    pub age_seconds: Option<i64>,
}

/// What the cluster reports of a pod.
#[derive(Debug, Clone, PartialEq, Eq)]
pub struct PodInfo {
    pub name: Option<String>,
    pub generate_name: Option<String>,
    pub namespace: Option<String>,
    pub uid: Option<String>,
    pub node_name: Option<String>,
    pub labels: Option<Vec<Label>>,
    pub status: Option<PodStatus>,
}

/// What the cluster reports of a node.
#[derive(Debug, Clone, PartialEq, Eq)]
pub struct NodeInfo {
    pub name: Option<String>,
    pub labels: Option<Vec<Label>>,
}

/// The characters of an optional text; none where it is absent.
pub open spec fn text_or_empty(s: Option<String>) -> Seq<char> {
    match s {
        Some(s) => s@,
        None => Seq::empty(),
    }
}

/// The phase that a phase's name stands for.
pub open spec fn phase_of(name: Seq<char>) -> PodPhase {
    if name == "Pending"@ {
        PodPhase::Pending
    } else if name == "Running"@ {
        PodPhase::Running
    } else if name == "Succeeded"@ {
        PodPhase::Succeeded
    } else if name == "Failed"@ {
        PodPhase::Failed
    } else {
        PodPhase::Unknown
    }
}

/// The phase of a pod: that which its status names, unknown where it names
/// none.
pub open spec fn pod_phase_of(pod: PodInfo) -> PodPhase {
    match pod.status {
        Some(status) => match status.phase {
            Some(name) => phase_of(name@),
            None => PodPhase::Unknown,
        },
        None => PodPhase::Unknown,
    }
}

/// The record with which a pod's metrics begin: the pod's names, its node
/// and its phase. There is none for a pod without name, namespace,
/// identifier or node.
pub open spec fn pod_metrics(pod: PodInfo, timestamp: i64) -> Option<Metrics> {
    match (pod.name, pod.namespace, pod.uid, pod.node_name) {
        (Some(name), Some(namespace), Some(uid), Some(node)) => Some(
            Metrics {
                node_name: node@,
                pod_name: name@,
                pod_namespace: namespace@,
                pod_uuid: uid@,
                timestamp,
                pod_phase: pod_phase_of(pod),
                ..blank()
            },
        ),
        _ => None,
    }
}

/// The first pod at or after `from` that is named `name`.
pub open spec fn first_pod_named(pods: Seq<PodInfo>, name: Seq<char>, from: int) -> Option<PodInfo>
    decreases pods.len() - from,
{
    if from < 0 || from >= pods.len() {
        None
    } else if pods[from].name is Some && pods[from].name.unwrap()@ == name {
        Some(pods[from])
    } else {
        first_pod_named(pods, name, from + 1)
    }
}

/// The first node at or after `from` that is named `name`.
pub open spec fn first_node_named(nodes: Seq<NodeInfo>, name: Seq<char>, from: int) -> Option<
    NodeInfo,
>
    decreases nodes.len() - from,
{
    if from < 0 || from >= nodes.len() {
        None
    } else if nodes[from].name is Some && nodes[from].name.unwrap()@ == name {
        Some(nodes[from])
    } else {
        first_node_named(nodes, name, from + 1)
    }
}

/// A container as it is reported: running before waiting before ended; one
/// whose state says none of the three, or that has no state, is in an
/// unknown state. Only a container that waits or has ended has a reason,
/// only one that has ended an exit code.
pub open spec fn container_of(info: ContainerInfo) -> ContainerValue {
    match info.state {
        Some(ContainerState { running: true, .. }) => ContainerValue {
            name: info.name@,
            status: ContainerStatus::Running,
            reason: Seq::empty(),
            exit_code: 0,
        },
        Some(ContainerState { running: false, waiting: Some(waiting), .. }) => ContainerValue {
            name: info.name@,
            status: ContainerStatus::Waiting,
            reason: text_or_empty(waiting.reason),
            exit_code: 0,
        },
        Some(
            ContainerState { running: false, waiting: None, terminated: Some(terminated) },
        ) => ContainerValue {
            name: info.name@,
            status: ContainerStatus::Terminated,
            reason: text_or_empty(terminated.reason),
            exit_code: terminated.exit_code,
        },
        _ => ContainerValue {
            name: info.name@,
            status: ContainerStatus::Unknown,
            reason: Seq::empty(),
            exit_code: 0,
        },
    }
}

/// The containers that a pod's status lists, if it lists any.
pub open spec fn listed_containers(pod: Option<PodInfo>) -> Option<Seq<ContainerInfo>> {
    match pod {
        Some(PodInfo { status: Some(PodStatus { container_statuses: Some(list), .. }), .. }) => Some(
            list@,
        ),
        _ => None,
    }
}

/// The restarts of the first `n` containers of a list, added up.
pub open spec fn restart_sum(list: Seq<ContainerInfo>, n: int) -> int
    decreases n,
{
    if n <= 0 || n > list.len() {
        0
    } else {
        restart_sum(list, n - 1) + list[n - 1].restart_count
    }
}

/// Whether the restarts of a list of containers can be added up, one after
/// the other, in 32 bits.
pub open spec fn restarts_fit(list: Seq<ContainerInfo>) -> bool {
    forall|n: int| 0 <= n <= list.len() ==> i32::MIN <= #[trigger] restart_sum(list, n) <= i32::MAX
}

/// The record that names a top-level owner.
pub open spec fn record_of(owner: ResourceId) -> OwnerRecordValue {
    OwnerRecordValue {
        kind: owner.gvk.kind,
        name: owner.name,
        namespace: match owner.namespace {
            Some(namespace) => namespace,
            None => Seq::empty(),
        },
    }
}

/// Whether `text` reads `literal`.
fn reads(text: &String, literal: &str) -> (r: bool)
    ensures
        r == (text@ == literal@),
{
    let other = literal.to_owned();
    *text == other
}

/// A copy of an optional text, empty where it is absent.
fn copy_or_empty(s: &Option<String>) -> (r: String)
    ensures
        r@ == text_or_empty(*s),
{
    match s {
        Some(s) => s.clone(),
        None => String::new(),
    }
}

/// Where the first pod named `name` stands in `pods`.
pub fn find_pod(pods: &Vec<PodInfo>, name: &String) -> (r: Option<usize>)
    ensures
        match r {
            Some(at) => at < pods@.len() && first_pod_named(pods@, name@, 0) == Some(
                pods@[at as int],
            ),
            None => first_pod_named(pods@, name@, 0) is None,
        },
{
    let mut i: usize = 0;
    while i < pods.len()
        invariant
            i <= pods.len(),
            first_pod_named(pods@, name@, 0) == first_pod_named(pods@, name@, i as int),
        decreases pods.len() - i,
    {
        let named = match &pods[i].name {
            Some(n) => *n == *name,
            None => false,
        };
        if named {
            return Some(i);
        }
        i += 1;
    }
    None
}

/// Where the first node named `name` stands in `nodes`.
pub fn find_node(nodes: &Vec<NodeInfo>, name: &String) -> (r: Option<usize>)
    ensures
        match r {
            Some(at) => at < nodes@.len() && first_node_named(nodes@, name@, 0) == Some(
                nodes@[at as int],
            ),
            None => first_node_named(nodes@, name@, 0) is None,
        },
{
    let mut i: usize = 0;
    while i < nodes.len()
        invariant
            i <= nodes.len(),
            first_node_named(nodes@, name@, 0) == first_node_named(nodes@, name@, i as int),
        decreases nodes.len() - i,
    {
        let named = match &nodes[i].name {
            Some(n) => *n == *name,
            None => false,
        };
        if named {
            return Some(i);
        }
        i += 1;
    }
    None
}

/// The container that a report describes.
pub fn container_from(info: &ContainerInfo) -> (r: Container)
    ensures
        r@ == container_of(*info),
{
    let mut container = Container {
        name: info.name.clone(),
        status: ContainerStatus::Unknown,
        reason: String::new(),
        exit_code: 0,
    };
    if let Some(state) = &info.state {
        if state.running {
            container.status = ContainerStatus::Running;
        } else if let Some(waiting) = &state.waiting {
            container.status = ContainerStatus::Waiting;
            container.reason = copy_or_empty(&waiting.reason);
        } else if let Some(terminated) = &state.terminated {
            container.status = ContainerStatus::Terminated;
            container.reason = copy_or_empty(&terminated.reason);
            container.exit_code = terminated.exit_code;
        }
    }
    container
}

impl KubernetesMetrics {
    /// The record with which a pod's metrics begin, taken at `timestamp`.
    pub fn from_pod_api(pod: &PodInfo, timestamp: i64) -> (r: Option<KubernetesMetrics>)
        ensures
            match pod_metrics(*pod, timestamp) {
                Some(m) => r is Some && r.unwrap()@ == m,
                None => r is None,
            },
    {
        match (&pod.name, &pod.namespace, &pod.uid, &pod.node_name) {
            (Some(name), Some(namespace), Some(uid), Some(node)) => {
                let mut metric = KubernetesMetrics::new();
                metric.node_name = node.clone();
                metric.pod_name = name.clone();
                metric.pod_namespace = namespace.clone();
                metric.pod_uuid = uid.clone();
                metric.timestamp = timestamp;
                if let Some(status) = &pod.status {
                    if let Some(phase) = &status.phase {
                        metric.pod_phase = if reads(phase, "Pending") {
                            PodPhase::Pending
                        } else if reads(phase, "Running") {
                            PodPhase::Running
                        } else if reads(phase, "Succeeded") {
                            PodPhase::Succeeded
                        } else if reads(phase, "Failed") {
                            PodPhase::Failed
                        } else {
                            PodPhase::Unknown
                        };
                    }
                }
                Some(metric)
            },
            _ => None,
        }
    }

    /// Takes the containers of the first pod of this record's name, where
    /// that pod's status lists its containers; else changes nothing.
    pub fn extract_containers(&mut self, pods: &Vec<PodInfo>)
        ensures
            final(self)@ == match listed_containers(
                first_pod_named(pods@, old(self)@.pod_name, 0),
            ) {
                Some(list) => Metrics {
                    containers: Seq::new(list.len(), |i: int| container_of(list[i])),
                    ..old(self)@
                },
                None => old(self)@,
            },
    {
        if let Some(at) = find_pod(pods, &self.pod_name) {
            if let Some(status) = &pods[at].status {
                if let Some(list) = &status.container_statuses {
                    let mut containers: Vec<Container> = Vec::new();
                    let mut i: usize = 0;
                    while i < list.len()
                        invariant
                            i <= list.len(),
                            containers@.len() == i,
                            forall|j: int| 0 <= j < i ==> containers@[j]@ == container_of(list@[j]),
                        decreases list.len() - i,
                    {
                        containers.push(container_from(&list[i]));
                        i += 1;
                    }
                    self.containers = containers;
                    assert(self@.containers =~= Seq::new(
                        list@.len(),
                        |i: int| container_of(list@[i]),
                    ));
                }
            }
        }
    }

    /// Takes the restarts of all containers and the uptime of the first pod
    /// of this record's name, where that pod has a status: the restarts of
    /// the containers it lists, added up, and the time since it started,
    /// where it has started, and zero where the start lies ahead.
    pub fn extract_pod_restart_count_and_uptime(&mut self, pods: &Vec<PodInfo>)
        requires
            match listed_containers(first_pod_named(pods@, old(self)@.pod_name, 0)) {
                Some(list) => restarts_fit(list),
                None => true,
            },
        ensures
            final(self)@ == match first_pod_named(pods@, old(self)@.pod_name, 0) {
                Some(PodInfo { status: Some(status), .. }) => Metrics {
                    pod_restart_count: match status.container_statuses {
                        Some(list) => restart_sum(list@, list@.len() as int) as i32,
                        None => 0,
                    },
                    pod_uptime_seconds: match status.age_seconds {
                        Some(age) => if age < 0 {
                            0
                        } else {
                            age
                        },
                        None => old(self)@.pod_uptime_seconds,
                    },
                    ..old(self)@
                },
                _ => old(self)@,
            },
    {
        if let Some(at) = find_pod(pods, &self.pod_name) {
            if let Some(status) = &pods[at].status {
                let mut total: i32 = 0;
                if let Some(list) = &status.container_statuses {
                    let mut i: usize = 0;
                    while i < list.len()
                        invariant
                            i <= list.len(),
                            total == restart_sum(list@, i as int),
                            restarts_fit(list@),
                        decreases list.len() - i,
                    {
                        assert(restart_sum(list@, i + 1) == restart_sum(list@, i as int)
                            + list@[i as int].restart_count);
                        total += list[i].restart_count;
                        i += 1;
                    }
                }
                self.pod_restart_count = total;
                if let Some(age) = status.age_seconds {
                    self.pod_uptime_seconds = if age < 0 {
                        0
                    } else {
                        age
                    };
                }
            }
        }
    }

    /// Takes the labels of the first pod of this record's name, where that
    /// pod has labels; else changes nothing.
    pub fn extract_pod_labels(&mut self, pods: &Vec<PodInfo>)
        ensures
            final(self)@ == match first_pod_named(pods@, old(self)@.pod_name, 0) {
                Some(PodInfo { labels: Some(labels), .. }) => Metrics {
                    labels: labels_of(labels@),
                    ..old(self)@
                },
                _ => old(self)@,
            },
    {
        if let Some(at) = find_pod(pods, &self.pod_name) {
            if let Some(labels) = &pods[at].labels {
                self.labels = copy_labels(labels);
            }
        }
    }

    /// Takes the labels of the first node of this record's node name, where
    /// that node has labels; else changes nothing.
    pub fn extract_node_labels(&mut self, nodes: &Vec<NodeInfo>)
        ensures
            final(self)@ == match first_node_named(nodes@, old(self)@.node_name, 0) {
                Some(NodeInfo { labels: Some(labels), .. }) => Metrics {
                    labels: labels_of(labels@),
                    ..old(self)@
                },
                _ => old(self)@,
            },
    {
        if let Some(at) = find_node(nodes, &self.node_name) {
            if let Some(labels) = &nodes[at].labels {
                self.labels = copy_labels(labels);
            }
        }
    }

    /// The resource whose owners are to be resolved for this record: the
    /// first pod of this record's name, if there is one.
    pub fn owned_resource(&self, pods: &Vec<PodInfo>) -> (r: Option<ResourceIdentifier>)
        ensures
            match first_pod_named(pods@, self@.pod_name, 0) {
                Some(pod) => r is Some && r.unwrap()@ == crate::identity::pod_id(pod),
                None => r is None,
            },
    {
        match find_pod(pods, &self.pod_name) {
            Some(at) => Some(ResourceIdentifier::from_pod(&pods[at])),
            None => None,
        }
    }

    /// Adds a record for each of the top-level owners that were resolved
    /// for this record's pod, in their order.
    pub fn extract_owner_references(&mut self, owners: &Vec<ResourceIdentifier>)
        ensures
            final(self)@ == (Metrics {
                owner_references: old(self)@.owner_references + Seq::new(
                    owners@.len(),
                    |i: int| record_of(owners@[i]@),
                ),
                ..old(self)@
            }),
    {
        let mut i: usize = 0;
        while i < owners.len()
            invariant
                i <= owners.len(),
                self@ == (Metrics {
                    owner_references: old(self)@.owner_references + Seq::new(
                        i as nat,
                        |j: int| record_of(owners@[j]@),
                    ),
                    ..old(self)@
                }),
            decreases owners.len() - i,
        {
            let ghost before = self.owner_references@;
            let owner = &owners[i];
            self.owner_references.push(
                OwnerRecord {
                    kind: owner.gvk.kind.clone(),
                    name: owner.name.clone(),
                    namespace: copy_or_empty(&owner.namespace),
                },
            );
            assert(records_of(self.owner_references@) =~= records_of(before).push(
                record_of(owners@[i as int]@),
            ));
            assert(self@.owner_references =~= old(self)@.owner_references + Seq::new(
                (i + 1) as nat,
                |j: int| record_of(owners@[j]@),
            ));
            i += 1;
        }
        assert(self@.owner_references =~= old(self)@.owner_references + Seq::new(
            owners@.len(),
            |i: int| record_of(owners@[i]@),
        ));
    }
}

} // verus!
