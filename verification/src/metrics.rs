//! The usage record of one node, pod or volume, and how two records of the
//! same thing are set against each other.

use vstd::prelude::*;

verus! {

/// The phase of a pod's life.
#[derive(Debug, Clone, Copy, PartialEq, Eq)]
pub enum PodPhase {
    Unknown,
    Pending,
    Running,
    Succeeded,
    Failed,
}

/// The state of a container.
#[derive(Debug, Clone, Copy, PartialEq, Eq)]
pub enum ContainerStatus {
    Unknown,
    Running,
    Waiting,
    Terminated,
}

/// One container of a pod: its name, its state, and why and how it got
/// there, as far as known.
#[derive(Debug, PartialEq, Eq)]
pub struct Container {
    pub name: String,
    pub status: ContainerStatus,
    pub reason: String,
    pub exit_code: i32,
}

/// The mathematical value of a container.
pub struct ContainerValue {
    pub name: Seq<char>,
    pub status: ContainerStatus,
    pub reason: Seq<char>,
    pub exit_code: i32,
}

/// One label of a node or pod.
#[derive(Debug, PartialEq, Eq)]
pub struct Label {
    pub key: String,
    pub value: String,
}

/// The mathematical value of a label.
pub struct LabelValue {
    pub key: Seq<char>,
    pub value: Seq<char>,
}

/// A top-level owner as it is reported with a pod: its kind, its name and
/// its namespace, which is empty where the owner has none.
#[derive(Debug, PartialEq, Eq)]
pub struct OwnerRecord {
    pub kind: String,
    pub name: String,
    pub namespace: String,
}

/// The mathematical value of an owner record.
pub struct OwnerRecordValue {
    pub kind: Seq<char>,
    pub name: Seq<char>,
    pub namespace: Seq<char>,
}

impl View for Container {
    type V = ContainerValue;

    open spec fn view(&self) -> ContainerValue {
        ContainerValue {
            name: self.name@,
            status: self.status,
            reason: self.reason@,
            exit_code: self.exit_code,
        }
    }
}

impl Clone for Container {
    fn clone(&self) -> (r: Self)
        ensures
            r == *self,
    {
        Container {
            name: self.name.clone(),
            status: self.status,
            reason: self.reason.clone(),
            exit_code: self.exit_code,
        }
    }
}

impl View for Label {
    type V = LabelValue;

    open spec fn view(&self) -> LabelValue {
        LabelValue { key: self.key@, value: self.value@ }
    }
}

impl Clone for Label {
    fn clone(&self) -> (r: Self)
        ensures
            r == *self,
    {
        Label { key: self.key.clone(), value: self.value.clone() }
    }
}

impl View for OwnerRecord {
    type V = OwnerRecordValue;

    open spec fn view(&self) -> OwnerRecordValue {
        OwnerRecordValue { kind: self.kind@, name: self.name@, namespace: self.namespace@ }
    }
}

impl Clone for OwnerRecord {
    fn clone(&self) -> (r: Self)
        ensures
            r == *self,
    {
        OwnerRecord {
            kind: self.kind.clone(),
            name: self.name.clone(),
            namespace: self.namespace.clone(),
        }
    }
}

/// The values of a list of containers, in order.
pub open spec fn containers_of(v: Seq<Container>) -> Seq<ContainerValue> {
    Seq::new(v.len(), |i: int| v[i]@)
}

/// The values of a list of labels, in order.
pub open spec fn labels_of(v: Seq<Label>) -> Seq<LabelValue> {
    Seq::new(v.len(), |i: int| v[i]@)
}

/// The values of a list of owner records, in order.
pub open spec fn records_of(v: Seq<OwnerRecord>) -> Seq<OwnerRecordValue> {
    Seq::new(v.len(), |i: int| v[i]@)
}

/// A copy of a list of containers.
pub fn copy_containers(list: &Vec<Container>) -> (r: Vec<Container>)
    ensures
        r@ == list@,
{
    let mut out: Vec<Container> = Vec::new();
    let mut i: usize = 0;
    while i < list.len()
        invariant
            i <= list.len(),
            out@ == list@.subrange(0, i as int),
        decreases list.len() - i,
    {
        out.push(list[i].clone());
        assert(out@ =~= list@.subrange(0, i + 1));
        i += 1;
    }
    assert(list@.subrange(0, list.len() as int) =~= list@);
    out
}

/// A copy of a list of labels.
pub fn copy_labels(list: &Vec<Label>) -> (r: Vec<Label>)
    ensures
        r@ == list@,
{
    let mut out: Vec<Label> = Vec::new();
    let mut i: usize = 0;
    while i < list.len()
        invariant
            i <= list.len(),
            out@ == list@.subrange(0, i as int),
        decreases list.len() - i,
    {
        out.push(list[i].clone());
        assert(out@ =~= list@.subrange(0, i + 1));
        i += 1;
    }
    assert(list@.subrange(0, list.len() as int) =~= list@);
    out
}

/// A copy of a list of owner records.
pub fn copy_records(list: &Vec<OwnerRecord>) -> (r: Vec<OwnerRecord>)
    ensures
        r@ == list@,
{
    let mut out: Vec<OwnerRecord> = Vec::new();
    let mut i: usize = 0;
    while i < list.len()
        invariant
            i <= list.len(),
            out@ == list@.subrange(0, i as int),
        decreases list.len() - i,
    {
        out.push(list[i].clone());
        assert(out@ =~= list@.subrange(0, i + 1));
        i += 1;
    }
    assert(list@.subrange(0, list.len() as int) =~= list@);
    out
}

/// The usage record of one node, pod or volume at one minute. A record with a
/// pod identifier is a pod's, one with a volume name a volume's, any other a
/// node's. Counters that were not read are zero, texts that are unknown
/// empty.
#[derive(Debug, PartialEq, Eq)]
pub struct KubernetesMetrics {
    pub node_name: String,
    pub pod_name: String,
    pub pod_namespace: String,
    pub pod_uuid: String,
    pub volume_name: String,
    pub timestamp: i64,
    pub cpu_usage_nano_cores: i64,
    pub cpu_usage_core_nano_seconds: i64,
    pub memory_available_bytes: i64,
    pub memory_usage_bytes: i64,
    pub memory_working_set_bytes: i64,
    pub memory_rss_bytes: i64,
    pub network_rx_bytes: i64,
    pub network_tx_bytes: i64,
    pub fs_available_bytes: i64,
    pub fs_capacity_bytes: i64,
    pub fs_used_bytes: i64,
    pub fs_inodes_free: i64,
    pub fs_inodes: i64,
    pub fs_inodes_used: i64,
    pub swap_usage_bytes: i64,
    pub swap_available_bytes: i64,
    pub ephemeral_storage_available_bytes: i64,
    pub ephemeral_storage_capacity_bytes: i64,
    pub ephemeral_storage_used_bytes: i64,
    pub ephemeral_storage_inodes_free: i64,
    pub ephemeral_storage_inodes: i64,
    pub ephemeral_storage_inodes_used: i64,
    pub pod_uptime_seconds: i64,
    pub memory_page_faults: i32,
    pub memory_major_page_faults: i32,
    pub memory_usage: i32,
    pub network_rx_errors: i32,
    pub network_tx_errors: i32,
    pub disk_usage: i32,
    pub rlimit_maxpid: i32,
    pub rlimit_curproc: i32,
    pub swap_usage: i32,
    pub process_count: i32,
    pub pod_restart_count: i32,
    pub pod_phase: PodPhase,
    pub containers: Vec<Container>,
    pub labels: Vec<Label>,
    pub owner_references: Vec<OwnerRecord>,
}

/// The mathematical value of a usage record.
pub struct Metrics {
    pub node_name: Seq<char>,
    pub pod_name: Seq<char>,
    pub pod_namespace: Seq<char>,
    pub pod_uuid: Seq<char>,
    pub volume_name: Seq<char>,
    pub timestamp: i64,
    pub cpu_usage_nano_cores: i64,
    pub cpu_usage_core_nano_seconds: i64,
    pub memory_available_bytes: i64,
    pub memory_usage_bytes: i64,
    pub memory_working_set_bytes: i64,
    pub memory_rss_bytes: i64,
    pub network_rx_bytes: i64,
    pub network_tx_bytes: i64,
    pub fs_available_bytes: i64,
    pub fs_capacity_bytes: i64,
    pub fs_used_bytes: i64,
    pub fs_inodes_free: i64,
    pub fs_inodes: i64,
    pub fs_inodes_used: i64,
    pub swap_usage_bytes: i64,
    pub swap_available_bytes: i64,
    pub ephemeral_storage_available_bytes: i64,
    pub ephemeral_storage_capacity_bytes: i64,
    pub ephemeral_storage_used_bytes: i64,
    pub ephemeral_storage_inodes_free: i64,
    pub ephemeral_storage_inodes: i64,
    pub ephemeral_storage_inodes_used: i64,
    pub pod_uptime_seconds: i64,
    pub memory_page_faults: i32,
    pub memory_major_page_faults: i32,
    pub memory_usage: i32,
    pub network_rx_errors: i32,
    pub network_tx_errors: i32,
    pub disk_usage: i32,
    pub rlimit_maxpid: i32,
    pub rlimit_curproc: i32,
    pub swap_usage: i32,
    pub process_count: i32,
    pub pod_restart_count: i32,
    pub pod_phase: PodPhase,
    pub containers: Seq<ContainerValue>,
    pub labels: Seq<LabelValue>,
    pub owner_references: Seq<OwnerRecordValue>,
}

impl View for KubernetesMetrics {
    type V = Metrics;

    open spec fn view(&self) -> Metrics {
        Metrics {
            node_name: self.node_name@,
            pod_name: self.pod_name@,
            pod_namespace: self.pod_namespace@,
            pod_uuid: self.pod_uuid@,
            volume_name: self.volume_name@,
            timestamp: self.timestamp,
            cpu_usage_nano_cores: self.cpu_usage_nano_cores,
            cpu_usage_core_nano_seconds: self.cpu_usage_core_nano_seconds,
            memory_available_bytes: self.memory_available_bytes,
            memory_usage_bytes: self.memory_usage_bytes,
            memory_working_set_bytes: self.memory_working_set_bytes,
            memory_rss_bytes: self.memory_rss_bytes,
            network_rx_bytes: self.network_rx_bytes,
            network_tx_bytes: self.network_tx_bytes,
            fs_available_bytes: self.fs_available_bytes,
            fs_capacity_bytes: self.fs_capacity_bytes,
            fs_used_bytes: self.fs_used_bytes,
            fs_inodes_free: self.fs_inodes_free,
            fs_inodes: self.fs_inodes,
            fs_inodes_used: self.fs_inodes_used,
            swap_usage_bytes: self.swap_usage_bytes,
            swap_available_bytes: self.swap_available_bytes,
            ephemeral_storage_available_bytes: self.ephemeral_storage_available_bytes,
            ephemeral_storage_capacity_bytes: self.ephemeral_storage_capacity_bytes,
            ephemeral_storage_used_bytes: self.ephemeral_storage_used_bytes,
            ephemeral_storage_inodes_free: self.ephemeral_storage_inodes_free,
            ephemeral_storage_inodes: self.ephemeral_storage_inodes,
            ephemeral_storage_inodes_used: self.ephemeral_storage_inodes_used,
            pod_uptime_seconds: self.pod_uptime_seconds,
            memory_page_faults: self.memory_page_faults,
            memory_major_page_faults: self.memory_major_page_faults,
            memory_usage: self.memory_usage,
            network_rx_errors: self.network_rx_errors,
            network_tx_errors: self.network_tx_errors,
            disk_usage: self.disk_usage,
            rlimit_maxpid: self.rlimit_maxpid,
            rlimit_curproc: self.rlimit_curproc,
            swap_usage: self.swap_usage,
            process_count: self.process_count,
            pod_restart_count: self.pod_restart_count,
            pod_phase: self.pod_phase,
            containers: containers_of(self.containers@),
            labels: labels_of(self.labels@),
            owner_references: records_of(self.owner_references@),
        }
    }
}

impl Clone for KubernetesMetrics {
    fn clone(&self) -> (r: Self)
        ensures
            r@ == self@,
    {
        KubernetesMetrics {
            node_name: self.node_name.clone(),
            pod_name: self.pod_name.clone(),
            pod_namespace: self.pod_namespace.clone(),
            pod_uuid: self.pod_uuid.clone(),
            volume_name: self.volume_name.clone(),
            timestamp: self.timestamp,
            cpu_usage_nano_cores: self.cpu_usage_nano_cores,
            cpu_usage_core_nano_seconds: self.cpu_usage_core_nano_seconds,
            memory_available_bytes: self.memory_available_bytes,
            memory_usage_bytes: self.memory_usage_bytes,
            memory_working_set_bytes: self.memory_working_set_bytes,
            memory_rss_bytes: self.memory_rss_bytes,
            network_rx_bytes: self.network_rx_bytes,
            network_tx_bytes: self.network_tx_bytes,
            fs_available_bytes: self.fs_available_bytes,
            fs_capacity_bytes: self.fs_capacity_bytes,
            fs_used_bytes: self.fs_used_bytes,
            fs_inodes_free: self.fs_inodes_free,
            fs_inodes: self.fs_inodes,
            fs_inodes_used: self.fs_inodes_used,
            swap_usage_bytes: self.swap_usage_bytes,
            swap_available_bytes: self.swap_available_bytes,
            ephemeral_storage_available_bytes: self.ephemeral_storage_available_bytes,
            ephemeral_storage_capacity_bytes: self.ephemeral_storage_capacity_bytes,
            ephemeral_storage_used_bytes: self.ephemeral_storage_used_bytes,
            ephemeral_storage_inodes_free: self.ephemeral_storage_inodes_free,
            ephemeral_storage_inodes: self.ephemeral_storage_inodes,
            ephemeral_storage_inodes_used: self.ephemeral_storage_inodes_used,
            pod_uptime_seconds: self.pod_uptime_seconds,
            memory_page_faults: self.memory_page_faults,
            memory_major_page_faults: self.memory_major_page_faults,
            memory_usage: self.memory_usage,
            network_rx_errors: self.network_rx_errors,
            network_tx_errors: self.network_tx_errors,
            disk_usage: self.disk_usage,
            rlimit_maxpid: self.rlimit_maxpid,
            rlimit_curproc: self.rlimit_curproc,
            swap_usage: self.swap_usage,
            process_count: self.process_count,
            pod_restart_count: self.pod_restart_count,
            pod_phase: self.pod_phase,
            containers: copy_containers(&self.containers),
            labels: copy_labels(&self.labels),
            owner_references: copy_records(&self.owner_references),
        }
    }
}

/// The record in which nothing was read: every counter zero, every text and
/// list empty, the pod phase unknown.
pub open spec fn blank() -> Metrics {
    Metrics {
        node_name: Seq::empty(),
        pod_name: Seq::empty(),
        pod_namespace: Seq::empty(),
        pod_uuid: Seq::empty(),
        volume_name: Seq::empty(),
        timestamp: 0,
        cpu_usage_nano_cores: 0,
        cpu_usage_core_nano_seconds: 0,
        memory_available_bytes: 0,
        memory_usage_bytes: 0,
        memory_working_set_bytes: 0,
        memory_rss_bytes: 0,
        network_rx_bytes: 0,
        network_tx_bytes: 0,
        fs_available_bytes: 0,
        fs_capacity_bytes: 0,
        fs_used_bytes: 0,
        fs_inodes_free: 0,
        fs_inodes: 0,
        fs_inodes_used: 0,
        swap_usage_bytes: 0,
        swap_available_bytes: 0,
        ephemeral_storage_available_bytes: 0,
        ephemeral_storage_capacity_bytes: 0,
        ephemeral_storage_used_bytes: 0,
        ephemeral_storage_inodes_free: 0,
        ephemeral_storage_inodes: 0,
        ephemeral_storage_inodes_used: 0,
        pod_uptime_seconds: 0,
        memory_page_faults: 0,
        memory_major_page_faults: 0,
        memory_usage: 0,
        network_rx_errors: 0,
        network_tx_errors: 0,
        disk_usage: 0,
        rlimit_maxpid: 0,
        rlimit_curproc: 0,
        swap_usage: 0,
        process_count: 0,
        pod_restart_count: 0,
        pod_phase: PodPhase::Unknown,
        containers: Seq::empty(),
        labels: Seq::empty(),
        owner_references: Seq::empty(),
    }
}

/// Whether the record is a pod's: it has a pod identifier.
pub open spec fn of_pod(m: Metrics) -> bool {
    m.pod_uuid.len() > 0
}

/// Whether the record is a volume's: it has a volume name.
pub open spec fn of_volume(m: Metrics) -> bool {
    m.volume_name.len() > 0
}

/// Whether the record is a node's: it is neither a pod's nor a volume's.
pub open spec fn of_node(m: Metrics) -> bool {
    !of_pod(m) && !of_volume(m)
}

/// Whether `earlier` is a record of the same thing as `current`: of the same
/// pod if `current` is a pod's, of the same node if it is a node's, of a
/// volume of the same name if it is a volume's.
pub open spec fn continues(current: Metrics, earlier: Metrics) -> bool {
    ||| of_pod(current) && earlier.pod_uuid == current.pod_uuid
    ||| of_node(current) && earlier.node_name == current.node_name
    ||| of_volume(current) && earlier.volume_name == current.volume_name
}

/// The first record at or after `from` that `current` continues.
pub open spec fn first_earlier(current: Metrics, earlier: Seq<Metrics>, from: int) -> Option<
    Metrics,
>
    decreases earlier.len() - from,
{
    if from < 0 || from >= earlier.len() {
        None
    } else if continues(current, earlier[from]) {
        Some(earlier[from])
    } else {
        first_earlier(current, earlier, from + 1)
    }
}

/// Whether the network counters of `current` less those of `earlier` can be
/// held by the counters' types.
pub open spec fn delta_fits(current: Metrics, earlier: Metrics) -> bool {
    &&& i64::MIN <= current.network_rx_bytes - earlier.network_rx_bytes <= i64::MAX
    &&& i64::MIN <= current.network_tx_bytes - earlier.network_tx_bytes <= i64::MAX
    &&& i32::MIN <= current.network_rx_errors - earlier.network_rx_errors <= i32::MAX
    &&& i32::MIN <= current.network_tx_errors - earlier.network_tx_errors <= i32::MAX
}

/// `current` with its four network counters, which only ever grow, replaced
/// by their growth since `earlier`.
pub open spec fn delta_of(current: Metrics, earlier: Metrics) -> Metrics {
    Metrics {
        network_rx_bytes: (current.network_rx_bytes - earlier.network_rx_bytes) as i64,
        network_rx_errors: (current.network_rx_errors - earlier.network_rx_errors) as i32,
        network_tx_bytes: (current.network_tx_bytes - earlier.network_tx_bytes) as i64,
        network_tx_errors: (current.network_tx_errors - earlier.network_tx_errors) as i32,
        ..current
    }
}

/// The values of a list of records, in order.
pub open spec fn metrics_of(v: Seq<KubernetesMetrics>) -> Seq<Metrics> {
    Seq::new(v.len(), |i: int| v[i]@)
}

impl KubernetesMetrics {
    /// A record in which nothing was read yet.
    pub fn new() -> (r: Self)
        ensures
            r@ == blank(),
    {
        let r = KubernetesMetrics {
            node_name: String::new(),
            pod_name: String::new(),
            pod_namespace: String::new(),
            pod_uuid: String::new(),
            volume_name: String::new(),
            timestamp: 0,
            cpu_usage_nano_cores: 0,
            cpu_usage_core_nano_seconds: 0,
            memory_available_bytes: 0,
            memory_usage_bytes: 0,
            memory_working_set_bytes: 0,
            memory_rss_bytes: 0,
            network_rx_bytes: 0,
            network_tx_bytes: 0,
            fs_available_bytes: 0,
            fs_capacity_bytes: 0,
            fs_used_bytes: 0,
            fs_inodes_free: 0,
            fs_inodes: 0,
            fs_inodes_used: 0,
            swap_usage_bytes: 0,
            swap_available_bytes: 0,
            ephemeral_storage_available_bytes: 0,
            ephemeral_storage_capacity_bytes: 0,
            ephemeral_storage_used_bytes: 0,
            ephemeral_storage_inodes_free: 0,
            ephemeral_storage_inodes: 0,
            ephemeral_storage_inodes_used: 0,
            pod_uptime_seconds: 0,
            memory_page_faults: 0,
            memory_major_page_faults: 0,
            memory_usage: 0,
            network_rx_errors: 0,
            network_tx_errors: 0,
            disk_usage: 0,
            rlimit_maxpid: 0,
            rlimit_curproc: 0,
            swap_usage: 0,
            process_count: 0,
            pod_restart_count: 0,
            pod_phase: PodPhase::Unknown,
            containers: Vec::new(),
            labels: Vec::new(),
            owner_references: Vec::new(),
        };
        assert(r@.containers =~= Seq::empty());
        assert(r@.labels =~= Seq::empty());
        assert(r@.owner_references =~= Seq::empty());
        r
    }

    /// Whether this is a node's record.
    pub fn is_node(&self) -> (r: bool)
        ensures
            r == of_node(self@),
    {
        !self.is_pod() && !self.is_volume()
    }

    /// Whether this is a pod's record.
    pub fn is_pod(&self) -> (r: bool)
        ensures
            r == of_pod(self@),
    {
        !self.pod_uuid.as_str().is_empty()
    }

    /// Whether this is a volume's record.
    pub fn is_volume(&self) -> (r: bool)
        ensures
            r == of_volume(self@),
    {
        !self.volume_name.as_str().is_empty()
    }

    /// This record with its network counters replaced by their growth since
    /// `previous`.
    pub fn delta(&self, previous: KubernetesMetrics) -> (r: KubernetesMetrics)
        requires
            delta_fits(self@, previous@),
        ensures
            r@ == delta_of(self@, previous@),
    {
        let mut new = self.clone();
        new.network_rx_bytes = self.network_rx_bytes - previous.network_rx_bytes;
        new.network_rx_errors = self.network_rx_errors - previous.network_rx_errors;
        new.network_tx_bytes = self.network_tx_bytes - previous.network_tx_bytes;
        new.network_tx_errors = self.network_tx_errors - previous.network_tx_errors;
        new
    }

    /// Whether `earlier` is a record of the same thing as this one.
    pub fn continues(&self, earlier: &KubernetesMetrics) -> (r: bool)
        ensures
            r == continues(self@, earlier@),
    {
        (self.is_pod() && earlier.pod_uuid == self.pod_uuid) || (self.is_node() && earlier.node_name
            == self.node_name) || (self.is_volume() && earlier.volume_name == self.volume_name)
    }

    /// The growth of this record's network counters since the first record
    /// in `previous` of the same thing; nothing if there is none.
    pub fn delta_from(&self, previous: Vec<KubernetesMetrics>) -> (r: Option<KubernetesMetrics>)
        requires
            match first_earlier(self@, metrics_of(previous@), 0) {
                Some(earlier) => delta_fits(self@, earlier),
                None => true,
            },
        ensures
            match first_earlier(self@, metrics_of(previous@), 0) {
                Some(earlier) => r is Some && r.unwrap()@ == delta_of(self@, earlier),
                None => r is None,
            },
    {
        let mut i: usize = 0;
        while i < previous.len()
            invariant
                i <= previous.len(),
                first_earlier(self@, metrics_of(previous@), 0) == first_earlier(
                    self@,
                    metrics_of(previous@),
                    i as int,
                ),
                match first_earlier(self@, metrics_of(previous@), 0) {
                    Some(earlier) => delta_fits(self@, earlier),
                    None => true,
                },
            decreases previous.len() - i,
        {
            assert(metrics_of(previous@)[i as int] == previous@[i as int]@);
            if self.continues(&previous[i]) {
                assert(first_earlier(self@, metrics_of(previous@), i as int) == Some(
                    previous@[i as int]@,
                ));
                let earlier = previous[i].clone();
                return Some(self.delta(earlier));
            }
            i += 1;
        }
        None
    }
}

} // verus!
