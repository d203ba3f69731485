//! Usage records read from the statistics that a node reports as JSON.

use vstd::prelude::*;
use crate::metrics::{blank, KubernetesMetrics, Metrics};

verus! {

/// A JSON document of serde_json.
#[verifier::external_type_specification]
#[verifier::external_body]
pub struct ExJsonValue(serde_json::Value);

/// The integers in a JSON document, by JSON Pointer: at every pointer that
/// addresses a value which serde_json gives as an `i64`, that integer.
pub uninterp spec fn json_integers(document: serde_json::Value) -> Map<Seq<char>, i64>;

/// The integers among the members of a JSON object, by key; of a document
/// that is no object, none.
pub uninterp spec fn json_member_integers(document: serde_json::Value) -> Map<Seq<char>, i64>;

/// The strings among the members of a JSON object, by key; of a document
/// that is no object, none.
pub uninterp spec fn json_member_strings(document: serde_json::Value) -> Map<Seq<char>, Seq<char>>;

/// What a map holds at a key, if anything.
pub open spec fn entry<V>(m: Map<Seq<char>, V>, key: Seq<char>) -> Option<V> {
    if m.contains_key(key) {
        Some(m[key])
    } else {
        None
    }
}

/// A counter as it is read: what the document holds at `path`, unless that is
/// negative, which no counter is.
pub open spec fn reading(integers: Map<Seq<char>, i64>, path: Seq<char>) -> Option<i64> {
    match entry(integers, path) {
        Some(n) => if n < 0 {
            None
        } else {
            Some(n)
        },
        None => None,
    }
}

/// The counter read at `path`, or `otherwise` where none is read.
pub open spec fn read_or(integers: Map<Seq<char>, i64>, path: Seq<char>, otherwise: i64) -> i64 {
    match reading(integers, path) {
        Some(n) => n,
        None => otherwise,
    }
}

/// The counter read at `path`, cut to its low 32 bits, or `otherwise` where
/// none is read.
pub open spec fn read_or_32(integers: Map<Seq<char>, i64>, path: Seq<char>, otherwise: i32) -> i32 {
    match reading(integers, path) {
        Some(n) => n as i32,
        None => otherwise,
    }
}

/// A member as it is read by key, or `otherwise` where the object has no
/// integer under that key.
pub open spec fn member_or(integers: Map<Seq<char>, i64>, key: Seq<char>, otherwise: i64) -> i64 {
    match entry(integers, key) {
        Some(n) => n,
        None => otherwise,
    }
}

/// serde_json's `Value::pointer` followed by `Value::as_i64`: the integer
/// that the document holds at a JSON Pointer, if it holds one there.
#[verifier::external_body]
fn integer_at(document: &serde_json::Value, pointer: &str) -> (r: Option<i64>)
    ensures
        r == entry(json_integers(*document), pointer@),
{
    document.pointer(pointer).and_then(|value| value.as_i64())
}

/// serde_json's indexing of a `Value` by a key followed by `Value::as_i64`:
/// the integer that an object holds under a key, if it holds one there.
#[verifier::external_body]
fn member_integer(document: &serde_json::Value, key: &str) -> (r: Option<i64>)
    ensures
        r == entry(json_member_integers(*document), key@),
{
    document[key].as_i64()
}

/// serde_json's indexing of a `Value` by a key followed by `Value::as_str`:
/// the string that an object holds under a key, if it holds one there.
#[verifier::external_body]
fn member_text(document: &serde_json::Value, key: &str) -> (r: Option<String>)
    ensures
        match r {
            Some(text) => entry(json_member_strings(*document), key@) == Some(text@),
            None => entry(json_member_strings(*document), key@) is None,
        },
{
    document[key].as_str().map(|text| text.to_string())
}

/// The start of the minute in which the second `seconds` lies, for seconds
/// counted from the epoch on; before the epoch, the end of that minute.
pub open spec fn minute_of(seconds: i64) -> int {
    if seconds >= 0 {
        seconds - seconds % 60
    } else {
        seconds + (-seconds) % 60
    }
}

/// The record of a node named `name` with the counters that its statistics
/// hold. The three usage percentages are not among them and stay zero.
pub open spec fn node_metrics(name: Seq<char>, timestamp: i64, integers: Map<Seq<char>, i64>) -> Metrics {
    Metrics {
        node_name: name,
        timestamp,
        cpu_usage_nano_cores: read_or(integers, "/cpu/usageNanoCores"@, 0),
        cpu_usage_core_nano_seconds: read_or(integers, "/cpu/usageCoreNanoSeconds"@, 0),
        memory_available_bytes: read_or(integers, "/memory/availableBytes"@, 0),
        memory_usage_bytes: read_or(integers, "/memory/usageBytes"@, 0),
        memory_working_set_bytes: read_or(integers, "/memory/workingSetBytes"@, 0),
        memory_rss_bytes: read_or(integers, "/memory/rssBytes"@, 0),
        memory_page_faults: read_or_32(integers, "/memory/pageFaults"@, 0),
        memory_major_page_faults: read_or_32(integers, "/memory/majorPageFaults"@, 0),
        network_rx_bytes: read_or(integers, "/network/rxBytes"@, 0),
        network_rx_errors: read_or_32(integers, "/network/rxErrors"@, 0),
        network_tx_bytes: read_or(integers, "/network/txBytes"@, 0),
        network_tx_errors: read_or_32(integers, "/network/txErrors"@, 0),
        fs_available_bytes: read_or(integers, "/fs/availableBytes"@, 0),
        fs_capacity_bytes: read_or(integers, "/fs/capacityBytes"@, 0),
        fs_used_bytes: read_or(integers, "/fs/usedBytes"@, 0),
        fs_inodes_free: read_or(integers, "/fs/inodesFree"@, 0),
        fs_inodes: read_or(integers, "/fs/inodes"@, 0),
        fs_inodes_used: read_or(integers, "/fs/inodesUsed"@, 0),
        rlimit_maxpid: read_or_32(integers, "/rlimit/maxpid"@, 0),
        rlimit_curproc: read_or_32(integers, "/rlimit/curproc"@, 0),
        swap_usage_bytes: read_or(integers, "/swap/swapUsageBytes"@, 0),
        swap_available_bytes: read_or(integers, "/swap/swapAvailableBytes"@, 0),
        ..blank()
    }
}

/// A pod's record with each counter that its statistics hold put in place of
/// what the record had.
pub open spec fn enriched(m: Metrics, integers: Map<Seq<char>, i64>) -> Metrics {
    Metrics {
        cpu_usage_nano_cores: read_or(integers, "/cpu/usageNanoCores"@, m.cpu_usage_nano_cores),
        cpu_usage_core_nano_seconds: read_or(integers, "/cpu/usageCoreNanoSeconds"@, m.cpu_usage_core_nano_seconds),
        memory_usage_bytes: read_or(integers, "/memory/usageBytes"@, m.memory_usage_bytes),
        memory_working_set_bytes: read_or(integers, "/memory/workingSetBytes"@, m.memory_working_set_bytes),
        memory_rss_bytes: read_or(integers, "/memory/rssBytes"@, m.memory_rss_bytes),
        memory_page_faults: read_or_32(integers, "/memory/pageFaults"@, m.memory_page_faults),
        memory_major_page_faults: read_or_32(integers, "/memory/majorPageFaults"@, m.memory_major_page_faults),
        network_rx_bytes: read_or(integers, "/network/rxBytes"@, m.network_rx_bytes),
        network_rx_errors: read_or_32(integers, "/network/rxErrors"@, m.network_rx_errors),
        network_tx_bytes: read_or(integers, "/network/txBytes"@, m.network_tx_bytes),
        network_tx_errors: read_or_32(integers, "/network/txErrors"@, m.network_tx_errors),
        ephemeral_storage_available_bytes: read_or(integers, "/ephemeral-storage/availableBytes"@, m.ephemeral_storage_available_bytes),
        ephemeral_storage_capacity_bytes: read_or(integers, "/ephemeral-storage/capacityBytes"@, m.ephemeral_storage_capacity_bytes),
        ephemeral_storage_used_bytes: read_or(integers, "/ephemeral-storage/usedBytes"@, m.ephemeral_storage_used_bytes),
        ephemeral_storage_inodes_free: read_or(integers, "/ephemeral-storage/inodesFree"@, m.ephemeral_storage_inodes_free),
        ephemeral_storage_inodes: read_or(integers, "/ephemeral-storage/inodes"@, m.ephemeral_storage_inodes),
        ephemeral_storage_inodes_used: read_or(integers, "/ephemeral-storage/inodesUsed"@, m.ephemeral_storage_inodes_used),
        process_count: read_or_32(integers, "/process_stats/process_count"@, m.process_count),
        swap_usage_bytes: read_or(integers, "/swap/swapUsageBytes"@, m.swap_usage_bytes),
        ..m
    }
}

/// The record of the volume `volume` on the node `node` with the sizes that
/// its statistics hold under their keys.
pub open spec fn volume_metrics(
    node: Seq<char>,
    volume: Seq<char>,
    timestamp: i64,
    members: Map<Seq<char>, i64>,
) -> Metrics {
    Metrics {
        node_name: node,
        volume_name: volume,
        timestamp,
        fs_available_bytes: member_or(members, "availableBytes"@, 0),
        fs_capacity_bytes: member_or(members, "capacityBytes"@, 0),
        fs_used_bytes: member_or(members, "usedBytes"@, 0),
        fs_inodes_free: member_or(members, "inodesFree"@, 0),
        fs_inodes: member_or(members, "inodes"@, 0),
        fs_inodes_used: member_or(members, "inodesUsed"@, 0),
        ..blank()
    }
}

/// The time at which a record is taken: the start of the minute in which
/// `seconds` lies.
pub fn now_timestamp(seconds: i64) -> (r: i64)
    ensures
        r == minute_of(seconds),
{
    seconds - seconds % 60
}

impl KubernetesMetrics {
    /// Reads the counter at `path` in `data`; a negative number is no
    /// counter.
    pub fn extract_i64(data: &serde_json::Value, path: &str) -> (r: Option<i64>)
        ensures
            r == reading(json_integers(*data), path@),
    {
        match integer_at(data, path) {
            Some(number) => if number < 0 {
                None
            } else {
                Some(number)
            },
            None => None,
        }
    }

    /// The counter at `path` in `data`, or `otherwise` where none is read.
    fn counter_or(data: &serde_json::Value, path: &str, otherwise: i64) -> (r: i64)
        ensures
            r == read_or(json_integers(*data), path@, otherwise),
    {
        match Self::extract_i64(data, path) {
            Some(number) => number,
            None => otherwise,
        }
    }

    /// The counter at `path` in `data`, cut to its low 32 bits, or
    /// `otherwise` where none is read.
    fn counter_or_32(data: &serde_json::Value, path: &str, otherwise: i32) -> (r: i32)
        ensures
            r == read_or_32(json_integers(*data), path@, otherwise),
    {
        match Self::extract_i64(data, path) {
            Some(number) => #[verifier::truncate]
            (number as i32),
            None => otherwise,
        }
    }

    /// The integer under `key` in `data`, or `otherwise` where there is
    /// none.
    fn member_or(data: &serde_json::Value, key: &str, otherwise: i64) -> (r: i64)
        ensures
            r == member_or(json_member_integers(*data), key@, otherwise),
    {
        match member_integer(data, key) {
            Some(number) => number,
            None => otherwise,
        }
    }

    /// The record of a node from the node's part of a statistics summary;
    /// nothing if that has no `nodeName`.
    pub fn from_node_json(json: serde_json::Value, timestamp: i64) -> (r: Option<KubernetesMetrics>)
        ensures
            match entry(json_member_strings(json), "nodeName"@) {
                Some(name) => r is Some && r.unwrap()@ == node_metrics(
                    name,
                    timestamp,
                    json_integers(json),
                ),
                None => r is None,
            },
    {
        match member_text(&json, "nodeName") {
            Some(node_name) => {
                let mut metric = KubernetesMetrics::new();
                metric.node_name = node_name;
                metric.timestamp = timestamp;
                metric.cpu_usage_nano_cores = Self::counter_or(&json, "/cpu/usageNanoCores", 0);
                metric.cpu_usage_core_nano_seconds = Self::counter_or(&json, "/cpu/usageCoreNanoSeconds", 0);
                metric.memory_available_bytes = Self::counter_or(&json, "/memory/availableBytes", 0);
                metric.memory_usage_bytes = Self::counter_or(&json, "/memory/usageBytes", 0);
                metric.memory_working_set_bytes = Self::counter_or(&json, "/memory/workingSetBytes", 0);
                metric.memory_rss_bytes = Self::counter_or(&json, "/memory/rssBytes", 0);
                metric.memory_page_faults = Self::counter_or_32(&json, "/memory/pageFaults", 0);
                metric.memory_major_page_faults = Self::counter_or_32(&json, "/memory/majorPageFaults", 0);
                metric.network_rx_bytes = Self::counter_or(&json, "/network/rxBytes", 0);
                metric.network_rx_errors = Self::counter_or_32(&json, "/network/rxErrors", 0);
                metric.network_tx_bytes = Self::counter_or(&json, "/network/txBytes", 0);
                metric.network_tx_errors = Self::counter_or_32(&json, "/network/txErrors", 0);
                metric.fs_available_bytes = Self::counter_or(&json, "/fs/availableBytes", 0);
                metric.fs_capacity_bytes = Self::counter_or(&json, "/fs/capacityBytes", 0);
                metric.fs_used_bytes = Self::counter_or(&json, "/fs/usedBytes", 0);
                metric.fs_inodes_free = Self::counter_or(&json, "/fs/inodesFree", 0);
                metric.fs_inodes = Self::counter_or(&json, "/fs/inodes", 0);
                metric.fs_inodes_used = Self::counter_or(&json, "/fs/inodesUsed", 0);
                metric.rlimit_maxpid = Self::counter_or_32(&json, "/rlimit/maxpid", 0);
                metric.rlimit_curproc = Self::counter_or_32(&json, "/rlimit/curproc", 0);
                metric.swap_usage_bytes = Self::counter_or(&json, "/swap/swapUsageBytes", 0);
                metric.swap_available_bytes = Self::counter_or(&json, "/swap/swapAvailableBytes", 0);
                Some(metric)
            },
            None => None,
        }
    }

    /// Puts the counters of a pod's part of a statistics summary into the
    /// pod's record.
    pub fn enrich_with_stats(&mut self, json: serde_json::Value)
        ensures
            final(self)@ == enriched(old(self)@, json_integers(json)),
    {
        self.cpu_usage_nano_cores = Self::counter_or(&json, "/cpu/usageNanoCores", self.cpu_usage_nano_cores);
        self.cpu_usage_core_nano_seconds = Self::counter_or(&json, "/cpu/usageCoreNanoSeconds", self.cpu_usage_core_nano_seconds);
        self.memory_usage_bytes = Self::counter_or(&json, "/memory/usageBytes", self.memory_usage_bytes);
        self.memory_working_set_bytes = Self::counter_or(&json, "/memory/workingSetBytes", self.memory_working_set_bytes);
        self.memory_rss_bytes = Self::counter_or(&json, "/memory/rssBytes", self.memory_rss_bytes);
        self.memory_page_faults = Self::counter_or_32(&json, "/memory/pageFaults", self.memory_page_faults);
        self.memory_major_page_faults = Self::counter_or_32(&json, "/memory/majorPageFaults", self.memory_major_page_faults);
        self.network_rx_bytes = Self::counter_or(&json, "/network/rxBytes", self.network_rx_bytes);
        self.network_rx_errors = Self::counter_or_32(&json, "/network/rxErrors", self.network_rx_errors);
        self.network_tx_bytes = Self::counter_or(&json, "/network/txBytes", self.network_tx_bytes);
        self.network_tx_errors = Self::counter_or_32(&json, "/network/txErrors", self.network_tx_errors);
        self.ephemeral_storage_available_bytes = Self::counter_or(&json, "/ephemeral-storage/availableBytes", self.ephemeral_storage_available_bytes);
        self.ephemeral_storage_capacity_bytes = Self::counter_or(&json, "/ephemeral-storage/capacityBytes", self.ephemeral_storage_capacity_bytes);
        self.ephemeral_storage_used_bytes = Self::counter_or(&json, "/ephemeral-storage/usedBytes", self.ephemeral_storage_used_bytes);
        self.ephemeral_storage_inodes_free = Self::counter_or(&json, "/ephemeral-storage/inodesFree", self.ephemeral_storage_inodes_free);
        self.ephemeral_storage_inodes = Self::counter_or(&json, "/ephemeral-storage/inodes", self.ephemeral_storage_inodes);
        self.ephemeral_storage_inodes_used = Self::counter_or(&json, "/ephemeral-storage/inodesUsed", self.ephemeral_storage_inodes_used);
        self.process_count = Self::counter_or_32(&json, "/process_stats/process_count", self.process_count);
        self.swap_usage_bytes = Self::counter_or(&json, "/swap/swapUsageBytes", self.swap_usage_bytes);
    }

    /// The record of a volume from the volume's part of a statistics
    /// summary; nothing without the node's name or the volume's.
    pub fn from_volume_json(node_name: Option<&str>, json: serde_json::Value, timestamp: i64) -> (r:
        Option<KubernetesMetrics>)
        ensures
            match (node_name, entry(json_member_strings(json), "name"@)) {
                (Some(node), Some(volume)) => r is Some && r.unwrap()@ == volume_metrics(
                    node@,
                    volume,
                    timestamp,
                    json_member_integers(json),
                ),
                _ => r is None,
            },
    {
        match (node_name, member_text(&json, "name")) {
            (Some(node_name), Some(volume_name)) => {
                let mut metric = KubernetesMetrics::new();
                metric.node_name = node_name.to_owned();
                metric.volume_name = volume_name;
                metric.timestamp = timestamp;
                metric.fs_available_bytes = Self::member_or(&json, "availableBytes", 0);
                metric.fs_capacity_bytes = Self::member_or(&json, "capacityBytes", 0);
                metric.fs_used_bytes = Self::member_or(&json, "usedBytes", 0);
                metric.fs_inodes_free = Self::member_or(&json, "inodesFree", 0);
                metric.fs_inodes = Self::member_or(&json, "inodes", 0);
                metric.fs_inodes_used = Self::member_or(&json, "inodesUsed", 0);
                Some(metric)
            },
            _ => None,
        }
    }
}

} // verus!
