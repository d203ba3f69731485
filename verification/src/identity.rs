//! Names of cluster resources: the type of a resource and the resource itself.

use vstd::prelude::*;
use crate::pods::PodInfo;

verus! {

/// The mathematical value of a resource type.
pub struct Gvk {
    pub group: Seq<char>,
    pub version: Seq<char>,
    pub kind: Seq<char>,
}

/// The mathematical value of a resource identifier.
pub struct ResourceId {
    pub gvk: Gvk,
    pub name: Seq<char>,
    pub namespace: Option<Seq<char>>,
}

/// The API group, version and kind that together name a resource type.
#[derive(Debug, PartialEq, Eq, Hash)]
pub struct GroupVersionKind {
    pub group: String,
    pub version: String,
    pub kind: String,
}

/// An entry of an object's owner list, as the cluster reports it.
#[derive(Debug, PartialEq, Eq, Hash)]
pub struct OwnerReference {
    pub api_version: String,
    pub kind: String,
    pub name: String,
}

/// The mathematical value of an owner list entry.
pub struct OwnerRef {
    pub api_version: Seq<char>,
    pub kind: Seq<char>,
    pub name: Seq<char>,
}

/// One cluster object: its type, its name and, for a namespaced object, its
/// namespace. Two identifiers are the same when all three agree.
#[derive(Debug, PartialEq, Eq, Hash)]
pub struct ResourceIdentifier {
    pub gvk: GroupVersionKind,
    pub name: String,
    pub namespace: Option<String>,
}

/// The characters of an optional string.
pub open spec fn text_of(s: Option<String>) -> Option<Seq<char>> {
    match s {
        Some(s) => Some(s@),
        None => None,
    }
}

/// The values of a list of identifiers, in order.
pub open spec fn ids_of(v: Seq<ResourceIdentifier>) -> Seq<ResourceId> {
    Seq::new(v.len(), |i: int| v[i]@)
}

/// `i` is where the first `/` of `s` stands.
pub open spec fn is_first_slash(s: Seq<char>, i: int) -> bool {
    &&& 0 <= i < s.len()
    &&& s[i] == '/'
    &&& forall|j: int| 0 <= j < i ==> s[j] != '/'
}

/// The resource type that an `apiVersion` and a kind name: the group is what
/// precedes the first `/` of the `apiVersion` and the version what follows it;
/// without a `/` the group is empty and the whole string is the version.
pub open spec fn gvk_of_api_version(api_version: Seq<char>, kind: Seq<char>) -> Gvk {
    if exists|i: int| is_first_slash(api_version, i) {
        let i = choose|i: int| is_first_slash(api_version, i);
        Gvk {
            group: api_version.subrange(0, i),
            version: api_version.subrange(i + 1, api_version.len() as int),
            kind,
        }
    } else {
        Gvk { group: Seq::empty(), version: api_version, kind }
    }
}

/// The type of pods: the core group, version `v1`, kind `Pod`.
pub open spec fn pod_gvk() -> Gvk {
    Gvk { group: ""@, version: "v1"@, kind: "Pod"@ }
}

/// The name a pod goes by: its name, else its name prefix, else nothing.
pub open spec fn pod_name_any(pod: PodInfo) -> Seq<char> {
    match (pod.name, pod.generate_name) {
        (Some(name), _) => name@,
        (None, Some(prefix)) => prefix@,
        (None, None) => Seq::empty(),
    }
}

/// The identifier of a pod: the type of pods, the name the pod goes by, and
/// the pod's namespace.
pub open spec fn pod_id(pod: PodInfo) -> ResourceId {
    ResourceId { gvk: pod_gvk(), name: pod_name_any(pod), namespace: text_of(pod.namespace) }
}

/// A copy of an optional string.
pub fn copy_text(s: &Option<String>) -> (r: Option<String>)
    ensures
        r == *s,
{
    match s {
        Some(s) => Some(s.clone()),
        None => None,
    }
}

/// Whether two optional strings hold the same characters.
pub fn same_text(a: &Option<String>, b: &Option<String>) -> (r: bool)
    ensures
        r == (text_of(*a) == text_of(*b)),
{
    match (a, b) {
        (Some(a), Some(b)) => *a == *b,
        (None, None) => true,
        _ => false,
    }
}

/// The group, version and kind that kube derives from an owner reference with
/// this `apiVersion` and kind (`GroupVersionKind::from`): the `apiVersion` is
/// split at its first `/`, and where it has none the group is empty.
#[verifier::external_body]
fn owner_gvk(api_version: &str, kind: &str) -> (r: GroupVersionKind)
    ensures
        r@ == gvk_of_api_version(api_version@, kind@),
{
    let gvk = kube::core::GroupVersionKind::from(
        k8s_openapi::apimachinery::pkg::apis::meta::v1::OwnerReference {
            api_version: api_version.to_string(),
            kind: kind.to_string(),
            ..Default::default()
        },
    );
    GroupVersionKind { group: gvk.group, version: gvk.version, kind: gvk.kind }
}

/// The group, version and kind under which k8s-openapi declares pods, put
/// together by kube's `GroupVersionKind::gvk`: the core group, `v1`, `Pod`.
#[verifier::external_body]
fn kind_of_pods() -> (r: GroupVersionKind)
    ensures
        r@ == pod_gvk(),
{
    let gvk = kube::core::GroupVersionKind::gvk(
        <k8s_openapi::api::core::v1::Pod as k8s_openapi::Resource>::GROUP,
        <k8s_openapi::api::core::v1::Pod as k8s_openapi::Resource>::VERSION,
        <k8s_openapi::api::core::v1::Pod as k8s_openapi::Resource>::KIND,
    );
    GroupVersionKind { group: gvk.group, version: gvk.version, kind: gvk.kind }
}

impl View for GroupVersionKind {
    type V = Gvk;

    open spec fn view(&self) -> Gvk {
        Gvk { group: self.group@, version: self.version@, kind: self.kind@ }
    }
}

impl Clone for GroupVersionKind {
    fn clone(&self) -> (r: Self)
        ensures
            r == *self,
    {
        GroupVersionKind {
            group: self.group.clone(),
            version: self.version.clone(),
            kind: self.kind.clone(),
        }
    }
}

impl GroupVersionKind {
    /// The type with this group, version and kind.
    pub fn gvk(group: &str, version: &str, kind: &str) -> (r: Self)
        ensures
            r@ == (Gvk { group: group@, version: version@, kind: kind@ }),
    {
        GroupVersionKind {
            group: group.to_owned(),
            version: version.to_owned(),
            kind: kind.to_owned(),
        }
    }

    /// Whether both name the same type.
    pub fn same_as(&self, other: &GroupVersionKind) -> (r: bool)
        ensures
            r == (self@ == other@),
    {
        self.group == other.group && self.version == other.version && self.kind == other.kind
    }
}

impl View for OwnerReference {
    type V = OwnerRef;

    open spec fn view(&self) -> OwnerRef {
        OwnerRef { api_version: self.api_version@, kind: self.kind@, name: self.name@ }
    }
}

impl Clone for OwnerReference {
    fn clone(&self) -> (r: Self)
        ensures
            r == *self,
    {
        OwnerReference {
            api_version: self.api_version.clone(),
            kind: self.kind.clone(),
            name: self.name.clone(),
        }
    }
}

impl View for ResourceIdentifier {
    type V = ResourceId;

    open spec fn view(&self) -> ResourceId {
        ResourceId { gvk: self.gvk@, name: self.name@, namespace: text_of(self.namespace) }
    }
}

impl Clone for ResourceIdentifier {
    fn clone(&self) -> (r: Self)
        ensures
            r == *self,
    {
        ResourceIdentifier {
            gvk: self.gvk.clone(),
            name: self.name.clone(),
            namespace: copy_text(&self.namespace),
        }
    }
}

impl ResourceIdentifier {
    /// The owner that an owner list entry names, placed in `namespace`.
    pub fn from_owner_reference(owner_reference: &OwnerReference, namespace: Option<String>) -> (r:
        Self)
        ensures
            r@ == (ResourceId {
                gvk: gvk_of_api_version(owner_reference.api_version@, owner_reference.kind@),
                name: owner_reference.name@,
                namespace: text_of(namespace),
            }),
    {
        ResourceIdentifier {
            gvk: owner_gvk(owner_reference.api_version.as_str(), owner_reference.kind.as_str()),
            name: owner_reference.name.clone(),
            namespace,
        }
    }

    /// The identifier of a pod.
    pub fn from_pod(pod: &PodInfo) -> (r: Self)
        ensures
            r@ == pod_id(*pod),
    {
        let name = match &pod.name {
            Some(name) => name.clone(),
            None => match &pod.generate_name {
                Some(prefix) => prefix.clone(),
                None => String::new(),
            },
        };
        ResourceIdentifier { gvk: kind_of_pods(), name, namespace: copy_text(&pod.namespace) }
    }

    /// Whether both name the same object.
    pub fn same_as(&self, other: &ResourceIdentifier) -> (r: bool)
        ensures
            r == (self@ == other@),
    {
        self.gvk.same_as(&other.gvk) && self.name == other.name && same_text(
            &self.namespace,
            &other.namespace,
        )
    }
}

/// Whether `list` holds `id`.
pub fn holds(list: &Vec<ResourceIdentifier>, id: &ResourceIdentifier) -> (r: bool)
    ensures
        r == ids_of(list@).contains(id@),
{
    let mut i: usize = 0;
    while i < list.len()
        invariant
            i <= list.len(),
            forall|j: int| 0 <= j < i ==> list@[j]@ != id@,
        decreases list.len() - i,
    {
        if list[i].same_as(id) {
            assert(ids_of(list@)[i as int] == id@);
            return true;
        }
        i += 1;
    }
    false
}

/// A copy of a list of identifiers.
pub fn copy_ids(list: &Vec<ResourceIdentifier>) -> (r: Vec<ResourceIdentifier>)
    ensures
        r@ == list@,
{
    let mut out: Vec<ResourceIdentifier> = Vec::new();
    let mut i: usize = 0;
    while i < list.len()
        invariant
            i <= list.len(),
            out@ == list@.subrange(0, i as int),
        decreases list.len() - i,
    {
        out.push(list[i].clone());
        assert(out@ =~= list@.subrange(0, i + 1));
        i += 1;
    }
    assert(list@.subrange(0, list.len() as int) =~= list@);
    out
}

} // verus!
