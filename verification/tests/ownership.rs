use kubernetes_metrics::discovery::{ApiEntry, Scope};
use kubernetes_metrics::identity::{GroupVersionKind, OwnerReference, ResourceIdentifier};
use kubernetes_metrics::pods::PodInfo;
use kubernetes_metrics::resolver::{
    Action, Event, FetchedObject, Lookup, OwnershipResolver, ResolveError, Traversal,
};

/// A stand-in for a cluster that counts what is asked of it.
struct Cluster {
    apis: Vec<ApiEntry>,
    objects: Vec<(ResourceIdentifier, FetchedObject)>,
    discoveries: usize,
    fetched: Vec<ResourceIdentifier>,
    scopes: Vec<Option<String>>,
}

impl Cluster {
    fn new() -> Cluster {
        Cluster {
            apis: vec![
                api("", "v1", "Pod", "pods", Scope::Namespaced),
                api("apps", "v1", "ReplicaSet", "replicasets", Scope::Namespaced),
                api("apps", "v1", "Deployment", "deployments", Scope::Namespaced),
                api("", "v1", "Node", "nodes", Scope::Cluster),
            ],
            objects: Vec::new(),
            discoveries: 0,
            fetched: Vec::new(),
            scopes: Vec::new(),
        }
    }

    fn add(&mut self, resource: ResourceIdentifier, owners: Vec<OwnerReference>) {
        let object = FetchedObject { namespace: resource.namespace.clone(), owner_references: owners };
        self.objects.push((resource, object));
    }

    fn fetches_of(&self, resource: &ResourceIdentifier) -> usize {
        self.fetched.iter().filter(|r| *r == resource).count()
    }
}

fn api(group: &str, version: &str, kind: &str, plural: &str, scope: Scope) -> ApiEntry {
    ApiEntry { gvk: GroupVersionKind::gvk(group, version, kind), plural: plural.to_string(), scope }
}

fn id(group: &str, kind: &str, name: &str, namespace: Option<&str>) -> ResourceIdentifier {
    ResourceIdentifier {
        gvk: GroupVersionKind::gvk(group, "v1", kind),
        name: name.to_string(),
        namespace: namespace.map(|n| n.to_string()),
    }
}

fn pod(name: &str) -> ResourceIdentifier {
    id("", "Pod", name, Some("default"))
}

fn replica_set(name: &str) -> ResourceIdentifier {
    id("apps", "ReplicaSet", name, Some("default"))
}

fn deployment(name: &str) -> ResourceIdentifier {
    id("apps", "Deployment", name, Some("default"))
}

fn owner(api_version: &str, kind: &str, name: &str) -> OwnerReference {
    OwnerReference {
        api_version: api_version.to_string(),
        kind: kind.to_string(),
        name: name.to_string(),
    }
}

/// Drives one traversal to its end, doing as the resolver asks.
fn resolve(
    resolver: &mut OwnershipResolver,
    cluster: &mut Cluster,
    resource: &ResourceIdentifier,
) -> Result<Vec<ResourceIdentifier>, ResolveError> {
    let mut walk = Traversal::start(resource);
    let mut event = Event::Next;
    for _ in 0..10_000 {
        match resolver.resolve_top_level_owners(&mut walk, event) {
            Action::Again => event = Event::Next,
            Action::Discover => {
                cluster.discoveries += 1;
                event = Event::Discovered(cluster.apis.clone());
            }
            Action::Fetch(request) => {
                cluster.fetched.push(request.resource.clone());
                cluster.scopes.push(request.accessor.namespace.clone());
                let found = cluster
                    .objects
                    .iter()
                    .find(|(resource, _)| {
                        resource.gvk == request.resource.gvk
                            && resource.name == request.resource.name
                            && (request.accessor.namespace.is_none()
                                || resource.namespace == request.accessor.namespace)
                    })
                    .map(|(_, object)| object.clone());
                event = match found {
                    Some(object) => Event::Fetched(object),
                    None => Event::Failed(format!("{} not found", request.resource.name)),
                };
            }
            Action::Done(owners) => return Ok(owners),
            Action::Fail(error) => return Err(error),
        }
    }
    panic!("the traversal did not end");
}

#[test]
fn resource_without_owners_is_its_own_top_level_owner() {
    let mut cluster = Cluster::new();
    cluster.add(deployment("d1"), vec![]);
    let mut resolver = OwnershipResolver::new();
    let owners = resolve(&mut resolver, &mut cluster, &deployment("d1")).unwrap();
    assert_eq!(owners, vec![deployment("d1")]);
    assert_eq!(cluster.fetched, vec![deployment("d1")]);
}

#[test]
fn linear_chain_resolves_to_the_deployment() {
    let mut cluster = Cluster::new();
    cluster.add(pod("p1"), vec![owner("apps/v1", "ReplicaSet", "rs1")]);
    cluster.add(replica_set("rs1"), vec![owner("apps/v1", "Deployment", "d1")]);
    cluster.add(deployment("d1"), vec![]);
    let mut resolver = OwnershipResolver::new();
    let owners = resolve(&mut resolver, &mut cluster, &pod("p1")).unwrap();
    assert_eq!(owners, vec![deployment("d1")]);
    assert_eq!(cluster.fetched, vec![pod("p1"), replica_set("rs1"), deployment("d1")]);
}

#[test]
fn diamond_resolves_to_both_owners() {
    let mut cluster = Cluster::new();
    cluster.add(
        pod("x"),
        vec![owner("apps/v1", "Deployment", "y"), owner("apps/v1", "Deployment", "z")],
    );
    cluster.add(deployment("y"), vec![]);
    cluster.add(deployment("z"), vec![]);
    let mut resolver = OwnershipResolver::new();
    let owners = resolve(&mut resolver, &mut cluster, &pod("x")).unwrap();
    assert_eq!(owners.len(), 2);
    assert!(owners.contains(&deployment("y")));
    assert!(owners.contains(&deployment("z")));
}

#[test]
fn owner_added_last_is_visited_first() {
    let mut cluster = Cluster::new();
    cluster.add(
        pod("x"),
        vec![owner("apps/v1", "Deployment", "y"), owner("apps/v1", "Deployment", "z")],
    );
    cluster.add(deployment("y"), vec![]);
    cluster.add(deployment("z"), vec![]);
    let mut resolver = OwnershipResolver::new();
    let owners = resolve(&mut resolver, &mut cluster, &pod("x")).unwrap();
    assert_eq!(cluster.fetched, vec![pod("x"), deployment("z"), deployment("y")]);
    assert_eq!(owners, vec![deployment("z"), deployment("y")]);
}

#[test]
fn shared_top_level_owner_is_reported_once() {
    let mut cluster = Cluster::new();
    cluster.add(
        pod("x"),
        vec![owner("apps/v1", "ReplicaSet", "a"), owner("apps/v1", "ReplicaSet", "b")],
    );
    cluster.add(replica_set("a"), vec![owner("apps/v1", "Deployment", "top")]);
    cluster.add(replica_set("b"), vec![owner("apps/v1", "Deployment", "top")]);
    cluster.add(deployment("top"), vec![]);
    let mut resolver = OwnershipResolver::new();
    let owners = resolve(&mut resolver, &mut cluster, &pod("x")).unwrap();
    assert_eq!(owners, vec![deployment("top")]);
    assert_eq!(cluster.fetches_of(&deployment("top")), 1);
}

#[test]
fn cycle_resolves_to_nothing_and_ends() {
    let mut cluster = Cluster::new();
    cluster.add(deployment("a"), vec![owner("apps/v1", "Deployment", "b")]);
    cluster.add(deployment("b"), vec![owner("apps/v1", "Deployment", "a")]);
    let mut resolver = OwnershipResolver::new();
    let owners = resolve(&mut resolver, &mut cluster, &deployment("a")).unwrap();
    assert_eq!(owners, Vec::<ResourceIdentifier>::new());
    assert_eq!(cluster.fetched, vec![deployment("a"), deployment("b")]);
}

#[test]
fn resource_that_owns_itself_resolves_to_nothing() {
    let mut cluster = Cluster::new();
    cluster.add(deployment("a"), vec![owner("apps/v1", "Deployment", "a")]);
    let mut resolver = OwnershipResolver::new();
    let owners = resolve(&mut resolver, &mut cluster, &deployment("a")).unwrap();
    assert!(owners.is_empty());
    assert_eq!(cluster.fetches_of(&deployment("a")), 1);
}

#[test]
fn cached_owner_is_not_fetched_again() {
    let mut cluster = Cluster::new();
    cluster.add(pod("p1"), vec![owner("apps/v1", "ReplicaSet", "rs1")]);
    cluster.add(pod("p2"), vec![owner("apps/v1", "ReplicaSet", "rs1")]);
    cluster.add(replica_set("rs1"), vec![owner("apps/v1", "Deployment", "d1")]);
    cluster.add(deployment("d1"), vec![]);
    let mut resolver = OwnershipResolver::new();
    assert_eq!(resolve(&mut resolver, &mut cluster, &pod("p1")).unwrap(), vec![deployment("d1")]);
    assert_eq!(cluster.fetched.len(), 3);
    assert_eq!(resolve(&mut resolver, &mut cluster, &pod("p2")).unwrap(), vec![deployment("d1")]);
    assert_eq!(cluster.fetched.len(), 4);
    assert_eq!(cluster.fetched[3], pod("p2"));
    assert_eq!(cluster.fetches_of(&replica_set("rs1")), 1);
    assert_eq!(cluster.fetches_of(&deployment("d1")), 1);
    assert_eq!(resolve(&mut resolver, &mut cluster, &pod("p1")).unwrap(), vec![deployment("d1")]);
    assert_eq!(cluster.fetched.len(), 4);
    assert_eq!(cluster.discoveries, 1);
}

#[test]
fn reset_clears_both_caches() {
    let mut cluster = Cluster::new();
    cluster.add(pod("p1"), vec![owner("apps/v1", "Deployment", "d1")]);
    cluster.add(deployment("d1"), vec![]);
    let mut resolver = OwnershipResolver::new();
    assert_eq!(resolve(&mut resolver, &mut cluster, &pod("p1")).unwrap(), vec![deployment("d1")]);
    assert_eq!(cluster.discoveries, 1);
    assert_eq!(cluster.fetched.len(), 2);
    resolver.reset();
    assert_eq!(resolve(&mut resolver, &mut cluster, &pod("p1")).unwrap(), vec![deployment("d1")]);
    assert_eq!(cluster.discoveries, 2);
    assert_eq!(cluster.fetched.len(), 4);
    assert_eq!(cluster.fetches_of(&deployment("d1")), 2);
}

#[test]
fn reset_forgets_the_discovery_table() {
    let mut resolver = OwnershipResolver::new();
    assert!(resolver.discover(vec![api("", "v1", "Pod", "pods", Scope::Namespaced)]));
    let gvk = GroupVersionKind::gvk("", "v1", "Pod");
    assert!(matches!(resolver.resolve_gvk(&gvk), Lookup::Ready(_)));
    resolver.reset();
    assert_eq!(resolver.resolve_gvk(&gvk), Lookup::NeedsDiscovery);
}

#[test]
fn namespaced_type_without_namespace_is_an_error() {
    let mut cluster = Cluster::new();
    cluster.add(pod("p1"), vec![]);
    let mut resolver = OwnershipResolver::new();
    let nowhere = id("", "Pod", "p1", None);
    let result = resolve(&mut resolver, &mut cluster, &nowhere);
    assert_eq!(result, Err(ResolveError::MissingNamespace(GroupVersionKind::gvk("", "v1", "Pod"))));
    assert!(cluster.fetched.is_empty());
    assert_eq!(cluster.discoveries, 1);
}

#[test]
fn cluster_wide_type_ignores_the_namespace() {
    let mut cluster = Cluster::new();
    cluster.add(id("", "Node", "n1", None), vec![]);
    let mut resolver = OwnershipResolver::new();
    let hinted = id("", "Node", "n1", Some("kube-system"));
    let owners = resolve(&mut resolver, &mut cluster, &hinted).unwrap();
    assert_eq!(owners, vec![hinted.clone()]);
    assert_eq!(cluster.scopes, vec![None]);
    let accessor = match resolver.resolve_api(&hinted.gvk, &hinted.namespace) {
        Lookup::Ready(accessor) => accessor,
        other => panic!("no accessor: {:?}", other),
    };
    assert_eq!(accessor.namespace, None);
    assert_eq!(accessor.api.plural, "nodes");
    assert_eq!(accessor.api.scope, Scope::Cluster);
}

#[test]
fn namespaced_type_is_read_in_its_namespace() {
    let mut resolver = OwnershipResolver::new();
    resolver.discover(Cluster::new().apis);
    let gvk = GroupVersionKind::gvk("apps", "v1", "Deployment");
    let accessor = match resolver.resolve_api(&gvk, &Some("prod".to_string())) {
        Lookup::Ready(accessor) => accessor,
        other => panic!("no accessor: {:?}", other),
    };
    assert_eq!(accessor.namespace, Some("prod".to_string()));
    assert_eq!(accessor.api, api("apps", "v1", "Deployment", "deployments", Scope::Namespaced));
    assert_eq!(
        resolver.resolve_api(&gvk, &None),
        Lookup::Failed(ResolveError::MissingNamespace(gvk.clone()))
    );
}

#[test]
fn pod_owned_by_a_node_resolves_to_the_node() {
    let mut cluster = Cluster::new();
    let mirror = id("", "Pod", "kube-proxy", Some("kube-system"));
    cluster.add(mirror.clone(), vec![owner("v1", "Node", "n1")]);
    cluster.add(id("", "Node", "n1", None), vec![]);
    let mut resolver = OwnershipResolver::new();
    let owners = resolve(&mut resolver, &mut cluster, &mirror).unwrap();
    assert_eq!(owners, vec![id("", "Node", "n1", Some("kube-system"))]);
    assert_eq!(cluster.scopes, vec![Some("kube-system".to_string()), None]);
}

#[test]
fn discovery_runs_once_per_epoch() {
    let mut cluster = Cluster::new();
    let mut resolver = OwnershipResolver::new();
    let first = id("batch", "Job", "j1", Some("default"));
    let second = id("batch", "CronJob", "c1", Some("default"));
    assert_eq!(
        resolve(&mut resolver, &mut cluster, &first),
        Err(ResolveError::UnresolvableGvk(GroupVersionKind::gvk("batch", "v1", "Job")))
    );
    assert_eq!(cluster.discoveries, 1);
    assert_eq!(
        resolve(&mut resolver, &mut cluster, &second),
        Err(ResolveError::UnresolvableGvk(GroupVersionKind::gvk("batch", "v1", "CronJob")))
    );
    assert_eq!(
        resolve(&mut resolver, &mut cluster, &first),
        Err(ResolveError::UnresolvableGvk(GroupVersionKind::gvk("batch", "v1", "Job")))
    );
    assert_eq!(cluster.discoveries, 1);
    assert!(cluster.fetched.is_empty());
    resolver.reset();
    assert!(resolve(&mut resolver, &mut cluster, &second).is_err());
    assert_eq!(cluster.discoveries, 2);
}

#[test]
fn redundant_discovery_is_ignored() {
    let mut resolver = OwnershipResolver::new();
    assert!(resolver.discover(vec![api("", "v1", "Pod", "pods", Scope::Namespaced)]));
    assert!(!resolver.discover(vec![api("", "v1", "Node", "nodes", Scope::Cluster)]));
    assert!(matches!(
        resolver.resolve_gvk(&GroupVersionKind::gvk("", "v1", "Pod")),
        Lookup::Ready(_)
    ));
    let node = GroupVersionKind::gvk("", "v1", "Node");
    assert_eq!(
        resolver.resolve_gvk(&node),
        Lookup::Failed(ResolveError::UnresolvableGvk(node.clone()))
    );
}

#[test]
fn first_entry_of_the_table_wins() {
    let mut resolver = OwnershipResolver::new();
    resolver.discover(vec![
        api("", "v1", "Pod", "pods", Scope::Namespaced),
        api("", "v1", "Pod", "podz", Scope::Cluster),
    ]);
    assert_eq!(
        resolver.resolve_gvk(&GroupVersionKind::gvk("", "v1", "Pod")),
        Lookup::Ready(api("", "v1", "Pod", "pods", Scope::Namespaced))
    );
}

#[test]
fn failed_fetch_ends_the_traversal_with_its_message() {
    let mut cluster = Cluster::new();
    cluster.add(pod("p1"), vec![owner("apps/v1", "ReplicaSet", "gone")]);
    let mut resolver = OwnershipResolver::new();
    assert_eq!(
        resolve(&mut resolver, &mut cluster, &pod("p1")),
        Err(ResolveError::Cluster("gone not found".to_string()))
    );
    assert_eq!(cluster.fetched, vec![pod("p1"), replica_set("gone")]);
}

#[test]
fn owner_of_unknown_type_ends_the_traversal() {
    let mut cluster = Cluster::new();
    cluster.add(pod("p1"), vec![owner("batch/v1", "Job", "j1")]);
    let mut resolver = OwnershipResolver::new();
    assert_eq!(
        resolve(&mut resolver, &mut cluster, &pod("p1")),
        Err(ResolveError::UnresolvableGvk(GroupVersionKind::gvk("batch", "v1", "Job")))
    );
    assert_eq!(cluster.discoveries, 1);
}

#[test]
fn event_that_was_not_asked_for_is_refused() {
    let mut resolver = OwnershipResolver::new();
    let mut walk = Traversal::start(&pod("p1"));
    let object = FetchedObject { namespace: None, owner_references: vec![] };
    assert_eq!(
        resolver.resolve_top_level_owners(&mut walk, Event::Fetched(object)),
        Action::Fail(ResolveError::OutOfTurn)
    );
    assert_eq!(resolver.resolve_top_level_owners(&mut walk, Event::Next), Action::Discover);
    resolver.discover(Cluster::new().apis);
    let action = resolver.resolve_top_level_owners(&mut walk, Event::Next);
    assert!(matches!(action, Action::Fetch(_)));
    assert_eq!(
        resolver.resolve_top_level_owners(&mut walk, Event::Next),
        Action::Fail(ResolveError::OutOfTurn)
    );
}

#[test]
fn steps_of_a_traversal() {
    let mut resolver = OwnershipResolver::new();
    let mut walk = Traversal::start(&deployment("d1"));
    assert_eq!(resolver.resolve_top_level_owners(&mut walk, Event::Next), Action::Discover);
    assert_eq!(
        resolver.resolve_top_level_owners(&mut walk, Event::Discovered(Cluster::new().apis)),
        Action::Again
    );
    let request = match resolver.resolve_top_level_owners(&mut walk, Event::Next) {
        Action::Fetch(request) => request,
        other => panic!("no fetch: {:?}", other),
    };
    assert_eq!(request.resource, deployment("d1"));
    assert_eq!(request.accessor.namespace, Some("default".to_string()));
    assert_eq!(request.accessor.api.plural, "deployments");
    let object = FetchedObject { namespace: Some("default".to_string()), owner_references: vec![] };
    assert_eq!(
        resolver.resolve_top_level_owners(&mut walk, Event::Fetched(object)),
        Action::Again
    );
    assert_eq!(
        resolver.resolve_top_level_owners(&mut walk, Event::Next),
        Action::Done(vec![deployment("d1")])
    );
    assert_eq!(
        resolver.resolve_top_level_owners(&mut walk, Event::Failed("late".to_string())),
        Action::Fail(ResolveError::Cluster("late".to_string()))
    );
}

#[test]
fn owner_references_inherit_the_namespace_of_the_object() {
    let object = FetchedObject {
        namespace: Some("prod".to_string()),
        owner_references: vec![owner("apps/v1", "ReplicaSet", "rs1"), owner("v1", "Node", "n1")],
    };
    let owners = OwnershipResolver::resolve_owner_references(&object);
    assert_eq!(
        owners,
        vec![
            ResourceIdentifier {
                gvk: GroupVersionKind::gvk("apps", "v1", "ReplicaSet"),
                name: "rs1".to_string(),
                namespace: Some("prod".to_string()),
            },
            ResourceIdentifier {
                gvk: GroupVersionKind::gvk("", "v1", "Node"),
                name: "n1".to_string(),
                namespace: Some("prod".to_string()),
            },
        ]
    );
}

#[test]
fn owner_reference_splits_the_api_version_at_the_first_slash() {
    let with_group = ResourceIdentifier::from_owner_reference(&owner("apps/v1", "Deployment", "d"), None);
    assert_eq!(with_group.gvk.group, "apps");
    assert_eq!(with_group.gvk.version, "v1");
    assert_eq!(with_group.gvk.kind, "Deployment");
    assert_eq!(with_group.name, "d");
    assert_eq!(with_group.namespace, None);
    let core = ResourceIdentifier::from_owner_reference(
        &owner("v1", "Node", "n"),
        Some("default".to_string()),
    );
    assert_eq!(core.gvk, GroupVersionKind::gvk("", "v1", "Node"));
    assert_eq!(core.namespace, Some("default".to_string()));
    let odd = ResourceIdentifier::from_owner_reference(&owner("a/b/c", "K", "n"), None);
    assert_eq!(odd.gvk, GroupVersionKind::gvk("a", "b/c", "K"));
}

#[test]
fn pod_identifier_names_the_pod() {
    let info = PodInfo {
        name: Some("web-1".to_string()),
        generate_name: Some("web-".to_string()),
        namespace: Some("default".to_string()),
        uid: None,
        node_name: None,
        labels: None,
        status: None,
    };
    let resource = ResourceIdentifier::from_pod(&info);
    assert_eq!(resource.gvk, GroupVersionKind::gvk("", "v1", "Pod"));
    assert_eq!(resource.name, "web-1");
    assert_eq!(resource.namespace, Some("default".to_string()));
    let unnamed = PodInfo { name: None, namespace: None, ..info.clone() };
    let resource = ResourceIdentifier::from_pod(&unnamed);
    assert_eq!(resource.name, "web-");
    assert_eq!(resource.namespace, None);
    let blank = PodInfo { generate_name: None, ..unnamed };
    assert_eq!(ResourceIdentifier::from_pod(&blank).name, "");
}

#[test]
fn identifiers_differ_by_any_field() {
    let base = pod("p1");
    assert!(base.same_as(&pod("p1")));
    assert!(!base.same_as(&pod("p2")));
    assert!(!base.same_as(&id("", "Pod", "p1", None)));
    assert!(!base.same_as(&id("", "Pod", "p1", Some("other"))));
    assert!(!base.same_as(&id("apps", "Pod", "p1", Some("default"))));
    assert!(!base.same_as(&id("", "Node", "p1", Some("default"))));
}
