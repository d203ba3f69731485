//! Resolution of the top-level owners of a cluster resource.
//!
//! The resolver never reads the cluster itself. It is a machine that is fed
//! events and answers with the next thing to do: run discovery, fetch one
//! object, call again, or stop with the owners or with an error. The caller
//! performs what is asked and reports what came of it.

use vstd::prelude::*;
use crate::discovery::{find_api, lookup_api, apis_of, Api, ApiEntry, Scope};
use crate::identity::{
    copy_ids, copy_text, gvk_of_api_version, holds, ids_of, text_of, GroupVersionKind, Gvk,
    OwnerRef, OwnerReference, ResourceId, ResourceIdentifier,
};

verus! {

/// What the resolver reads of an object that was fetched from the cluster.
#[derive(Debug, Clone, PartialEq, Eq)]
pub struct FetchedObject {
    pub namespace: Option<String>,
    pub owner_references: Vec<OwnerReference>,
}

/// The mathematical value of a fetched object.
pub struct Object {
    pub namespace: Option<Seq<char>>,
    pub owner_references: Seq<OwnerRef>,
}

/// Where objects of one type are read: in one namespace, or in the whole
/// cluster when `namespace` is absent.
#[derive(Debug, Clone, PartialEq, Eq)]
pub struct Accessor {
    pub api: ApiEntry,
    pub namespace: Option<String>,
}

/// The mathematical value of an accessor.
pub struct Access {
    pub api: Api,
    pub namespace: Option<Seq<char>>,
}

/// A request to read one object by name.
#[derive(Debug, Clone, PartialEq, Eq)]
pub struct FetchRequest {
    pub accessor: Accessor,
    pub resource: ResourceIdentifier,
}

/// The mathematical value of a fetch request.
pub struct Request {
    pub access: Access,
    pub resource: ResourceId,
}

/// Why a resolution stopped without a result.
#[derive(Debug, Clone, PartialEq, Eq)]
pub enum ResolveError {
    /// The type is unknown to the cluster even after discovery.
    UnresolvableGvk(GroupVersionKind),
    /// The type is namespaced and no namespace was given.
    MissingNamespace(GroupVersionKind),
    /// The cluster could not serve a discovery run or a fetch.
    Cluster(String),
    /// An event was reported that the resolver had not asked for.
    OutOfTurn,
}

/// The mathematical value of a resolution error.
pub enum Failure {
    UnresolvableGvk(Gvk),
    MissingNamespace(Gvk),
    Cluster(Seq<char>),
    OutOfTurn,
}

/// The outcome of a lookup that may have to wait for a discovery run.
#[derive(Debug, Clone, PartialEq, Eq)]
pub enum Lookup<T, E> {
    Ready(T),
    NeedsDiscovery,
    Failed(E),
}

/// What the caller reports to the resolver.
#[derive(Debug, Clone, PartialEq, Eq)]
pub enum Event {
    /// Nothing to report: take the next step.
    Next,
    /// The discovery run that was asked for found these types.
    Discovered(Vec<ApiEntry>),
    /// The object that was asked for.
    Fetched(FetchedObject),
    /// The discovery run or the fetch that was asked for failed.
    Failed(String),
}

/// The mathematical value of an event.
pub enum EventValue {
    Next,
    Discovered(Seq<Api>),
    Fetched(Object),
    Failed(Seq<char>),
}

/// What the resolver asks of the caller.
#[derive(Debug, Clone, PartialEq, Eq)]
pub enum Action {
    /// Call again with `Event::Next`.
    Again,
    /// Run discovery and report `Event::Discovered`.
    Discover,
    /// Fetch this object and report `Event::Fetched`.
    Fetch(FetchRequest),
    /// The traversal is over: these are the top-level owners.
    Done(Vec<ResourceIdentifier>),
    /// The traversal is over and has no result.
    Fail(ResolveError),
}

/// The mathematical value of an action.
pub enum ActionValue {
    Again,
    Discover,
    Fetch(Request),
    Done(Seq<ResourceId>),
    Fail(Failure),
}

/// The mathematical value of an owner cache entry: a resource and its direct
/// owners.
pub struct OwnerList {
    pub resource: ResourceId,
    pub owners: Seq<ResourceId>,
}

/// The mathematical value of a resolver: the discovery table if a run has
/// stored one, whether a run is still allowed in this epoch, and the owner
/// cache in the order in which it was filled.
pub struct ResolverState {
    pub discovery: Option<Seq<Api>>,
    pub should_discover: bool,
    pub owners: Seq<OwnerList>,
}

/// The mathematical value of one traversal: the work list, whose last entry
/// is taken next, the resources met so far, the top-level owners found so
/// far, and the resource whose object the caller was asked to fetch.
pub struct WalkState {
    pub queue: Seq<ResourceId>,
    pub seen: Seq<ResourceId>,
    pub result: Seq<ResourceId>,
    pub fetching: Option<ResourceId>,
}

/// A step's outcome: both states after it, and what it asks for.
pub struct StepResult {
    pub resolver: ResolverState,
    pub walk: WalkState,
    pub action: ActionValue,
}

impl View for FetchedObject {
    type V = Object;

    open spec fn view(&self) -> Object {
        Object {
            namespace: text_of(self.namespace),
            owner_references: Seq::new(
                self.owner_references@.len(),
                |i: int| self.owner_references@[i]@,
            ),
        }
    }
}

impl View for Accessor {
    type V = Access;

    open spec fn view(&self) -> Access {
        Access { api: self.api@, namespace: text_of(self.namespace) }
    }
}

impl View for FetchRequest {
    type V = Request;

    open spec fn view(&self) -> Request {
        Request { access: self.accessor@, resource: self.resource@ }
    }
}

impl View for ResolveError {
    type V = Failure;

    open spec fn view(&self) -> Failure {
        match self {
            ResolveError::UnresolvableGvk(gvk) => Failure::UnresolvableGvk(gvk@),
            ResolveError::MissingNamespace(gvk) => Failure::MissingNamespace(gvk@),
            ResolveError::Cluster(message) => Failure::Cluster(message@),
            ResolveError::OutOfTurn => Failure::OutOfTurn,
        }
    }
}

impl View for Event {
    type V = EventValue;

    open spec fn view(&self) -> EventValue {
        match self {
            Event::Next => EventValue::Next,
            Event::Discovered(apis) => EventValue::Discovered(apis_of(apis@)),
            Event::Fetched(object) => EventValue::Fetched(object@),
            Event::Failed(message) => EventValue::Failed(message@),
        }
    }
}

impl View for Action {
    type V = ActionValue;

    open spec fn view(&self) -> ActionValue {
        match self {
            Action::Again => ActionValue::Again,
            Action::Discover => ActionValue::Discover,
            Action::Fetch(request) => ActionValue::Fetch(request@),
            Action::Done(owners) => ActionValue::Done(ids_of(owners@)),
            Action::Fail(error) => ActionValue::Fail(error@),
        }
    }
}

/// The value of a type lookup's outcome.
pub open spec fn api_lookup_of(l: Lookup<ApiEntry, ResolveError>) -> Lookup<Api, Failure> {
    match l {
        Lookup::Ready(api) => Lookup::Ready(api@),
        Lookup::NeedsDiscovery => Lookup::NeedsDiscovery,
        Lookup::Failed(error) => Lookup::Failed(error@),
    }
}

/// The value of an accessor lookup's outcome.
pub open spec fn access_lookup_of(l: Lookup<Accessor, ResolveError>) -> Lookup<Access, Failure> {
    match l {
        Lookup::Ready(accessor) => Lookup::Ready(accessor@),
        Lookup::NeedsDiscovery => Lookup::NeedsDiscovery,
        Lookup::Failed(error) => Lookup::Failed(error@),
    }
}

/// The owners cached for `resource` by the first entry at or after `from`.
pub open spec fn find_owners_from(cache: Seq<OwnerList>, resource: ResourceId, from: int) -> Option<
    Seq<ResourceId>,
>
    decreases cache.len() - from,
{
    if from < 0 || from >= cache.len() {
        None
    } else if cache[from].resource == resource {
        Some(cache[from].owners)
    } else {
        find_owners_from(cache, resource, from + 1)
    }
}

/// The direct owners that the cache holds for `resource`: those of the first
/// entry written for it.
pub open spec fn find_owners(cache: Seq<OwnerList>, resource: ResourceId) -> Option<
    Seq<ResourceId>,
> {
    find_owners_from(cache, resource, 0)
}

/// A resolver at the start of an epoch: no discovery table, discovery
/// allowed, nothing cached.
pub open spec fn fresh() -> ResolverState {
    ResolverState { discovery: None, should_discover: true, owners: Seq::empty() }
}

/// A traversal that has only its starting resource to visit.
pub open spec fn start_of(resource: ResourceId) -> WalkState {
    WalkState {
        queue: seq![resource],
        seen: Seq::empty(),
        result: Seq::empty(),
        fetching: None,
    }
}

/// The resolver after a discovery run reported `apis`: the table is stored
/// and no further run is allowed if one was still allowed; a run that was not
/// allowed changes nothing.
pub open spec fn discovered(s: ResolverState, apis: Seq<Api>) -> ResolverState {
    if s.should_discover {
        ResolverState { discovery: Some(apis), should_discover: false, owners: s.owners }
    } else {
        s
    }
}

/// How a type resolves: by the stored table if it knows the type; else
/// discovery is needed if it is still allowed, and the type is unresolvable
/// if it is not.
pub open spec fn gvk_resolution(s: ResolverState, gvk: Gvk) -> Lookup<Api, Failure> {
    let found = match s.discovery {
        Some(apis) => find_api(apis, gvk),
        None => None,
    };
    match found {
        Some(api) => Lookup::Ready(api),
        None => if s.should_discover {
            Lookup::NeedsDiscovery
        } else {
            Lookup::Failed(Failure::UnresolvableGvk(gvk))
        },
    }
}

/// How an accessor for a type resolves: a namespaced type needs a namespace
/// and is read in it; a cluster-wide type is read in the whole cluster,
/// whatever namespace was given.
pub open spec fn api_resolution(s: ResolverState, gvk: Gvk, namespace: Option<Seq<char>>) -> Lookup<
    Access,
    Failure,
> {
    match gvk_resolution(s, gvk) {
        Lookup::Ready(api) => match (api.scope, namespace) {
            (Scope::Cluster, _) => Lookup::Ready(Access { api, namespace: None }),
            (Scope::Namespaced, Some(ns)) => Lookup::Ready(Access { api, namespace: Some(ns) }),
            (Scope::Namespaced, None) => Lookup::Failed(Failure::MissingNamespace(gvk)),
        },
        Lookup::NeedsDiscovery => Lookup::NeedsDiscovery,
        Lookup::Failed(failure) => Lookup::Failed(failure),
    }
}

/// What has to happen to get hold of an object: a fetch through its type's
/// accessor, a discovery run first, or nothing that could help.
pub open spec fn object_resolution(s: ResolverState, resource: ResourceId) -> ActionValue {
    match api_resolution(s, resource.gvk, resource.namespace) {
        Lookup::Ready(access) => ActionValue::Fetch(Request { access, resource }),
        Lookup::NeedsDiscovery => ActionValue::Discover,
        Lookup::Failed(failure) => ActionValue::Fail(failure),
    }
}

/// The direct owners that an object declares, in the order of its owner
/// list, each placed in the object's own namespace.
pub open spec fn owner_ids(object: Object) -> Seq<ResourceId> {
    Seq::new(
        object.owner_references.len(),
        |i: int|
            ResourceId {
                gvk: gvk_of_api_version(
                    object.owner_references[i].api_version,
                    object.owner_references[i].kind,
                ),
                name: object.owner_references[i].name,
                namespace: object.namespace,
            },
    )
}

/// The traversal after `resource`, with direct owners `owners`, was dealt
/// with: a resource without owners is a top-level owner and joins the
/// result; owners join the work list.
pub open spec fn visited(w: WalkState, resource: ResourceId, owners: Seq<ResourceId>) -> WalkState {
    WalkState {
        queue: w.queue + owners,
        seen: w.seen,
        result: if owners.len() == 0 {
            w.result.push(resource)
        } else {
            w.result
        },
        fetching: None,
    }
}

/// One step of a traversal.
///
/// A failure reported by the caller ends the traversal. A discovery table is
/// stored. A fetched object gives the direct owners of the resource that was
/// asked for, which are cached and then dealt with. Otherwise the last entry
/// of the work list is taken: one met before is dropped; one whose owners are
/// cached is dealt with from the cache; for any other its object is asked
/// for, or what is needed before that. With an empty work list the result is
/// handed out.
pub open spec fn step(s: ResolverState, w: WalkState, event: EventValue) -> StepResult {
    match event {
        EventValue::Failed(message) => StepResult {
            resolver: s,
            walk: w,
            action: ActionValue::Fail(Failure::Cluster(message)),
        },
        EventValue::Discovered(apis) => StepResult {
            resolver: discovered(s, apis),
            walk: w,
            action: ActionValue::Again,
        },
        EventValue::Fetched(object) => match w.fetching {
            None => StepResult {
                resolver: s,
                walk: w,
                action: ActionValue::Fail(Failure::OutOfTurn),
            },
            Some(resource) => StepResult {
                resolver: ResolverState {
                    discovery: s.discovery,
                    should_discover: s.should_discover,
                    owners: s.owners.push(OwnerList { resource, owners: owner_ids(object) }),
                },
                walk: visited(w, resource, owner_ids(object)),
                action: ActionValue::Again,
            },
        },
        EventValue::Next => if w.fetching is Some {
            StepResult { resolver: s, walk: w, action: ActionValue::Fail(Failure::OutOfTurn) }
        } else if w.queue.len() == 0 {
            StepResult { resolver: s, walk: w, action: ActionValue::Done(w.result) }
        } else {
            let resource = w.queue.last();
            let rest = WalkState {
                queue: w.queue.drop_last(),
                seen: w.seen,
                result: w.result,
                fetching: None,
            };
            let met = WalkState {
                queue: rest.queue,
                seen: w.seen.push(resource),
                result: w.result,
                fetching: None,
            };
            if w.seen.contains(resource) {
                StepResult { resolver: s, walk: rest, action: ActionValue::Again }
            } else {
                match find_owners(s.owners, resource) {
                    Some(owners) => StepResult {
                        resolver: s,
                        walk: visited(met, resource, owners),
                        action: ActionValue::Again,
                    },
                    None => match object_resolution(s, resource) {
                        ActionValue::Fetch(request) => StepResult {
                            resolver: s,
                            walk: WalkState {
                                queue: met.queue,
                                seen: met.seen,
                                result: met.result,
                                fetching: Some(resource),
                            },
                            action: ActionValue::Fetch(request),
                        },
                        other => StepResult { resolver: s, walk: w, action: other },
                    },
                }
            }
        },
    }
}

/// An owner cache entry.
struct OwnerEntry {
    resource: ResourceIdentifier,
    owners: Vec<ResourceIdentifier>,
}

/// The resolver's memory: what discovery found, whether discovery may still
/// run in this epoch, and the direct owners of every resource whose object
/// was fetched in this epoch.
pub struct OwnershipResolver {
    discovery: Option<Vec<ApiEntry>>,
    should_discover: bool,
    owners: Vec<OwnerEntry>,
}

/// The state of one traversal from a starting resource to its top-level
/// owners.
pub struct Traversal {
    queue: Vec<ResourceIdentifier>,
    seen: Vec<ResourceIdentifier>,
    result: Vec<ResourceIdentifier>,
    fetching: Option<ResourceIdentifier>,
}

impl View for OwnerEntry {
    type V = OwnerList;

    closed spec fn view(&self) -> OwnerList {
        OwnerList { resource: self.resource@, owners: ids_of(self.owners@) }
    }
}

impl View for OwnershipResolver {
    type V = ResolverState;

    closed spec fn view(&self) -> ResolverState {
        ResolverState {
            discovery: match self.discovery {
                Some(table) => Some(apis_of(table@)),
                None => None,
            },
            should_discover: self.should_discover,
            owners: Seq::new(self.owners@.len(), |i: int| self.owners@[i]@),
        }
    }
}

impl View for Traversal {
    type V = WalkState;

    closed spec fn view(&self) -> WalkState {
        WalkState {
            queue: ids_of(self.queue@),
            seen: ids_of(self.seen@),
            result: ids_of(self.result@),
            fetching: match self.fetching {
                Some(resource) => Some(resource@),
                None => None,
            },
        }
    }
}

/// Puts copies of `items` on the end of `queue`, in order.
fn push_all(queue: &mut Vec<ResourceIdentifier>, items: &Vec<ResourceIdentifier>)
    ensures
        ids_of(final(queue)@) == ids_of(old(queue)@) + ids_of(items@),
{
    let mut i: usize = 0;
    while i < items.len()
        invariant
            i <= items.len(),
            ids_of(queue@) == ids_of(old(queue)@) + ids_of(items@).subrange(0, i as int),
        decreases items.len() - i,
    {
        let ghost before = queue@;
        queue.push(items[i].clone());
        assert(ids_of(queue@) =~= ids_of(before).push(items@[i as int]@));
        assert(ids_of(queue@) =~= ids_of(old(queue)@) + ids_of(items@).subrange(0, i + 1));
        i += 1;
    }
    assert(ids_of(items@).subrange(0, items.len() as int) =~= ids_of(items@));
}

impl Traversal {
    /// A traversal that starts at `resource`.
    pub fn start(resource: &ResourceIdentifier) -> (r: Self)
        ensures
            r@ == start_of(resource@),
    {
        let mut queue: Vec<ResourceIdentifier> = Vec::new();
        queue.push(resource.clone());
        let r = Traversal { queue, seen: Vec::new(), result: Vec::new(), fetching: None };
        assert(r@.queue =~= seq![resource@]);
        assert(r@.seen =~= Seq::empty());
        assert(r@.result =~= Seq::empty());
        r
    }
}

impl OwnershipResolver {
    /// A resolver at the start of its first epoch.
    pub fn new() -> (r: Self)
        ensures
            r@ == fresh(),
    {
        let r = OwnershipResolver { discovery: None, should_discover: true, owners: Vec::new() };
        assert(r@.owners =~= Seq::empty());
        r
    }

    /// Ends the epoch: forgets every cached owner and the discovery table,
    /// and allows discovery to run again.
    pub fn reset(&mut self)
        ensures
            final(self)@ == fresh(),
    {
        self.discovery = None;
        self.should_discover = true;
        self.owners = Vec::new();
        assert(self@.owners =~= Seq::empty());
    }

    /// Takes in the table of a discovery run. The table is stored, and no
    /// further run is allowed in this epoch, if a run was still allowed; else
    /// the table is dropped. Returns whether it was stored.
    pub fn discover(&mut self, apis: Vec<ApiEntry>) -> (stored: bool)
        ensures
            stored == old(self)@.should_discover,
            final(self)@ == discovered(old(self)@, apis_of(apis@)),
    {
        if self.should_discover {
            self.discovery = Some(apis);
            self.should_discover = false;
            true
        } else {
            false
        }
    }

    /// Resolves a type from the stored discovery table, or says whether a
    /// discovery run could still help.
    pub fn resolve_gvk(&self, gvk: &GroupVersionKind) -> (r: Lookup<ApiEntry, ResolveError>)
        ensures
            api_lookup_of(r) == gvk_resolution(self@, gvk@),
    {
        let found = match &self.discovery {
            Some(table) => lookup_api(table, gvk),
            None => None,
        };
        match found {
            Some(api) => Lookup::Ready(api),
            None => if self.should_discover {
                Lookup::NeedsDiscovery
            } else {
                Lookup::Failed(ResolveError::UnresolvableGvk(gvk.clone()))
            },
        }
    }

    /// Resolves the accessor through which objects of a type are read, given
    /// the namespace that the caller has for them.
    pub fn resolve_api(&self, gvk: &GroupVersionKind, namespace: &Option<String>) -> (r: Lookup<
        Accessor,
        ResolveError,
    >)
        ensures
            access_lookup_of(r) == api_resolution(self@, gvk@, text_of(*namespace)),
    {
        match self.resolve_gvk(gvk) {
            Lookup::Ready(api) => match api.scope {
                Scope::Cluster => Lookup::Ready(Accessor { api, namespace: None }),
                Scope::Namespaced => match namespace {
                    Some(ns) => Lookup::Ready(Accessor { api, namespace: Some(ns.clone()) }),
                    None => Lookup::Failed(ResolveError::MissingNamespace(gvk.clone())),
                },
            },
            Lookup::NeedsDiscovery => Lookup::NeedsDiscovery,
            Lookup::Failed(error) => Lookup::Failed(error),
        }
    }

    /// Says what has to happen to get hold of the object of `resource`.
    pub fn resolve_object(&self, resource: &ResourceIdentifier) -> (r: Action)
        ensures
            r@ == object_resolution(self@, resource@),
    {
        match self.resolve_api(&resource.gvk, &resource.namespace) {
            Lookup::Ready(accessor) => Action::Fetch(
                FetchRequest { accessor, resource: resource.clone() },
            ),
            Lookup::NeedsDiscovery => Action::Discover,
            Lookup::Failed(error) => Action::Fail(error),
        }
    }

    /// The direct owners that a fetched object declares.
    pub fn resolve_owner_references(object: &FetchedObject) -> (r: Vec<ResourceIdentifier>)
        ensures
            ids_of(r@) == owner_ids(object@),
    {
        let mut out: Vec<ResourceIdentifier> = Vec::new();
        let mut i: usize = 0;
        while i < object.owner_references.len()
            invariant
                i <= object.owner_references.len(),
                ids_of(out@) == owner_ids(object@).subrange(0, i as int),
            decreases object.owner_references.len() - i,
        {
            let ghost before = out@;
            out.push(
                ResourceIdentifier::from_owner_reference(
                    &object.owner_references[i],
                    copy_text(&object.namespace),
                ),
            );
            assert(ids_of(out@) =~= ids_of(before).push(out@[i as int]@));
            assert(ids_of(out@) =~= owner_ids(object@).subrange(0, i + 1));
            i += 1;
        }
        assert(owner_ids(object@).subrange(0, object.owner_references.len() as int) =~= owner_ids(
            object@,
        ));
        out
    }

    /// Where the cache holds the owners of `resource`.
    fn cached_at(&self, resource: &ResourceIdentifier) -> (r: Option<usize>)
        ensures
            match r {
                Some(at) => at < self.owners@.len() && find_owners(self@.owners, resource@) == Some(
                    ids_of(self.owners@[at as int].owners@),
                ),
                None => find_owners(self@.owners, resource@) is None,
            },
    {
        let mut i: usize = 0;
        while i < self.owners.len()
            invariant
                i <= self.owners.len(),
                find_owners(self@.owners, resource@) == find_owners_from(
                    self@.owners,
                    resource@,
                    i as int,
                ),
            decreases self.owners.len() - i,
        {
            if self.owners[i].resource.same_as(resource) {
                return Some(i);
            }
            i += 1;
        }
        None
    }

    /// Takes the traversal `walk` one step further: takes in what the caller
    /// reports and answers with what to do next.
    ///
    /// A traversal begins with `Traversal::start` and `Event::Next`. After
    /// `Action::Again` the caller reports `Event::Next`; after
    /// `Action::Discover` the table that discovery found; after
    /// `Action::Fetch` the object that was read; after a failed discovery or
    /// read, `Event::Failed`. `Action::Done` and `Action::Fail` end the
    /// traversal.
    pub fn resolve_top_level_owners(&mut self, walk: &mut Traversal, event: Event) -> (action:
        Action)
        ensures
            step(old(self)@, old(walk)@, event@) == (StepResult {
                resolver: final(self)@,
                walk: final(walk)@,
                action: action@,
            }),
    {
        match event {
            Event::Failed(message) => Action::Fail(ResolveError::Cluster(message)),
            Event::Discovered(apis) => {
                self.discover(apis);
                Action::Again
            },
            Event::Fetched(object) => {
                if walk.fetching.is_none() {
                    return Action::Fail(ResolveError::OutOfTurn);
                }
                let resource = walk.fetching.take().unwrap();
                let owners = Self::resolve_owner_references(&object);
                if owners.len() == 0 {
                    let ghost before = walk.result@;
                    walk.result.push(resource.clone());
                    assert(ids_of(walk.result@) =~= ids_of(before).push(resource@));
                }
                push_all(&mut walk.queue, &owners);
                let ghost cache = self@.owners;
                self.owners.push(OwnerEntry { resource, owners });
                assert(self@.owners =~= cache.push(
                    OwnerList { resource: resource@, owners: owner_ids(object@) },
                ));
                Action::Again
            },
            Event::Next => {
                if walk.fetching.is_some() {
                    return Action::Fail(ResolveError::OutOfTurn);
                }
                if walk.queue.len() == 0 {
                    return Action::Done(copy_ids(&walk.result));
                }
                let top = walk.queue.len() - 1;
                let ghost queue = walk.queue@;
                assert(ids_of(queue).last() == queue[top as int]@);
                assert(ids_of(queue.drop_last()) =~= ids_of(queue).drop_last());
                if holds(&walk.seen, &walk.queue[top]) {
                    walk.queue.pop();
                    return Action::Again;
                }
                match self.cached_at(&walk.queue[top]) {
                    Some(at) => {
                        let resource = walk.queue.pop().unwrap();
                        if self.owners[at].owners.len() == 0 {
                            let ghost before = walk.result@;
                            walk.result.push(resource.clone());
                            assert(ids_of(walk.result@) =~= ids_of(before).push(resource@));
                        }
                        push_all(&mut walk.queue, &self.owners[at].owners);
                        let ghost seen = walk.seen@;
                        walk.seen.push(resource);
                        assert(ids_of(walk.seen@) =~= ids_of(seen).push(resource@));
                        Action::Again
                    },
                    None => {
                        match self.resolve_object(&walk.queue[top]) {
                            Action::Fetch(request) => {
                                let resource = walk.queue.pop().unwrap();
                                let ghost seen = walk.seen@;
                                walk.seen.push(resource.clone());
                                assert(ids_of(walk.seen@) =~= ids_of(seen).push(resource@));
                                walk.fetching = Some(resource);
                                Action::Fetch(request)
                            },
                            other => other,
                        }
                    },
                }
            },
        }
    }
}

} // verus!
