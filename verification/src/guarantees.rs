//! What holds of every resolver and of every traversal, whatever the cluster
//! answers.

use vstd::prelude::*;
use crate::discovery::{find_api, Api, Scope};
use crate::identity::ResourceId;
use crate::resolver::{
    api_resolution, discovered, find_owners, find_owners_from, fresh, gvk_resolution,
    object_resolution, owner_ids, start_of, step, Access, ActionValue, EventValue, Failure, Lookup, Object,
    OwnerList, Request, ResolverState, StepResult, WalkState,
};

verus! {

/// A cluster as a traversal sees it: the types that discovery finds, the
/// objects that it serves, and the message with which it refuses a read.
pub struct Cluster {
    pub apis: Seq<Api>,
    pub objects: Map<Request, Object>,
    pub refusal: Seq<char>,
}

/// One call of the resolver: the traversal it is made for and the event.
pub struct Call {
    pub walk: WalkState,
    pub event: EventValue,
}

/// What a caller that does as it is asked reports after `action`, against
/// `cluster`; nothing once the traversal is over.
pub open spec fn answer(cluster: Cluster, action: ActionValue) -> Option<EventValue> {
    match action {
        ActionValue::Again => Some(EventValue::Next),
        ActionValue::Discover => Some(EventValue::Discovered(cluster.apis)),
        ActionValue::Fetch(request) => if cluster.objects.contains_key(request) {
            Some(EventValue::Fetched(cluster.objects[request]))
        } else {
            Some(EventValue::Failed(cluster.refusal))
        },
        ActionValue::Done(_) => None,
        ActionValue::Fail(_) => None,
    }
}

/// The outcome of a traversal that is driven against `cluster` from `event`
/// on, for at most `steps` further steps.
pub open spec fn run(
    s: ResolverState,
    w: WalkState,
    event: EventValue,
    cluster: Cluster,
    steps: nat,
) -> StepResult
    decreases steps,
{
    let r = step(s, w, event);
    match answer(cluster, r.action) {
        Some(next) => if steps > 0 {
            run(r.resolver, r.walk, next, cluster, (steps - 1) as nat)
        } else {
            r
        },
        None => r,
    }
}

/// The resolver's discovery state belongs to an epoch in `cluster`: a table
/// is stored exactly when no run is allowed any more, and it is the
/// cluster's.
pub open spec fn in_epoch(s: ResolverState, cluster: Cluster) -> bool {
    &&& s.should_discover == (s.discovery is None)
    &&& s.discovery is Some ==> s.discovery == Some(cluster.apis)
}

/// The request by which `resource` is fetched from `cluster`, if its type is
/// known there and its namespace is given where the type needs one.
pub open spec fn request_for(cluster: Cluster, resource: ResourceId) -> Option<Request> {
    match find_api(cluster.apis, resource.gvk) {
        Some(api) => match (api.scope, resource.namespace) {
            (Scope::Cluster, _) => Some(
                Request { access: Access { api, namespace: None }, resource },
            ),
            (Scope::Namespaced, Some(ns)) => Some(
                Request { access: Access { api, namespace: Some(ns) }, resource },
            ),
            (Scope::Namespaced, None) => None,
        },
        None => None,
    }
}

/// The resolver after a sequence of calls.
pub open spec fn after(s: ResolverState, calls: Seq<Call>) -> ResolverState
    decreases calls.len(),
{
    if calls.len() == 0 {
        s
    } else {
        after(step(s, calls[0].walk, calls[0].event).resolver, calls.skip(1))
    }
}

/// How many discovery tables the resolver stores in a sequence of calls.
pub open spec fn stored_tables(s: ResolverState, calls: Seq<Call>) -> nat
    decreases calls.len(),
{
    if calls.len() == 0 {
        0
    } else {
        let next = step(s, calls[0].walk, calls[0].event).resolver;
        let stored: nat = if s.should_discover && !next.should_discover {
            1
        } else {
            0
        };
        stored + stored_tables(next, calls.skip(1))
    }
}

/// How many times the resolver asks for discovery in a sequence of calls in
/// which each such request is answered with a table before the next call.
pub open spec fn discovery_requests(s: ResolverState, calls: Seq<Call>, table: Seq<Api>) -> nat
    decreases calls.len(),
{
    if calls.len() == 0 {
        0
    } else {
        let r = step(s, calls[0].walk, calls[0].event);
        if r.action is Discover {
            1 + discovery_requests(discovered(r.resolver, table), calls.skip(1), table)
        } else {
            discovery_requests(r.resolver, calls.skip(1), table)
        }
    }
}

/// The traversal's sets are sets: no resource was met twice, none is twice in
/// the result, every top-level owner found was met, and the resource whose
/// object is awaited was met and is not in the result.
pub open spec fn walk_wf(w: WalkState) -> bool {
    &&& w.seen.no_duplicates()
    &&& w.result.no_duplicates()
    &&& forall|x: ResourceId| w.result.contains(x) ==> w.seen.contains(x)
    &&& match w.fetching {
        Some(resource) => w.seen.contains(resource) && !w.result.contains(resource),
        None => true,
    }
}

/// Writing an entry at the end of the cache leaves every owner list that the
/// cache already held as it is, and adds the entry's list for its resource if
/// the cache held none for it.
pub proof fn lemma_cache_push(cache: Seq<OwnerList>, entry: OwnerList, x: ResourceId, from: int)
    requires
        0 <= from <= cache.len(),
    ensures
        find_owners_from(cache.push(entry), x, from) == match find_owners_from(cache, x, from) {
            Some(owners) => Some(owners),
            None => if entry.resource == x {
                Some(entry.owners)
            } else {
                None
            },
        },
    decreases cache.len() - from,
{
    if from < cache.len() {
        assert(cache.push(entry)[from] == cache[from]);
        if cache[from].resource != x {
            lemma_cache_push(cache, entry, x, from + 1);
        }
    } else {
        assert(cache.push(entry)[from] == entry);
        assert(find_owners_from(cache.push(entry), x, from + 1) is None);
    }
}

/// A resource without owners is its own and only top-level owner: resolving
/// it in a cluster that knows its type and serves its object, an object with
/// an empty owner list, ends with exactly that resource, whether its owners
/// were cached or not and whether discovery has run or not.
pub proof fn lemma_ownerless_resource_is_its_own_top_level_owner(
    s: ResolverState,
    cluster: Cluster,
    resource: ResourceId,
    steps: nat,
)
    requires
        in_epoch(s, cluster),
        steps >= 4,
        match find_owners(s.owners, resource) {
            Some(owners) => owners.len() == 0,
            None => match request_for(cluster, resource) {
                Some(request) => cluster.objects.contains_key(request)
                    && cluster.objects[request].owner_references.len() == 0,
                None => false,
            },
        },
    ensures
        run(s, start_of(resource), EventValue::Next, cluster, steps).action == ActionValue::Done(
            seq![resource],
        ),
{
    reveal_with_fuel(run, 6);
    let w = start_of(resource);
    assert(w.queue.last() == resource);
    assert(w.queue.drop_last() =~= Seq::<ResourceId>::empty());
    assert(!w.seen.contains(resource));
    match find_owners(s.owners, resource) {
        Some(owners) => {
            let r1 = step(s, w, EventValue::Next);
            assert(r1.walk.queue =~= Seq::<ResourceId>::empty());
            assert(r1.walk.result =~= seq![resource]);
        },
        None => {
            let request = request_for(cluster, resource).unwrap();
            let object = cluster.objects[request];
            let s1 = if s.should_discover {
                discovered(s, cluster.apis)
            } else {
                s
            };
            assert(s1.discovery == Some(cluster.apis));
            assert(s1.owners == s.owners);
            assert(object_resolution(s1, resource) == ActionValue::Fetch(request));
            let r2 = step(s1, w, EventValue::Next);
            assert(r2.action == ActionValue::Fetch(request));
            let r3 = step(r2.resolver, r2.walk, EventValue::Fetched(object));
            assert(r3.walk.queue =~= Seq::<ResourceId>::empty());
            assert(r3.walk.result =~= seq![resource]);
            let r4 = step(r3.resolver, r3.walk, EventValue::Next);
            assert(r4.action == ActionValue::Done(seq![resource]));
            if s.should_discover {
                assert(object_resolution(s, resource) == ActionValue::Discover);
                let r0 = step(s, w, EventValue::Next);
                assert(r0.action == ActionValue::Discover);
                assert(r0.walk == w);
                let r1 = step(s, w, EventValue::Discovered(cluster.apis));
                assert(r1.resolver == s1);
            }
        },
    }
}

/// Within an epoch the owner cache is authoritative: a step never asks for
/// the object of a resource whose owners are cached, and it leaves the
/// cached owners as they are.
pub proof fn lemma_cached_resource_is_not_fetched(
    s: ResolverState,
    w: WalkState,
    event: EventValue,
    x: ResourceId,
)
    requires
        find_owners(s.owners, x) is Some,
    ensures
        match step(s, w, event).action {
            ActionValue::Fetch(request) => request.resource != x,
            _ => true,
        },
        find_owners(step(s, w, event).resolver.owners, x) == find_owners(s.owners, x),
{
    match (event, w.fetching) {
        (EventValue::Fetched(object), Some(resource)) => {
            lemma_cache_push(
                s.owners,
                OwnerList { resource, owners: owner_ids(object) },
                x,
                0,
            );
        },
        _ => {},
    }
}

/// Once an object was fetched and reported, the owners of its resource are
/// cached: those that the object declares, unless the cache already held
/// owners for the resource.
pub proof fn lemma_fetched_resource_is_cached(
    s: ResolverState,
    w: WalkState,
    object: Object,
    x: ResourceId,
)
    requires
        w.fetching == Some(x),
    ensures
        find_owners(step(s, w, EventValue::Fetched(object)).resolver.owners, x) == match find_owners(
            s.owners,
            x,
        ) {
            Some(owners) => Some(owners),
            None => Some(owner_ids(object)),
        },
{
    lemma_cache_push(
        s.owners,
        OwnerList { resource: x, owners: owner_ids(object) },
        x,
        0,
    );
}

/// After a reset nothing of the epoch before is used: the next resource that
/// a traversal takes up makes the resolver ask for discovery, and once the
/// table is in and knows the resource's type, for the resource's object.
pub proof fn lemma_new_epoch_discovers_and_fetches(w: WalkState, cluster: Cluster)
    requires
        w.fetching is None,
        w.queue.len() > 0,
        !w.seen.contains(w.queue.last()),
        request_for(cluster, w.queue.last()) is Some,
    ensures
        step(fresh(), w, EventValue::Next).action == ActionValue::Discover,
        step(fresh(), w, EventValue::Next).walk == w,
        step(discovered(fresh(), cluster.apis), w, EventValue::Next).action == ActionValue::Fetch(
            request_for(cluster, w.queue.last()).unwrap(),
        ),
{
}

/// A namespaced type asked for without a namespace is an error, and no
/// object is asked for: the step that takes up such a resource fails with
/// `MissingNamespace` and changes nothing.
pub proof fn lemma_namespaced_type_needs_namespace(s: ResolverState, w: WalkState, api: Api)
    requires
        w.fetching is None,
        w.queue.len() > 0,
        !w.seen.contains(w.queue.last()),
        find_owners(s.owners, w.queue.last()) is None,
        w.queue.last().namespace is None,
        gvk_resolution(s, w.queue.last().gvk) == Lookup::<Api, Failure>::Ready(api),
        api.scope == Scope::Namespaced,
    ensures
        api_resolution(s, w.queue.last().gvk, None) == Lookup::<Access, Failure>::Failed(
            Failure::MissingNamespace(w.queue.last().gvk),
        ),
        step(s, w, EventValue::Next) == (StepResult {
            resolver: s,
            walk: w,
            action: ActionValue::Fail(Failure::MissingNamespace(w.queue.last().gvk)),
        }),
{
}

/// Discovery is asked for only while it is allowed, a table that comes in
/// ends the allowance, and no step brings it back.
pub proof fn lemma_discovery_allowance(s: ResolverState, w: WalkState, event: EventValue)
    ensures
        step(s, w, event).action is Discover ==> s.should_discover,
        event is Discovered ==> !step(s, w, event).resolver.should_discover,
        !s.should_discover ==> !step(s, w, event).resolver.should_discover,
        !s.should_discover ==> step(s, w, event).resolver.discovery == s.discovery,
{
}

/// Discovery runs at most once per epoch: over any sequence of calls, for
/// whatever traversals and with whatever events, the resolver stores at most
/// one table, and none if discovery was not allowed at the start.
pub proof fn lemma_at_most_one_table_per_epoch(s: ResolverState, calls: Seq<Call>)
    ensures
        stored_tables(s, calls) <= 1,
        !s.should_discover ==> stored_tables(s, calls) == 0,
        !s.should_discover ==> !after(s, calls).should_discover,
    decreases calls.len(),
{
    if calls.len() > 0 {
        lemma_discovery_allowance(s, calls[0].walk, calls[0].event);
        lemma_at_most_one_table_per_epoch(
            step(s, calls[0].walk, calls[0].event).resolver,
            calls.skip(1),
        );
    }
}

/// Discovery is asked for at most once per epoch: over any sequence of calls
/// in which each request for discovery is answered with a table, however
/// many types stay unknown, the resolver asks at most once, and never if
/// discovery was not allowed at the start.
pub proof fn lemma_at_most_one_discovery_per_epoch(
    s: ResolverState,
    calls: Seq<Call>,
    table: Seq<Api>,
)
    ensures
        discovery_requests(s, calls, table) <= 1,
        !s.should_discover ==> discovery_requests(s, calls, table) == 0,
    decreases calls.len(),
{
    if calls.len() > 0 {
        let r = step(s, calls[0].walk, calls[0].event);
        lemma_discovery_allowance(s, calls[0].walk, calls[0].event);
        if r.action is Discover {
            lemma_at_most_one_discovery_per_epoch(
                discovered(r.resolver, table),
                calls.skip(1),
                table,
            );
        } else {
            lemma_at_most_one_discovery_per_epoch(r.resolver, calls.skip(1), table);
        }
    }
}

/// The result of a traversal is a set: a traversal starts well-formed, every
/// step keeps it so, and what `Done` hands out is the result so far, in which
/// nothing occurs twice.
pub proof fn lemma_result_is_a_set(s: ResolverState, w: WalkState, event: EventValue)
    requires
        walk_wf(w),
    ensures
        walk_wf(step(s, w, event).walk),
        match step(s, w, event).action {
            ActionValue::Done(owners) => owners == w.result && owners.no_duplicates(),
            _ => true,
        },
{
    let r = step(s, w, event);
    match event {
        EventValue::Fetched(object) => {
            if let Some(resource) = w.fetching {
                if owner_ids(object).len() == 0 {
                    lemma_push_keeps(w.result, resource);
                    assert forall|x: ResourceId| r.walk.result.contains(x) implies w.seen.contains(
                        x,
                    ) by {
                        if x != resource {
                            assert(w.result.contains(x));
                        }
                    }
                }
            }
        },
        EventValue::Next => {
            if w.fetching is None && w.queue.len() > 0 {
                let resource = w.queue.last();
                if !w.seen.contains(resource) {
                    lemma_push_keeps(w.seen, resource);
                    lemma_push_keeps(w.result, resource);
                    assert forall|x: ResourceId| r.walk.result.contains(x) implies w.seen.push(
                        resource,
                    ).contains(x) by {
                        if x != resource {
                            assert(w.result.contains(x));
                        }
                    }
                }
            }
        },
        _ => {},
    }
}

/// The cycle guard: a step that takes up a resource and asks to be called
/// again has either dropped a resource that was met before, and shortened the
/// work list by it, or has met a resource for the first time. So no resource
/// is dealt with twice in one traversal, whatever the owner references say.
pub proof fn lemma_cycle_guard(s: ResolverState, w: WalkState)
    requires
        step(s, w, EventValue::Next).action is Again,
    ensures
        w.queue.len() > 0,
        step(s, w, EventValue::Next).resolver == s,
        w.seen.contains(w.queue.last()) ==> step(s, w, EventValue::Next).walk == (WalkState {
            queue: w.queue.drop_last(),
            ..w
        }),
        !w.seen.contains(w.queue.last()) ==> step(s, w, EventValue::Next).walk.seen == w.seen.push(
            w.queue.last(),
        ),
{
}

/// A traversal starts well-formed.
pub proof fn lemma_start_is_well_formed(resource: ResourceId)
    ensures
        walk_wf(start_of(resource)),
{
}

/// A list without `x` and without repetition, with `x` put at its end, is
/// without repetition and holds what it held and `x`.
pub proof fn lemma_push_keeps(list: Seq<ResourceId>, x: ResourceId)
    requires
        list.no_duplicates(),
        !list.contains(x),
    ensures
        list.push(x).no_duplicates(),
        list.push(x).contains(x),
        forall|y: ResourceId| list.push(x).contains(y) <==> (list.contains(y) || y == x),
{
    let pushed = list.push(x);
    assert(pushed[list.len() as int] == x);
    assert forall|y: ResourceId| pushed.contains(y) <==> (list.contains(y) || y == x) by {
        if list.contains(y) {
            let i = choose|i: int| 0 <= i < list.len() && list[i] == y;
            assert(pushed[i] == y);
        }
        if pushed.contains(y) {
            let i = choose|i: int| 0 <= i < pushed.len() && pushed[i] == y;
            if i < list.len() {
                assert(list[i] == y);
            }
        }
    }
    assert forall|i: int, j: int| 0 <= i < pushed.len() && 0 <= j < pushed.len() && i != j implies pushed[i] != pushed[j] by {
        if i < list.len() && j < list.len() {
        } else if i < list.len() {
            assert(list[i] == pushed[i]);
        } else {
            assert(list[j] == pushed[j]);
        }
    }
}

} // verus!
