//! A traversal that ends with a result ends with exactly the top-level owners
//! of the resource it started from.

use vstd::prelude::*;
use crate::guarantees::{
    answer, in_epoch, lemma_cache_push, lemma_cached_resource_is_not_fetched, lemma_push_keeps,
    lemma_result_is_a_set, request_for, run, walk_wf, Cluster,
};
use crate::identity::ResourceId;
use crate::resolver::{
    find_owners, object_resolution, owner_ids, start_of, step, ActionValue, EventValue, OwnerList,
    ResolverState, WalkState,
};

verus! {

/// The direct owners of `x` as a traversal comes to know them: those that the
/// cache holds for it, else those that its object in the cluster declares;
/// none if the cluster would not hand out the object.
pub open spec fn direct_owners(s: ResolverState, c: Cluster, x: ResourceId) -> Option<
    Seq<ResourceId>,
> {
    match find_owners(s.owners, x) {
        Some(owners) => Some(owners),
        None => match request_for(c, x) {
            Some(request) => if c.objects.contains_key(request) {
                Some(owner_ids(c.objects[request]))
            } else {
                None
            },
            None => None,
        },
    }
}

/// Whether `y` is a direct owner of `x`.
pub open spec fn owns(s: ResolverState, c: Cluster, y: ResourceId, x: ResourceId) -> bool {
    match direct_owners(s, c, x) {
        Some(owners) => owners.contains(y),
        None => false,
    }
}

/// Whether each resource on `path` but the first is a direct owner of the one
/// before it.
pub open spec fn is_owner_path(s: ResolverState, c: Cluster, path: Seq<ResourceId>) -> bool {
    &&& path.len() > 0
    &&& forall|i: int| 0 <= i < path.len() - 1 ==> owns(s, c, #[trigger] path[i + 1], path[i])
}

/// Whether `to` is `from` itself or an owner of it, direct or through other
/// owners.
pub open spec fn reaches(s: ResolverState, c: Cluster, from: ResourceId, to: ResourceId) -> bool {
    exists|path: Seq<ResourceId>|
        #[trigger] is_owner_path(s, c, path) && path[0] == from && path.last() == to
}

/// The top-level owners of `start`: `start` itself and its owners, direct or
/// through other owners, as far as they have no owners themselves.
pub open spec fn top_level_owners(s: ResolverState, c: Cluster, start: ResourceId) -> Set<
    ResourceId,
> {
    Set::new(
        |x: ResourceId|
            reaches(s, c, start, x) && direct_owners(s, c, x) == Some(Seq::<ResourceId>::empty()),
    )
}

/// Whether a traversal may still come to `x`: it was met or it waits on the
/// work list.
pub open spec fn known(w: WalkState, x: ResourceId) -> bool {
    w.seen.contains(x) || w.queue.contains(x)
}

/// Whether the traversal is done with `x`: it was met and its object is not
/// awaited.
pub open spec fn settled(w: WalkState, x: ResourceId) -> bool {
    w.seen.contains(x) && w.fetching != Some(x)
}

/// Whether the event is one that a caller who does as it is asked reports
/// next.
pub open spec fn in_turn(s: ResolverState, c: Cluster, w: WalkState, event: EventValue) -> bool {
    match event {
        EventValue::Next => w.fetching is None,
        EventValue::Discovered(apis) => w.fetching is None && apis == c.apis && s.should_discover,
        EventValue::Fetched(object) => match w.fetching {
            Some(x) => find_owners(s.owners, x) is None && direct_owners(s, c, x) == Some(
                owner_ids(object),
            ),
            None => false,
        },
        EventValue::Failed(_) => match w.fetching {
            Some(x) => direct_owners(s, c, x) is None,
            None => false,
        },
    }
}

/// What holds between the steps of a traversal from `start` that began with
/// the resolver in state `s0`: the owners of every resource are still those
/// of the beginning; whatever was met or waits is `start` or an owner of it;
/// `start` was met or waits; the owners of every resource that the traversal
/// is done with were met or wait, and are cached; and the result holds the
/// resources without owners that the traversal is done with.
pub open spec fn on_course(
    s0: ResolverState,
    c: Cluster,
    start: ResourceId,
    s: ResolverState,
    w: WalkState,
    event: EventValue,
) -> bool {
    &&& in_epoch(s, c)
    &&& walk_wf(w)
    &&& in_turn(s, c, w, event)
    &&& forall|x: ResourceId| #[trigger] direct_owners(s, c, x) == direct_owners(s0, c, x)
    &&& forall|x: ResourceId| #[trigger] known(w, x) ==> reaches(s0, c, start, x)
    &&& known(w, start)
    &&& forall|x: ResourceId, y: ResourceId|
        settled(w, x) && #[trigger] owns(s0, c, y, x) ==> known(w, y)
    &&& forall|x: ResourceId| settled(w, x) ==> #[trigger] direct_owners(s0, c, x) is Some
    &&& forall|x: ResourceId| settled(w, x) ==> #[trigger] find_owners(s.owners, x) is Some
    &&& forall|x: ResourceId|
        #![trigger w.result.contains(x)]
        w.result.contains(x) <==> settled(w, x) && direct_owners(s0, c, x) == Some(
            Seq::<ResourceId>::empty(),
        )
}

/// A resource reaches itself.
pub proof fn lemma_reaches_itself(s: ResolverState, c: Cluster, x: ResourceId)
    ensures
        reaches(s, c, x, x),
{
    let path = seq![x];
    assert(is_owner_path(s, c, path));
    assert(path[0] == x && path.last() == x);
}

/// Who reaches a resource reaches its direct owners.
pub proof fn lemma_reaches_owner(
    s: ResolverState,
    c: Cluster,
    from: ResourceId,
    x: ResourceId,
    y: ResourceId,
)
    requires
        reaches(s, c, from, x),
        owns(s, c, y, x),
    ensures
        reaches(s, c, from, y),
{
    let path = choose|path: Seq<ResourceId>|
        #[trigger] is_owner_path(s, c, path) && path[0] == from && path.last() == x;
    let longer = path.push(y);
    assert forall|i: int| 0 <= i < longer.len() - 1 implies owns(
        s,
        c,
        #[trigger] longer[i + 1],
        longer[i],
    ) by {
        if i < path.len() - 1 {
            assert(longer[i + 1] == path[i + 1]);
            assert(longer[i] == path[i]);
        } else {
            assert(longer[i] == x);
            assert(longer[i + 1] == y);
        }
    }
    assert(is_owner_path(s, c, longer));
    assert(longer[0] == from && longer.last() == y);
}

/// What a list holds is its last entry or held by the rest.
pub proof fn lemma_last_or_rest(list: Seq<ResourceId>, x: ResourceId)
    requires
        list.contains(x),
    ensures
        x == list.last() || list.drop_last().contains(x),
{
    let i = choose|i: int| 0 <= i < list.len() && list[i] == x;
    if i < list.len() - 1 {
        assert(list.drop_last()[i] == x);
    }
}

/// What the rest of a list holds, the list holds, and it holds its last
/// entry.
pub proof fn lemma_rest_within(list: Seq<ResourceId>)
    requires
        list.len() > 0,
    ensures
        list.contains(list.last()),
        forall|x: ResourceId| list.drop_last().contains(x) ==> list.contains(x),
{
    assert(list[list.len() - 1] == list.last());
    assert forall|x: ResourceId| list.drop_last().contains(x) implies list.contains(x) by {
        let i = choose|i: int| 0 <= i < list.drop_last().len() && list.drop_last()[i] == x;
        assert(list[i] == x);
    }
}

/// Two lists put together hold what either holds.
pub proof fn lemma_joined(a: Seq<ResourceId>, b: Seq<ResourceId>)
    ensures
        forall|x: ResourceId| (a + b).contains(x) <==> a.contains(x) || b.contains(x),
{
    assert forall|x: ResourceId| (a + b).contains(x) <==> a.contains(x) || b.contains(x) by {
        if a.contains(x) {
            let i = choose|i: int| 0 <= i < a.len() && a[i] == x;
            assert((a + b)[i] == x);
        }
        if b.contains(x) {
            let i = choose|i: int| 0 <= i < b.len() && b[i] == x;
            assert((a + b)[a.len() + i] == x);
        }
        if (a + b).contains(x) {
            let i = choose|i: int| 0 <= i < (a + b).len() && (a + b)[i] == x;
            if i < a.len() {
                assert(a[i] == x);
            } else {
                assert(b[i - a.len()] == x);
            }
        }
    }
}

/// At its start a traversal is on course.
pub proof fn lemma_start_is_on_course(s: ResolverState, c: Cluster, start: ResourceId)
    requires
        in_epoch(s, c),
    ensures
        on_course(s, c, start, s, start_of(start), EventValue::Next),
{
    let w = start_of(start);
    lemma_reaches_itself(s, c, start);
    assert(w.queue[0] == start);
    assert forall|x: ResourceId| #[trigger] known(w, x) implies reaches(s, c, start, x) by {
        assert(w.queue.contains(x));
        let i = choose|i: int| 0 <= i < w.queue.len() && w.queue[i] == x;
        assert(x == start);
    }
}

/// A step of a traversal that is on course, answered by a caller who does as
/// it is asked, leaves the traversal on course.
pub proof fn lemma_step_stays_on_course(
    s0: ResolverState,
    c: Cluster,
    start: ResourceId,
    s: ResolverState,
    w: WalkState,
    event: EventValue,
)
    requires
        on_course(s0, c, start, s, w, event),
        answer(c, step(s, w, event).action) is Some,
    ensures
        on_course(
            s0,
            c,
            start,
            step(s, w, event).resolver,
            step(s, w, event).walk,
            answer(c, step(s, w, event).action).unwrap(),
        ),
{
    let r = step(s, w, event);
    let s1 = r.resolver;
    let w1 = r.walk;
    let next = answer(c, r.action).unwrap();
    lemma_result_is_a_set(s, w, event);
    match event {
        EventValue::Failed(_) => {},
        EventValue::Discovered(_) => {
            assert forall|x: ResourceId| #[trigger]
                direct_owners(s1, c, x) == direct_owners(s0, c, x) by {
                assert(direct_owners(s, c, x) == direct_owners(s0, c, x));
            }
        },
        EventValue::Fetched(object) => {
            let x = w.fetching.unwrap();
            let owners = owner_ids(object);
            lemma_owners_stay(s0, c, s, x, owners);
            lemma_joined(w.queue, owners);
            if owners.len() == 0 {
                lemma_push_keeps(w.result, x);
            }
            lemma_settle(s0, c, start, w, w1, x, owners);
            assert forall|a: ResourceId| settled(w1, a) implies #[trigger] find_owners(
                s1.owners,
                a,
            ) is Some by {
                lemma_cache_push(s.owners, OwnerList { resource: x, owners }, a, 0);
                assert(s1.owners == s.owners.push(OwnerList { resource: x, owners }));
                if a != x {
                    assert(settled(w, a));
                    assert(find_owners(s.owners, a) is Some);
                }
            }
        },
        EventValue::Next => {
            if w.queue.len() > 0 {
                let x = w.queue.last();
                let rest = w.queue.drop_last();
                lemma_rest_within(w.queue);
                assert(known(w, x));
                if w.seen.contains(x) {
                    assert forall|y: ResourceId| #[trigger] known(w, y) implies known(w1, y) by {
                        if w.queue.contains(y) {
                            lemma_last_or_rest(w.queue, y);
                        }
                    }
                    assert forall|y: ResourceId| #[trigger] known(w1, y) implies known(w, y) by {}
                } else {
                    lemma_push_keeps(w.seen, x);
                    let seen = w.seen.push(x);
                    assert forall|y: ResourceId|
                        w.queue.contains(y) implies seen.contains(y) || rest.contains(y) by {
                        lemma_last_or_rest(w.queue, y);
                    }
                    match find_owners(s.owners, x) {
                        Some(owners) => {
                            assert(direct_owners(s, c, x) == Some(owners));
                            assert(direct_owners(s0, c, x) == Some(owners));
                            lemma_joined(rest, owners);
                            if owners.len() == 0 {
                                lemma_push_keeps(w.result, x);
                            }
                            assert forall|y: ResourceId|
                                #![trigger w.queue.contains(y)]
                                w.queue.contains(y) implies known(w1, y) by {
                                lemma_last_or_rest(w.queue, y);
                            }
                            lemma_settle(s0, c, start, w, w1, x, owners);
                            assert forall|y: ResourceId| #[trigger]
                                direct_owners(s1, c, y) == direct_owners(s0, c, y) by {
                                assert(direct_owners(s, c, y) == direct_owners(s0, c, y));
                            }
                        },
                        None => {
                            match object_resolution(s, x) {
                                ActionValue::Fetch(request) => {
                                    assert(request_for(c, x) == Some(request));
                                    assert forall|y: ResourceId| #[trigger]
                                        known(w1, y) implies reaches(s0, c, start, y) by {
                                        if y != x {
                                            assert(known(w, y));
                                        }
                                    }
                                    assert(known(w, start));
                                    assert(known(w1, start));
                                    assert forall|y: ResourceId| #[trigger]
                                        direct_owners(s1, c, y) == direct_owners(s0, c, y) by {
                                        assert(direct_owners(s, c, y) == direct_owners(s0, c, y));
                                    }
                                    assert forall|a: ResourceId, b: ResourceId|
                                        settled(w1, a) && #[trigger] owns(
                                            s0,
                                            c,
                                            b,
                                            a,
                                        ) implies known(w1, b) by {
                                        assert(settled(w, a));
                                        assert(known(w, b));
                                    }
                                    assert forall|a: ResourceId| settled(
                                        w1,
                                        a,
                                    ) implies #[trigger] direct_owners(s0, c, a) is Some by {
                                        assert(settled(w, a));
                                    }
                                    assert forall|a: ResourceId|
                                        #![trigger w1.result.contains(a)]
                                        w1.result.contains(a) <==> settled(w1, a) && direct_owners(
                                            s0,
                                            c,
                                            a,
                                        ) == Some(Seq::<ResourceId>::empty()) by {
                                        if a != x {
                                            assert(settled(w1, a) <==> settled(w, a));
                                        }
                                    }
                                    assert(direct_owners(s, c, x) == direct_owners(s0, c, x));
                                },
                                _ => {
                                    assert forall|y: ResourceId| #[trigger]
                                        direct_owners(s1, c, y) == direct_owners(s0, c, y) by {
                                        assert(direct_owners(s, c, y) == direct_owners(s0, c, y));
                                    }
                                },
                            }
                        },
                    }
                }
            }
        },
    }
}

/// Writing the owners of `x` into the cache, where they are the owners that
/// `x` had before, changes the owners of no resource.
proof fn lemma_owners_stay(
    s0: ResolverState,
    c: Cluster,
    s: ResolverState,
    x: ResourceId,
    owners: Seq<ResourceId>,
)
    requires
        forall|y: ResourceId| #[trigger] direct_owners(s, c, y) == direct_owners(s0, c, y),
        direct_owners(s, c, x) == Some(owners),
    ensures
        forall|y: ResourceId| #[trigger]
            direct_owners(
                ResolverState {
                    discovery: s.discovery,
                    should_discover: s.should_discover,
                    owners: s.owners.push(OwnerList { resource: x, owners }),
                },
                c,
                y,
            ) == direct_owners(s0, c, y),
{
    let s1 = ResolverState {
        discovery: s.discovery,
        should_discover: s.should_discover,
        owners: s.owners.push(OwnerList { resource: x, owners }),
    };
    assert forall|y: ResourceId| #[trigger]
        direct_owners(s1, c, y) == direct_owners(s0, c, y) by {
        lemma_cache_push(s.owners, OwnerList { resource: x, owners }, y, 0);
        assert(direct_owners(s, c, y) == direct_owners(s0, c, y));
    }
}

/// The traversal stays on course when it is done with `x`: `x`, whose owners
/// are `owners`, is among the met resources of the walk `w1` that follows
/// `w`, its owners are on the work list of `w1`, and it is in the result of
/// `w1` if it has no owners.
proof fn lemma_settle(
    s0: ResolverState,
    c: Cluster,
    start: ResourceId,
    w: WalkState,
    w1: WalkState,
    x: ResourceId,
    owners: Seq<ResourceId>,
)
    requires
        direct_owners(s0, c, x) == Some(owners),
        known(w, x),
        !settled(w, x),
        !w.result.contains(x),
        forall|y: ResourceId| w.seen.contains(y) && y != x ==> #[trigger] settled(w, y),
        w1.fetching is None,
        forall|y: ResourceId|
            #![trigger w1.seen.contains(y)]
            w1.seen.contains(y) <==> w.seen.contains(y) || y == x,
        forall|y: ResourceId|
            #![trigger w1.queue.contains(y)]
            w1.queue.contains(y) ==> w.queue.contains(y) || owners.contains(y),
        forall|y: ResourceId|
            #![trigger w.queue.contains(y)]
            w.queue.contains(y) ==> known(w1, y),
        forall|y: ResourceId| #![trigger owners.contains(y)] owners.contains(y) ==> known(w1, y),
        forall|y: ResourceId|
            #![trigger w1.result.contains(y)]
            w1.result.contains(y) <==> w.result.contains(y) || (y == x && owners.len() == 0),
        forall|y: ResourceId| #[trigger] known(w, y) ==> reaches(s0, c, start, y),
        known(w, start),
        forall|a: ResourceId, b: ResourceId|
            settled(w, a) && #[trigger] owns(s0, c, b, a) ==> known(w, b),
        forall|a: ResourceId| settled(w, a) ==> #[trigger] direct_owners(s0, c, a) is Some,
        forall|a: ResourceId|
            #![trigger w.result.contains(a)]
            w.result.contains(a) <==> settled(w, a) && direct_owners(s0, c, a) == Some(
                Seq::<ResourceId>::empty(),
            ),
    ensures
        forall|y: ResourceId| #[trigger] known(w1, y) ==> reaches(s0, c, start, y),
        known(w1, start),
        forall|a: ResourceId, b: ResourceId|
            settled(w1, a) && #[trigger] owns(s0, c, b, a) ==> known(w1, b),
        forall|a: ResourceId| settled(w1, a) ==> #[trigger] direct_owners(s0, c, a) is Some,
        forall|a: ResourceId|
            #![trigger w1.result.contains(a)]
            w1.result.contains(a) <==> settled(w1, a) && direct_owners(s0, c, a) == Some(
                Seq::<ResourceId>::empty(),
            ),
{
    assert forall|y: ResourceId| #[trigger] known(w1, y) implies reaches(s0, c, start, y) by {
        if y == x {
            assert(known(w, x));
        } else if w1.seen.contains(y) {
            assert(known(w, y));
        } else if w.queue.contains(y) {
            assert(known(w, y));
        } else {
            assert(owners.contains(y));
            assert(owns(s0, c, y, x));
            lemma_reaches_owner(s0, c, start, x, y);
        }
    }
    assert(known(w1, start)) by {
        if w.seen.contains(start) {
            assert(w1.seen.contains(start));
        } else {
            assert(w.queue.contains(start));
        }
    }
    assert forall|a: ResourceId, b: ResourceId|
        settled(w1, a) && #[trigger] owns(s0, c, b, a) implies known(w1, b) by {
        if a == x {
            assert(owners.contains(b));
        } else {
            assert(settled(w, a));
            assert(known(w, b));
            if w.seen.contains(b) {
                assert(w1.seen.contains(b));
            } else {
                assert(w.queue.contains(b));
            }
        }
    }
    assert forall|a: ResourceId| settled(w1, a) implies #[trigger] direct_owners(
        s0,
        c,
        a,
    ) is Some by {
        if a != x {
            assert(settled(w, a));
        }
    }
    assert forall|a: ResourceId|
        #![trigger w1.result.contains(a)]
        w1.result.contains(a) <==> settled(w1, a) && direct_owners(s0, c, a) == Some(
            Seq::<ResourceId>::empty(),
        ) by {
        if a != x {
            if w1.seen.contains(a) {
                assert(settled(w, a));
            }
            assert(w1.result.contains(a) <==> w.result.contains(a));
        } else {
            assert(w1.seen.contains(x));
            if owners.len() == 0 {
                assert(owners =~= Seq::<ResourceId>::empty());
            } else {
                assert(owners != Seq::<ResourceId>::empty());
            }
        }
    }
}

/// Once nothing waits and no object is awaited, every resource on a path of
/// owners from `start` was met.
proof fn lemma_path_was_met(
    s0: ResolverState,
    c: Cluster,
    start: ResourceId,
    w: WalkState,
    path: Seq<ResourceId>,
    i: int,
)
    requires
        w.queue.len() == 0,
        w.fetching is None,
        known(w, start),
        forall|a: ResourceId, b: ResourceId|
            settled(w, a) && #[trigger] owns(s0, c, b, a) ==> known(w, b),
        is_owner_path(s0, c, path),
        path[0] == start,
        0 <= i < path.len(),
    ensures
        w.seen.contains(path[i]),
    decreases i,
{
    if i > 0 {
        lemma_path_was_met(s0, c, start, w, path, i - 1);
        assert(settled(w, path[i - 1]));
        assert(owns(s0, c, path[i - 1 + 1], path[i - 1]));
        assert(known(w, path[i]));
    }
}

/// A traversal on course that hands out a result hands out the top-level
/// owners of its start, each once, and has cached the owners of every
/// resource that its start reaches. One that fails has come upon a resource
/// whose owners cannot be known.
pub proof fn lemma_result_on_course(
    s0: ResolverState,
    c: Cluster,
    start: ResourceId,
    s: ResolverState,
    w: WalkState,
    event: EventValue,
)
    requires
        on_course(s0, c, start, s, w, event),
    ensures
        match step(s, w, event).action {
            ActionValue::Done(owners) => {
                &&& owners.no_duplicates()
                &&& owners.to_set() == top_level_owners(s0, c, start)
                &&& forall|x: ResourceId| #[trigger]
                    reaches(s0, c, start, x) ==> find_owners(step(s, w, event).resolver.owners, x)
                        is Some && direct_owners(s0, c, x) is Some
            },
            ActionValue::Fail(_) => exists|x: ResourceId| #[trigger]
                reaches(s0, c, start, x) && direct_owners(s0, c, x) is None,
            _ => true,
        },
{
    if step(s, w, event).action is Fail {
        let x = match event {
            EventValue::Failed(_) => w.fetching.unwrap(),
            _ => w.queue.last(),
        };
        if event is Next {
            lemma_rest_within(w.queue);
        }
        assert(known(w, x));
        assert(direct_owners(s, c, x) == direct_owners(s0, c, x));
        assert(reaches(s0, c, start, x) && direct_owners(s0, c, x) is None);
    }
    if let ActionValue::Done(owners) = step(s, w, event).action {
        lemma_result_is_a_set(s, w, event);
        assert forall|x: ResourceId| #[trigger] reaches(s0, c, start, x) implies find_owners(
            s.owners,
            x,
        ) is Some && direct_owners(s0, c, x) is Some by {
            let path = choose|path: Seq<ResourceId>|
                #[trigger] is_owner_path(s0, c, path) && path[0] == start && path.last() == x;
            lemma_path_was_met(s0, c, start, w, path, path.len() - 1);
            assert(settled(w, x));
        }
        assert(event is Next && w.queue.len() == 0 && w.fetching is None);
        assert forall|x: ResourceId|
            owners.to_set().contains(x) <==> top_level_owners(s0, c, start).contains(x) by {
            if owners.contains(x) {
                assert(settled(w, x));
                assert(known(w, x));
            }
            if top_level_owners(s0, c, start).contains(x) {
                let path = choose|path: Seq<ResourceId>|
                    #[trigger] is_owner_path(s0, c, path) && path[0] == start && path.last() == x;
                lemma_path_was_met(s0, c, start, w, path, path.len() - 1);
                assert(settled(w, x));
            }
        }
        assert(owners.to_set() =~= top_level_owners(s0, c, start));
    }
}

/// A traversal on course, driven on by a caller who does as it is asked,
/// hands out nothing but the top-level owners of its start, and by then has
/// cached the owners of every resource that its start reaches; it fails only
/// where the owners of a resource that its start reaches cannot be known.
pub proof fn lemma_run_on_course(
    s0: ResolverState,
    c: Cluster,
    start: ResourceId,
    s: ResolverState,
    w: WalkState,
    event: EventValue,
    steps: nat,
)
    requires
        on_course(s0, c, start, s, w, event),
    ensures
        match run(s, w, event, c, steps).action {
            ActionValue::Done(owners) => {
                &&& owners.no_duplicates()
                &&& owners.to_set() == top_level_owners(s0, c, start)
                &&& forall|x: ResourceId| #[trigger]
                    reaches(s0, c, start, x) ==> find_owners(
                        run(s, w, event, c, steps).resolver.owners,
                        x,
                    ) is Some && direct_owners(s0, c, x) is Some
            },
            ActionValue::Fail(_) => exists|x: ResourceId| #[trigger]
                reaches(s0, c, start, x) && direct_owners(s0, c, x) is None,
            _ => true,
        },
    decreases steps,
{
    let r = step(s, w, event);
    lemma_result_on_course(s0, c, start, s, w, event);
    match answer(c, r.action) {
        Some(next) => {
            if steps > 0 {
                lemma_step_stays_on_course(s0, c, start, s, w, event);
                lemma_run_on_course(s0, c, start, r.resolver, r.walk, next, (steps - 1) as nat);
            }
        },
        None => {},
    }
}

/// Resolving a resource finds its top-level owners: a traversal from `start`
/// that is driven against a cluster, in whatever state of its epoch the
/// resolver is, and that ends with a result, ends with exactly the resources
/// that `start` reaches along owner references and that have no owners
/// themselves, each once; and then the owners of every resource that `start`
/// reaches could be known. A traversal that fails has come upon a resource
/// that `start` reaches and whose owners cannot be known: its type is
/// unknown to the cluster, it lacks the namespace that its type needs, or the
/// cluster does not hand out its object.
pub proof fn lemma_traversal_finds_the_top_level_owners(
    s: ResolverState,
    c: Cluster,
    start: ResourceId,
    steps: nat,
)
    requires
        in_epoch(s, c),
    ensures
        match run(s, start_of(start), EventValue::Next, c, steps).action {
            ActionValue::Done(owners) => {
                &&& owners.no_duplicates()
                &&& owners.to_set() == top_level_owners(s, c, start)
                &&& forall|x: ResourceId| #[trigger]
                    reaches(s, c, start, x) ==> direct_owners(s, c, x) is Some
            },
            ActionValue::Fail(_) => exists|x: ResourceId| #[trigger]
                reaches(s, c, start, x) && direct_owners(s, c, x) is None,
            _ => true,
        },
{
    lemma_start_is_on_course(s, c, start);

    lemma_run_on_course(s, c, start, s, start_of(start), EventValue::Next, steps);
}

/// Owner references without a root give no top-level owner: where every
/// resource that `start` reaches has an owner, as on a cycle or with a
/// resource that owns itself, a traversal that ends with a result ends with
/// the empty result.
pub proof fn lemma_rootless_resource_has_no_top_level_owner(
    s: ResolverState,
    c: Cluster,
    start: ResourceId,
    steps: nat,
)
    requires
        in_epoch(s, c),
        forall|x: ResourceId| #[trigger]
            reaches(s, c, start, x) ==> direct_owners(s, c, x) != Some(Seq::<ResourceId>::empty()),
    ensures
        match run(s, start_of(start), EventValue::Next, c, steps).action {
            ActionValue::Done(owners) => owners == Seq::<ResourceId>::empty(),
            _ => true,
        },
{
    lemma_traversal_finds_the_top_level_owners(s, c, start, steps);
    if let ActionValue::Done(owners) = run(s, start_of(start), EventValue::Next, c, steps).action {
        if owners.len() > 0 {
            assert(owners.to_set().contains(owners[0]));
            assert(top_level_owners(s, c, start).contains(owners[0]));
        }
        assert(owners =~= Seq::<ResourceId>::empty());
    }
}

/// A resolution fills the cache: once a traversal from `start` has ended with
/// a result, the owners of `start` and of every resource that it reaches
/// along owner references are cached, so that until the epoch ends no step of
/// any traversal asks for the object of one of them again.
pub proof fn lemma_resolution_fills_the_cache(
    s: ResolverState,
    c: Cluster,
    start: ResourceId,
    steps: nat,
    x: ResourceId,
    later: WalkState,
    event: EventValue,
)
    requires
        in_epoch(s, c),
        run(s, start_of(start), EventValue::Next, c, steps).action is Done,
        reaches(s, c, start, x),
    ensures
        find_owners(run(s, start_of(start), EventValue::Next, c, steps).resolver.owners, x) is Some,
        match step(
            run(s, start_of(start), EventValue::Next, c, steps).resolver,
            later,
            event,
        ).action {
            ActionValue::Fetch(request) => request.resource != x,
            _ => true,
        },
{
    lemma_start_is_on_course(s, c, start);
    lemma_run_on_course(s, c, start, s, start_of(start), EventValue::Next, steps);
    lemma_cached_resource_is_not_fetched(
        run(s, start_of(start), EventValue::Next, c, steps).resolver,
        later,
        event,
        x,
    );
}

} // verus!
