//! A traversal ends: in a cluster of finitely many objects, with owner lists
//! of bounded length, the number of steps of a traversal is bounded, whatever
//! cycles the owner references form.

use vstd::prelude::*;
use crate::guarantees::{answer, in_epoch, lemma_push_keeps, run, Cluster};
use crate::identity::ResourceId;
use crate::resolver::{
    find_owners, object_resolution, owner_ids, start_of, step, ActionValue, EventValue,
    ResolverState, WalkState,
};
use crate::top_level::{
    direct_owners, lemma_start_is_on_course, lemma_step_stays_on_course,
    lemma_traversal_finds_the_top_level_owners, on_course, reaches, top_level_owners,
};

verus! {

/// How many resources of `universe` were not met yet.
pub open spec fn unmet(universe: Seq<ResourceId>, seen: Seq<ResourceId>) -> nat
    decreases universe.len(),
{
    if universe.len() == 0 {
        0
    } else {
        let rest = unmet(universe.drop_last(), seen);
        if seen.contains(universe.last()) {
            rest
        } else {
            rest + 1
        }
    }
}

/// Whether `universe` lists every resource whose owners can be known, and
/// none of them has more than `bound` owners.
pub open spec fn bounded(s: ResolverState, c: Cluster, universe: Seq<ResourceId>, bound: nat) -> bool {
    forall|x: ResourceId|
        match #[trigger] direct_owners(s, c, x) {
            Some(owners) => universe.contains(x) && owners.len() <= bound,
            None => true,
        }
}

/// What the event that is about to be reported adds to the steps still to
/// come.
pub open spec fn event_cost(event: EventValue, bound: nat) -> nat {
    match event {
        EventValue::Next => 2,
        EventValue::Discovered(_) => 1,
        EventValue::Fetched(_) => 3 * bound + 3,
        EventValue::Failed(_) => 0,
    }
}

/// A bound on the steps that a traversal still takes: it falls with every
/// step.
pub open spec fn steps_left(
    s: ResolverState,
    w: WalkState,
    event: EventValue,
    universe: Seq<ResourceId>,
    bound: nat,
) -> nat {
    (3 * bound + 3) * unmet(universe, w.seen) + 3 * w.queue.len() + event_cost(event, bound) + if s.should_discover {
        2nat
    } else {
        0nat
    }
}

/// Meeting a resource leaves no more resources unmet than before, and fewer
/// if it is one of the universe that was not met before.
pub proof fn lemma_meeting(universe: Seq<ResourceId>, seen: Seq<ResourceId>, x: ResourceId)
    requires
        seen.no_duplicates(),
        !seen.contains(x),
    ensures
        unmet(universe, seen.push(x)) <= unmet(universe, seen),
        universe.contains(x) ==> unmet(universe, seen.push(x)) < unmet(universe, seen),
    decreases universe.len(),
{
    lemma_push_keeps(seen, x);
    if universe.len() > 0 {
        let rest = universe.drop_last();
        lemma_meeting(rest, seen, x);
        if universe.contains(x) && universe.last() != x {
            let i = choose|i: int| 0 <= i < universe.len() && universe[i] == x;
            assert(rest[i] == x);
        }
    }
}

/// Every step of a traversal on course that does not end it brings the end
/// nearer.
pub proof fn lemma_step_nears_the_end(
    s0: ResolverState,
    c: Cluster,
    start: ResourceId,
    s: ResolverState,
    w: WalkState,
    event: EventValue,
    universe: Seq<ResourceId>,
    bound: nat,
)
    requires
        on_course(s0, c, start, s, w, event),
        bounded(s0, c, universe, bound),
        answer(c, step(s, w, event).action) is Some,
    ensures
        steps_left(
            step(s, w, event).resolver,
            step(s, w, event).walk,
            answer(c, step(s, w, event).action).unwrap(),
            universe,
            bound,
        ) < steps_left(s, w, event, universe, bound),
{
    let r = step(s, w, event);
    let w1 = r.walk;
    let k = 3 * bound + 3;
    let u = unmet(universe, w.seen);
    let u1 = unmet(universe, w1.seen);
    match event {
        EventValue::Failed(_) => {},
        EventValue::Discovered(_) => {},
        EventValue::Fetched(object) => {
            let x = w.fetching.unwrap();
            assert(direct_owners(s, c, x) == direct_owners(s0, c, x));
            assert(owner_ids(object).len() <= bound);
        },
        EventValue::Next => {
            if w.queue.len() > 0 {
                let x = w.queue.last();
                if !w.seen.contains(x) {
                    lemma_meeting(universe, w.seen, x);
                    match find_owners(s.owners, x) {
                        Some(owners) => {
                            assert(direct_owners(s, c, x) == direct_owners(s0, c, x));
                            assert(universe.contains(x) && owners.len() <= bound);
                            assert(u1 + 1 <= u);
                            assert(k * u1 + k <= k * u) by (nonlinear_arith)
                                requires
                                    u1 + 1 <= u,
                                    k >= 0,
                            ;
                        },
                        None => {
                            match object_resolution(s, x) {
                                ActionValue::Fetch(request) => {
                                    assert(k * u1 <= k * u) by (nonlinear_arith)
                                        requires
                                            u1 <= u,
                                            k >= 0,
                                    ;
                                    if c.objects.contains_key(request) {
                                        assert(direct_owners(s, c, x) == direct_owners(s0, c, x));
                                        assert(direct_owners(s, c, x) is Some);
                                        assert(universe.contains(x));
                                        assert(u1 + 1 <= u);
                                        assert(k * u1 + k <= k * u) by (nonlinear_arith)
                                            requires
                                                u1 + 1 <= u,
                                                k >= 0,
                                        ;
                                    }
                                },
                                _ => {},
                            }
                        },
                    }
                }
            }
        },
    }
}

/// A traversal on course ends within the steps that are left.
pub proof fn lemma_run_ends(
    s0: ResolverState,
    c: Cluster,
    start: ResourceId,
    s: ResolverState,
    w: WalkState,
    event: EventValue,
    universe: Seq<ResourceId>,
    bound: nat,
    steps: nat,
)
    requires
        on_course(s0, c, start, s, w, event),
        bounded(s0, c, universe, bound),
        steps >= steps_left(s, w, event, universe, bound),
    ensures
        run(s, w, event, c, steps).action is Done || run(s, w, event, c, steps).action is Fail,
    decreases steps,
{
    let r = step(s, w, event);
    match answer(c, r.action) {
        Some(next) => {
            lemma_step_nears_the_end(s0, c, start, s, w, event, universe, bound);
            lemma_step_stays_on_course(s0, c, start, s, w, event);
            lemma_run_ends(s0, c, start, r.resolver, r.walk, next, universe, bound, (steps - 1) as nat);
        },
        None => {},
    }
}

/// Resolving a resource ends, whatever the owner references say: in a
/// cluster in which the resources whose owners can be known are those of a
/// list `universe`, none with more than `bound` owners, a traversal from any
/// resource, driven by a caller who does as it is asked, ends with a result
/// or an error within `(3 * bound + 3) * universe.len() + 7` steps, cycle or
/// no cycle.
pub proof fn lemma_traversal_ends(
    s: ResolverState,
    c: Cluster,
    start: ResourceId,
    universe: Seq<ResourceId>,
    bound: nat,
    steps: nat,
)
    requires
        in_epoch(s, c),
        bounded(s, c, universe, bound),
        steps >= (3 * bound + 3) * universe.len() + 7,
    ensures
        run(s, start_of(start), EventValue::Next, c, steps).action is Done || run(
            s,
            start_of(start),
            EventValue::Next,
            c,
            steps,
        ).action is Fail,
{
    lemma_start_is_on_course(s, c, start);
    lemma_unmet_at_most(universe, start_of(start).seen);
    let k = 3 * bound + 3;
    let u = unmet(universe, start_of(start).seen);
    assert(k * u <= k * universe.len()) by (nonlinear_arith)
        requires
            u <= universe.len(),
            k >= 0,
    ;
    lemma_run_ends(s, c, start, s, start_of(start), EventValue::Next, universe, bound, steps);
}

/// Success is owed where every owner can be known: in a cluster as in
/// `lemma_traversal_ends`, a traversal from `start` that is given the steps
/// it needs ends with the top-level owners of `start` if the owners of every
/// resource that `start` reaches can be known, and with an error if not.
pub proof fn lemma_traversal_succeeds_where_owners_are_known(
    s: ResolverState,
    c: Cluster,
    start: ResourceId,
    universe: Seq<ResourceId>,
    bound: nat,
    steps: nat,
)
    requires
        in_epoch(s, c),
        bounded(s, c, universe, bound),
        steps >= (3 * bound + 3) * universe.len() + 7,
    ensures
        (forall|x: ResourceId| #[trigger]
            reaches(s, c, start, x) ==> direct_owners(s, c, x) is Some) <==> run(
            s,
            start_of(start),
            EventValue::Next,
            c,
            steps,
        ).action is Done,
        run(s, start_of(start), EventValue::Next, c, steps).action is Done ==> run(
            s,
            start_of(start),
            EventValue::Next,
            c,
            steps,
        ).action->Done_0.to_set() == top_level_owners(s, c, start),
{
    lemma_traversal_ends(s, c, start, universe, bound, steps);
    lemma_traversal_finds_the_top_level_owners(s, c, start, steps);
}

/// No more resources are unmet than the universe lists.
pub proof fn lemma_unmet_at_most(universe: Seq<ResourceId>, seen: Seq<ResourceId>)
    ensures
        unmet(universe, seen) <= universe.len(),
    decreases universe.len(),
{
    if universe.len() > 0 {
        lemma_unmet_at_most(universe.drop_last(), seen);
    }
}

} // verus!
