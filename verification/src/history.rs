//! The life of a cache as a sequence of lookups.
//!
//! A lookup is a key together with what its factory would return if it were
//! called. Replaying lookups one after the other shows what holds of a cache
//! over its whole life: entries only ever come, and no key has a plan built
//! for it more than once.

use crate::cache::after_lookup;
use crate::key::ShapePlanKey;
use vstd::prelude::*;

verus! {

/// One lookup: the key, and what the factory returns when called.
pub struct Lookup<E> {
    /// The key that is looked up.
    pub key: ShapePlanKey,
    /// What the factory would build.
    pub built: Result<rustybuzz::ShapePlan, E>,
}

/// The plans of a cache after the lookups, first to last.
pub open spec fn replay<E>(
    plans: Map<ShapePlanKey, rustybuzz::ShapePlan>,
    lookups: Seq<Lookup<E>>,
) -> Map<ShapePlanKey, rustybuzz::ShapePlan>
    decreases lookups.len(),
{
    if lookups.len() == 0 {
        plans
    } else {
        after_lookup(replay(plans, lookups.drop_last()), lookups.last().key, lookups.last().built)
    }
}

/// The lookup at `at` calls its factory: its key has no plan when its turn
/// comes.
pub open spec fn calls_factory<E>(
    plans: Map<ShapePlanKey, rustybuzz::ShapePlan>,
    lookups: Seq<Lookup<E>>,
    at: int,
) -> bool {
    !replay(plans, lookups.take(at)).contains_key(lookups[at].key)
}

/// The lookup at `at` gets a plan built: it calls its factory, and the
/// factory succeeds.
pub open spec fn constructs<E>(
    plans: Map<ShapePlanKey, rustybuzz::ShapePlan>,
    lookups: Seq<Lookup<E>>,
    at: int,
) -> bool {
    calls_factory(plans, lookups, at) && lookups[at].built is Ok
}

/// Entries only ever come: what a cache holds it still holds, with the same
/// plan, after any lookups.
pub proof fn lemma_entries_stay<E>(
    plans: Map<ShapePlanKey, rustybuzz::ShapePlan>,
    lookups: Seq<Lookup<E>>,
    key: ShapePlanKey,
)
    requires
        plans.contains_key(key),
    ensures
        replay(plans, lookups).contains_key(key),
        replay(plans, lookups)[key] == plans[key],
    decreases lookups.len(),
{
    if lookups.len() > 0 {
        lemma_entries_stay(plans, lookups.drop_last(), key);
    }
}

/// A replay can be cut in two: the lookups after `at` go on from what the
/// lookups before `at` left.
pub proof fn lemma_replay_in_two<E>(
    plans: Map<ShapePlanKey, rustybuzz::ShapePlan>,
    lookups: Seq<Lookup<E>>,
    at: int,
)
    requires
        0 <= at <= lookups.len(),
    ensures
        replay(plans, lookups) == replay(replay(plans, lookups.take(at)), lookups.skip(at)),
    decreases lookups.len() - at,
{
    if at == lookups.len() {
        assert(lookups.take(at) =~= lookups);
        assert(lookups.skip(at) =~= Seq::<Lookup<E>>::empty());
    } else {
        let shorter = lookups.drop_last();
        lemma_replay_in_two(plans, shorter, at);
        assert(shorter.take(at) =~= lookups.take(at));
        assert(shorter.skip(at) =~= lookups.skip(at).drop_last());
        assert(lookups.skip(at).last() == lookups.last());
    }
}

/// A lookup that gets a plan built leaves it in the cache for good.
pub proof fn lemma_built_plan_stays<E>(
    plans: Map<ShapePlanKey, rustybuzz::ShapePlan>,
    lookups: Seq<Lookup<E>>,
    at: int,
)
    requires
        0 <= at < lookups.len(),
        constructs(plans, lookups, at),
    ensures
        replay(plans, lookups).contains_key(lookups[at].key),
        replay(plans, lookups)[lookups[at].key] == lookups[at].built->Ok_0,
{
    let upto = lookups.take(at + 1);
    assert(upto.drop_last() =~= lookups.take(at));
    assert(upto.last() == lookups[at]);
    lemma_replay_in_two(plans, lookups, at + 1);
    lemma_entries_stay(replay(plans, upto), lookups.skip(at + 1), lookups[at].key);
}

/// No key has a plan built for it twice: of two lookups of one key, at most
/// the earlier one constructs.
pub proof fn lemma_at_most_one_construction<E>(
    plans: Map<ShapePlanKey, rustybuzz::ShapePlan>,
    lookups: Seq<Lookup<E>>,
    earlier: int,
    later: int,
)
    requires
        0 <= earlier < later < lookups.len(),
        lookups[earlier].key == lookups[later].key,
        constructs(plans, lookups, earlier),
    ensures
        !calls_factory(plans, lookups, later),
{
    let upto = lookups.take(later);
    assert(upto.take(earlier) =~= lookups.take(earlier));
    assert(upto[earlier] == lookups[earlier]);
    lemma_built_plan_stays(plans, upto, earlier);
}

/// A key that the cache holds from the start never has a plan built for it.
pub proof fn lemma_no_construction_for_held_key<E>(
    plans: Map<ShapePlanKey, rustybuzz::ShapePlan>,
    lookups: Seq<Lookup<E>>,
    at: int,
)
    requires
        0 <= at < lookups.len(),
        plans.contains_key(lookups[at].key),
    ensures
        !calls_factory(plans, lookups, at),
{
    lemma_entries_stay(plans, lookups.take(at), lookups[at].key);
}

/// A lookup whose factory fails is followed by a retry: the next lookup of
/// the key calls its factory again, unless a lookup in between had a plan
/// built for the key.
pub proof fn lemma_failure_is_retried<E>(
    plans: Map<ShapePlanKey, rustybuzz::ShapePlan>,
    lookups: Seq<Lookup<E>>,
    at: int,
)
    requires
        0 <= at,
        at + 1 < lookups.len(),
        calls_factory(plans, lookups, at),
        lookups[at].built is Err,
        lookups[at + 1].key == lookups[at].key,
    ensures
        calls_factory(plans, lookups, at + 1),
{
    let upto = lookups.take(at + 1);
    assert(upto.drop_last() =~= lookups.take(at));
    assert(upto.last() == lookups[at]);
}

/// Every entry has been built: a plan that the cache did not hold from the
/// start was stored by one of the lookups, the one that is returned, whose
/// factory was called and succeeded with that very plan. No entry stands for
/// a construction that failed.
pub proof fn lemma_every_entry_was_built<E>(
    plans: Map<ShapePlanKey, rustybuzz::ShapePlan>,
    lookups: Seq<Lookup<E>>,
    key: ShapePlanKey,
) -> (at: int)
    requires
        !plans.contains_key(key),
        replay(plans, lookups).contains_key(key),
    ensures
        0 <= at < lookups.len(),
        lookups[at].key == key,
        constructs(plans, lookups, at),
        replay(plans, lookups)[key] == lookups[at].built->Ok_0,
    decreases lookups.len(),
{
    let before = lookups.drop_last();
    if replay(plans, before).contains_key(key) {
        let at = lemma_every_entry_was_built(plans, before, key);
        assert(lookups.take(at) =~= before.take(at));
        at
    } else {
        assert(lookups.take(lookups.len() - 1) =~= before);
        lookups.len() - 1
    }
}

} // verus!
