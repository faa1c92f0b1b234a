//! The cache: one plan per key, built on first use.

use crate::engine::{build_plan, engine_plan};
use crate::font::Font;
use crate::key::{
    key_writes, lemma_axis_value_changes_key, lemma_text_is_no_part_of_key, told_apart,
    ShapePlanKey,
};
use crate::variation::same_number;
use crate::run::TextRun;
use crate::store::{stored_plans, PlanStore};
use vstd::pervasive::unreached;
use vstd::prelude::*;

verus! {

/// A cache of shape plans.
///
/// The cache owns its plans and hands out references to them. An entry, once
/// made, is never removed or replaced, and an entry is made only when a plan
/// was built: a failed construction leaves no trace.
pub struct ShapePlanCache {
    store: PlanStore,
}

/// The result of a factory, with the plan owned or borrowed alike.
pub open spec fn outcome<E>(result: Result<&rustybuzz::ShapePlan, E>) -> Result<
    rustybuzz::ShapePlan,
    E,
> {
    match result {
        Ok(plan) => Ok(*plan),
        Err(error) => Err(error),
    }
}

/// What a lookup leaves behind. On a hit nothing changes, whatever the
/// factory would have built. On a miss the built plan is stored under the
/// key, and a failed construction stores nothing.
pub open spec fn after_lookup<E>(
    plans: Map<ShapePlanKey, rustybuzz::ShapePlan>,
    key: ShapePlanKey,
    built: Result<rustybuzz::ShapePlan, E>,
) -> Map<ShapePlanKey, rustybuzz::ShapePlan> {
    if plans.contains_key(key) {
        plans
    } else {
        match built {
            Ok(plan) => plans.insert(key, plan),
            Err(_) => plans,
        }
    }
}

/// The plan that the engine builds for a font and a run.
pub open spec fn plan_of(font: &Font, run: &TextRun) -> rustybuzz::ShapePlan {
    engine_plan(font.face, run.direction, run.script, run.language_text())
}

impl View for ShapePlanCache {
    type V = Map<ShapePlanKey, rustybuzz::ShapePlan>;

    /// The plans of the cache, by key.
    closed spec fn view(&self) -> Map<ShapePlanKey, rustybuzz::ShapePlan> {
        Map::new(
            |key: ShapePlanKey| stored_plans(self.store).contains_key(key.shape_plan_hash),
            |key: ShapePlanKey| stored_plans(self.store)[key.shape_plan_hash],
        )
    }
}

impl ShapePlanCache {
    /// A cache without plans.
    pub fn new() -> (cache: ShapePlanCache)
        ensures
            cache@ == (Map::<ShapePlanKey, rustybuzz::ShapePlan>::empty()),
    {
        let cache = ShapePlanCache { store: PlanStore::empty() };
        assert(cache@ =~= Map::<ShapePlanKey, rustybuzz::ShapePlan>::empty());
        cache
    }

    /// Whether a plan is stored under the key.
    pub fn contains(&self, key: ShapePlanKey) -> (present: bool)
        ensures
            present == self@.contains_key(key),
    {
        self.store.contains_key(key.shape_plan_hash)
    }

    /// The plan stored under a key that has one.
    fn stored(&self, key: ShapePlanKey) -> (plan: &rustybuzz::ShapePlan)
        requires
            self@.contains_key(key),
        ensures
            *plan == self@[key],
    {
        match self.store.get(key.shape_plan_hash) {
            Some(plan) => plan,
            None => unreached(),
        }
    }

    /// Stores a plan under a key.
    fn keep(&mut self, key: ShapePlanKey, plan: rustybuzz::ShapePlan)
        ensures
            final(self)@ == old(self)@.insert(key, plan),
    {
        self.store.insert(key.shape_plan_hash, plan);
        assert(self@ =~= old(self)@.insert(key, plan));
    }

    /// Returns the plan stored under `key`, building it with `factory` if
    /// there is none.
    ///
    /// On a hit the stored plan is returned and the factory is not called:
    /// it need not even be callable. On a miss the factory is called once;
    /// its plan is stored and returned, or its error is returned and nothing
    /// is stored.
    pub fn get_or_create<E, F: FnOnce() -> Result<rustybuzz::ShapePlan, E>>(
        &mut self,
        key: ShapePlanKey,
        factory: F,
    ) -> (result: Result<&rustybuzz::ShapePlan, E>)
        requires
            !old(self)@.contains_key(key) ==> factory.requires(()),
        ensures
            old(self)@.contains_key(key) ==> result is Ok,
            !old(self)@.contains_key(key) ==> factory.ensures((), outcome(result)),
            final(self)@ == after_lookup(old(self)@, key, outcome(result)),
            result is Ok ==> final(self)@.contains_key(key) && *result->Ok_0 == final(self)@[key],
    {
        if !self.contains(key) {
            match factory() {
                Ok(plan) => {
                    self.keep(key, plan);
                },
                Err(error) => {
                    return Err(error);
                },
            }
        }
        Ok(self.stored(key))
    }

    /// Returns the plan for a font and a run, building it with the shaping
    /// engine if the cache has none under their key.
    ///
    /// The language tag of the run must be ASCII, as every well-formed tag
    /// is: the engine builds no plan for another.
    /// [`TextRun::has_plain_language`] tells.
    pub fn get(&mut self, font: &Font, run: &TextRun) -> (plan: &rustybuzz::ShapePlan)
        requires
            run.spec_has_plain_language(),
        ensures
            final(self)@ == after_lookup::<()>(
                old(self)@,
                ShapePlanKey::of(font, run),
                Ok(plan_of(font, run)),
            ),
            *plan == final(self)@[ShapePlanKey::of(font, run)],
    {
        let key = ShapePlanKey::new(font, run);
        let engine = || -> (built: Result<rustybuzz::ShapePlan, ()>)
            ensures
                built == Ok::<rustybuzz::ShapePlan, ()>(plan_of(font, run)),
            {
                let language = match &run.language {
                    Some(tag) => Some(tag.as_str()),
                    None => None,
                };
                Ok(build_plan(font.rustybuzz(), run.direction, run.script, language))
            };
        match self.get_or_create(key, engine) {
            Ok(plan) => plan,
            Err(_) => unreached(),
        }
    }

    /// A name for the cache in diagnostics. It tells nothing of the entries.
    pub fn label(&self) -> (name: String)
        ensures
            name@ == "ShapePlanCache"@,
    {
        "ShapePlanCache".to_owned()
    }
}

impl Default for ShapePlanCache {
    /// A cache without plans.
    fn default() -> (cache: ShapePlanCache)
        ensures
            cache@ == (Map::<ShapePlanKey, rustybuzz::ShapePlan>::empty()),
    {
        ShapePlanCache::new()
    }
}

/// A lookup touches no key but its own, and never replaces a plan.
pub proof fn lemma_lookup_keeps_entries<E>(
    plans: Map<ShapePlanKey, rustybuzz::ShapePlan>,
    key: ShapePlanKey,
    built: Result<rustybuzz::ShapePlan, E>,
    other: ShapePlanKey,
)
    ensures
        plans.contains_key(other) ==> after_lookup(plans, key, built).contains_key(other)
            && after_lookup(plans, key, built)[other] == plans[other],
        other != key ==> (after_lookup(plans, key, built).contains_key(other)
            <==> plans.contains_key(other)),
{
}

/// After a lookup that returned a plan, a second lookup of the same key is a
/// hit: it returns that plan and leaves the cache as it is, whatever its
/// factory would build. Two lookups construct once.
pub proof fn lemma_second_lookup_hits<E>(
    plans: Map<ShapePlanKey, rustybuzz::ShapePlan>,
    key: ShapePlanKey,
    first: rustybuzz::ShapePlan,
    second: Result<rustybuzz::ShapePlan, E>,
)
    ensures
        ({
            let once = after_lookup::<E>(plans, key, Ok(first));
            &&& once.contains_key(key)
            &&& once[key] == if plans.contains_key(key) {
                plans[key]
            } else {
                first
            }
            &&& after_lookup(once, key, second) == once
        }),
{
}

/// A failed construction is not remembered: the cache is as before, the next
/// lookup of the key is a miss again, and once a construction succeeds its
/// plan is stored.
pub proof fn lemma_failure_is_not_remembered<E>(
    plans: Map<ShapePlanKey, rustybuzz::ShapePlan>,
    key: ShapePlanKey,
    error: E,
    retry: rustybuzz::ShapePlan,
)
    requires
        !plans.contains_key(key),
    ensures
        ({
            let failed = after_lookup::<E>(plans, key, Err(error));
            let retried = after_lookup::<E>(failed, key, Ok(retry));
            &&& failed == plans
            &&& !failed.contains_key(key)
            &&& retried.contains_key(key)
            &&& retried[key] == retry
        }),
{
}

/// Lookups of two different keys do not share a plan: a plan stored under
/// one key does not make the other key a hit.
pub proof fn lemma_other_key_still_misses<E>(
    plans: Map<ShapePlanKey, rustybuzz::ShapePlan>,
    key: ShapePlanKey,
    built: Result<rustybuzz::ShapePlan, E>,
    other: ShapePlanKey,
)
    requires
        other != key,
        !plans.contains_key(other),
    ensures
        !after_lookup(plans, key, built).contains_key(other),
{
}

/// Runs of one font that differ only in their text share one plan: after a
/// lookup for the first, a lookup for the second is a hit.
pub proof fn lemma_text_shares_plan(
    plans: Map<ShapePlanKey, rustybuzz::ShapePlan>,
    font: &Font,
    run1: &TextRun,
    run2: &TextRun,
)
    requires
        run1.direction == run2.direction,
        run1.script == run2.script,
        run1.language_text() == run2.language_text(),
    ensures
        plan_of(font, run1) == plan_of(font, run2),
        ({
            let once = after_lookup::<()>(plans, ShapePlanKey::of(font, run1), Ok(plan_of(font, run1)));
            &&& once.contains_key(ShapePlanKey::of(font, run2))
            &&& after_lookup::<()>(once, ShapePlanKey::of(font, run2), Ok(plan_of(font, run2)))
                == once
        }),
{
    lemma_text_is_no_part_of_key(font, run1, run2);
}

/// A font with one axis set to a different number gets a plan of its own.
/// Where the hasher takes the writes of the two keys apart, the keys differ:
/// after a lookup for the first font, the lookup for the changed font is
/// still a miss, and after it the plan of the changed font stands under its
/// key beside the entry of the first font, which is kept.
pub proof fn lemma_changed_axis_builds_another_plan(
    plans: Map<ShapePlanKey, rustybuzz::ShapePlan>,
    font: &Font,
    changed: &Font,
    run: &TextRun,
    at: int,
)
    requires
        changed.id == font.id,
        0 <= at < font.variations@.len(),
        changed.variations@ == font.variations@.update(at, changed.variations@[at]),
        changed.variations@[at].tag == font.variations@[at].tag,
        !same_number(font.variations@[at].value, changed.variations@[at].value),
        told_apart(
            key_writes(font.id, run.context(), font.variations@),
            key_writes(changed.id, run.context(), changed.variations@),
        ),
        !plans.contains_key(ShapePlanKey::of(changed, run)),
    ensures
        ShapePlanKey::of(changed, run) != ShapePlanKey::of(font, run),
        ({
            let first = after_lookup::<()>(plans, ShapePlanKey::of(font, run), Ok(plan_of(font, run)));
            let second = after_lookup::<()>(
                first,
                ShapePlanKey::of(changed, run),
                Ok(plan_of(changed, run)),
            );
            &&& !first.contains_key(ShapePlanKey::of(changed, run))
            &&& second.contains_key(ShapePlanKey::of(changed, run))
            &&& second[ShapePlanKey::of(changed, run)] == plan_of(changed, run)
            &&& second.contains_key(ShapePlanKey::of(font, run))
            &&& second[ShapePlanKey::of(font, run)] == first[ShapePlanKey::of(font, run)]
        }),
{
    lemma_axis_value_changes_key(
        font.id,
        run.context(),
        font.variations@,
        at,
        changed.variations@[at].value,
    );
}

} // verus!
