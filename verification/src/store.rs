//! The hash table that owns the plans.
//!
//! The table is `hashbrown::HashMap`, keyed by the 64-bit fingerprint. Verus
//! sees none of it: what the table holds is given a name, [`stored_plans`],
//! and each operation says what it does to that mapping.

use vstd::prelude::*;

verus! {

/// A `hashbrown::HashMap` from fingerprints to plans.
#[verifier::external_body]
pub struct PlanStore {
    map: hashbrown::HashMap<u64, rustybuzz::ShapePlan>,
}

/// The mapping that the table holds: each fingerprint present, with its plan.
pub uninterp spec fn stored_plans(store: PlanStore) -> Map<u64, rustybuzz::ShapePlan>;

impl PlanStore {
    /// Calls `hashbrown::HashMap::new`: the table starts without entries.
    #[verifier::external_body]
    pub(crate) fn empty() -> (store: PlanStore)
        ensures
            stored_plans(store) == (Map::<u64, rustybuzz::ShapePlan>::empty()),
    {
        PlanStore { map: hashbrown::HashMap::new() }
    }

    /// Calls `hashbrown::HashMap::contains_key`: true exactly when the
    /// fingerprint has an entry.
    #[verifier::external_body]
    pub(crate) fn contains_key(&self, fingerprint: u64) -> (present: bool)
        ensures
            present == stored_plans(*self).contains_key(fingerprint),
    {
        self.map.contains_key(&fingerprint)
    }

    /// Calls `hashbrown::HashMap::get`: the plan stored under the
    /// fingerprint, or nothing when it has no entry.
    #[verifier::external_body]
    pub(crate) fn get(&self, fingerprint: u64) -> (found: Option<&rustybuzz::ShapePlan>)
        ensures
            match found {
                Some(plan) => stored_plans(*self).contains_key(fingerprint) && *plan
                    == stored_plans(*self)[fingerprint],
                None => !stored_plans(*self).contains_key(fingerprint),
            },
    {
        self.map.get(&fingerprint)
    }

    /// Calls `hashbrown::HashMap::insert`: afterwards the fingerprint maps to
    /// the plan and every other entry is as before. A plan that was stored
    /// under the fingerprint before is dropped.
    #[verifier::external_body]
    pub(crate) fn insert(&mut self, fingerprint: u64, plan: rustybuzz::ShapePlan)
        ensures
            stored_plans(*final(self)) == stored_plans(*old(self)).insert(fingerprint, plan),
    {
        self.map.insert(fingerprint, plan);
    }
}

} // verus!
