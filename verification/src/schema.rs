//! Schema bootstrap.
//!
//! Before the server accepts any procedure call, the persistent store must
//! exist and be migrated to the latest schema.  Migrations form an ordered
//! plan of version numbers; the store records which of them have been
//! applied.  Bootstrap creates the store if missing, then applies exactly
//! the steps the record is missing, in ascending version order.  It is
//! idempotent: running it again over a bootstrapped store applies nothing
//! and reports no error.

use crate::errors::SchemaError;
use vstd::prelude::*;

verus! {

/// Versions strictly ascend: each migration step has a version above every
/// earlier one.
pub open spec fn strictly_ascending(s: Seq<u64>) -> bool {
    forall|i: int, j: int| 0 <= i < j < s.len() ==> s[i] < s[j]
}

/// Bootstrap accepts a store whose recorded history is a prefix of the
/// plan: every recorded step is the planned step of the same rank.  Any
/// other record means a step would conflict, which aborts the bootstrap.
pub open spec fn bootstrap_accepts(recorded: Seq<u64>, plan: Seq<u64>) -> bool {
    recorded.is_prefix_of(plan)
}

/// What the store's schema side looks like: whether the store exists, and
/// which migration versions its metadata table records as applied.
pub struct SchemaState {
    exists: bool,
    applied: Vec<u64>,
}

/// `s` is what a successful bootstrap with `plan` leaves behind: the store
/// exists and records exactly the plan as applied.
pub open spec fn bootstrapped(plan: Seq<u64>, s: SchemaState) -> bool {
    &&& s.exists_spec()
    &&& s.applied_spec() == plan
}

impl SchemaState {
    /// Whether the store exists.
    pub closed spec fn exists_spec(self) -> bool {
        self.exists
    }

    /// The migration versions recorded as applied, in the order recorded.
    pub closed spec fn applied_spec(self) -> Seq<u64> {
        self.applied@
    }

    /// A store that was never created: nothing exists, nothing is recorded.
    pub fn absent() -> (s: SchemaState)
        ensures
            !s.exists_spec(),
            s.applied_spec() == Seq::<u64>::empty(),
    {
        let s = SchemaState { exists: false, applied: Vec::new() };
        proof {
            assert(s.applied_spec() =~= Seq::<u64>::empty());
        }
        s
    }
}

/// Runs schema bootstrap: creates the store if it does not exist, then
/// applies the migration steps of `plan` that are not yet recorded, in
/// ascending version order.  `reachable` is the environment's verdict on
/// whether the store can be reached for this run.
///
/// On success the store exists and records exactly `plan`.  On any failure
/// the record is left exactly as it was — no step is half-recorded — and
/// the server must not begin accepting procedure calls.
pub fn make_migration(state: &mut SchemaState, plan: &Vec<u64>, reachable: bool) -> (r: Result<
    (),
    SchemaError,
>)
    requires
        strictly_ascending(plan@),
    ensures
        !reachable ==> (r matches Err(e) && e == SchemaError::StoreUnreachable && *final(state)
            == *old(state)),
        (reachable && bootstrap_accepts(old(state).applied_spec(), plan@)) ==> (r is Ok
            && bootstrapped(plan@, *final(state))),
        (reachable && !bootstrap_accepts(old(state).applied_spec(), plan@)) ==> (r matches Err(e)
            && e == SchemaError::MigrationStepFailed && *final(state) == *old(state)),
        r is Ok <==> (reachable && bootstrap_accepts(old(state).applied_spec(), plan@)),
{
    if !reachable {
        return Err(SchemaError::StoreUnreachable);
    }
    // The recorded history must be a prefix of the plan; otherwise some
    // recorded step conflicts with the planned step of the same rank.
    if self_applied_is_not_prefix(state, plan) {
        return Err(SchemaError::MigrationStepFailed);
    }
    state.exists = true;
    let mut j: usize = state.applied.len();
    proof {
        assert(state.applied@ =~= plan@.take(j as int));
    }
    while j < plan.len()
        invariant
            j <= plan.len(),
            state.applied@ =~= plan@.take(j as int),
            state.exists,
        decreases plan.len() - j,
    {
        state.applied.push(plan[j]);
        j = j + 1;
    }
    proof {
        assert(state.applied@ =~= plan@);
    }
    Ok(())
}

/// True exactly when the recorded history is not a prefix of the plan.
fn self_applied_is_not_prefix(state: &SchemaState, plan: &Vec<u64>) -> (r: bool)
    ensures
        r == !bootstrap_accepts(state.applied_spec(), plan@),
{
    if state.applied.len() > plan.len() {
        return true;
    }
    let mut i: usize = 0;
    while i < state.applied.len()
        invariant
            i <= state.applied.len() <= plan.len(),
            forall|k: int| 0 <= k < i ==> state.applied@[k] == plan@[k],
        decreases state.applied.len() - i,
    {
        if state.applied[i] != plan[i] {
            return true;
        }
        i = i + 1;
    }
    proof {
        assert(state.applied@ =~= plan@.take(state.applied@.len() as int));
    }
    false
}

/// Bootstrap is idempotent.  A store that one successful run with `plan`
/// left behind is accepted again by a second run with the same plan: the
/// second run reports no error, and every state a successful run can leave
/// records exactly the same history — so the second run applies no step
/// and duplicates no schema change.
pub proof fn lemma_bootstrap_idempotent(s1: SchemaState, plan: Seq<u64>)
    requires
        bootstrapped(plan, s1),
    ensures
        bootstrap_accepts(s1.applied_spec(), plan),
        forall|s2: SchemaState| bootstrapped(plan, s2) ==> s2.applied_spec() == s1.applied_spec(),
{
    assert(s1.applied_spec() =~= plan);
}

} // verus!
