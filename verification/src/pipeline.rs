//! The order in which a pipeline runs its modules, and the kind each module
//! must have at its place.
use vstd::prelude::*;
use crate::program::ModuleType;

verus! {

/// The kind the module at place `k` of `n` must have. A run that starts from
/// raw bytes hands them to a beginning module first; a run that starts from a
/// decoded program has no beginning module. The last module always ends the
/// run; every other one is a middle module.
pub open spec fn stage_of(k: int, n: int, from_bytes: bool) -> ModuleType {
    if k == n - 1 {
        ModuleType::END
    } else if k == 0 && from_bytes {
        ModuleType::BEGINNING
    } else {
        ModuleType::MIDDLE
    }
}

/// How many modules a run needs: a beginning and an end module when it starts
/// from bytes, an end module otherwise.
pub open spec fn enough_modules(n: int, from_bytes: bool) -> bool {
    if from_bytes {
        n >= 2
    } else {
        n >= 1
    }
}

/// The kinds of the `n` modules of a pipeline, in the order they run.
pub fn stage_plan(n: usize, from_bytes: bool) -> (plan: Vec<ModuleType>)
    requires
        enough_modules(n as int, from_bytes),
    ensures
        plan@.len() == n,
        forall|k: int| 0 <= k < n ==> #[trigger] plan@[k] == stage_of(k, n as int, from_bytes),
{
    let mut plan: Vec<ModuleType> = Vec::new();
    let mut k: usize = 0;
    while k < n
        invariant
            k <= n,
            plan@.len() == k,
            forall|j: int| 0 <= j < k ==> #[trigger] plan@[j] == stage_of(j, n as int, from_bytes),
        decreases n - k,
    {
        let t = if k == n - 1 {
            ModuleType::END
        } else if k == 0 && from_bytes {
            ModuleType::BEGINNING
        } else {
            ModuleType::MIDDLE
        };
        plan.push(t);
        k = k + 1;
    }
    plan
}

/// A plan has exactly one end module, at its last place, and a beginning
/// module only at its first place and only when the run starts from bytes.
pub proof fn lemma_plan_shape(n: int, from_bytes: bool, k: int)
    requires
        enough_modules(n, from_bytes),
        0 <= k < n,
    ensures
        (stage_of(k, n, from_bytes) == ModuleType::END) <==> k == n - 1,
        (stage_of(k, n, from_bytes) == ModuleType::BEGINNING) <==> (k == 0 && from_bytes),
{
}

} // verus!
