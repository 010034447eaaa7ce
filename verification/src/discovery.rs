//! First-match discovery over ordered candidate lists.
//!
//! The two searches share the same priority rule: the earliest candidate
//! that is present wins, and later entries are irrelevant once a hit is
//! found.  Filesystem existence is an observation the caller supplies, so
//! both functions are pure: `exists[i]` records the result of the existence
//! check for `candidates[i]`.

use vstd::prelude::*;
use crate::config::RuntimeCandidate;

verus! {

/// Returns the position of the first candidate whose existence check
/// succeeded, or `None` when every check failed.
///
/// A missing path is simply "not found": it can never be a fault, so the
/// search tolerates arbitrarily many missing entries, missing parents
/// included.
pub fn find_first_existing(candidates: &Vec<String>, exists: &Vec<bool>) -> (r: Option<usize>)
    requires
        candidates@.len() == exists@.len(),
    ensures
        match r {
            Some(i) => i < candidates@.len() && exists@[i as int] && (forall|j: int|
                0 <= j < i ==> !exists@[j]),
            None => forall|j: int| 0 <= j < exists@.len() ==> !exists@[j],
        },
{
    let mut i: usize = 0;
    while i < candidates.len()
        invariant
            candidates@.len() == exists@.len(),
            i <= candidates@.len(),
            forall|j: int| 0 <= j < i ==> !exists@[j],
        decreases candidates@.len() - i,
    {
        if exists[i] {
            return Some(i);
        }
        i += 1;
    }
    None
}

/// Whether a runtime candidate counts as present given the result of its
/// existence check: a PATH lookup is always present, a file only when the
/// check succeeded.
pub open spec fn runtime_resolved(c: RuntimeCandidate, file_exists: bool) -> bool {
    match c {
        RuntimeCandidate::PathLookup { .. } => true,
        RuntimeCandidate::File { .. } => file_exists,
    }
}

/// Returns the position of the first usable runtime, with the same
/// first-match rule as [`find_first_existing`], except that a PATH lookup
/// candidate needs no existence check at all.
///
/// Consequently a list that contains a PATH lookup anywhere can never
/// exhaust: a system-installed runtime resolved through PATH is the
/// guaranteed last resort, and a real failure is deferred to spawn time.
/// `file_exists[i]` is the existence check for candidate `i` and is ignored
/// for PATH lookup entries.
pub fn find_runtime(candidates: &Vec<RuntimeCandidate>, file_exists: &Vec<bool>) -> (r: Option<
    usize,
>)
    requires
        candidates@.len() == file_exists@.len(),
    ensures
        match r {
            Some(i) => i < candidates@.len() && runtime_resolved(
                candidates@[i as int],
                file_exists@[i as int],
            ) && (forall|j: int|
                0 <= j < i ==> !runtime_resolved(candidates@[j], file_exists@[j])),
            None => forall|j: int|
                0 <= j < candidates@.len() ==> !runtime_resolved(candidates@[j], file_exists@[j]),
        },
        (exists|i: int|
            0 <= i < candidates@.len() && candidates@[i] is PathLookup) ==> r is Some,
{
    let mut i: usize = 0;
    while i < candidates.len()
        invariant
            candidates@.len() == file_exists@.len(),
            i <= candidates@.len(),
            forall|j: int| 0 <= j < i ==> !runtime_resolved(candidates@[j], file_exists@[j]),
        decreases candidates@.len() - i,
    {
        let usable = match &candidates[i] {
            RuntimeCandidate::PathLookup { .. } => true,
            RuntimeCandidate::File { .. } => file_exists[i],
        };
        if usable {
            return Some(i);
        }
        i += 1;
    }
    proof {
        if exists|k: int| 0 <= k < candidates@.len() && candidates@[k] is PathLookup {
            let k = choose|k: int| 0 <= k < candidates@.len() && candidates@[k] is PathLookup;
            assert(runtime_resolved(candidates@[k], file_exists@[k]));
            assert(false);
        }
    }
    None
}

} // verus!
