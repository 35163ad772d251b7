//! Process identities and the membership lists built from them.

use vstd::prelude::*;
use vstd::std_specs::cmp::PartialEqSpec;

verus! {

/// An identifier for an entity participating in consensus.
///
/// A process identity is a small value that can be copied freely and compared for equality;
/// no ordering is assumed.
pub trait Process: Copy + Eq + PartialEq {}

/// Whether `==` on `P` is the identity relation: two processes compare equal exactly when
/// they are the same value. A process type shows this by a specification of its `==` that
/// compares all that a process holds.
pub open spec fn process_eq_is_identity<P: Process>() -> bool {
    &&& P::obeys_eq_spec()
    &&& forall|a: P, b: P| #[trigger] a.eq_spec(&b) <==> (a == b)
}

/// Whether `index` is the place of the first occurrence of `process` in `processes`.
pub open spec fn is_first_occurrence<P>(processes: Seq<P>, process: P, index: int) -> bool {
    &&& 0 <= index < processes.len()
    &&& processes[index] == process
    &&& forall|j: int| 0 <= j < index ==> processes[j] != process
}

/// Whether `process` occurs in `processes` at `index` and nowhere else.
pub open spec fn is_only_occurrence<P>(processes: Seq<P>, process: P, index: int) -> bool {
    &&& 0 <= index < processes.len()
    &&& processes[index] == process
    &&& forall|j: int| 0 <= j < processes.len() && j != index ==> processes[j] != process
}

/// The index of the first process of `processes` that compares equal to `process`, if
/// there is one. Where `==` is the identity, that is the first occurrence of `process`.
pub fn position_of<P: Process>(processes: &Vec<P>, process: P) -> (found: Option<usize>)
    ensures
        match found {
            Some(index) => {
                &&& index < processes@.len()
                &&& process_eq_is_identity::<P>() ==> is_first_occurrence(
                    processes@,
                    process,
                    index as int,
                )
            },
            None => process_eq_is_identity::<P>() ==> !processes@.contains(process),
        },
{
    let mut i: usize = 0;
    while i < processes.len()
        invariant
            i <= processes.len(),
            process_eq_is_identity::<P>() ==> forall|j: int| 0 <= j < i ==> processes@[j] != process,
        decreases processes.len() - i,
    {
        if processes[i] == process {
            return Some(i);
        }
        i += 1;
    }
    None
}

/// Whether `process` occurs in `processes`.
pub fn contains_process<P: Process>(processes: &Vec<P>, process: P) -> (found: bool)
    requires
        process_eq_is_identity::<P>(),
    ensures
        found == processes@.to_set().contains(process),
{
    position_of(processes, process).is_some()
}

/// Whether every process of `inner` occurs in `outer`.
pub fn all_contained<P: Process>(inner: &Vec<P>, outer: &Vec<P>) -> (contained: bool)
    requires
        process_eq_is_identity::<P>(),
    ensures
        contained == inner@.to_set().subset_of(outer@.to_set()),
{
    let mut i: usize = 0;
    while i < inner.len()
        invariant
            i <= inner.len(),
            process_eq_is_identity::<P>(),
            forall|j: int| 0 <= j < i ==> outer@.contains(#[trigger] inner@[j]),
        decreases inner.len() - i,
    {
        if !contains_process(outer, inner[i]) {
            return false;
        }
        i += 1;
    }
    assert forall|p: P| inner@.to_set().contains(p) implies outer@.to_set().contains(p) by {
        let j = choose|j: int| 0 <= j < inner@.len() && inner@[j] == p;
        assert(outer@.contains(inner@[j]));
    }
    true
}

/// Removes every occurrence of `process` from `processes`. Each removal moves the last
/// process of the list into the freed place; so a process that occurs once is replaced by
/// the last process of the list, and the others keep their places.
pub fn remove_process<P: Process>(processes: &mut Vec<P>, process: P)
    requires
        process_eq_is_identity::<P>(),
    ensures
        final(processes)@.to_set() == old(processes)@.to_set().remove(process),
        !old(processes)@.contains(process) ==> final(processes)@ == old(processes)@,
        forall|index: int|
            is_only_occurrence(old(processes)@, process, index) ==> final(processes)@
                == old(processes)@.update(index, old(processes)@.last()).drop_last(),
{
    let mut i: usize = 0;
    while i < processes.len()
        invariant
            i <= processes.len(),
            process_eq_is_identity::<P>(),
            forall|j: int| 0 <= j < i ==> processes@[j] != process,
            processes@.to_set().remove(process) == old(processes)@.to_set().remove(process),
            !old(processes)@.contains(process) ==> processes@ == old(processes)@,
            forall|index: int|
                is_only_occurrence(old(processes)@, process, index) ==> {
                    ||| processes@ == old(processes)@ && i <= index
                    ||| processes@ == old(processes)@.update(index, old(processes)@.last()).drop_last()
                },
        decreases processes.len() - i,
    {
        if processes[i] == process {
            let ghost before = processes@;
            processes.swap_remove(i);
            proof {
                let after = processes@;
                assert forall|p: P| p != process implies
                    (after.contains(p) <==> before.contains(p)) by {
                    if after.contains(p) {
                        let j = choose|j: int| 0 <= j < after.len() && after[j] == p;
                        if j == i {
                            assert(before[before.len() - 1] == p);
                        } else {
                            assert(before[j] == p);
                        }
                    }
                    if before.contains(p) {
                        let j = choose|j: int| 0 <= j < before.len() && before[j] == p;
                        if j == before.len() - 1 {
                            assert(after[i as int] == p);
                        } else {
                            assert(after[j] == p);
                        }
                    }
                }
            }
        } else {
            i += 1;
        }
    }
}

} // verus!
