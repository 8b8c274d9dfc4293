//! Selection sets as sets of option indices, and what a run of toggles does
//! to them.
use vstd::prelude::*;

verus! {

/// The selection after toggling `index`: removed if present, added if absent.
pub open spec fn toggled(selection: Set<usize>, index: usize) -> Set<usize> {
    if selection.contains(index) {
        selection.remove(index)
    } else {
        selection.insert(index)
    }
}

/// The selection after toggling each index of `ops`, first to last.
pub open spec fn toggle_all(selection: Set<usize>, ops: Seq<usize>) -> Set<usize>
    decreases ops.len(),
{
    if ops.len() == 0 {
        selection
    } else {
        toggle_all(toggled(selection, ops[0]), ops.drop_first())
    }
}

/// How many times `index` occurs in `ops`.
pub open spec fn times_toggled(ops: Seq<usize>, index: usize) -> nat
    decreases ops.len(),
{
    if ops.len() == 0 {
        0
    } else {
        (if ops[0] == index { 1nat } else { 0nat }) + times_toggled(ops.drop_first(), index)
    }
}

/// Every index of `selection` names one of `option_count` options.
pub open spec fn within_bounds(selection: Set<usize>, option_count: nat) -> bool {
    forall|i: usize| selection.contains(i) ==> i < option_count
}

/// After a run of toggles, an index is selected exactly when it started
/// selected and was toggled an even number of times, or started unselected
/// and was toggled an odd number of times. Toggles of in-range indices keep
/// the selection within the option list.
pub proof fn lemma_toggle_parity(selection: Set<usize>, ops: Seq<usize>, option_count: nat)
    ensures
        forall|i: usize| #[trigger]
            toggle_all(selection, ops).contains(i) <==> (selection.contains(i) != (
            times_toggled(ops, i) % 2 == 1)),
        within_bounds(selection, option_count) && (forall|k: int|
            0 <= k < ops.len() ==> ops[k] < option_count) ==> within_bounds(
            toggle_all(selection, ops),
            option_count,
        ),
    decreases ops.len(),
{
    if ops.len() > 0 {
        let next = toggled(selection, ops[0]);
        let rest = ops.drop_first();
        lemma_toggle_parity(next, rest, option_count);
        assert forall|i: usize| #[trigger]
            toggle_all(selection, ops).contains(i) <==> (selection.contains(i) != (
            times_toggled(ops, i) % 2 == 1)) by {
            assert(toggle_all(selection, ops) == toggle_all(next, rest));
            assert(times_toggled(ops, i) == (if ops[0] == i { 1nat } else { 0nat })
                + times_toggled(rest, i));
        }
        if within_bounds(selection, option_count) && (forall|k: int|
            0 <= k < ops.len() ==> ops[k] < option_count) {
            assert forall|k: int| 0 <= k < rest.len() implies rest[k] < option_count by {
                assert(rest[k] == ops[k + 1]);
            }
            assert(within_bounds(next, option_count));
        }
    }
}

/// Starting from an empty selection, an index is selected after a run of
/// toggles exactly when it was toggled an odd number of times.
pub proof fn lemma_toggle_parity_from_empty(ops: Seq<usize>)
    ensures
        forall|i: usize| #[trigger]
            toggle_all(Set::empty(), ops).contains(i) <==> times_toggled(ops, i) % 2 == 1,
{
    lemma_toggle_parity(Set::empty(), ops, 0);
}

} // verus!
