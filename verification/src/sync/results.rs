//! The results of a run: one for each ticket, in the order of the tickets,
//! and how many there are of each kind.

use crate::sync::{SyncResult, SyncResultView, SyncSummary};
use crate::text::{option_view, views};
use vstd::prelude::*;

verus! {

/// The kinds of result.
pub enum ResultKind {
    Created,
    Updated,
    Skipped,
    Failed,
}

/// The kind of a result.
pub open spec fn kind_of(result: SyncResultView) -> ResultKind {
    match result {
        SyncResultView::Created { .. } => ResultKind::Created,
        SyncResultView::Updated { .. } => ResultKind::Updated,
        SyncResultView::Skipped { .. } => ResultKind::Skipped,
        SyncResultView::Failed { .. } => ResultKind::Failed,
    }
}

/// How many of the first `k` results are of the given kind.
pub open spec fn count_kind(results: Seq<SyncResultView>, kind: ResultKind, k: nat) -> nat
    decreases k,
{
    if k == 0 || k > results.len() {
        0
    } else {
        count_kind(results, kind, (k - 1) as nat) + if kind_of(results[k - 1]) == kind {
            1nat
        } else {
            0nat
        }
    }
}

/// The results that stand before those of a batch are put in: see
/// [`with_results`].
pub open spec fn slot_views(slots: Seq<Option<SyncResult>>) -> Seq<Option<SyncResultView>> {
    Seq::new(slots.len(), |i: int| option_view(slots[i]))
}

/// The results of the tickets after the first `k` results of a batch were
/// put in: result `j` of the batch is that of the ticket at `indices[j]`.
/// An index beyond the tickets puts nothing in.
pub open spec fn with_results(
    slots: Seq<Option<SyncResultView>>,
    indices: Seq<usize>,
    results: Seq<SyncResultView>,
    k: nat,
) -> Seq<Option<SyncResultView>>
    decreases k,
{
    if k == 0 || k > indices.len() || k > results.len() {
        slots
    } else {
        let rest = with_results(slots, indices, results, (k - 1) as nat);
        if indices[k - 1] < rest.len() {
            rest.update(indices[k - 1] as int, Some(results[k - 1]))
        } else {
            rest
        }
    }
}

/// The result of a ticket at the end of the run: what was put in for it. A
/// ticket that nothing was put in for counts as failed.
pub open spec fn final_result(slot: Option<SyncResultView>) -> SyncResultView {
    match slot {
        Some(result) => result,
        None => SyncResultView::Failed { error: "Not processed"@ },
    }
}

/// Putting results in changes the number of slots by nothing.
pub proof fn lemma_with_results_len(
    slots: Seq<Option<SyncResultView>>,
    indices: Seq<usize>,
    results: Seq<SyncResultView>,
    k: nat,
)
    ensures
        with_results(slots, indices, results, k).len() == slots.len(),
    decreases k,
{
    if k == 0 || k > indices.len() || k > results.len() {
    } else {
        lemma_with_results_len(slots, indices, results, (k - 1) as nat);
    }
}

/// Every result is of exactly one kind: the four counts add up to the
/// number of results.
pub proof fn lemma_counts_add_up(results: Seq<SyncResultView>, k: nat)
    requires
        k <= results.len(),
    ensures
        count_kind(results, ResultKind::Created, k) + count_kind(results, ResultKind::Updated, k)
            + count_kind(results, ResultKind::Skipped, k) + count_kind(
            results,
            ResultKind::Failed,
            k,
        ) == k,
        count_kind(results, ResultKind::Created, k) <= k,
        count_kind(results, ResultKind::Updated, k) <= k,
        count_kind(results, ResultKind::Skipped, k) <= k,
        count_kind(results, ResultKind::Failed, k) <= k,
    decreases k,
{
    if k > 0 {
        lemma_counts_add_up(results, (k - 1) as nat);
    }
}

/// Puts the results of a batch in: see [`with_results`].
pub fn place_results(
    slots: &mut Vec<Option<SyncResult>>,
    indices: &[usize],
    results: &[SyncResult],
)
    ensures
        final(slots)@.len() == old(slots)@.len(),
        slot_views(final(slots)@) == with_results(
            slot_views(old(slots)@),
            indices@,
            views(results@),
            if indices@.len() <= results@.len() {
                indices@.len()
            } else {
                results@.len()
            },
        ),
{
    let n = if indices.len() <= results.len() {
        indices.len()
    } else {
        results.len()
    };
    let ghost before = slot_views(slots@);
    let ghost models = views(results@);
    let mut i: usize = 0;
    while i < n
        invariant
            i <= n,
            n <= indices@.len(),
            n <= results@.len(),
            models == views(results@),
            before == slot_views(old(slots)@),
            slots@.len() == old(slots)@.len(),
            slot_views(slots@) == with_results(before, indices@, models, i as nat),
        decreases n - i,
    {
        let at = indices[i];
        let ghost current = slot_views(slots@);
        if at < slots.len() {
            slots.set(at, Some(results[i].clone()));
            assert(slot_views(slots@) =~= current.update(at as int, Some(models[i as int])));
        }
        i += 1;
    }
}

/// The result of every ticket, in the order of the tickets: see
/// [`final_result`].
pub fn finish_results(slots: &[Option<SyncResult>]) -> (results: Vec<SyncResult>)
    ensures
        results@.len() == slots@.len(),
        forall|i: int|
            0 <= i < slots@.len() ==> (#[trigger] results@[i])@ == final_result(
                option_view(slots@[i]),
            ),
{
    let mut results: Vec<SyncResult> = Vec::new();
    let mut i: usize = 0;
    while i < slots.len()
        invariant
            i <= slots.len(),
            results@.len() == i,
            forall|j: int|
                0 <= j < i ==> (#[trigger] results@[j])@ == final_result(option_view(slots@[j])),
        decreases slots.len() - i,
    {
        match &slots[i] {
            Some(result) => {
                results.push(result.clone());
            },
            None => {
                results.push(SyncResult::Failed { error: String::from_str("Not processed") });
            },
        }
        i += 1;
    }
    results
}

/// How many results there are of each kind.
pub fn summarize(results: &[SyncResult]) -> (summary: SyncSummary)
    requires
        results@.len() <= u32::MAX,
    ensures
        summary.created == count_kind(views(results@), ResultKind::Created, results@.len()),
        summary.updated == count_kind(views(results@), ResultKind::Updated, results@.len()),
        summary.skipped == count_kind(views(results@), ResultKind::Skipped, results@.len()),
        summary.failed == count_kind(views(results@), ResultKind::Failed, results@.len()),
        summary.created + summary.updated + summary.skipped + summary.failed == results@.len(),
{
    let ghost models = views(results@);
    let mut summary = SyncSummary { created: 0, updated: 0, skipped: 0, failed: 0 };
    let mut i: usize = 0;
    while i < results.len()
        invariant
            i <= results.len(),
            results@.len() <= u32::MAX,
            models == views(results@),
            summary.created == count_kind(models, ResultKind::Created, i as nat),
            summary.updated == count_kind(models, ResultKind::Updated, i as nat),
            summary.skipped == count_kind(models, ResultKind::Skipped, i as nat),
            summary.failed == count_kind(models, ResultKind::Failed, i as nat),
        decreases results.len() - i,
    {
        proof {
            lemma_counts_add_up(models, i as nat);
            assert(models[i as int] == results@[i as int]@);
        }
        match &results[i] {
            SyncResult::Created { .. } => {
                summary.created += 1;
            },
            SyncResult::Updated { .. } => {
                summary.updated += 1;
            },
            SyncResult::Skipped { .. } => {
                summary.skipped += 1;
            },
            SyncResult::Failed { .. } => {
                summary.failed += 1;
            },
        }
        i += 1;
    }
    proof {
        lemma_counts_add_up(models, results@.len());
    }
    summary
}

/// A slot holds a result after results were put in where it held one
/// before, and where its index is among those that a result was put in for.
pub proof fn lemma_placed_results_stay(
    slots: Seq<Option<SyncResultView>>,
    indices: Seq<usize>,
    results: Seq<SyncResultView>,
    k: nat,
    i: int,
)
    requires
        0 <= i < slots.len(),
        k <= indices.len(),
        k <= results.len(),
        slots[i] is Some || exists|j: int| 0 <= j < k && indices[j] == i,
    ensures
        with_results(slots, indices, results, k).len() == slots.len(),
        with_results(slots, indices, results, k)[i] is Some,
    decreases k,
{
    lemma_with_results_len(slots, indices, results, k);
    if k > 0 {
        let rest = with_results(slots, indices, results, (k - 1) as nat);
        lemma_with_results_len(slots, indices, results, (k - 1) as nat);
        if indices[k - 1] == i {
        } else {
            if slots[i] is None {
                let j = choose|j: int| 0 <= j < k && indices[j] == i;
                assert(0 <= j < k - 1 && indices[j] == i);
            }
            lemma_placed_results_stay(slots, indices, results, (k - 1) as nat, i);
        }
    }
}

} // verus!
