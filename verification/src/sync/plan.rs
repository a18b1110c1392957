//! What is to be done for each ticket: the issues to fetch, and the
//! decision between creating, updating and leaving alone.

use crate::github::issues::ExistingIssue;
use crate::name_map::{lookup_in, text_pairs, upsert, NameMap};
use crate::sync::{
    check_update_needed, issue_type_for, resolve_issue_type, update_check, SyncResult,
    SyncResultView, UpdateCheck, UpdateCheckView,
};
use crate::sync::results::{lemma_placed_results_stay, lemma_with_results_len, with_results};
use crate::text::{option_view, views};
use crate::ticket::{github_number, is_github_ref, Ticket, TicketView};
use std::collections::HashMap;
use vstd::prelude::*;

verus! {

/// An issue that is to be created for a ticket.
#[derive(Debug)]
pub struct PendingCreate {
    /// The index of the ticket among those that are synced.
    pub ticket_idx: usize,
    pub title: String,
    pub body: String,
    pub label_ids: Vec<String>,
    pub issue_type_id: Option<String>,
}

/// The model of a [`PendingCreate`].
pub struct PendingCreateView {
    pub ticket_idx: usize,
    pub title: Seq<char>,
    pub body: Seq<char>,
    pub label_ids: Seq<Seq<char>>,
    pub issue_type_id: Option<Seq<char>>,
}

impl View for PendingCreate {
    type V = PendingCreateView;

    open spec fn view(&self) -> PendingCreateView {
        PendingCreateView {
            ticket_idx: self.ticket_idx,
            title: self.title@,
            body: self.body@,
            label_ids: views(self.label_ids@),
            issue_type_id: option_view(self.issue_type_id),
        }
    }
}

/// An issue that is to be updated for a ticket.
#[derive(Debug)]
pub struct PendingUpdate {
    /// The index of the ticket among those that are synced.
    pub ticket_idx: usize,
    pub issue_id: String,
    pub issue_number: u64,
    pub title: String,
    pub body: String,
    pub needs_close: bool,
    pub needs_reopen: bool,
    pub issue_type_id: Option<String>,
}

/// The model of a [`PendingUpdate`].
pub struct PendingUpdateView {
    pub ticket_idx: usize,
    pub issue_id: Seq<char>,
    pub issue_number: u64,
    pub title: Seq<char>,
    pub body: Seq<char>,
    pub needs_close: bool,
    pub needs_reopen: bool,
    pub issue_type_id: Option<Seq<char>>,
}

impl View for PendingUpdate {
    type V = PendingUpdateView;

    open spec fn view(&self) -> PendingUpdateView {
        PendingUpdateView {
            ticket_idx: self.ticket_idx,
            issue_id: self.issue_id@,
            issue_number: self.issue_number,
            title: self.title@,
            body: self.body@,
            needs_close: self.needs_close,
            needs_reopen: self.needs_reopen,
            issue_type_id: option_view(self.issue_type_id),
        }
    }
}

/// What is to be done for the tickets of one run.
pub struct SyncPlan {
    /// For each ticket, in order, its result as far as it is settled
    /// without a request.
    pub results: Vec<Option<SyncResult>>,
    /// The indices of the tickets that get a new issue, ascending.
    pub creates: Vec<usize>,
    /// The updates to make, in the order of their tickets.
    pub updates: Vec<PendingUpdate>,
}

/// What is to be done for one ticket.
pub enum Decision {
    /// An issue is to be created.
    Create,
    /// The issue is to be updated.
    Update(PendingUpdateView),
    /// Nothing is to be done; the result stands.
    Settled(SyncResultView),
}

/// What the settings of a run say of issue types: the mapping from ticket
/// types and the types that the repository has.
pub struct IssueTypes {
    pub type_map: Seq<(Seq<char>, Seq<char>)>,
    pub cache: Seq<(Seq<char>, Seq<char>)>,
}

/// What is to be done for the ticket at `idx`.
///
/// A ticket without a reference to a GitHub issue gets a new issue. Any
/// other is compared with the issues that were fetched: it is skipped where
/// nothing changed and where the issue is not the ticket's to change, it
/// fails where the issue cannot be compared, and it is updated otherwise.
pub open spec fn decision(
    ticket: TicketView,
    idx: usize,
    existing: Map<u64, ExistingIssue>,
    index: Seq<(Seq<char>, u64)>,
    types: IssueTypes,
) -> Decision {
    if !is_github_ref(ticket.external_ref) {
        Decision::Create
    } else {
        match update_check(ticket, existing, index) {
            UpdateCheckView::NoChanges => Decision::Settled(
                SyncResultView::Skipped { reason: "no changes"@ },
            ),
            UpdateCheckView::Conflict(reason) => Decision::Settled(
                SyncResultView::Skipped { reason },
            ),
            UpdateCheckView::Error(error) => Decision::Settled(SyncResultView::Failed { error }),
            UpdateCheckView::NeedsUpdate {
                issue_id,
                issue_number,
                title,
                body,
                needs_close,
                needs_reopen,
            } => Decision::Update(
                PendingUpdateView {
                    ticket_idx: idx,
                    issue_id,
                    issue_number,
                    title,
                    body,
                    needs_close,
                    needs_reopen,
                    issue_type_id: issue_type_for(ticket.ticket_type, types.type_map, types.cache),
                },
            ),
        }
    }
}

/// The result of a decision as far as it is settled.
pub open spec fn settled(decision: Decision) -> Option<SyncResultView> {
    match decision {
        Decision::Settled(result) => Some(result),
        _ => None,
    }
}

/// The indices, among the first `k` tickets, of those that get a new issue.
pub open spec fn create_indices(tickets: Seq<TicketView>, k: nat) -> Seq<usize>
    decreases k,
{
    if k == 0 || k > tickets.len() {
        Seq::empty()
    } else {
        let rest = create_indices(tickets, (k - 1) as nat);
        if !is_github_ref(tickets[k - 1].external_ref) {
            rest.push((k - 1) as usize)
        } else {
            rest
        }
    }
}

/// The updates to make for the first `k` tickets, in order.
pub open spec fn planned_updates(
    tickets: Seq<TicketView>,
    existing: Map<u64, ExistingIssue>,
    index: Seq<(Seq<char>, u64)>,
    types: IssueTypes,
    k: nat,
) -> Seq<PendingUpdateView>
    decreases k,
{
    if k == 0 || k > tickets.len() {
        Seq::empty()
    } else {
        let rest = planned_updates(tickets, existing, index, types, (k - 1) as nat);
        match decision(tickets[k - 1], (k - 1) as usize, existing, index, types) {
            Decision::Update(update) => rest.push(update),
            _ => rest,
        }
    }
}

/// The issue numbers of the first `k` tickets, in order.
pub open spec fn own_numbers(tickets: Seq<TicketView>, k: nat) -> Seq<u64>
    decreases k,
{
    if k == 0 || k > tickets.len() {
        Seq::empty()
    } else {
        let rest = own_numbers(tickets, (k - 1) as nat);
        match github_number(tickets[k - 1].external_ref) {
            Some(number) => rest.push(number),
            None => rest,
        }
    }
}

/// `numbers` and then, for each of the first `k` tickets in order, the
/// issue number of its parent, where the index knows the parent and the
/// number is not there yet.
pub open spec fn with_parent_numbers(
    numbers: Seq<u64>,
    tickets: Seq<TicketView>,
    index: Seq<(Seq<char>, u64)>,
    k: nat,
) -> Seq<u64>
    decreases k,
{
    if k == 0 || k > tickets.len() {
        numbers
    } else {
        let rest = with_parent_numbers(numbers, tickets, index, (k - 1) as nat);
        match tickets[k - 1].parent {
            Some(parent) => match lookup_in(index, parent) {
                Some(number) => if rest.contains(number) {
                    rest
                } else {
                    rest.push(number)
                },
                None => rest,
            },
            None => rest,
        }
    }
}

/// The issues to fetch before the tickets are compared: those of the
/// tickets themselves, and those of their parents.
pub open spec fn numbers_to_fetch(tickets: Seq<TicketView>, index: Seq<(Seq<char>, u64)>) -> Seq<
    u64,
> {
    with_parent_numbers(own_numbers(tickets, tickets.len()), tickets, index, tickets.len())
}

/// The issue numbers of the first `k` tickets by ticket id. Where an id
/// occurs twice, the number of the later ticket stands.
pub open spec fn issue_index(tickets: Seq<TicketView>, k: nat) -> Seq<(Seq<char>, u64)>
    decreases k,
{
    if k == 0 || k > tickets.len() {
        Seq::empty()
    } else {
        let rest = issue_index(tickets, (k - 1) as nat);
        match github_number(tickets[k - 1].external_ref) {
            Some(number) => upsert(rest, tickets[k - 1].id, number),
            None => rest,
        }
    }
}

/// A ticket gets a new issue exactly where it has no reference to a GitHub
/// issue.
pub proof fn lemma_created_are_the_unsynced(tickets: Seq<TicketView>, k: nat, i: usize)
    requires
        k <= tickets.len() <= usize::MAX,
    ensures
        create_indices(tickets, k).contains(i) <==> i < k && !is_github_ref(
            tickets[i as int].external_ref,
        ),
    decreases k,
{
    if k > 0 {
        let rest = create_indices(tickets, (k - 1) as nat);
        lemma_created_are_the_unsynced(tickets, (k - 1) as nat, i);
        if !is_github_ref(tickets[k - 1].external_ref) {
            let all = rest.push((k - 1) as usize);
            if rest.contains(i) {
                let at = choose|at: int| 0 <= at < rest.len() && rest[at] == i;
                assert(all[at] == i);
            }
            if i == k - 1 {
                assert(all[rest.len() as int] == i);
            }
            if all.contains(i) {
                let at = choose|at: int| 0 <= at < all.len() && all[at] == i;
                if at < rest.len() {
                    assert(rest[at] == i);
                }
            }
        }
    }
}

/// Every planned update is what was decided for its ticket.
pub proof fn lemma_updates_are_decisions(
    tickets: Seq<TicketView>,
    existing: Map<u64, ExistingIssue>,
    index: Seq<(Seq<char>, u64)>,
    types: IssueTypes,
    k: nat,
    j: int,
)
    requires
        k <= tickets.len() <= usize::MAX,
        0 <= j < planned_updates(tickets, existing, index, types, k).len(),
    ensures
        ({
            let update = planned_updates(tickets, existing, index, types, k)[j];
            &&& update.ticket_idx < k
            &&& decision(
                tickets[update.ticket_idx as int],
                update.ticket_idx,
                existing,
                index,
                types,
            ) == Decision::Update(update)
        }),
    decreases k,
{
    if k > 0 {
        let rest = planned_updates(tickets, existing, index, types, (k - 1) as nat);
        if j < rest.len() {
            lemma_updates_are_decisions(tickets, existing, index, types, (k - 1) as nat, j);
        }
    }
}

/// A ticket whose result is settled is part of no request: no issue is
/// created for it and none is updated. So an issue that is not the ticket's
/// to change is left alone.
pub proof fn lemma_settled_is_left_alone(
    tickets: Seq<TicketView>,
    existing: Map<u64, ExistingIssue>,
    index: Seq<(Seq<char>, u64)>,
    types: IssueTypes,
    i: usize,
)
    requires
        i < tickets.len() <= usize::MAX,
        decision(tickets[i as int], i, existing, index, types) is Settled,
    ensures
        !create_indices(tickets, tickets.len()).contains(i),
        forall|j: int|
            0 <= j < planned_updates(tickets, existing, index, types, tickets.len()).len()
                ==> (#[trigger] planned_updates(
                tickets,
                existing,
                index,
                types,
                tickets.len(),
            )[j]).ticket_idx != i,
{
    lemma_created_are_the_unsynced(tickets, tickets.len(), i);
    assert forall|j: int|
        0 <= j < planned_updates(tickets, existing, index, types, tickets.len()).len() implies (
    #[trigger] planned_updates(tickets, existing, index, types, tickets.len())[j]).ticket_idx
        != i by {
        lemma_updates_are_decisions(tickets, existing, index, types, tickets.len(), j);
    }
}

/// Every update that was decided is among the planned ones.
pub proof fn lemma_decided_updates_are_planned(
    tickets: Seq<TicketView>,
    existing: Map<u64, ExistingIssue>,
    index: Seq<(Seq<char>, u64)>,
    types: IssueTypes,
    k: nat,
    i: usize,
)
    requires
        i < k <= tickets.len() <= usize::MAX,
        decision(tickets[i as int], i, existing, index, types) is Update,
    ensures
        exists|j: int|
            0 <= j < planned_updates(tickets, existing, index, types, k).len()
                && (#[trigger] planned_updates(tickets, existing, index, types, k)[j]).ticket_idx
                == i,
    decreases k,
{
    let all = planned_updates(tickets, existing, index, types, k);
    let rest = planned_updates(tickets, existing, index, types, (k - 1) as nat);
    if i == k - 1 {
        assert(all[rest.len() as int].ticket_idx == i);
    } else {
        lemma_decided_updates_are_planned(tickets, existing, index, types, (k - 1) as nat, i);
        let j = choose|j: int| 0 <= j < rest.len() && (#[trigger] rest[j]).ticket_idx == i;
        assert(all[j] == rest[j]);
    }
}

/// The ticket indices of the planned updates, in order.
pub open spec fn update_indices(updates: Seq<PendingUpdateView>) -> Seq<usize> {
    Seq::new(updates.len(), |j: int| updates[j].ticket_idx)
}

/// No ticket is left without a result: once a result was put in for every
/// creation and for every update of the plan, every ticket has one.
pub proof fn lemma_every_ticket_gets_a_result(
    tickets: Seq<TicketView>,
    existing: Map<u64, ExistingIssue>,
    index: Seq<(Seq<char>, u64)>,
    types: IssueTypes,
    created: Seq<SyncResultView>,
    updated: Seq<SyncResultView>,
    i: usize,
)
    requires
        i < tickets.len() <= usize::MAX,
        created.len() == create_indices(tickets, tickets.len()).len(),
        updated.len() == planned_updates(tickets, existing, index, types, tickets.len()).len(),
    ensures
        ({
            let settled_slots = Seq::new(
                tickets.len(),
                |t: int| settled(decision(tickets[t], t as usize, existing, index, types)),
            );
            let creates = create_indices(tickets, tickets.len());
            let updates = planned_updates(tickets, existing, index, types, tickets.len());
            let after_creates = with_results(settled_slots, creates, created, creates.len());
            let after_updates = with_results(
                after_creates,
                update_indices(updates),
                updated,
                updates.len(),
            );
            &&& after_updates.len() == tickets.len()
            &&& after_updates[i as int] is Some
        }),
{
    let settled_slots = Seq::new(
        tickets.len(),
        |t: int| settled(decision(tickets[t], t as usize, existing, index, types)),
    );
    let creates = create_indices(tickets, tickets.len());
    let updates = planned_updates(tickets, existing, index, types, tickets.len());
    let after_creates = with_results(settled_slots, creates, created, creates.len());
    lemma_with_results_len(settled_slots, creates, created, creates.len());
    match decision(tickets[i as int], i, existing, index, types) {
        Decision::Settled(_) => {
            lemma_placed_results_stay(settled_slots, creates, created, creates.len(), i as int);
            lemma_placed_results_stay(
                after_creates,
                update_indices(updates),
                updated,
                updates.len(),
                i as int,
            );
        },
        Decision::Create => {
            lemma_created_are_the_unsynced(tickets, tickets.len(), i);
            let j = choose|j: int| 0 <= j < creates.len() && creates[j] == i;
            lemma_placed_results_stay(settled_slots, creates, created, creates.len(), i as int);
            lemma_placed_results_stay(
                after_creates,
                update_indices(updates),
                updated,
                updates.len(),
                i as int,
            );
        },
        Decision::Update(_) => {
            lemma_decided_updates_are_planned(tickets, existing, index, types, tickets.len(), i);
            let j = choose|j: int|
                0 <= j < updates.len() && (#[trigger] updates[j]).ticket_idx == i;
            assert(update_indices(updates)[j] == i);
            lemma_placed_results_stay(
                after_creates,
                update_indices(updates),
                updated,
                updates.len(),
                i as int,
            );
        },
    }
}

/// The issue number of every synced ticket, by ticket id: see
/// [`issue_index`].
pub fn build_issue_index(all_tickets: &[Ticket]) -> (index: NameMap<u64>)
    ensures
        index.pairs() == issue_index(views(all_tickets@), all_tickets@.len()),
{
    let ghost models = views(all_tickets@);
    let mut index: NameMap<u64> = NameMap::new();
    let mut i: usize = 0;
    while i < all_tickets.len()
        invariant
            i <= all_tickets.len(),
            models == views(all_tickets@),
            index.pairs() == issue_index(models, i as nat),
        decreases all_tickets.len() - i,
    {
        assert(models[i as int] == all_tickets@[i as int]@);
        match all_tickets[i].github_issue_number() {
            Some(number) => {
                index.insert(all_tickets[i].id.clone(), number);
            },
            None => {},
        }
        i += 1;
    }
    index
}

/// The issues to fetch before the tickets are compared: see
/// [`numbers_to_fetch`].
pub fn prefetch_numbers(tickets: &[Ticket], ticket_to_issue: &NameMap<u64>) -> (numbers: Vec<u64>)
    ensures
        numbers@ == numbers_to_fetch(views(tickets@), ticket_to_issue.pairs()),
{
    let ghost models = views(tickets@);
    let ghost index = ticket_to_issue.pairs();
    let mut numbers: Vec<u64> = Vec::new();
    let mut i: usize = 0;
    while i < tickets.len()
        invariant
            i <= tickets.len(),
            models == views(tickets@),
            numbers@ == own_numbers(models, i as nat),
        decreases tickets.len() - i,
    {
        assert(models[i as int] == tickets@[i as int]@);
        match tickets[i].github_issue_number() {
            Some(number) => {
                numbers.push(number);
            },
            None => {},
        }
        i += 1;
    }
    let ghost own = numbers@;
    let mut k: usize = 0;
    while k < tickets.len()
        invariant
            k <= tickets.len(),
            models == views(tickets@),
            index == ticket_to_issue.pairs(),
            own == own_numbers(models, models.len()),
            numbers@ == with_parent_numbers(own, models, index, k as nat),
        decreases tickets.len() - k,
    {
        assert(models[k as int] == tickets@[k as int]@);
        match &tickets[k].parent {
            Some(parent) => {
                match ticket_to_issue.get(parent.as_str()) {
                    Some(number) => {
                        if !has_number(&numbers, *number) {
                            numbers.push(*number);
                        }
                    },
                    None => {},
                }
            },
            None => {},
        }
        k += 1;
    }
    numbers
}

/// Whether `number` is among `numbers`.
fn has_number(numbers: &Vec<u64>, number: u64) -> (r: bool)
    ensures
        r == numbers@.contains(number),
{
    let mut i: usize = 0;
    while i < numbers.len()
        invariant
            i <= numbers.len(),
            forall|j: int| 0 <= j < i ==> numbers@[j] != number,
        decreases numbers.len() - i,
    {
        if numbers[i] == number {
            return true;
        }
        i += 1;
    }
    false
}

/// Decides for every ticket what is to be done: see [`decision`].
///
/// `ticket_to_issue` maps the ids of synced tickets to their issue
/// numbers, `type_map` ticket types to the names of issue types, and
/// `issue_type_cache` those names, in lower case, to their ids.
pub fn plan_sync(
    tickets: &[Ticket],
    existing_issues: &HashMap<u64, ExistingIssue>,
    ticket_to_issue: &NameMap<u64>,
    type_map: &NameMap<String>,
    issue_type_cache: &NameMap<String>,
) -> (plan: SyncPlan)
    ensures
        ({
            let types = IssueTypes {
                type_map: text_pairs(type_map.pairs()),
                cache: text_pairs(issue_type_cache.pairs()),
            };
            let models = views(tickets@);
            let index = ticket_to_issue.pairs();
            &&& plan.results@.len() == tickets@.len()
            &&& forall|i: int|
                0 <= i < tickets@.len() ==> option_view(#[trigger] plan.results@[i]) == settled(
                    decision(models[i], i as usize, existing_issues@, index, types),
                )
            &&& plan.creates@ == create_indices(models, models.len())
            &&& views(plan.updates@) == planned_updates(
                models,
                existing_issues@,
                index,
                types,
                models.len(),
            )
        }),
{
    let ghost types = IssueTypes {
                type_map: text_pairs(type_map.pairs()),
                cache: text_pairs(issue_type_cache.pairs()),
            };
    let ghost models = views(tickets@);
    let ghost index = ticket_to_issue.pairs();
    let mut results: Vec<Option<SyncResult>> = Vec::new();
    let mut creates: Vec<usize> = Vec::new();
    let mut updates: Vec<PendingUpdate> = Vec::new();
    let mut i: usize = 0;
    assert(views(updates@) =~= planned_updates(models, existing_issues@, index, types, 0));
    while i < tickets.len()
        invariant
            i <= tickets.len(),
            models == views(tickets@),
            index == ticket_to_issue.pairs(),
            types == (IssueTypes {
                type_map: text_pairs(type_map.pairs()),
                cache: text_pairs(issue_type_cache.pairs()),
            }),
            results@.len() == i,
            forall|j: int|
                0 <= j < i ==> option_view(#[trigger] results@[j]) == settled(
                    decision(models[j], j as usize, existing_issues@, index, types),
                ),
            creates@ == create_indices(models, i as nat),
            views(updates@) == planned_updates(models, existing_issues@, index, types, i as nat),
        decreases tickets.len() - i,
    {
        let ticket = &tickets[i];
        assert(models[i as int] == ticket@);
        let ghost before = views(updates@);
        if ticket.is_synced() {
            match check_update_needed(ticket, existing_issues, ticket_to_issue) {
                UpdateCheck::NoChanges => {
                    results.push(
                        Some(SyncResult::Skipped { reason: String::from_str("no changes") }),
                    );
                },
                UpdateCheck::Conflict(reason) => {
                    results.push(Some(SyncResult::Skipped { reason }));
                },
                UpdateCheck::Error(error) => {
                    results.push(Some(SyncResult::Failed { error }));
                },
                UpdateCheck::NeedsUpdate {
                    issue_id,
                    issue_number,
                    title,
                    body,
                    needs_close,
                    needs_reopen,
                } => {
                    let issue_type_id = resolve_issue_type(
                        ticket.ticket_type.as_str(),
                        type_map,
                        issue_type_cache,
                    );
                    updates.push(
                        PendingUpdate {
                            ticket_idx: i,
                            issue_id,
                            issue_number,
                            title,
                            body,
                            needs_close,
                            needs_reopen,
                            issue_type_id,
                        },
                    );
                    results.push(None);
                    assert(views(updates@) =~= before.push(updates@[updates@.len() - 1]@));
                },
            }
        } else {
            creates.push(i);
            results.push(None);
        }
        assert(views(updates@) =~= planned_updates(
            models,
            existing_issues@,
            index,
            types,
            (i + 1) as nat,
        ));
        i += 1;
    }
    SyncPlan { results, creates, updates }
}

} // verus!
