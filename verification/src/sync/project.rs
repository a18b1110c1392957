//! The project: which new issues are added to it, and which items get
//! which status.

use crate::github::fields::{StatusUpdate, StatusUpdateView};
use crate::github::issues::ExistingIssue;
use crate::github::projects::{ProjectItemInfo, ProjectItemInfoView};
use crate::name_map::{lemma_lookup_text, lookup_in, text_pairs, NameMap};
use crate::sync::{SyncResult, SyncResultView};
use crate::sync::fields::StatusFieldCache;
use crate::sync::links::shorter;
use crate::text::{lowercase, outcome_view, to_lowercase, views};
use crate::ticket::{github_number, Ticket, TicketView};
use std::collections::HashMap;
use vstd::prelude::*;

verus! {

/// A new issue that is to be added to the project.
#[derive(Debug)]
pub struct ProjectCandidate {
    pub issue_id: String,
    pub ticket_id: String,
    pub ticket_status: String,
}

/// An issue in the project: the model of a candidate, under the id of its
/// issue, and of an item, under the id of the item.
pub struct ProjectEntryView {
    pub id: Seq<char>,
    pub ticket_id: Seq<char>,
    pub ticket_status: Seq<char>,
}

impl View for ProjectCandidate {
    type V = ProjectEntryView;

    open spec fn view(&self) -> ProjectEntryView {
        ProjectEntryView {
            id: self.issue_id@,
            ticket_id: self.ticket_id@,
            ticket_status: self.ticket_status@,
        }
    }
}

/// An item of the project whose fields are to be set.
#[derive(Debug)]
pub struct ProjectItem {
    pub item_id: String,
    pub ticket_id: String,
    pub ticket_status: String,
}

impl View for ProjectItem {
    type V = ProjectEntryView;

    open spec fn view(&self) -> ProjectEntryView {
        ProjectEntryView {
            id: self.item_id@,
            ticket_id: self.ticket_id@,
            ticket_status: self.ticket_status@,
        }
    }
}

/// A synced ticket whose status has an option in the project.
#[derive(Debug)]
pub struct StatusTarget {
    pub issue_id: String,
    pub ticket_id: String,
    pub option_id: String,
}

/// The model of a [`StatusTarget`].
pub struct StatusTargetView {
    pub issue_id: Seq<char>,
    pub ticket_id: Seq<char>,
    pub option_id: Seq<char>,
}

impl View for StatusTarget {
    type V = StatusTargetView;

    open spec fn view(&self) -> StatusTargetView {
        StatusTargetView {
            issue_id: self.issue_id@,
            ticket_id: self.ticket_id@,
            option_id: self.option_id@,
        }
    }
}

/// The issues that were created for the first `k` tickets of the run, in
/// order. Result `i` is that of ticket `i`.
pub open spec fn created_candidates(
    tickets: Seq<TicketView>,
    results: Seq<SyncResultView>,
    k: nat,
) -> Seq<ProjectEntryView>
    decreases k,
{
    if k == 0 || k > tickets.len() || k > results.len() {
        Seq::empty()
    } else {
        let rest = created_candidates(tickets, results, (k - 1) as nat);
        match results[k - 1] {
            SyncResultView::Created { issue_id, .. } => rest.push(
                ProjectEntryView {
                    id: issue_id,
                    ticket_id: tickets[k - 1].id,
                    ticket_status: tickets[k - 1].status,
                },
            ),
            _ => rest,
        }
    }
}

/// The items among the first `k` candidates whose fields can be set: those
/// that were added under an item id that is not empty.
pub open spec fn added_items(
    candidates: Seq<ProjectEntryView>,
    added: Seq<Result<ProjectItemInfoView, Seq<char>>>,
    k: nat,
) -> Seq<ProjectEntryView>
    decreases k,
{
    if k == 0 || k > candidates.len() || k > added.len() {
        Seq::empty()
    } else {
        let rest = added_items(candidates, added, (k - 1) as nat);
        match added[k - 1] {
            Ok(info) => if info.item_id.len() > 0 {
                rest.push(ProjectEntryView { id: info.item_id, ..candidates[k - 1] })
            } else {
                rest
            },
            Err(_) => rest,
        }
    }
}

/// The status to set for the first `k` items: the option that the status
/// of the ticket, in lower case, is mapped to, for every item whose status
/// is mapped.
pub open spec fn item_status_updates(
    items: Seq<ProjectEntryView>,
    options: Seq<(Seq<char>, Seq<char>)>,
    k: nat,
) -> Seq<StatusUpdateView>
    decreases k,
{
    if k == 0 || k > items.len() {
        Seq::empty()
    } else {
        let rest = item_status_updates(items, options, (k - 1) as nat);
        match lookup_in(options, lowercase(items[k - 1].ticket_status)) {
            Some(option_id) => rest.push(StatusUpdateView { item_id: items[k - 1].id, option_id }),
            None => rest,
        }
    }
}

/// The ids of the entries, in order.
pub open spec fn entry_ids(entries: Seq<ProjectEntryView>) -> Seq<Seq<char>> {
    Seq::new(entries.len(), |i: int| entries[i].id)
}

/// The tickets, among the first `k`, whose status is to be set in the
/// project: those that are synced to an issue which was fetched and whose
/// status, in lower case, is mapped to an option.
pub open spec fn status_targets(
    tickets: Seq<TicketView>,
    existing: Map<u64, ExistingIssue>,
    options: Seq<(Seq<char>, Seq<char>)>,
    k: nat,
) -> Seq<StatusTargetView>
    decreases k,
{
    if k == 0 || k > tickets.len() {
        Seq::empty()
    } else {
        let rest = status_targets(tickets, existing, options, (k - 1) as nat);
        let ticket = tickets[k - 1];
        match github_number(ticket.external_ref) {
            Some(number) => if existing.contains_key(number) {
                match lookup_in(options, lowercase(ticket.status)) {
                    Some(option_id) => rest.push(
                        StatusTargetView {
                            issue_id: existing[number]@.id,
                            ticket_id: ticket.id,
                            option_id,
                        },
                    ),
                    None => rest,
                }
            } else {
                rest
            },
            None => rest,
        }
    }
}

/// The issue ids of the targets, in order.
pub open spec fn target_issue_ids(targets: Seq<StatusTargetView>) -> Seq<Seq<char>> {
    Seq::new(targets.len(), |i: int| targets[i].issue_id)
}

/// The status to set for the first `k` targets: for every target whose
/// issue is an item of the project, the option of the target.
pub open spec fn target_status_updates(
    targets: Seq<StatusTargetView>,
    item_ids: Seq<(Seq<char>, Seq<char>)>,
    k: nat,
) -> Seq<StatusUpdateView>
    decreases k,
{
    if k == 0 || k > targets.len() {
        Seq::empty()
    } else {
        let rest = target_status_updates(targets, item_ids, (k - 1) as nat);
        match lookup_in(item_ids, targets[k - 1].issue_id) {
            Some(item_id) => rest.push(
                StatusUpdateView { item_id, option_id: targets[k - 1].option_id },
            ),
            None => rest,
        }
    }
}

/// The issues that this run created, to be added to the project: see
/// [`created_candidates`].
pub fn new_issue_candidates(tickets: &[Ticket], results: &[SyncResult]) -> (candidates: Vec<
    ProjectCandidate,
>)
    ensures
        views(candidates@) == created_candidates(
            views(tickets@),
            views(results@),
            shorter(tickets@.len(), results@.len()),
        ),
{
    let ghost models = views(tickets@);
    let ghost outcomes = views(results@);
    let n = if tickets.len() <= results.len() {
        tickets.len()
    } else {
        results.len()
    };
    let mut candidates: Vec<ProjectCandidate> = Vec::new();
    assert(views(candidates@) =~= created_candidates(models, outcomes, 0));
    let mut i: usize = 0;
    while i < n
        invariant
            i <= n,
            n == shorter(tickets@.len(), results@.len()),
            models == views(tickets@),
            outcomes == views(results@),
            views(candidates@) == created_candidates(models, outcomes, i as nat),
        decreases n - i,
    {
        let ghost before = views(candidates@);
        assert(models[i as int] == tickets@[i as int]@);
        assert(outcomes[i as int] == results@[i as int]@);
        match &results[i] {
            SyncResult::Created { issue_id, .. } => {
                candidates.push(
                    ProjectCandidate {
                        issue_id: issue_id.clone(),
                        ticket_id: tickets[i].id.clone(),
                        ticket_status: tickets[i].status.clone(),
                    },
                );
                assert(views(candidates@) =~= before.push(candidates@[candidates@.len() - 1]@));
            },
            _ => {},
        }
        i += 1;
    }
    candidates
}

/// The ids of the issues of the candidates, in order.
pub fn candidate_issue_ids(candidates: &[ProjectCandidate]) -> (ids: Vec<String>)
    ensures
        views(ids@) == entry_ids(views(candidates@)),
{
    let mut ids: Vec<String> = Vec::new();
    let mut i: usize = 0;
    while i < candidates.len()
        invariant
            i <= candidates.len(),
            ids@.len() == i,
            forall|j: int| 0 <= j < i ==> (#[trigger] ids@[j])@ == candidates@[j]@.id,
        decreases candidates.len() - i,
    {
        ids.push(candidates[i].issue_id.clone());
        i += 1;
    }
    assert(views(ids@) =~= entry_ids(views(candidates@)));
    ids
}

/// The ids of the items, in order.
pub fn item_ids(items: &[ProjectItem]) -> (ids: Vec<String>)
    ensures
        views(ids@) == entry_ids(views(items@)),
{
    let mut ids: Vec<String> = Vec::new();
    let mut i: usize = 0;
    while i < items.len()
        invariant
            i <= items.len(),
            ids@.len() == i,
            forall|j: int| 0 <= j < i ==> (#[trigger] ids@[j])@ == items@[j]@.id,
        decreases items.len() - i,
    {
        ids.push(items[i].item_id.clone());
        i += 1;
    }
    assert(views(ids@) =~= entry_ids(views(items@)));
    ids
}

/// The models of the outcomes of a batch of additions.
pub open spec fn added_views(added: Seq<Result<ProjectItemInfo, String>>) -> Seq<
    Result<ProjectItemInfoView, Seq<char>>,
> {
    Seq::new(added.len(), |i: int| outcome_view(added[i]))
}

/// The items whose fields can be set: see [`added_items`]. Outcome `i` is
/// that of candidate `i`.
pub fn items_to_fill(candidates: &[ProjectCandidate], added: &[Result<ProjectItemInfo, String>]) -> (items:
    Vec<ProjectItem>)
    ensures
        views(items@) == added_items(
            views(candidates@),
            added_views(added@),
            shorter(candidates@.len(), added@.len()),
        ),
{
    let ghost models = views(candidates@);
    let ghost outcomes = added_views(added@);
    let n = if candidates.len() <= added.len() {
        candidates.len()
    } else {
        added.len()
    };
    let mut items: Vec<ProjectItem> = Vec::new();
    assert(views(items@) =~= added_items(models, outcomes, 0));
    let mut i: usize = 0;
    while i < n
        invariant
            i <= n,
            n == shorter(candidates@.len(), added@.len()),
            models == views(candidates@),
            outcomes == added_views(added@),
            views(items@) == added_items(models, outcomes, i as nat),
        decreases n - i,
    {
        let ghost before = views(items@);
        assert(models[i as int] == candidates@[i as int]@);
        assert(outcomes[i as int] == outcome_view(added@[i as int]));
        match &added[i] {
            Ok(info) => {
                let id = info.item_id.as_str();
                if !id.is_empty() {
                    items.push(
                        ProjectItem {
                            item_id: info.item_id.clone(),
                            ticket_id: candidates[i].ticket_id.clone(),
                            ticket_status: candidates[i].ticket_status.clone(),
                        },
                    );
                    assert(views(items@) =~= before.push(items@[items@.len() - 1]@));
                }
            },
            Err(_) => {},
        }
        i += 1;
    }
    items
}

/// The status to set for the items: see [`item_status_updates`].
pub fn status_updates_for_items(items: &[ProjectItem], status: &StatusFieldCache) -> (updates: Vec<
    StatusUpdate,
>)
    ensures
        views(updates@) == item_status_updates(
            views(items@),
            text_pairs(status.status_to_option.pairs()),
            items@.len(),
        ),
{
    let ghost models = views(items@);
    let ghost options = text_pairs(status.status_to_option.pairs());
    let mut updates: Vec<StatusUpdate> = Vec::new();
    assert(views(updates@) =~= item_status_updates(models, options, 0));
    let mut i: usize = 0;
    while i < items.len()
        invariant
            i <= items.len(),
            models == views(items@),
            options == text_pairs(status.status_to_option.pairs()),
            views(updates@) == item_status_updates(models, options, i as nat),
        decreases items.len() - i,
    {
        let ghost before = views(updates@);
        assert(models[i as int] == items@[i as int]@);
        let key = to_lowercase(items[i].ticket_status.as_str());
        proof {
            lemma_lookup_text(status.status_to_option.pairs(), key@);
        }
        match status.status_to_option.get(key.as_str()) {
            Some(option_id) => {
                updates.push(
                    StatusUpdate {
                        item_id: items[i].item_id.clone(),
                        option_id: option_id.clone(),
                    },
                );
                assert(views(updates@) =~= before.push(updates@[updates@.len() - 1]@));
            },
            None => {},
        }
        i += 1;
    }
    updates
}

/// The tickets whose status is to be set in the project: see
/// [`status_targets`].
pub fn find_status_targets(
    tickets: &[Ticket],
    existing_issues: &HashMap<u64, ExistingIssue>,
    status: &StatusFieldCache,
) -> (targets: Vec<StatusTarget>)
    ensures
        views(targets@) == status_targets(
            views(tickets@),
            existing_issues@,
            text_pairs(status.status_to_option.pairs()),
            tickets@.len(),
        ),
{
    let ghost models = views(tickets@);
    let ghost options = text_pairs(status.status_to_option.pairs());
    let mut targets: Vec<StatusTarget> = Vec::new();
    assert(views(targets@) =~= status_targets(models, existing_issues@, options, 0));
    let mut i: usize = 0;
    while i < tickets.len()
        invariant
            i <= tickets.len(),
            models == views(tickets@),
            options == text_pairs(status.status_to_option.pairs()),
            views(targets@) == status_targets(models, existing_issues@, options, i as nat),
        decreases tickets.len() - i,
    {
        let ghost before = views(targets@);
        let ticket = &tickets[i];
        assert(models[i as int] == ticket@);
        match ticket.github_issue_number() {
            Some(number) => {
                match existing_issues.get(&number) {
                    Some(issue) => {
                        let key = to_lowercase(ticket.status.as_str());
                        proof {
                            lemma_lookup_text(status.status_to_option.pairs(), key@);
                        }
                        match status.status_to_option.get(key.as_str()) {
                            Some(option_id) => {
                                targets.push(
                                    StatusTarget {
                                        issue_id: issue.id.clone(),
                                        ticket_id: ticket.id.clone(),
                                        option_id: option_id.clone(),
                                    },
                                );
                                assert(views(targets@) =~= before.push(
                                    targets@[targets@.len() - 1]@,
                                ));
                            },
                            None => {},
                        }
                    },
                    None => {},
                }
            },
            None => {},
        }
        i += 1;
    }
    targets
}

/// The ids of the issues of the targets, in order.
pub fn issue_ids_of_targets(targets: &[StatusTarget]) -> (ids: Vec<String>)
    ensures
        views(ids@) == target_issue_ids(views(targets@)),
{
    let mut ids: Vec<String> = Vec::new();
    let mut i: usize = 0;
    while i < targets.len()
        invariant
            i <= targets.len(),
            ids@.len() == i,
            forall|j: int| 0 <= j < i ==> (#[trigger] ids@[j])@ == targets@[j]@.issue_id,
        decreases targets.len() - i,
    {
        ids.push(targets[i].issue_id.clone());
        i += 1;
    }
    assert(views(ids@) =~= target_issue_ids(views(targets@)));
    ids
}

/// The status to set for the targets, given the item of each issue that is
/// in the project: see [`target_status_updates`].
pub fn status_updates_for_targets(targets: &[StatusTarget], item_ids: &NameMap<String>) -> (updates:
    Vec<StatusUpdate>)
    ensures
        views(updates@) == target_status_updates(
            views(targets@),
            text_pairs(item_ids.pairs()),
            targets@.len(),
        ),
{
    let ghost models = views(targets@);
    let ghost items = text_pairs(item_ids.pairs());
    let mut updates: Vec<StatusUpdate> = Vec::new();
    assert(views(updates@) =~= target_status_updates(models, items, 0));
    let mut i: usize = 0;
    while i < targets.len()
        invariant
            i <= targets.len(),
            models == views(targets@),
            items == text_pairs(item_ids.pairs()),
            views(updates@) == target_status_updates(models, items, i as nat),
        decreases targets.len() - i,
    {
        let ghost before = views(updates@);
        assert(models[i as int] == targets@[i as int]@);
        proof {
            lemma_lookup_text(item_ids.pairs(), targets@[i as int].issue_id@);
        }
        match item_ids.get(targets[i].issue_id.as_str()) {
            Some(item_id) => {
                updates.push(
                    StatusUpdate {
                        item_id: item_id.clone(),
                        option_id: targets[i].option_id.clone(),
                    },
                );
                assert(views(updates@) =~= before.push(updates@[updates@.len() - 1]@));
            },
            None => {},
        }
        i += 1;
    }
    updates
}

} // verus!
