//! Parent and child tickets: which issues are to be linked as sub-issues.

use crate::github::batch::{batch_request, GraphQLRequest, Operation};
use crate::github::issues::ExistingIssue;
use crate::github::subissues::{
    add_sub_issues_batch_request, link_input, SubIssueLink, SubIssueLinkView,
};
use crate::name_map::{lemma_lookup_text, lemma_upsert_text, lookup_in, text_pairs, upsert, NameMap};
use crate::seqs::{first_where, lemma_first_where};
use crate::sync::{SyncResult, SyncResultView};
use crate::text::views;
use crate::ticket::{github_number, Ticket, TicketView};
use std::collections::HashMap;
use vstd::prelude::*;

verus! {

/// A link to make, with the id of the ticket of the child.
#[derive(Debug)]
pub struct PlannedLink {
    pub child_ticket_id: String,
    pub link: SubIssueLink,
}

/// The model of a [`PlannedLink`].
pub struct PlannedLinkView {
    pub child_ticket_id: Seq<char>,
    pub link: SubIssueLinkView,
}

impl View for PlannedLink {
    type V = PlannedLinkView;

    open spec fn view(&self) -> PlannedLinkView {
        PlannedLinkView { child_ticket_id: self.child_ticket_id@, link: self.link@ }
    }
}

/// The node ids of the issues of the first `k` of all tickets, by ticket
/// id, as far as the issues were fetched.
pub open spec fn fetched_nodes(
    all_tickets: Seq<TicketView>,
    existing: Map<u64, ExistingIssue>,
    k: nat,
) -> Seq<(Seq<char>, Seq<char>)>
    decreases k,
{
    if k == 0 || k > all_tickets.len() {
        Seq::empty()
    } else {
        let rest = fetched_nodes(all_tickets, existing, (k - 1) as nat);
        match github_number(all_tickets[k - 1].external_ref) {
            Some(number) => if existing.contains_key(number) {
                upsert(rest, all_tickets[k - 1].id, existing[number]@.id)
            } else {
                rest
            },
            None => rest,
        }
    }
}

/// `nodes` and the node ids of the issues that were created for the first
/// `k` tickets of the run, by ticket id.
pub open spec fn with_created_nodes(
    nodes: Seq<(Seq<char>, Seq<char>)>,
    tickets: Seq<TicketView>,
    results: Seq<SyncResultView>,
    k: nat,
) -> Seq<(Seq<char>, Seq<char>)>
    decreases k,
{
    if k == 0 || k > tickets.len() || k > results.len() {
        nodes
    } else {
        let rest = with_created_nodes(nodes, tickets, results, (k - 1) as nat);
        match results[k - 1] {
            SyncResultView::Created { issue_id, .. } => upsert(rest, tickets[k - 1].id, issue_id),
            _ => rest,
        }
    }
}

/// The smaller of two lengths.
pub open spec fn shorter(a: nat, b: nat) -> nat {
    if a <= b {
        a
    } else {
        b
    }
}

/// The node id of the issue of every ticket that has one, by ticket id:
/// from the issues that were fetched, and over them from the issues that
/// this run created. Result `i` is that of ticket `i` of the run.
pub open spec fn node_index(
    all_tickets: Seq<TicketView>,
    existing: Map<u64, ExistingIssue>,
    tickets: Seq<TicketView>,
    results: Seq<SyncResultView>,
) -> Seq<(Seq<char>, Seq<char>)> {
    with_created_nodes(
        fetched_nodes(all_tickets, existing, all_tickets.len()),
        tickets,
        results,
        shorter(tickets.len(), results.len()),
    )
}

/// The link for a ticket: one where the ticket has a parent and the issues
/// of both are known.
pub open spec fn link_for(ticket: TicketView, nodes: Seq<(Seq<char>, Seq<char>)>) -> Option<
    PlannedLinkView,
> {
    match ticket.parent {
        None => None,
        Some(parent) => match (lookup_in(nodes, parent), lookup_in(nodes, ticket.id)) {
            (Some(parent_issue), Some(child_issue)) => Some(
                PlannedLinkView {
                    child_ticket_id: ticket.id,
                    link: SubIssueLinkView {
                        parent_issue_id: parent_issue,
                        child_issue_id: child_issue,
                    },
                },
            ),
            _ => None,
        },
    }
}

/// The links for the first `k` tickets, in order.
pub open spec fn planned_links(
    tickets: Seq<TicketView>,
    nodes: Seq<(Seq<char>, Seq<char>)>,
    k: nat,
) -> Seq<PlannedLinkView>
    decreases k,
{
    if k == 0 || k > tickets.len() {
        Seq::empty()
    } else {
        let rest = planned_links(tickets, nodes, (k - 1) as nat);
        match link_for(tickets[k - 1], nodes) {
            Some(link) => rest.push(link),
            None => rest,
        }
    }
}

/// The index of the first ticket whose issue has the given node id, or the
/// number of tickets.
pub open spec fn first_with_node(
    all_tickets: Seq<TicketView>,
    nodes: Seq<(Seq<char>, Seq<char>)>,
    node_id: Seq<char>,
) -> int {
    first_where(all_tickets, |ticket: TicketView| lookup_in(nodes, ticket.id) == Some(node_id))
}

/// The id of the ticket whose issue has the given node id, for display;
/// `?` where no ticket has it.
pub open spec fn ticket_of_node(
    all_tickets: Seq<TicketView>,
    nodes: Seq<(Seq<char>, Seq<char>)>,
    node_id: Seq<char>,
) -> Seq<char> {
    let at = first_with_node(all_tickets, nodes, node_id);
    if 0 <= at < all_tickets.len() {
        all_tickets[at].id
    } else {
        "?"@
    }
}

/// The node id of the issue of every ticket that has one: see
/// [`node_index`].
pub fn build_node_index(
    all_tickets: &[Ticket],
    existing_issues: &HashMap<u64, ExistingIssue>,
    tickets: &[Ticket],
    results: &[SyncResult],
) -> (nodes: NameMap<String>)
    ensures
        text_pairs(nodes.pairs()) == node_index(
            views(all_tickets@),
            existing_issues@,
            views(tickets@),
            views(results@),
        ),
{
    let ghost all = views(all_tickets@);
    let ghost models = views(tickets@);
    let ghost outcomes = views(results@);
    let mut nodes: NameMap<String> = NameMap::new();
    assert(text_pairs(nodes.pairs()) =~= fetched_nodes(all, existing_issues@, 0));
    let mut i: usize = 0;
    while i < all_tickets.len()
        invariant
            i <= all_tickets.len(),
            all == views(all_tickets@),
            text_pairs(nodes.pairs()) == fetched_nodes(all, existing_issues@, i as nat),
        decreases all_tickets.len() - i,
    {
        assert(all[i as int] == all_tickets@[i as int]@);
        match all_tickets[i].github_issue_number() {
            Some(number) => {
                match existing_issues.get(&number) {
                    Some(issue) => {
                        let key = all_tickets[i].id.clone();
                        let value = issue.id.clone();
                        proof {
                            lemma_upsert_text(nodes.pairs(), key@, value);
                        }
                        nodes.insert(key, value);
                    },
                    None => {},
                }
            },
            None => {},
        }
        i += 1;
    }
    let n = if tickets.len() <= results.len() {
        tickets.len()
    } else {
        results.len()
    };
    let ghost fetched = text_pairs(nodes.pairs());
    let mut k: usize = 0;
    while k < n
        invariant
            k <= n,
            n == shorter(tickets@.len(), results@.len()),
            models == views(tickets@),
            outcomes == views(results@),
            text_pairs(nodes.pairs()) == with_created_nodes(fetched, models, outcomes, k as nat),
        decreases n - k,
    {
        assert(models[k as int] == tickets@[k as int]@);
        assert(outcomes[k as int] == results@[k as int]@);
        match &results[k] {
            SyncResult::Created { issue_id, .. } => {
                let key = tickets[k].id.clone();
                let value = issue_id.clone();
                proof {
                    lemma_upsert_text(nodes.pairs(), key@, value);
                }
                nodes.insert(key, value);
            },
            _ => {},
        }
        k += 1;
    }
    nodes
}

/// The links to make for the tickets of the run, in order: see
/// [`link_for`].
pub fn plan_links(tickets: &[Ticket], nodes: &NameMap<String>) -> (links: Vec<PlannedLink>)
    ensures
        views(links@) == planned_links(
            views(tickets@),
            text_pairs(nodes.pairs()),
            tickets@.len(),
        ),
{
    let ghost models = views(tickets@);
    let ghost index = text_pairs(nodes.pairs());
    let mut links: Vec<PlannedLink> = Vec::new();
    assert(views(links@) =~= planned_links(models, index, 0));
    let mut i: usize = 0;
    while i < tickets.len()
        invariant
            i <= tickets.len(),
            models == views(tickets@),
            index == text_pairs(nodes.pairs()),
            views(links@) == planned_links(models, index, i as nat),
        decreases tickets.len() - i,
    {
        let ticket = &tickets[i];
        let ghost before = views(links@);
        assert(models[i as int] == ticket@);
        match &ticket.parent {
            Some(parent) => {
                proof {
                    lemma_lookup_text(nodes.pairs(), parent@);
                    lemma_lookup_text(nodes.pairs(), ticket.id@);
                }
                match (nodes.get(parent.as_str()), nodes.get(ticket.id.as_str())) {
                    (Some(parent_issue), Some(child_issue)) => {
                        links.push(
                            PlannedLink {
                                child_ticket_id: ticket.id.clone(),
                                link: SubIssueLink {
                                    parent_issue_id: parent_issue.clone(),
                                    child_issue_id: child_issue.clone(),
                                },
                            },
                        );
                        assert(views(links@) =~= before.push(links@[links@.len() - 1]@));
                    },
                    _ => {},
                }
            },
            None => {},
        }
        i += 1;
    }
    links
}

/// The one request that makes all planned links; no request where none is
/// planned.
pub fn link_sub_issues_request(links: &[PlannedLink]) -> (request: Option<GraphQLRequest>)
    ensures
        links@.len() == 0 ==> request is None,
        links@.len() > 0 ==> request is Some && request->0@ == batch_request(
            Operation::AddSubIssue,
            Seq::new(links@.len(), |i: int| link_input(links@[i]@.link)),
        ),
{
    let mut plain: Vec<SubIssueLink> = Vec::new();
    let mut i: usize = 0;
    while i < links.len()
        invariant
            i <= links.len(),
            plain@.len() == i,
            forall|j: int| 0 <= j < i ==> (#[trigger] plain@[j])@ == links@[j]@.link,
        decreases links.len() - i,
    {
        plain.push(links[i].link.clone());
        i += 1;
    }
    let request = add_sub_issues_batch_request(plain.as_slice());
    assert(Seq::new(plain@.len(), |i: int| link_input(plain@[i]@)) =~= Seq::new(
        links@.len(),
        |i: int| link_input(links@[i]@.link),
    ));
    request
}

/// The id of the ticket whose issue has the given node id, for display:
/// see [`ticket_of_node`].
pub fn parent_ticket_id(all_tickets: &[Ticket], nodes: &NameMap<String>, node_id: &str) -> (id:
    String)
    ensures
        id@ == ticket_of_node(views(all_tickets@), text_pairs(nodes.pairs()), node_id@),
{
    let ghost all = views(all_tickets@);
    let ghost index = text_pairs(nodes.pairs());
    let wanted = String::from_str(node_id);
    let mut i: usize = 0;
    while i < all_tickets.len()
        invariant
            i <= all_tickets.len(),
            all == views(all_tickets@),
            index == text_pairs(nodes.pairs()),
            wanted@ == node_id@,
            forall|j: int| 0 <= j < i ==> lookup_in(index, all[j].id) != Some(node_id@),
        decreases all_tickets.len() - i,
    {
        assert(all[i as int] == all_tickets@[i as int]@);
        proof {
            lemma_lookup_text(nodes.pairs(), all_tickets@[i as int].id@);
        }
        let found = match nodes.get(all_tickets[i].id.as_str()) {
            Some(node) => *node == wanted,
            None => false,
        };
        if found {
            proof {
                lemma_first_where(
                    all,
                    |ticket: TicketView| lookup_in(index, ticket.id) == Some(node_id@),
                    i as int,
                );
            }
            return all_tickets[i].id.clone();
        }
        i += 1;
    }
    proof {
        lemma_first_where(
            all,
            |ticket: TicketView| lookup_in(index, ticket.id) == Some(node_id@),
            i as int,
        );
    }
    String::from_str("?")
}

} // verus!
