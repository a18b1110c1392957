//! New issues: the labels of a ticket, the batch that creates the issues,
//! and what is recorded of each.

use crate::decimal::{decimal, decimal_chars};
use crate::github::batch::{batch_request, GraphQLRequest, Operation};
use crate::github::issues::{
    create_input, create_issues_batch_request, create_issues_batch_results, created_outcome,
    IssueCreate, IssueCreateView,
};
use crate::github::json::{Json, JsonView};
use crate::name_map::{text_pairs, NameMap};
use crate::sync::{
    format_issue_body_with_deps, issue_body, issue_type_for, resolve_issue_type, SyncResult,
    SyncResultView,
};
use crate::sync::plan::{PendingCreate, PendingCreateView};
use crate::text::{
    copy_option, copy_strings, extend_from, extend_str, option_view, outcome_view, string_of, views,
};
use crate::ticket::{external_ref_for, github_ref, Ticket, TicketView};
use vstd::prelude::*;

verus! {

/// The issue to create for the ticket at `idx`, with the given labels.
pub open spec fn pending_create(
    ticket: TicketView,
    idx: usize,
    label_ids: Seq<Seq<char>>,
    index: Seq<(Seq<char>, u64)>,
    type_map: Seq<(Seq<char>, Seq<char>)>,
    cache: Seq<(Seq<char>, Seq<char>)>,
) -> PendingCreateView {
    PendingCreateView {
        ticket_idx: idx,
        title: ticket.title,
        body: issue_body(ticket.id, ticket.body, ticket.deps, index),
        label_ids,
        issue_type_id: issue_type_for(ticket.ticket_type, type_map, cache),
    }
}

/// The issue to create for a ticket: see [`pending_create`].
pub fn build_pending_create(
    ticket: &Ticket,
    ticket_idx: usize,
    label_ids: Vec<String>,
    ticket_to_issue: &NameMap<u64>,
    type_map: &NameMap<String>,
    issue_type_cache: &NameMap<String>,
) -> (pending: PendingCreate)
    ensures
        pending@ == pending_create(
            ticket@,
            ticket_idx,
            views(label_ids@),
            ticket_to_issue.pairs(),
            text_pairs(type_map.pairs()),
            text_pairs(issue_type_cache.pairs()),
        ),
{
    let body = format_issue_body_with_deps(
        ticket.id.as_str(),
        ticket.body.as_str(),
        ticket.deps.as_slice(),
        ticket_to_issue,
    );
    let issue_type_id = resolve_issue_type(
        ticket.ticket_type.as_str(),
        type_map,
        issue_type_cache,
    );
    PendingCreate { ticket_idx, title: ticket.title.clone(), body, label_ids, issue_type_id }
}

/// What a pending creation asks the API for.
pub open spec fn as_issue_create(pending: PendingCreateView) -> IssueCreateView {
    IssueCreateView {
        title: pending.title,
        body: pending.body,
        label_ids: pending.label_ids,
        issue_type_id: pending.issue_type_id,
    }
}

/// The assignees of every new issue: the configured one, if any.
pub open spec fn assignees(assignee_id: Option<Seq<char>>) -> Seq<Seq<char>> {
    match assignee_id {
        Some(id) => seq![id],
        None => Seq::empty(),
    }
}

/// The one request that creates the issues of all pending creations in the
/// repository; no request where nothing is pending.
pub fn batch_create_request(
    repo_id: &str,
    pending: &[PendingCreate],
    assignee_id: &Option<String>,
) -> (request: Option<GraphQLRequest>)
    ensures
        pending@.len() == 0 ==> request is None,
        pending@.len() > 0 ==> request is Some && request->0@ == batch_request(
            Operation::CreateIssue,
            Seq::new(
                pending@.len(),
                |i: int|
                    create_input(
                        repo_id@,
                        as_issue_create(pending@[i]@),
                        assignees(option_view(*assignee_id)),
                    ),
            ),
        ),
{
    let mut creates: Vec<IssueCreate> = Vec::new();
    let mut i: usize = 0;
    while i < pending.len()
        invariant
            i <= pending.len(),
            creates@.len() == i,
            forall|j: int| 0 <= j < i ==> (#[trigger] creates@[j])@ == as_issue_create(pending@[j]@),
        decreases pending.len() - i,
    {
        let p = &pending[i];
        creates.push(
            IssueCreate {
                title: p.title.clone(),
                body: p.body.clone(),
                label_ids: copy_strings(p.label_ids.as_slice()),
                issue_type_id: copy_option(&p.issue_type_id),
            },
        );
        i += 1;
    }
    let mut assignee_ids: Vec<String> = Vec::new();
    match assignee_id {
        Some(id) => {
            assignee_ids.push(id.clone());
        },
        None => {},
    }
    assert(views(assignee_ids@) =~= assignees(option_view(*assignee_id)));
    let request = create_issues_batch_request(repo_id, creates.as_slice(), assignee_ids.as_slice());
    assert(Seq::new(
        creates@.len(),
        |i: int| create_input(repo_id@, creates@[i]@, views(assignee_ids@)),
    ) =~= Seq::new(
        pending@.len(),
        |i: int|
            create_input(
                repo_id@,
                as_issue_create(pending@[i]@),
                assignees(option_view(*assignee_id)),
            ),
    ));
    request
}

/// The model of what the one request of a batch came to.
pub open spec fn response_view(outcome: Result<Json, String>) -> Result<JsonView, Seq<char>> {
    match outcome {
        Ok(response) => Ok(response@),
        Err(error) => Err(error@),
    }
}

/// The result of creation `i` of a batch. With a response, the issue that
/// it reports, or the failure to report one. Without a response, the error
/// of the request.
pub open spec fn create_result(outcome: Result<JsonView, Seq<char>>, i: nat) -> SyncResultView {
    match outcome {
        Ok(response) => match created_outcome(response, i) {
            Ok(info) => SyncResultView::Created {
                issue_id: info.id,
                issue_number: info.number,
                url: info.url,
            },
            Err(error) => SyncResultView::Failed { error },
        },
        Err(error) => SyncResultView::Failed { error },
    }
}

/// The results of a batch of `count` creations, in the order of the
/// creations: see [`create_result`].
pub fn batch_create_results(outcome: Result<Json, String>, count: usize) -> (results: Vec<
    SyncResult,
>)
    ensures
        results@.len() == count,
        forall|i: int|
            0 <= i < count ==> (#[trigger] results@[i])@ == create_result(
                response_view(outcome),
                i as nat,
            ),
{
    let mut results: Vec<SyncResult> = Vec::new();
    match outcome {
        Ok(response) => {
            let infos = create_issues_batch_results(&response, count);
            for info in iter: infos
                invariant
                    results@.len() == iter.index(),
                    iter.seq().len() == count,
                    forall|j: int|
                        0 <= j < count ==> outcome_view(#[trigger] iter.seq()[j])
                            == created_outcome(response@, j as nat),
                    forall|j: int|
                        0 <= j < results@.len() ==> (#[trigger] results@[j])@ == create_result(
                            Ok(response@),
                            j as nat,
                        ),
            {
                match info {
                    Ok(info) => {
                        results.push(
                            SyncResult::Created {
                                issue_id: info.id,
                                issue_number: info.number,
                                url: info.url,
                            },
                        );
                    },
                    Err(error) => {
                        results.push(SyncResult::Failed { error });
                    },
                }
            }
        },
        Err(error) => {
            let mut i: usize = 0;
            while i < count
                invariant
                    i <= count,
                    results@.len() == i,
                    forall|j: int|
                        0 <= j < i ==> (#[trigger] results@[j])@ == (SyncResultView::Failed {
                            error: error@,
                        }),
                decreases count - i,
            {
                results.push(SyncResult::Failed { error: error.clone() });
                i += 1;
            }
        },
    }
    results
}

/// The reference to write back to the ticket file after a result: the
/// reference to the new issue for a creation, nothing for any other result.
pub fn external_ref_to_write(result: &SyncResult) -> (external_ref: Option<String>)
    ensures
        option_view(external_ref) == match result@ {
            SyncResultView::Created { issue_number, .. } => Some(github_ref(issue_number)),
            _ => None,
        },
{
    match result {
        SyncResult::Created { issue_number, .. } => Some(external_ref_for(*issue_number)),
        _ => None,
    }
}

/// The message for an issue that was created and could not be recorded in
/// the ticket file.
pub open spec fn write_back_failure(issue_number: u64, error: Seq<char>) -> Seq<char> {
    "Created #"@ + decimal(issue_number as nat) + " but failed to write external-ref: "@ + error
}

/// The result that stands after the reference was written back. A creation
/// whose reference could not be written is a failure, though the issue is
/// there; every other result stands as it is.
pub open spec fn recorded_result(
    result: SyncResultView,
    write_error: Option<Seq<char>>,
) -> SyncResultView {
    match (result, write_error) {
        (SyncResultView::Created { issue_number, .. }, Some(error)) => SyncResultView::Failed {
            error: write_back_failure(issue_number, error),
        },
        _ => result,
    }
}

/// The result that stands after the reference was written back: see
/// [`recorded_result`]. `write_error` is the error of the attempt to write,
/// if it was made and failed.
pub fn record_result(result: SyncResult, write_error: Option<String>) -> (recorded: SyncResult)
    ensures
        recorded@ == recorded_result(result@, option_view(write_error)),
{
    match (result, write_error) {
        (SyncResult::Created { issue_id, issue_number, url }, Some(error)) => {
            let mut buf: Vec<char> = Vec::new();
            extend_str(&mut buf, "Created #");
            let digits = decimal_chars(issue_number);
            extend_from(&mut buf, digits.as_slice(), 0, digits.len());
            assert(digits@.subrange(0, digits@.len() as int) == digits@);
            extend_str(&mut buf, " but failed to write external-ref: ");
            extend_str(&mut buf, error.as_str());
            SyncResult::Failed { error: string_of(buf.as_slice()) }
        },
        (result, _) => result,
    }
}

} // verus!
