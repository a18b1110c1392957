//! Changed issues: the batch that updates them, the batches that close and
//! reopen them, and the result for each ticket.

use crate::github::batch::{batch_request, GraphQLRequest, Operation};
use crate::github::issues::{
    close_issues_batch_request, issue_id_input, outcome_pairs, reopen_issues_batch_request,
    update_input, update_issues_batch_request, update_issues_batch_results, updated_outcomes,
    IssueInfo, IssueUpdate, IssueUpdateView,
};
use crate::github::json::{Json, JsonView};
use crate::name_map::lookup_in;
use crate::sync::{SyncResult, SyncResultView};
use crate::sync::create::response_view;
use crate::sync::plan::{update_indices, PendingUpdate, PendingUpdateView};
use crate::text::{copy_option, extend_str, option_view, outcome_view, string_of, views};
use vstd::prelude::*;

verus! {

/// What a pending update asks the API for.
pub open spec fn as_issue_update(pending: PendingUpdateView) -> IssueUpdateView {
    IssueUpdateView {
        issue_id: pending.issue_id,
        title: pending.title,
        body: pending.body,
        issue_type_id: pending.issue_type_id,
    }
}

/// What the pending updates ask the API for, in order.
pub open spec fn as_issue_updates(pending: Seq<PendingUpdateView>) -> Seq<IssueUpdateView> {
    Seq::new(pending.len(), |i: int| as_issue_update(pending[i]))
}

/// The ids of the issues, among the first `k` pending updates, that are to
/// be closed, where `closing` holds, or reopened, where it does not.
pub open spec fn transition_targets(pending: Seq<PendingUpdateView>, closing: bool, k: nat) -> Seq<
    Seq<char>,
>
    decreases k,
{
    if k == 0 || k > pending.len() {
        Seq::empty()
    } else {
        let rest = transition_targets(pending, closing, (k - 1) as nat);
        let wanted = if closing {
            pending[k - 1].needs_close
        } else {
            pending[k - 1].needs_reopen
        };
        if wanted {
            rest.push(pending[k - 1].issue_id)
        } else {
            rest
        }
    }
}

/// The result of update `i` after the batch that changes title and body.
///
/// Without a response every update fails with the error of the request.
/// With one, the update is done where the response reports the issue, and
/// fails where it does not.
pub open spec fn content_result(
    pending: Seq<PendingUpdateView>,
    outcome: Result<JsonView, Seq<char>>,
    i: int,
) -> SyncResultView {
    match outcome {
        Err(error) => SyncResultView::Failed { error },
        Ok(response) => match lookup_in(
            updated_outcomes(response, as_issue_updates(pending), pending.len()),
            pending[i].issue_id,
        ) {
            Some(Ok(_)) => SyncResultView::Updated { issue_number: pending[i].issue_number },
            Some(Err(error)) => SyncResultView::Failed { error },
            None => SyncResultView::Failed { error: "Not processed"@ },
        },
    }
}

/// The result of update `i` after all three batches.
///
/// A failed batch of changes fails every update, and nothing is closed or
/// reopened after it. Otherwise an update that was to reopen its issue
/// fails where reopening failed, one that was to close its issue fails
/// where closing failed, and any other result is that of the change.
pub open spec fn update_result(
    pending: Seq<PendingUpdateView>,
    content: Result<JsonView, Seq<char>>,
    close_error: Option<Seq<char>>,
    reopen_error: Option<Seq<char>>,
    i: int,
) -> SyncResultView {
    if content is Err {
        content_result(pending, content, i)
    } else if pending[i].needs_reopen && reopen_error is Some {
        SyncResultView::Failed { error: "Failed to reopen: "@ + reopen_error->0 }
    } else if pending[i].needs_close && close_error is Some {
        SyncResultView::Failed { error: "Failed to close: "@ + close_error->0 }
    } else {
        content_result(pending, content, i)
    }
}

/// A failure to close or reopen touches no update that asked for neither.
pub proof fn lemma_transition_failures_are_local(
    pending: Seq<PendingUpdateView>,
    content: Result<JsonView, Seq<char>>,
    close_error: Option<Seq<char>>,
    reopen_error: Option<Seq<char>>,
    i: int,
)
    requires
        0 <= i < pending.len(),
        !pending[i].needs_close,
        !pending[i].needs_reopen,
    ensures
        update_result(pending, content, close_error, reopen_error, i) == content_result(
            pending,
            content,
            i,
        ),
{
}

/// Looking a key up commutes with taking models.
proof fn lemma_lookup_outcomes(pairs: Seq<(Seq<char>, Result<IssueInfo, String>)>, key: Seq<char>)
    ensures
        lookup_in(outcome_pairs(pairs), key) == match lookup_in(pairs, key) {
            Some(outcome) => Some(outcome_view(outcome)),
            None => None,
        },
    decreases pairs.len(),
{
    if pairs.len() > 0 {
        assert(outcome_pairs(pairs)[0] == (pairs[0].0, outcome_view(pairs[0].1)));
        if pairs[0].0 != key {
            lemma_lookup_outcomes(pairs.drop_first(), key);
            assert(outcome_pairs(pairs).drop_first() =~= outcome_pairs(pairs.drop_first()));
        }
    }
}

/// What the pending updates ask the API for: see [`as_issue_updates`].
fn issue_updates(pending: &[PendingUpdate]) -> (updates: Vec<IssueUpdate>)
    ensures
        views(updates@) == as_issue_updates(views(pending@)),
        updates@.len() == pending@.len(),
        forall|i: int|
            0 <= i < pending@.len() ==> (#[trigger] updates@[i])@ == as_issue_update(pending@[i]@),
{
    let mut updates: Vec<IssueUpdate> = Vec::new();
    let mut i: usize = 0;
    while i < pending.len()
        invariant
            i <= pending.len(),
            updates@.len() == i,
            forall|j: int| 0 <= j < i ==> (#[trigger] updates@[j])@ == as_issue_update(pending@[j]@),
        decreases pending.len() - i,
    {
        let p = &pending[i];
        updates.push(
            IssueUpdate {
                issue_id: p.issue_id.clone(),
                title: p.title.clone(),
                body: p.body.clone(),
                issue_type_id: copy_option(&p.issue_type_id),
            },
        );
        i += 1;
    }
    assert(views(updates@) =~= as_issue_updates(views(pending@)));
    updates
}

/// The one request that changes title and body of the issues of all
/// pending updates; no request where nothing is pending.
pub fn batch_update_request(pending: &[PendingUpdate]) -> (request: Option<GraphQLRequest>)
    ensures
        pending@.len() == 0 ==> request is None,
        pending@.len() > 0 ==> request is Some && request->0@ == batch_request(
            Operation::UpdateIssue,
            Seq::new(pending@.len(), |i: int| update_input(as_issue_update(pending@[i]@))),
        ),
{
    let updates = issue_updates(pending);
    let request = update_issues_batch_request(updates.as_slice());
    assert(Seq::new(updates@.len(), |i: int| update_input(updates@[i]@)) =~= Seq::new(
        pending@.len(),
        |i: int| update_input(as_issue_update(pending@[i]@)),
    ));
    request
}

/// The ids of the issues to close, where `closing` holds, or to reopen,
/// where it does not: see [`transition_targets`].
pub fn transition_ids(pending: &[PendingUpdate], closing: bool) -> (ids: Vec<String>)
    ensures
        views(ids@) == transition_targets(views(pending@), closing, pending@.len()),
{
    let ghost models = views(pending@);
    let mut ids: Vec<String> = Vec::new();
    let mut i: usize = 0;
    assert(views(ids@) =~= transition_targets(models, closing, 0));
    while i < pending.len()
        invariant
            i <= pending.len(),
            models == views(pending@),
            views(ids@) == transition_targets(models, closing, i as nat),
        decreases pending.len() - i,
    {
        let ghost before = views(ids@);
        assert(models[i as int] == pending@[i as int]@);
        let wanted = if closing {
            pending[i].needs_close
        } else {
            pending[i].needs_reopen
        };
        if wanted {
            ids.push(pending[i].issue_id.clone());
            assert(views(ids@) =~= before.push(pending@[i as int]@.issue_id));
        }
        i += 1;
    }
    ids
}

/// The one request that closes the issues of the updates that ask for it.
/// There is no request where none asks for it, and none after a batch of
/// changes that failed as a whole.
pub fn batch_close_request(pending: &[PendingUpdate], content: &Result<Json, String>) -> (request:
    Option<GraphQLRequest>)
    ensures
        ({
            let targets = transition_targets(views(pending@), true, pending@.len());
            &&& *content is Err || targets.len() == 0 ==> request is None
            &&& *content is Ok && targets.len() > 0 ==> request is Some && request->0@
                == batch_request(
                Operation::CloseIssue,
                Seq::new(targets.len(), |i: int| issue_id_input(targets[i])),
            )
        }),
{
    if content.is_err() {
        return None;
    }
    let ids = transition_ids(pending, true);
    let request = close_issues_batch_request(ids.as_slice());
    let ghost targets = transition_targets(views(pending@), true, pending@.len());
    assert(Seq::new(ids@.len(), |i: int| issue_id_input(ids@[i]@)) =~= Seq::new(
        targets.len(),
        |i: int| issue_id_input(targets[i]),
    )) by {
        assert forall|i: int| 0 <= i < ids@.len() implies ids@[i]@ == targets[i] by {
            assert(views(ids@)[i] == targets[i]);
        }
    }
    request
}

/// The one request that reopens the issues of the updates that ask for it.
/// There is no request where none asks for it, and none after a batch of
/// changes that failed as a whole.
pub fn batch_reopen_request(pending: &[PendingUpdate], content: &Result<Json, String>) -> (request:
    Option<GraphQLRequest>)
    ensures
        ({
            let targets = transition_targets(views(pending@), false, pending@.len());
            &&& *content is Err || targets.len() == 0 ==> request is None
            &&& *content is Ok && targets.len() > 0 ==> request is Some && request->0@
                == batch_request(
                Operation::ReopenIssue,
                Seq::new(targets.len(), |i: int| issue_id_input(targets[i])),
            )
        }),
{
    if content.is_err() {
        return None;
    }
    let ids = transition_ids(pending, false);
    let request = reopen_issues_batch_request(ids.as_slice());
    let ghost targets = transition_targets(views(pending@), false, pending@.len());
    assert(Seq::new(ids@.len(), |i: int| issue_id_input(ids@[i]@)) =~= Seq::new(
        targets.len(),
        |i: int| issue_id_input(targets[i]),
    )) by {
        assert forall|i: int| 0 <= i < ids@.len() implies ids@[i]@ == targets[i] by {
            assert(views(ids@)[i] == targets[i]);
        }
    }
    request
}

/// The results after the batch that changes title and body, in the order
/// of the updates: see [`content_result`].
pub fn content_update_results(pending: &[PendingUpdate], outcome: &Result<Json, String>) -> (results:
    Vec<SyncResult>)
    ensures
        results@.len() == pending@.len(),
        forall|i: int|
            0 <= i < pending@.len() ==> (#[trigger] results@[i])@ == content_result(
                views(pending@),
                response_view(*outcome),
                i,
            ),
{
    let ghost models = views(pending@);
    let mut results: Vec<SyncResult> = Vec::new();
    match outcome {
        Ok(response) => {
            let updates = issue_updates(pending);
            let reported = update_issues_batch_results(response, updates.as_slice());
            let mut i: usize = 0;
            while i < pending.len()
                invariant
                    i <= pending.len(),
                    models == views(pending@),
                    *outcome == Ok::<Json, String>(*response),
                    outcome_pairs(reported.pairs()) == updated_outcomes(
                        response@,
                        as_issue_updates(models),
                        models.len(),
                    ),
                    results@.len() == i,
                    forall|j: int|
                        0 <= j < i ==> (#[trigger] results@[j])@ == content_result(
                            models,
                            Ok(response@),
                            j,
                        ),
                decreases pending.len() - i,
            {
                let p = &pending[i];
                assert(models[i as int] == p@);
                proof {
                    lemma_lookup_outcomes(reported.pairs(), p.issue_id@);
                }
                match reported.get(p.issue_id.as_str()) {
                    Some(Ok(_)) => {
                        results.push(SyncResult::Updated { issue_number: p.issue_number });
                    },
                    Some(Err(error)) => {
                        results.push(SyncResult::Failed { error: error.clone() });
                    },
                    None => {
                        results.push(SyncResult::Failed { error: String::from_str("Not processed") });
                    },
                }
                i += 1;
            }
        },
        Err(error) => {
            let mut i: usize = 0;
            while i < pending.len()
                invariant
                    i <= pending.len(),
                    results@.len() == i,
                    forall|j: int|
                        0 <= j < i ==> (#[trigger] results@[j])@ == (SyncResultView::Failed {
                            error: error@,
                        }),
                decreases pending.len() - i,
            {
                results.push(SyncResult::Failed { error: error.clone() });
                i += 1;
            }
        },
    }
    results
}

/// The results after a failure to close, where `closing` holds, or to
/// reopen, where it does not: the updates that asked for the transition
/// fail, with the error after `Failed to close: ` or `Failed to reopen: `;
/// the others keep their result.
fn mark_transition_failure(
    results: Vec<SyncResult>,
    pending: &[PendingUpdate],
    closing: bool,
    error: &str,
) -> (marked: Vec<SyncResult>)
    requires
        results@.len() == pending@.len(),
    ensures
        marked@.len() == results@.len(),
        forall|i: int|
            0 <= i < marked@.len() ==> (#[trigger] marked@[i])@ == if (if closing {
                pending@[i].needs_close
            } else {
                pending@[i].needs_reopen
            }) {
                SyncResultView::Failed {
                    error: (if closing {
                        "Failed to close: "@
                    } else {
                        "Failed to reopen: "@
                    }) + error@,
                }
            } else {
                results@[i]@
            },
{
    let mut marked = results;
    let mut i: usize = 0;
    while i < pending.len()
        invariant
            i <= pending.len(),
            marked@.len() == pending@.len(),
            marked@.len() == results@.len(),
            forall|j: int| i <= j < marked@.len() ==> marked@[j] == results@[j],
            forall|j: int|
                0 <= j < i ==> (#[trigger] marked@[j])@ == if (if closing {
                    pending@[j].needs_close
                } else {
                    pending@[j].needs_reopen
                }) {
                    SyncResultView::Failed {
                        error: (if closing {
                            "Failed to close: "@
                        } else {
                            "Failed to reopen: "@
                        }) + error@,
                    }
                } else {
                    results@[j]@
                },
        decreases pending.len() - i,
    {
        let wanted = if closing {
            pending[i].needs_close
        } else {
            pending[i].needs_reopen
        };
        if wanted {
            let mut buf: Vec<char> = Vec::new();
            if closing {
                extend_str(&mut buf, "Failed to close: ");
            } else {
                extend_str(&mut buf, "Failed to reopen: ");
            }
            extend_str(&mut buf, error);
            marked.set(i, SyncResult::Failed { error: string_of(buf.as_slice()) });
        }
        i += 1;
    }
    marked
}

/// The results of all pending updates after the three batches, in the
/// order of the updates: see [`update_result`]. `close_error` and
/// `reopen_error` are the errors of the batches that close and reopen, as
/// far as they were sent and failed.
pub fn batch_update_results(
    pending: &[PendingUpdate],
    content: &Result<Json, String>,
    close_error: &Option<String>,
    reopen_error: &Option<String>,
) -> (results: Vec<SyncResult>)
    ensures
        results@.len() == pending@.len(),
        forall|i: int|
            0 <= i < pending@.len() ==> (#[trigger] results@[i])@ == update_result(
                views(pending@),
                response_view(*content),
                option_view(*close_error),
                option_view(*reopen_error),
                i,
            ),
{
    let mut results = content_update_results(pending, content);
    if content.is_err() {
        return results;
    }
    match close_error {
        Some(error) => {
            results = mark_transition_failure(results, pending, true, error.as_str());
        },
        None => {},
    }
    match reopen_error {
        Some(error) => {
            results = mark_transition_failure(results, pending, false, error.as_str());
        },
        None => {},
    }
    assert forall|i: int| 0 <= i < pending@.len() implies (#[trigger] results@[i])@
        == update_result(
        views(pending@),
        response_view(*content),
        option_view(*close_error),
        option_view(*reopen_error),
        i,
    ) by {
        assert(views(pending@)[i] == pending@[i]@);
    }
    results
}

/// The indices of the tickets of the pending updates, in order.
pub fn ticket_indices(pending: &[PendingUpdate]) -> (indices: Vec<usize>)
    ensures
        indices@ == update_indices(views(pending@)),
{
    let mut indices: Vec<usize> = Vec::new();
    let mut i: usize = 0;
    while i < pending.len()
        invariant
            i <= pending.len(),
            indices@.len() == i,
            forall|j: int| 0 <= j < i ==> indices@[j] == pending@[j].ticket_idx,
        decreases pending.len() - i,
    {
        indices.push(pending[i].ticket_idx);
        i += 1;
    }
    assert(indices@ =~= update_indices(views(pending@)));
    indices
}

} // verus!
