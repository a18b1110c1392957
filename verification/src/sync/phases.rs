//! The steps of a run that follow the results: adding new issues to the
//! project, filling the fields of their items, and keeping the status of
//! every synced ticket.
//!
//! None of these steps changes the result of a ticket. Each gives the
//! request that is due, or none where the step has nothing to do.

use crate::github::batch::{batch_request, GraphQLRequest, GraphQLRequestView, Operation};
use crate::github::fields::{
    field_value_input, get_project_item_ids_batch_request, get_project_item_ids_batch_results,
    item_ids_query, item_ids_variables, project_items, set_project_items_iteration_batch_request,
    set_project_items_single_select_batch_request, StatusUpdate, StatusUpdateView,
};
use crate::github::issues::ExistingIssue;
use crate::github::json::Json;
use crate::github::projects::{add_issues_to_project_batch_request, project_item_input};
use crate::name_map::text_pairs;
use crate::sync::SyncResult;
use crate::sync::engine::SyncEngine;
use crate::sync::fields::StatusFieldCache;
use crate::sync::links::shorter;
use crate::sync::project::{
    candidate_issue_ids, created_candidates, entry_ids, find_status_targets, issue_ids_of_targets,
    item_ids, item_status_updates, new_issue_candidates, status_targets, status_updates_for_items,
    status_updates_for_targets, target_issue_ids, target_status_updates, ProjectCandidate,
    ProjectEntryView, ProjectItem, StatusTarget, StatusTargetView,
};
use crate::text::views;
use crate::ticket::Ticket;
use std::collections::HashMap;
use vstd::prelude::*;

verus! {

/// The inputs that set the status of the given items.
pub open spec fn status_inputs(
    project_id: Seq<char>,
    field_id: Seq<char>,
    updates: Seq<StatusUpdateView>,
) -> Seq<crate::github::json::JsonView> {
    Seq::new(
        updates.len(),
        |i: int|
            field_value_input(
                project_id,
                field_id,
                updates[i].item_id,
                "singleSelectOptionId"@,
                updates[i].option_id,
            ),
    )
}

/// The request of a batch with the given inputs, where there are any.
pub open spec fn batch_of(op: Operation, inputs: Seq<crate::github::json::JsonView>) -> Option<
    GraphQLRequestView,
> {
    if inputs.len() > 0 {
        Some(batch_request(op, inputs))
    } else {
        None
    }
}

/// The model of an optional request.
pub open spec fn request_view(request: Option<GraphQLRequest>) -> Option<GraphQLRequestView> {
    match request {
        Some(r) => Some(r@),
        None => None,
    }
}

impl SyncEngine {
    /// The status field of the project, where a project is configured and
    /// its status field was set up.
    pub open spec fn status_field(&self) -> Option<StatusFieldCache> {
        match (self.project, self.project_fields) {
            (Some(_), Some(fields)) => fields.status,
            _ => None,
        }
    }

    /// The issues that this run created and that go to the project: none
    /// where no project is configured. See [`created_candidates`].
    pub fn project_candidates(&self, tickets: &[Ticket], results: &[SyncResult]) -> (candidates:
        Vec<ProjectCandidate>)
        ensures
            views(candidates@) == if self.project is Some {
                created_candidates(
                    views(tickets@),
                    views(results@),
                    shorter(tickets@.len(), results@.len()),
                )
            } else {
                Seq::empty()
            },
    {
        if self.project.is_none() {
            let none: Vec<ProjectCandidate> = Vec::new();
            assert(views(none@) =~= Seq::<ProjectEntryView>::empty());
            return none;
        }
        new_issue_candidates(tickets, results)
    }

    /// The one request that adds the candidates to the project; no request
    /// where no project is configured or there is no candidate.
    pub fn add_to_project_request(&self, candidates: &[ProjectCandidate]) -> (request: Option<
        GraphQLRequest,
    >)
        ensures
            request_view(request) == match self.project {
                Some(project) => batch_of(
                    Operation::AddProjectItem,
                    Seq::new(
                        candidates@.len(),
                        |i: int| project_item_input(project.id@, candidates@[i].issue_id@),
                    ),
                ),
                None => None,
            },
    {
        match &self.project {
            Some(project) => {
                let ids = candidate_issue_ids(candidates);
                let request = add_issues_to_project_batch_request(
                    project.id.as_str(),
                    ids.as_slice(),
                );
                assert(Seq::new(
                    ids@.len(),
                    |i: int| project_item_input(project.id@, ids@[i]@),
                ) =~= Seq::new(
                    candidates@.len(),
                    |i: int| project_item_input(project.id@, candidates@[i].issue_id@),
                )) by {
                    assert(views(ids@).len() == entry_ids(views(candidates@)).len());
                    assert forall|i: int| 0 <= i < ids@.len() implies ids@[i]@
                        == candidates@[i].issue_id@ by {
                        assert(views(ids@)[i] == entry_ids(views(candidates@))[i]);
                    }
                }
                request
            },
            None => None,
        }
    }

    /// The one request that sets the status of the new items of the project;
    /// no request where the status field was not set up or no item has a
    /// status that is mapped. See [`item_status_updates`].
    pub fn items_status_request(&self, items: &[ProjectItem]) -> (request: Option<GraphQLRequest>)
        ensures
            request_view(request) == match self.status_field() {
                Some(status) => batch_of(
                    Operation::SetFieldValue,
                    status_inputs(
                        self.project->0.id@,
                        status.field_id@,
                        item_status_updates(
                            views(items@),
                            text_pairs(status.status_to_option.pairs()),
                            items@.len(),
                        ),
                    ),
                ),
                None => None,
            },
    {
        let project = match &self.project {
            Some(project) => project,
            None => {
                return None;
            },
        };
        let status = match &self.project_fields {
            Some(fields) => match &fields.status {
                Some(status) => status,
                None => {
                    return None;
                },
            },
            None => {
                return None;
            },
        };
        let updates = status_updates_for_items(items, status);
        self.status_request(project.id.as_str(), status, updates.as_slice())
    }

    /// The one request that sets the given status updates.
    fn status_request(&self, project_id: &str, status: &StatusFieldCache, updates: &[StatusUpdate]) -> (request:
        Option<GraphQLRequest>)
        ensures
            request_view(request) == batch_of(
                Operation::SetFieldValue,
                status_inputs(project_id@, status.field_id@, views(updates@)),
            ),
    {
        let request = set_project_items_single_select_batch_request(
            project_id,
            status.field_id.as_str(),
            updates,
        );
        assert(Seq::new(
            updates@.len(),
            |i: int|
                field_value_input(
                    project_id@,
                    status.field_id@,
                    updates@[i].item_id@,
                    "singleSelectOptionId"@,
                    updates@[i].option_id@,
                ),
        ) =~= status_inputs(project_id@, status.field_id@, views(updates@)));
        request
    }

    /// The one request that puts the new items of the project in the
    /// configured iteration; no request where the iteration field was not
    /// set up or there is no item.
    pub fn items_iteration_request(&self, items: &[ProjectItem]) -> (request: Option<
        GraphQLRequest,
    >)
        ensures
            request_view(request) == match (self.project, self.project_fields) {
                (Some(project), Some(fields)) => match fields.iteration {
                    Some(iteration) => batch_of(
                        Operation::SetFieldValue,
                        Seq::new(
                            items@.len(),
                            |i: int|
                                field_value_input(
                                    project.id@,
                                    iteration.field_id@,
                                    items@[i].item_id@,
                                    "iterationId"@,
                                    iteration.iteration_id@,
                                ),
                        ),
                    ),
                    None => None,
                },
                _ => None,
            },
    {
        let project = match &self.project {
            Some(project) => project,
            None => {
                return None;
            },
        };
        let iteration = match &self.project_fields {
            Some(fields) => match &fields.iteration {
                Some(iteration) => iteration,
                None => {
                    return None;
                },
            },
            None => {
                return None;
            },
        };
        let ids = item_ids(items);
        let request = set_project_items_iteration_batch_request(
            project.id.as_str(),
            iteration.field_id.as_str(),
            iteration.iteration_id.as_str(),
            ids.as_slice(),
        );
        assert(Seq::new(
            ids@.len(),
            |i: int|
                field_value_input(
                    project.id@,
                    iteration.field_id@,
                    ids@[i]@,
                    "iterationId"@,
                    iteration.iteration_id@,
                ),
        ) =~= Seq::new(
            items@.len(),
            |i: int|
                field_value_input(
                    project.id@,
                    iteration.field_id@,
                    items@[i].item_id@,
                    "iterationId"@,
                    iteration.iteration_id@,
                ),
        )) by {
            assert(views(ids@).len() == entry_ids(views(items@)).len());
            assert forall|i: int| 0 <= i < ids@.len() implies ids@[i]@ == items@[i].item_id@ by {
                assert(views(ids@)[i] == entry_ids(views(items@))[i]);
            }
        }
        request
    }

    /// The tickets whose status is to be kept in the project: none where the
    /// status field was not set up. See [`status_targets`].
    pub fn status_sync_targets(
        &self,
        tickets: &[Ticket],
        existing_issues: &HashMap<u64, ExistingIssue>,
    ) -> (targets: Vec<StatusTarget>)
        ensures
            views(targets@) == match self.status_field() {
                Some(status) => status_targets(
                    views(tickets@),
                    existing_issues@,
                    text_pairs(status.status_to_option.pairs()),
                    tickets@.len(),
                ),
                None => Seq::empty(),
            },
    {
        let none: Vec<StatusTarget> = Vec::new();
        assert(views(none@) =~= Seq::<StatusTargetView>::empty());
        if self.project.is_none() {
            return none;
        }
        match &self.project_fields {
            Some(fields) => match &fields.status {
                Some(status) => find_status_targets(tickets, existing_issues, status),
                None => none,
            },
            None => none,
        }
    }

    /// The one request that asks under which items the issues of the
    /// targets are in the project; no request where there is no target.
    pub fn status_items_request(&self, targets: &[StatusTarget]) -> (request: Option<
        GraphQLRequest,
    >)
        ensures
            targets@.len() == 0 ==> request is None,
            targets@.len() > 0 ==> request is Some && request->0@ == (GraphQLRequestView {
                query: item_ids_query(targets@.len()),
                variables: Some(item_ids_variables(target_issue_ids(views(targets@)))),
            }),
    {
        let ids = issue_ids_of_targets(targets);
        assert(views(ids@).len() == target_issue_ids(views(targets@)).len());
        get_project_item_ids_batch_request(ids.as_slice())
    }

    /// The one request that sets the status of the targets that are in the
    /// project, given the response that says under which items they are; no
    /// request where the status field was not set up or no target is in the
    /// project. See [`target_status_updates`].
    pub fn status_sync_request(&self, targets: &[StatusTarget], response: &Json) -> (request:
        Option<GraphQLRequest>)
        ensures
            request_view(request) == match self.status_field() {
                Some(status) => batch_of(
                    Operation::SetFieldValue,
                    status_inputs(
                        self.project->0.id@,
                        status.field_id@,
                        target_status_updates(
                            views(targets@),
                            project_items(
                                response@,
                                target_issue_ids(views(targets@)),
                                self.project->0.id@,
                                targets@.len(),
                            ),
                            targets@.len(),
                        ),
                    ),
                ),
                None => None,
            },
    {
        let project = match &self.project {
            Some(project) => project,
            None => {
                return None;
            },
        };
        let status = match &self.project_fields {
            Some(fields) => match &fields.status {
                Some(status) => status,
                None => {
                    return None;
                },
            },
            None => {
                return None;
            },
        };
        let ids = issue_ids_of_targets(targets);
        assert(views(ids@).len() == target_issue_ids(views(targets@)).len());
        let items = get_project_item_ids_batch_results(
            response,
            project.id.as_str(),
            ids.as_slice(),
        );
        let updates = status_updates_for_targets(targets, &items);
        self.status_request(project.id.as_str(), status, updates.as_slice())
    }
}

} // verus!
