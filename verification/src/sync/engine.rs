//! The engine of a run: what is known of the repository before the first
//! ticket is looked at, and the steps of the run on that knowledge.

use crate::config::{invalid_repo_message, repo_parts_of, Config, ProjectConfig};
use crate::github::batch::{batch_request, GraphQLRequest, GraphQLRequestView, Operation};
use crate::github::issues::{
    create_input, fetched_issue, get_issues_batch_request, get_issues_batch_results, issues_query,
    repository_variables, ExistingIssue, IssueTypeInfo, IssueTypeInfoView, LabelInfo, LabelInfoView,
};
use crate::github::json::Json;
use crate::github::projects::{ProjectFieldInfo, ProjectInfo};
use crate::name_map::{lemma_upsert_text, text_pairs, upsert, NameMap};
use crate::sync::{
    check_update_needed, format_issue_body_with_deps, issue_body, issue_type_for, mapping_failure,
    resolve_issue_type, update_check, validate_issue_type_mappings, UpdateCheck,
};
use crate::sync::create::{
    as_issue_create, assignees, batch_create_request, build_pending_create, pending_create,
};
use crate::sync::fields::{
    iteration_setup, setup_iteration_field, setup_status_field, status_setup,
    IterationFieldCacheView, IterationSetup, IterationSetupView, ProjectFieldsCache,
    ProjectFieldsCacheView, StatusFieldCacheView, StatusSetup, StatusSetupView,
};
use crate::sync::plan::{
    build_issue_index, create_indices, decision, issue_index, numbers_to_fetch, plan_sync,
    planned_updates, prefetch_numbers, settled, IssueTypes, PendingCreate, SyncPlan,
};
use crate::text::{extend_str, lowercase, option_view, outcome_view, string_of, to_lowercase, views};
use crate::ticket::Ticket;
use std::collections::HashMap;
use vstd::prelude::*;

verus! {

/// What a run knows and works on.
pub struct SyncEngine {
    pub config: Config,
    /// The node id of the repository.
    pub repo_id: String,
    pub owner: String,
    pub repo_name: String,
    /// The node id of the user that new issues are assigned to.
    pub assignee_id: Option<String>,
    /// From label name, in lower case, to the id of the label.
    pub label_cache: NameMap<String>,
    /// From ticket id to the number of its issue.
    pub ticket_to_issue: NameMap<u64>,
    /// From the name of an issue type, in lower case, to its id.
    pub issue_type_cache: NameMap<String>,
    /// The project that new issues are added to.
    pub project: Option<ProjectInfo>,
    /// What is known of the fields of that project.
    pub project_fields: Option<ProjectFieldsCache>,
}

/// The ids of the first `k` labels by their names in lower case. Where two
/// names are the same in lower case, the id of the later label stands.
pub open spec fn label_index(labels: Seq<LabelInfoView>, k: nat) -> Seq<(Seq<char>, Seq<char>)>
    decreases k,
{
    if k == 0 || k > labels.len() {
        Seq::empty()
    } else {
        upsert(
            label_index(labels, (k - 1) as nat),
            lowercase(labels[k - 1].name),
            labels[k - 1].id,
        )
    }
}

/// The ids of the first `k` issue types by their names in lower case.
pub open spec fn issue_type_index(types: Seq<IssueTypeInfoView>, k: nat) -> Seq<
    (Seq<char>, Seq<char>),
>
    decreases k,
{
    if k == 0 || k > types.len() {
        Seq::empty()
    } else {
        upsert(
            issue_type_index(types, (k - 1) as nat),
            lowercase(types[k - 1].name),
            types[k - 1].id,
        )
    }
}

/// The message for a configured project that was not found.
pub open spec fn project_not_found(name: Seq<char>) -> Seq<char> {
    "Project '"@ + name + "' not found. Check the project name or number in sync.toml."@
}

/// What keeps a run from beginning, if anything: a repository that is not
/// of the form `owner/repo`; else a ticket type that is mapped to an issue
/// type which the repository lacks; else a project that is configured and
/// was not found.
pub open spec fn setup_failure(
    github: crate::config::GitHubConfigView,
    type_map: Seq<(Seq<char>, Seq<char>)>,
    issue_types: Seq<IssueTypeInfoView>,
    project_found: bool,
) -> Option<Seq<char>> {
    let cache = issue_type_index(issue_types, issue_types.len());
    if repo_parts_of(github.repo) is None {
        Some(invalid_repo_message(github.repo))
    } else if mapping_failure(type_map, cache) is Some {
        mapping_failure(type_map, cache)
    } else if github.project is Some && !project_found {
        Some(project_not_found(github.project->0))
    } else {
        None
    }
}

/// The cache of the labels of a repository: see [`label_index`].
pub fn build_label_cache(labels: &[LabelInfo]) -> (cache: NameMap<String>)
    ensures
        text_pairs(cache.pairs()) == label_index(views(labels@), labels@.len()),
{
    let ghost models = views(labels@);
    let mut cache: NameMap<String> = NameMap::new();
    assert(text_pairs(cache.pairs()) =~= label_index(models, 0));
    let mut i: usize = 0;
    while i < labels.len()
        invariant
            i <= labels.len(),
            models == views(labels@),
            text_pairs(cache.pairs()) == label_index(models, i as nat),
        decreases labels.len() - i,
    {
        assert(models[i as int] == labels@[i as int]@);
        let key = to_lowercase(labels[i].name.as_str());
        let value = labels[i].id.clone();
        proof {
            lemma_upsert_text(cache.pairs(), key@, value);
        }
        cache.insert(key, value);
        i += 1;
    }
    cache
}

/// The cache of the issue types of a repository: see
/// [`issue_type_index`].
pub fn build_issue_type_cache(types: &[IssueTypeInfo]) -> (cache: NameMap<String>)
    ensures
        text_pairs(cache.pairs()) == issue_type_index(views(types@), types@.len()),
{
    let ghost models = views(types@);
    let mut cache: NameMap<String> = NameMap::new();
    assert(text_pairs(cache.pairs()) =~= issue_type_index(models, 0));
    let mut i: usize = 0;
    while i < types.len()
        invariant
            i <= types.len(),
            models == views(types@),
            text_pairs(cache.pairs()) == issue_type_index(models, i as nat),
        decreases types.len() - i,
    {
        assert(models[i as int] == types@[i as int]@);
        let key = to_lowercase(types[i].name.as_str());
        let value = types[i].id.clone();
        proof {
            lemma_upsert_text(cache.pairs(), key@, value);
        }
        cache.insert(key, value);
        i += 1;
    }
    cache
}

/// The message for a configured project that was not found: see
/// [`project_not_found`].
pub fn project_not_found_message(name: &str) -> (message: String)
    ensures
        message@ == project_not_found(name@),
{
    let mut buf: Vec<char> = Vec::new();
    extend_str(&mut buf, "Project '");
    extend_str(&mut buf, name);
    extend_str(&mut buf, "' not found. Check the project name or number in sync.toml.");
    string_of(buf.as_slice())
}

/// What setting up the fields of the project came to: the cache, where
/// status or iteration is ready, and the warnings for what was skipped.
pub struct FieldsSetup {
    pub cache: Option<ProjectFieldsCache>,
    pub warnings: Vec<String>,
}

/// The model of a [`FieldsSetup`].
pub struct FieldsSetupView {
    pub cache: Option<ProjectFieldsCacheView>,
    pub warnings: Seq<Seq<char>>,
}

impl View for FieldsSetup {
    type V = FieldsSetupView;

    open spec fn view(&self) -> FieldsSetupView {
        FieldsSetupView { cache: option_view(self.cache), warnings: views(self.warnings@) }
    }
}

/// The cache that a ready setup brings, the warning that a skipped one
/// leaves, and the error of an invalid one.
pub struct SetupPart<C> {
    pub cache: Option<C>,
    pub warning: Option<Seq<char>>,
    pub error: Option<Seq<char>>,
}

/// What the setup of the status field contributes. Without a mapped status
/// the field is not set up at all.
pub open spec fn status_part(wanted: bool, setup: StatusSetupView) -> SetupPart<
    StatusFieldCacheView,
> {
    if !wanted {
        SetupPart { cache: None, warning: None, error: None }
    } else {
        match setup {
            StatusSetupView::Ready(cache) => SetupPart {
                cache: Some(cache),
                warning: None,
                error: None,
            },
            StatusSetupView::Skipped { warning } => SetupPart {
                cache: None,
                warning: Some(warning),
                error: None,
            },
            StatusSetupView::Invalid { error } => SetupPart {
                cache: None,
                warning: None,
                error: Some(error),
            },
        }
    }
}

/// What the setup of the iteration field contributes.
pub open spec fn iteration_part(setup: IterationSetupView) -> SetupPart<IterationFieldCacheView> {
    match setup {
        IterationSetupView::NotConfigured => SetupPart { cache: None, warning: None, error: None },
        IterationSetupView::Ready(cache) => SetupPart {
            cache: Some(cache),
            warning: None,
            error: None,
        },
        IterationSetupView::Skipped { warning } => SetupPart {
            cache: None,
            warning: Some(warning),
            error: None,
        },
        IterationSetupView::Invalid { error } => SetupPart {
            cache: None,
            warning: None,
            error: Some(error),
        },
    }
}

/// No warning, or one.
pub open spec fn warning_list(warning: Option<Seq<char>>) -> Seq<Seq<char>> {
    match warning {
        Some(text) => seq![text],
        None => Seq::empty(),
    }
}

/// What setting up the fields of the project comes to.
///
/// The status is set up where a status is mapped, the iteration where one
/// is configured. An invalid setup of either is an error, that of the
/// status first. A skipped setup leaves a warning. There is a cache where
/// at least one of the two is ready.
pub open spec fn fields_setup(
    status: SetupPart<StatusFieldCacheView>,
    iteration: SetupPart<IterationFieldCacheView>,
) -> Result<FieldsSetupView, Seq<char>> {
    if status.error is Some {
        Err(status.error->0)
    } else if iteration.error is Some {
        Err(iteration.error->0)
    } else {
        Ok(
            FieldsSetupView {
                cache: if status.cache is Some || iteration.cache is Some {
                    Some(ProjectFieldsCacheView { status: status.cache, iteration: iteration.cache })
                } else {
                    None
                },
                warnings: warning_list(status.warning) + warning_list(iteration.warning),
            },
        )
    }
}

/// Sets up the fields of the project: see [`fields_setup`].
pub fn setup_project_fields(fields: &[ProjectFieldInfo], config: &ProjectConfig) -> (setup: Result<
    FieldsSetup,
    String,
>)
    ensures
        outcome_view(setup) == fields_setup(
            status_part(
                config.status.pairs().len() > 0,
                status_setup(
                    views(fields@),
                    config.status_field@,
                    text_pairs(config.status.pairs()),
                ),
            ),
            iteration_part(
                iteration_setup(
                    views(fields@),
                    config.iteration_field@,
                    option_view(config.iteration),
                ),
            ),
        ),
{
    let mut warnings: Vec<String> = Vec::new();
    assert(views(warnings@) =~= Seq::<Seq<char>>::empty());
    let status = if !config.status.is_empty() {
        match setup_status_field(fields, config) {
            StatusSetup::Ready(cache) => Some(cache),
            StatusSetup::Skipped { warning } => {
                warnings.push(warning);
                assert(views(warnings@) =~= seq![warning@]);
                None
            },
            StatusSetup::Invalid { error } => {
                return Err(error);
            },
        }
    } else {
        None
    };
    let ghost after_status = views(warnings@);
    let iteration = match setup_iteration_field(fields, config) {
        IterationSetup::Ready(cache) => Some(cache),
        IterationSetup::NotConfigured => None,
        IterationSetup::Skipped { warning } => {
            warnings.push(warning);
            assert(views(warnings@) =~= after_status + seq![warning@]);
            None
        },
        IterationSetup::Invalid { error } => {
            return Err(error);
        },
    };
    assert(after_status + Seq::<Seq<char>>::empty() =~= after_status);
    let cache = if status.is_some() || iteration.is_some() {
        Some(ProjectFieldsCache { status, iteration })
    } else {
        None
    };
    Ok(FieldsSetup { cache, warnings })
}

impl SyncEngine {
    /// The engine for a run, from what was asked of the repository: see
    /// [`setup_failure`] for what keeps a run from beginning.
    pub fn new(
        config: Config,
        repo_id: String,
        assignee_id: Option<String>,
        labels: &[LabelInfo],
        issue_types: &[IssueTypeInfo],
        project: Option<ProjectInfo>,
        project_fields: Option<ProjectFieldsCache>,
    ) -> (engine: Result<SyncEngine, String>)
        ensures
            ({
                let failure = setup_failure(
                    config.github@,
                    text_pairs(config.mapping.type_map.pairs()),
                    views(issue_types@),
                    project is Some,
                );
                match engine {
                    Ok(ready) => {
                        &&& failure is None
                        &&& repo_parts_of(config.github.repo@) == Some(
                            (ready.owner@, ready.repo_name@),
                        )
                        &&& ready.repo_id@ == repo_id@
                        &&& option_view(ready.assignee_id) == option_view(assignee_id)
                        &&& text_pairs(ready.label_cache.pairs()) == label_index(
                            views(labels@),
                            labels@.len(),
                        )
                        &&& text_pairs(ready.issue_type_cache.pairs()) == issue_type_index(
                            views(issue_types@),
                            issue_types@.len(),
                        )
                        &&& ready.ticket_to_issue.pairs().len() == 0
                        &&& ready.config == config
                        &&& ready.project == project
                        &&& ready.project_fields == project_fields
                    },
                    Err(message) => failure == Some(message@),
                }
            }),
    {
        let (owner, repo_name) = match config.github.repo_parts() {
            Ok((owner, repo_name)) => (String::from_str(owner), String::from_str(repo_name)),
            Err(message) => {
                return Err(message);
            },
        };
        let label_cache = build_label_cache(labels);
        let issue_type_cache = build_issue_type_cache(issue_types);
        match validate_issue_type_mappings(&config.mapping.type_map, &issue_type_cache) {
            Ok(_) => {},
            Err(message) => {
                return Err(message);
            },
        }
        match (&config.github.project, &project) {
            (Some(name), None) => {
                return Err(project_not_found_message(name.as_str()));
            },
            _ => {},
        }
        Ok(
            SyncEngine {
                config,
                repo_id,
                owner,
                repo_name,
                assignee_id,
                label_cache,
                ticket_to_issue: NameMap::new(),
                issue_type_cache,
                project,
                project_fields,
            },
        )
    }

    /// Remembers the issue number of every synced ticket, so that
    /// dependencies can be referred to by number: see [`issue_index`].
    pub fn index_dependencies(&mut self, all_tickets: &[Ticket])
        ensures
            final(self).ticket_to_issue.pairs() == issue_index(
                views(all_tickets@),
                all_tickets@.len(),
            ),
            final(self).config == old(self).config,
            final(self).repo_id == old(self).repo_id,
            final(self).owner == old(self).owner,
            final(self).repo_name == old(self).repo_name,
            final(self).assignee_id == old(self).assignee_id,
            final(self).label_cache == old(self).label_cache,
            final(self).issue_type_cache == old(self).issue_type_cache,
            final(self).project == old(self).project,
            final(self).project_fields == old(self).project_fields,
    {
        self.ticket_to_issue = build_issue_index(all_tickets);
    }

    /// The one request that fetches the issues of the tickets and of their
    /// parents; no request where there is nothing to fetch. See
    /// [`numbers_to_fetch`].
    pub fn prefetch_request(&self, tickets: &[Ticket]) -> (request: Option<GraphQLRequest>)
        ensures
            ({
                let numbers = numbers_to_fetch(views(tickets@), self.ticket_to_issue.pairs());
                &&& numbers.len() == 0 ==> request is None
                &&& numbers.len() > 0 ==> request is Some && request->0@ == (GraphQLRequestView {
                    query: issues_query(numbers),
                    variables: Some(repository_variables(self.owner@, self.repo_name@)),
                })
            }),
    {
        let numbers = prefetch_numbers(tickets, &self.ticket_to_issue);
        get_issues_batch_request(self.owner.as_str(), self.repo_name.as_str(), numbers.as_slice())
    }

    /// The issues that were fetched, by number. A request that failed, or
    /// was not made, leaves none.
    pub fn prefetched_issues(&self, tickets: &[Ticket], outcome: Option<Result<Json, String>>) -> (found:
        HashMap<u64, ExistingIssue>)
        ensures
            ({
                let numbers = numbers_to_fetch(views(tickets@), self.ticket_to_issue.pairs());
                match outcome {
                    Some(Ok(response)) => {
                        &&& forall|n: u64|
                            found@.contains_key(n) <==> numbers.contains(n) && fetched_issue(
                                response@,
                                n,
                            ) is Some
                        &&& forall|n: u64|
                            found@.contains_key(n) ==> (#[trigger] found@[n])@ == fetched_issue(
                                response@,
                                n,
                            )->0
                    },
                    _ => forall|n: u64| !found@.contains_key(n),
                }
            }),
    {
        match outcome {
            Some(Ok(response)) => {
                let numbers = prefetch_numbers(tickets, &self.ticket_to_issue);
                get_issues_batch_results(&response, numbers.as_slice())
            },
            _ => HashMap::new(),
        }
    }

    /// Compares a synced ticket with the issues that were fetched: see
    /// [`update_check`].
    pub fn check_update_needed(
        &self,
        ticket: &Ticket,
        existing_issues: &HashMap<u64, ExistingIssue>,
    ) -> (check: UpdateCheck)
        ensures
            check@ == update_check(ticket@, existing_issues@, self.ticket_to_issue.pairs()),
    {
        check_update_needed(ticket, existing_issues, &self.ticket_to_issue)
    }

    /// The id of the issue type for a ticket type: see [`issue_type_for`].
    pub fn resolve_issue_type_id(&self, ticket_type: &str) -> (id: Option<String>)
        ensures
            option_view(id) == issue_type_for(
                ticket_type@,
                text_pairs(self.config.mapping.type_map.pairs()),
                text_pairs(self.issue_type_cache.pairs()),
            ),
    {
        resolve_issue_type(ticket_type, &self.config.mapping.type_map, &self.issue_type_cache)
    }

    /// The body of the issue of a ticket: see [`issue_body`].
    pub fn format_issue_body(&self, ticket: &Ticket) -> (body: String)
        ensures
            body@ == issue_body(
                ticket@.id,
                ticket@.body,
                ticket@.deps,
                self.ticket_to_issue.pairs(),
            ),
    {
        format_issue_body_with_deps(
            ticket.id.as_str(),
            ticket.body.as_str(),
            ticket.deps.as_slice(),
            &self.ticket_to_issue,
        )
    }

    /// Decides for every ticket what is to be done: see [`decision`].
    pub fn plan(&self, tickets: &[Ticket], existing_issues: &HashMap<u64, ExistingIssue>) -> (plan:
        SyncPlan)
        ensures
            ({
                let types = IssueTypes {
                    type_map: text_pairs(self.config.mapping.type_map.pairs()),
                    cache: text_pairs(self.issue_type_cache.pairs()),
                };
                let models = views(tickets@);
                let index = self.ticket_to_issue.pairs();
                &&& plan.results@.len() == tickets@.len()
                &&& forall|i: int|
                    0 <= i < tickets@.len() ==> option_view(#[trigger] plan.results@[i])
                        == settled(decision(models[i], i as usize, existing_issues@, index, types))
                &&& plan.creates@ == create_indices(models, models.len())
                &&& views(plan.updates@) == planned_updates(
                    models,
                    existing_issues@,
                    index,
                    types,
                    models.len(),
                )
            }),
    {
        plan_sync(
            tickets,
            existing_issues,
            &self.ticket_to_issue,
            &self.config.mapping.type_map,
            &self.issue_type_cache,
        )
    }

    /// The issue to create for the ticket at `ticket_idx`, with the given
    /// labels: see [`pending_create`].
    pub fn pending_create(&self, ticket: &Ticket, ticket_idx: usize, label_ids: Vec<String>) -> (pending:
        PendingCreate)
        ensures
            pending@ == pending_create(
                ticket@,
                ticket_idx,
                views(label_ids@),
                self.ticket_to_issue.pairs(),
                text_pairs(self.config.mapping.type_map.pairs()),
                text_pairs(self.issue_type_cache.pairs()),
            ),
    {
        build_pending_create(
            ticket,
            ticket_idx,
            label_ids,
            &self.ticket_to_issue,
            &self.config.mapping.type_map,
            &self.issue_type_cache,
        )
    }

    /// The one request that creates the issues of all pending creations; no
    /// request where nothing is pending.
    pub fn batch_create_request(&self, pending: &[PendingCreate]) -> (request: Option<
        GraphQLRequest,
    >)
        ensures
            pending@.len() == 0 ==> request is None,
            pending@.len() > 0 ==> request is Some && request->0@ == batch_request(
                Operation::CreateIssue,
                Seq::new(
                    pending@.len(),
                    |i: int|
                        create_input(
                            self.repo_id@,
                            as_issue_create(pending@[i]@),
                            assignees(option_view(self.assignee_id)),
                        ),
                ),
            ),
    {
        batch_create_request(self.repo_id.as_str(), pending, &self.assignee_id)
    }
}

} // verus!
