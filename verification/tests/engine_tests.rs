use std::collections::HashMap;
use ticket_to_ride::config::{Config, GitHubConfig, LabelsConfig, MappingConfig, ProjectConfig};
use ticket_to_ride::github::fields::StatusUpdate;
use ticket_to_ride::github::issues::{ExistingIssue, IssueTypeInfo, LabelInfo};
use ticket_to_ride::github::json::Json;
use ticket_to_ride::github::projects::{
    FieldOption, IterationInfo, ProjectFieldInfo, ProjectFieldType, ProjectInfo, ProjectItemInfo,
};
use ticket_to_ride::name_map::NameMap;
use ticket_to_ride::sync::create::{batch_create_results, external_ref_to_write, record_result};
use ticket_to_ride::sync::engine::{setup_project_fields, SyncEngine};
use ticket_to_ride::sync::fields::{
    needs_project_fields, setup_iteration_field, setup_status_field, IterationSetup, StatusSetup,
};
use ticket_to_ride::sync::labels::LabelResolver;
use ticket_to_ride::sync::links::{build_node_index, link_sub_issues_request, parent_ticket_id, plan_links};
use ticket_to_ride::sync::plan::{build_issue_index, prefetch_numbers, PendingUpdate};
use ticket_to_ride::sync::project::{
    candidate_issue_ids, find_status_targets, issue_ids_of_targets, items_to_fill,
    new_issue_candidates, status_updates_for_items, status_updates_for_targets,
};
use ticket_to_ride::sync::results::{finish_results, place_results, summarize};
use ticket_to_ride::sync::update::{
    batch_close_request, batch_reopen_request, batch_update_request, batch_update_results,
};
use ticket_to_ride::sync::{
    check_update_needed, format_issue_body, format_issue_body_with_deps, SyncResult, SyncSummary,
    UpdateCheck,
};
use ticket_to_ride::ticket::Ticket;

fn from_value(value: &serde_json::Value) -> Json {
    match value {
        serde_json::Value::Null => Json::Null,
        serde_json::Value::Bool(b) => Json::Flag(*b),
        serde_json::Value::Number(n) => match n.as_u64() {
            Some(u) => Json::Number(u),
            None => Json::Decimal(n.to_string()),
        },
        serde_json::Value::String(s) => Json::Text(s.clone()),
        serde_json::Value::Array(items) => Json::List(items.iter().map(from_value).collect()),
        serde_json::Value::Object(members) => {
            Json::Object(members.iter().map(|(k, v)| (k.clone(), from_value(v))).collect())
        }
    }
}

fn json(text: &str) -> Json {
    from_value(&serde_json::from_str(text).unwrap())
}

fn ticket(id: &str, external_ref: Option<&str>) -> Ticket {
    Ticket {
        path: format!("{}.md", id),
        id: id.to_string(),
        status: "open".to_string(),
        deps: vec![],
        links: vec![],
        created: None,
        ticket_type: "task".to_string(),
        priority: 2,
        assignee: None,
        external_ref: external_ref.map(|r| r.to_string()),
        parent: None,
        tags: vec![],
        title: format!("Title of {}", id),
        body: format!("Body of {}", id),
    }
}

fn issue(number: u64, title: &str, body: &str, state: &str) -> ExistingIssue {
    ExistingIssue {
        id: format!("I_{}", number),
        number,
        title: title.to_string(),
        body: body.to_string(),
        state: state.to_string(),
        url: format!("https://github.com/owner/repo/issues/{}", number),
    }
}

fn config() -> Config {
    Config {
        github: GitHubConfig { repo: "owner/repo".to_string(), project: None, assignee: None },
        mapping: MappingConfig::default(),
        labels: LabelsConfig::default(),
        project: ProjectConfig::default(),
    }
}

fn engine() -> SyncEngine {
    SyncEngine::new(config(), "R_1".to_string(), None, &[], &[], None, None).unwrap()
}

fn reason(result: &Option<SyncResult>) -> String {
    match result {
        Some(SyncResult::Skipped { reason }) => format!("skipped: {}", reason),
        Some(SyncResult::Failed { error }) => format!("failed: {}", error),
        Some(SyncResult::Created { issue_number, .. }) => format!("created: {}", issue_number),
        Some(SyncResult::Updated { issue_number }) => format!("updated: {}", issue_number),
        None => "pending".to_string(),
    }
}

#[test]
fn unsynced_ticket_is_created_and_recorded() {
    let mut engine = engine();
    let mut tickets = vec![ticket("ttr-0001", None)];
    engine.index_dependencies(&tickets);
    assert!(engine.prefetch_request(&tickets).is_none());
    let existing = engine.prefetched_issues(&tickets, None);

    let plan = engine.plan(&tickets, &existing);
    assert_eq!(plan.creates, vec![0]);
    assert!(plan.updates.is_empty());
    assert!(plan.results[0].is_none());

    let pending = vec![engine.pending_create(&tickets[0], 0, vec![])];
    assert_eq!(pending[0].title, "Title of ttr-0001");
    assert_eq!(pending[0].body, format_issue_body("ttr-0001", "Body of ttr-0001"));
    let request = engine.batch_create_request(&pending).unwrap();
    assert!(request.query.contains("create_0: createIssue"));

    let response = json(
        r#"{"create_0": {"issue": {"id": "I_kwDOExample", "number": 42, "url": "https://github.com/owner/repo/issues/42"}}}"#,
    );
    let created = batch_create_results(Ok(response), pending.len());
    assert_eq!(created.len(), 1);
    let reference = external_ref_to_write(&created[0]).unwrap();
    assert_eq!(reference, "gh-42");
    tickets[0].set_external_ref(&reference);
    assert_eq!(tickets[0].external_ref, Some("gh-42".to_string()));
    let recorded: Vec<SyncResult> = created.into_iter().map(|r| record_result(r, None)).collect();

    let mut slots = plan.results;
    place_results(&mut slots, &plan.creates, &recorded);
    let results = finish_results(&slots);
    assert!(matches!(results[0], SyncResult::Created { issue_number: 42, .. }));
    let summary = summarize(&results);
    assert_eq!(summary, SyncSummary { created: 1, updated: 0, skipped: 0, failed: 0 });

    // The next run recognises the ticket by its reference.
    assert!(tickets[0].is_synced());
    assert_eq!(tickets[0].github_issue_number(), Some(42));
}

#[test]
fn issue_without_marker_is_a_conflict_and_is_left_alone() {
    let mut engine = engine();
    let tickets = vec![ticket("id", Some("gh-7"))];
    engine.index_dependencies(&tickets);
    assert_eq!(prefetch_numbers(&tickets, &engine.ticket_to_issue), vec![7]);
    let response = json(
        r#"{"repository": {"issue_7": {"id": "I_7", "number": 7, "title": "Title of id", "body": "edited by hand", "state": "OPEN", "url": "u"}}}"#,
    );
    let existing = engine.prefetched_issues(&tickets, Some(Ok(response)));
    assert!(existing.contains_key(&7));

    let plan = engine.plan(&tickets, &existing);
    assert!(plan.creates.is_empty());
    assert!(plan.updates.is_empty());
    assert_eq!(reason(&plan.results[0]), "skipped: issue modified outside ttr");
    assert!(engine.batch_create_request(&[]).is_none());
    assert!(batch_update_request(&plan.updates).is_none());
    assert!(batch_close_request(&plan.updates, &Ok(Json::Null)).is_none());
    assert!(batch_reopen_request(&plan.updates, &Ok(Json::Null)).is_none());

    let results = finish_results(&plan.results);
    assert_eq!(summarize(&results), SyncSummary { created: 0, updated: 0, skipped: 1, failed: 0 });
    assert_eq!(tickets[0].external_ref, Some("gh-7".to_string()));
}

#[test]
fn marker_of_another_ticket_is_a_conflict() {
    let tickets = vec![ticket("a", Some("gh-7"))];
    let index = build_issue_index(&tickets);
    let mut existing = HashMap::new();
    existing.insert(7, issue(7, "Title of a", &format_issue_body("ab", "Body of a"), "OPEN"));
    assert!(matches!(
        check_update_needed(&tickets[0], &existing, &index),
        UpdateCheck::Conflict(ref r) if r == "issue modified outside ttr"
    ));
}

#[test]
fn tickets_are_classified_one_by_one() {
    let mut engine = engine();
    let mut closed = ticket("closed", Some("gh-3"));
    closed.status = "closed".to_string();
    let mut reopened = ticket("reopened", Some("gh-4"));
    reopened.title = "New title".to_string();
    let tickets = vec![
        ticket("new", None),
        ticket("same", Some("gh-1")),
        ticket("gone", Some("gh-2")),
        closed,
        reopened,
        ticket("huge", Some("gh-99999999999999999999")),
        ticket("other", Some("jira-5")),
    ];
    engine.index_dependencies(&tickets);
    let mut existing = HashMap::new();
    existing.insert(1, issue(1, "Title of same", &format_issue_body("same", "Body of same"), "OPEN"));
    existing.insert(3, issue(3, "Title of closed", &format_issue_body("closed", "Body of closed"), "OPEN"));
    existing.insert(4, issue(4, "Old title", &format_issue_body("reopened", "Old body"), "CLOSED"));

    let plan = engine.plan(&tickets, &existing);
    assert_eq!(plan.results.len(), 7);
    assert_eq!(plan.creates, vec![0, 6]);
    assert_eq!(reason(&plan.results[0]), "pending");
    assert_eq!(reason(&plan.results[1]), "skipped: no changes");
    assert_eq!(reason(&plan.results[2]), "failed: Issue #2 not found");
    assert_eq!(reason(&plan.results[3]), "pending");
    assert_eq!(reason(&plan.results[4]), "pending");
    assert_eq!(reason(&plan.results[5]), "skipped: invalid external-ref");
    assert_eq!(reason(&plan.results[6]), "pending");

    assert_eq!(plan.updates.len(), 2);
    let close = &plan.updates[0];
    assert_eq!((close.ticket_idx, close.issue_id.as_str(), close.issue_number), (3, "I_3", 3));
    assert!(close.needs_close && !close.needs_reopen);
    let reopen = &plan.updates[1];
    assert_eq!(reopen.ticket_idx, 4);
    assert_eq!(reopen.title, "New title");
    assert_eq!(reopen.body, format_issue_body("reopened", "Body of reopened"));
    assert!(!reopen.needs_close && reopen.needs_reopen);
}

#[test]
fn dependencies_are_part_of_the_expected_body() {
    let mut with_dep = ticket("a", Some("gh-1"));
    with_dep.deps = vec!["b".to_string(), "c".to_string()];
    let all = vec![with_dep, ticket("b", Some("gh-2")), ticket("c", None)];
    let index = build_issue_index(&all);
    assert_eq!(index.get("b"), Some(&2));
    assert_eq!(index.get("c"), None);
    let body = format_issue_body_with_deps("a", "Body of a", &all[0].deps, &index);
    assert!(body.contains("**Depends on:** #2, `c` (not synced)"));

    let mut existing = HashMap::new();
    existing.insert(1, issue(1, "Title of a", &body, "OPEN"));
    assert!(matches!(check_update_needed(&all[0], &existing, &index), UpdateCheck::NoChanges));

    // Once c is synced the body differs and the issue is updated.
    let mut later = vec![ticket("c", Some("gh-3"))];
    later.insert(0, ticket("b", Some("gh-2")));
    let mut a = ticket("a", Some("gh-1"));
    a.deps = vec!["b".to_string(), "c".to_string()];
    later.insert(0, a);
    let index = build_issue_index(&later);
    match check_update_needed(&later[0], &existing, &index) {
        UpdateCheck::NeedsUpdate { body, needs_close, needs_reopen, issue_number, .. } => {
            assert!(body.contains("**Depends on:** #2, #3"));
            assert!(!needs_close && !needs_reopen);
            assert_eq!(issue_number, 1);
        }
        _ => panic!("the body has changed"),
    }
}

#[test]
fn parents_are_fetched_once() {
    let mut child = ticket("child", Some("gh-5"));
    child.parent = Some("parent".to_string());
    let mut sibling = ticket("sibling", None);
    sibling.parent = Some("parent".to_string());
    let mut orphan = ticket("orphan", Some("gh-6"));
    orphan.parent = Some("unknown".to_string());
    let mut own = ticket("own", Some("gh-5"));
    own.parent = Some("child".to_string());
    let all = vec![ticket("parent", Some("gh-9")), ticket("child", Some("gh-5"))];
    let index = build_issue_index(&all);
    let tickets = vec![child, sibling, orphan, own];
    assert_eq!(prefetch_numbers(&tickets, &index), vec![5, 6, 5, 9]);
}

#[test]
fn later_ticket_wins_in_the_index() {
    let all = vec![ticket("a", Some("gh-1")), ticket("b", Some("gh-2")), ticket("a", Some("gh-3"))];
    let index = build_issue_index(&all);
    assert_eq!(index.len(), 2);
    assert_eq!(index.get("a"), Some(&3));
    assert_eq!(index.key_at(0), "a");
}

#[test]
fn failed_request_fails_every_creation() {
    let results = batch_create_results(Err("GitHub API rate limit exceeded".to_string()), 2);
    assert_eq!(results.len(), 2);
    for result in &results {
        assert!(matches!(result, SyncResult::Failed { error } if error == "GitHub API rate limit exceeded"));
        assert!(external_ref_to_write(result).is_none());
    }
}

#[test]
fn creation_that_cannot_be_recorded_is_a_failure() {
    let created = SyncResult::Created { issue_id: "I".to_string(), issue_number: 42, url: "u".to_string() };
    match record_result(created, Some("disk full".to_string())) {
        SyncResult::Failed { error } => {
            assert_eq!(error, "Created #42 but failed to write external-ref: disk full")
        }
        _ => panic!("the write failed"),
    }
    let updated = SyncResult::Updated { issue_number: 1 };
    assert!(matches!(record_result(updated, Some("x".to_string())), SyncResult::Updated { issue_number: 1 }));
}

fn pending(idx: usize, id: &str, number: u64, close: bool, reopen: bool) -> PendingUpdate {
    PendingUpdate {
        ticket_idx: idx,
        issue_id: id.to_string(),
        issue_number: number,
        title: "t".to_string(),
        body: "b".to_string(),
        needs_close: close,
        needs_reopen: reopen,
        issue_type_id: None,
    }
}

fn outcome(result: &SyncResult) -> String {
    reason(&Some(result.clone()))
}

#[test]
fn updates_close_and_reopen_in_batches_of_their_own() {
    let updates = vec![
        pending(0, "I_1", 1, false, false),
        pending(2, "I_2", 2, true, false),
        pending(5, "I_3", 3, false, true),
        pending(6, "I_4", 4, true, false),
    ];
    assert!(batch_update_request(&updates).unwrap().query.contains("update_3: updateIssue"));

    let response = json(
        r#"{"update_0": {"issue": {"id": "I_1", "number": 1, "url": "u"}},
            "update_1": {"issue": {"id": "I_2", "number": 2, "url": "u"}},
            "update_2": {"issue": {"id": "I_3", "number": 3, "url": "u"}}}"#,
    );
    let content = Ok(response);
    let close = batch_close_request(&updates, &content).unwrap();
    assert!(close.query.contains("close_1: closeIssue") && !close.query.contains("close_2"));
    let reopen = batch_reopen_request(&updates, &content).unwrap();
    assert!(reopen.query.contains("reopen_0: reopenIssue") && !reopen.query.contains("reopen_1"));

    let results = batch_update_results(&updates, &content, &None, &None);
    let shown: Vec<String> = results.iter().map(outcome).collect();
    assert_eq!(shown, vec!["updated: 1", "updated: 2", "updated: 3", "failed: Failed to update issue I_4"]);

    let results = batch_update_results(&updates, &content, &Some("no".to_string()), &None);
    let shown: Vec<String> = results.iter().map(outcome).collect();
    assert_eq!(
        shown,
        vec!["updated: 1", "failed: Failed to close: no", "updated: 3", "failed: Failed to close: no"]
    );

    let results = batch_update_results(&updates, &content, &None, &Some("never".to_string()));
    let shown: Vec<String> = results.iter().map(outcome).collect();
    assert_eq!(
        shown,
        vec!["updated: 1", "updated: 2", "failed: Failed to reopen: never", "failed: Failed to update issue I_4"]
    );

    let failed = Err("bad gateway".to_string());
    assert!(batch_close_request(&updates, &failed).is_none());
    assert!(batch_reopen_request(&updates, &failed).is_none());
    let results = batch_update_results(&updates, &failed, &Some("x".to_string()), &Some("y".to_string()));
    assert!(results.iter().all(|r| outcome(r) == "failed: bad gateway"));
}

#[test]
fn results_keep_the_order_of_the_tickets() {
    let mut slots: Vec<Option<SyncResult>> = vec![
        None,
        Some(SyncResult::Skipped { reason: "no changes".to_string() }),
        None,
        None,
    ];
    let updated = vec![SyncResult::Updated { issue_number: 8 }];
    place_results(&mut slots, &[2], &updated);
    let created = vec![
        SyncResult::Created { issue_id: "I".to_string(), issue_number: 9, url: "u".to_string() },
        SyncResult::Failed { error: "Failed to create issue 1".to_string() },
        SyncResult::Updated { issue_number: 100 },
    ];
    place_results(&mut slots, &[0, 3, 17], &created);
    let results = finish_results(&slots);
    let shown: Vec<String> = results.iter().map(outcome).collect();
    assert_eq!(shown, vec!["created: 9", "skipped: no changes", "updated: 8", "failed: Failed to create issue 1"]);
    assert_eq!(summarize(&results), SyncSummary { created: 1, updated: 1, skipped: 1, failed: 1 });
    assert_eq!(outcome(&finish_results(&[None])[0]), "failed: Not processed");
    assert_eq!(summarize(&[]), SyncSummary::default());
}

#[test]
fn sub_issues_are_linked_where_both_issues_are_known() {
    let mut child = ticket("child", Some("gh-5"));
    child.parent = Some("parent".to_string());
    let mut fresh = ticket("fresh", None);
    fresh.parent = Some("parent".to_string());
    let mut lost = ticket("lost", Some("gh-6"));
    lost.parent = Some("nowhere".to_string());
    let mut failed = ticket("failed", None);
    failed.parent = Some("parent".to_string());
    let tickets = vec![child, fresh, lost, failed];
    let mut all = vec![ticket("parent", Some("gh-9"))];
    all.extend(tickets.iter().map(|t| ticket(&t.id, t.external_ref.as_deref())));

    let mut existing = HashMap::new();
    existing.insert(9, issue(9, "p", "b", "OPEN"));
    existing.insert(5, issue(5, "c", "b", "OPEN"));
    existing.insert(6, issue(6, "l", "b", "OPEN"));
    let results = vec![
        SyncResult::Updated { issue_number: 5 },
        SyncResult::Created { issue_id: "I_new".to_string(), issue_number: 10, url: "u".to_string() },
        SyncResult::Skipped { reason: "no changes".to_string() },
        SyncResult::Failed { error: "e".to_string() },
    ];
    let nodes = build_node_index(&all, &existing, &tickets, &results);
    assert_eq!(nodes.get("parent"), Some(&"I_9".to_string()));
    assert_eq!(nodes.get("fresh"), Some(&"I_new".to_string()));
    assert_eq!(nodes.get("failed"), None);

    let links = plan_links(&tickets, &nodes);
    assert_eq!(links.len(), 2);
    assert_eq!(links[0].child_ticket_id, "child");
    assert_eq!(links[0].link.parent_issue_id, "I_9");
    assert_eq!(links[0].link.child_issue_id, "I_5");
    assert_eq!(links[1].child_ticket_id, "fresh");
    assert_eq!(links[1].link.child_issue_id, "I_new");
    assert!(link_sub_issues_request(&links).unwrap().query.contains("link_1: addSubIssue"));
    assert!(link_sub_issues_request(&[]).is_none());
    assert_eq!(parent_ticket_id(&all, &nodes, "I_9"), "parent");
    assert_eq!(parent_ticket_id(&all, &nodes, "I_unknown"), "?");
}

fn status_cache() -> ticket_to_ride::sync::fields::StatusFieldCache {
    let mut options = NameMap::new();
    options.insert("open".to_string(), "O_todo".to_string());
    options.insert("closed".to_string(), "O_done".to_string());
    ticket_to_ride::sync::fields::StatusFieldCache {
        field_id: "F_status".to_string(),
        status_to_option: options,
    }
}

#[test]
fn new_issues_go_to_the_project_with_their_status() {
    let mut second = ticket("b", None);
    second.status = "In_Progress".to_string();
    let mut third = ticket("c", None);
    third.status = "CLOSED".to_string();
    let tickets = vec![ticket("a", None), second, third, ticket("d", Some("gh-1"))];
    let results = vec![
        SyncResult::Created { issue_id: "I_a".to_string(), issue_number: 1, url: "u".to_string() },
        SyncResult::Created { issue_id: "I_b".to_string(), issue_number: 2, url: "u".to_string() },
        SyncResult::Created { issue_id: "I_c".to_string(), issue_number: 3, url: "u".to_string() },
        SyncResult::Updated { issue_number: 4 },
    ];
    let candidates = new_issue_candidates(&tickets, &results);
    assert_eq!(candidate_issue_ids(&candidates), vec!["I_a", "I_b", "I_c"]);

    let added = vec![
        Ok(ProjectItemInfo { item_id: "PVTI_a".to_string() }),
        Ok(ProjectItemInfo { item_id: String::new() }),
        Ok(ProjectItemInfo { item_id: "PVTI_c".to_string() }),
    ];
    let items = items_to_fill(&candidates, &added);
    assert_eq!(items.len(), 2);
    assert_eq!(items[1].ticket_id, "c");
    let updates = status_updates_for_items(&items, &status_cache());
    assert_eq!(updates.len(), 2);
    assert_eq!((updates[0].item_id.as_str(), updates[0].option_id.as_str()), ("PVTI_a", "O_todo"));
    assert_eq!((updates[1].item_id.as_str(), updates[1].option_id.as_str()), ("PVTI_c", "O_done"));

    let failed = vec![Err("e".to_string()), Ok(ProjectItemInfo { item_id: "PVTI_b".to_string() })];
    let items = items_to_fill(&candidates, &failed);
    assert_eq!(items.len(), 1);
    assert!(status_updates_for_items(&items, &status_cache()).is_empty());
}

#[test]
fn status_is_synced_for_every_linked_ticket() {
    let mut closed = ticket("b", Some("gh-2"));
    closed.status = "Closed".to_string();
    let mut odd = ticket("c", Some("gh-3"));
    odd.status = "blocked".to_string();
    let tickets = vec![ticket("a", Some("gh-1")), closed, odd, ticket("d", None), ticket("e", Some("gh-5"))];
    let mut existing = HashMap::new();
    existing.insert(1, issue(1, "t", "b", "OPEN"));
    existing.insert(2, issue(2, "t", "b", "OPEN"));
    existing.insert(3, issue(3, "t", "b", "OPEN"));
    let targets = find_status_targets(&tickets, &existing, &status_cache());
    assert_eq!(issue_ids_of_targets(&targets), vec!["I_1", "I_2"]);
    assert_eq!(targets[1].option_id, "O_done");

    let mut items = NameMap::new();
    items.insert("I_2".to_string(), "PVTI_2".to_string());
    let updates: Vec<StatusUpdate> = status_updates_for_targets(&targets, &items);
    assert_eq!(updates.len(), 1);
    assert_eq!((updates[0].item_id.as_str(), updates[0].option_id.as_str()), ("PVTI_2", "O_done"));
}

fn label(id: &str, name: &str) -> LabelInfo {
    LabelInfo { id: id.to_string(), name: name.to_string() }
}

#[test]
fn engine_cannot_begin_with_a_broken_configuration() {
    let mut bad_repo = config();
    bad_repo.github.repo = "invalid".to_string();
    assert_eq!(
        SyncEngine::new(bad_repo, "R".to_string(), None, &[], &[], None, None).err().unwrap(),
        "Invalid repo format 'invalid'. Expected 'owner/repo'"
    );

    let mut bad_type = config();
    bad_type.mapping.type_map.insert("epic".to_string(), "Epic".to_string());
    let types = vec![IssueTypeInfo { id: "IT_1".to_string(), name: "Bug".to_string() }];
    assert_eq!(
        SyncEngine::new(bad_type, "R".to_string(), None, &[], &types, None, None).err().unwrap(),
        "Issue type mapping error: 'epic' -> 'Epic' not found.\nAvailable issue types: [\"bug\"]"
    );

    let mut no_project = config();
    no_project.github.project = Some("Roadmap".to_string());
    assert_eq!(
        SyncEngine::new(no_project, "R".to_string(), None, &[], &[], None, None).err().unwrap(),
        "Project 'Roadmap' not found. Check the project name or number in sync.toml."
    );

    let mut fine = config();
    fine.github.project = Some("Roadmap".to_string());
    fine.mapping.type_map.insert("bug".to_string(), "BUG".to_string());
    let project = ProjectInfo { id: "PVT".to_string(), title: "Roadmap".to_string(), number: 1 };
    let labels = vec![label("L_1", "Bug"), label("L_2", "docs"), label("L_3", "BUG")];
    let engine =
        SyncEngine::new(fine, "R".to_string(), Some("U_1".to_string()), &labels, &types, Some(project), None)
            .unwrap();
    assert_eq!(engine.owner, "owner");
    assert_eq!(engine.repo_name, "repo");
    assert_eq!(engine.label_cache.get("bug"), Some(&"L_3".to_string()));
    assert_eq!(engine.label_cache.get("docs"), Some(&"L_2".to_string()));
    assert_eq!(engine.resolve_issue_type_id("bug"), Some("IT_1".to_string()));
    assert_eq!(engine.resolve_issue_type_id("task"), None);
    assert!(engine.ticket_to_issue.is_empty());
}

#[test]
fn labels_are_resolved_tag_by_tag() {
    let mut cache = NameMap::new();
    cache.insert("bug".to_string(), "L_bug".to_string());
    let tags: Vec<String> = ["Bug", "docs", "new", "lost", "bug"].iter().map(|s| s.to_string()).collect();

    let off = LabelResolver::start(false, &tags);
    assert!(off.is_finished());
    assert!(off.finish().is_empty());

    let mut resolver = LabelResolver::start(true, &tags);
    resolver.take_cached(&cache);
    assert_eq!(resolver.next, 1);
    assert!(!resolver.is_finished());

    let listing = Ok(vec![label("L_docs", "DOCS")]);
    assert!(resolver.labels_listed(&mut cache, &listing, true).is_none());
    assert_eq!(cache.get("docs"), Some(&"L_docs".to_string()));
    resolver.take_cached(&cache);
    assert_eq!(resolver.next, 2);

    let create = resolver.labels_listed(&mut cache, &listing, true).unwrap();
    assert_eq!(create.name, "new");
    assert_eq!(create.color, ticket_to_ride::github::labels::generate_label_color("new"));
    assert_eq!(resolver.next, 2);
    resolver.label_created(&mut cache, Ok(label("L_new", "new")));
    assert_eq!(cache.get("new"), Some(&"L_new".to_string()));

    resolver.take_cached(&cache);
    assert_eq!(resolver.next, 3);
    assert!(resolver.labels_listed(&mut cache, &Err("offline".to_string()), true).is_none());
    resolver.take_cached(&cache);
    assert!(resolver.is_finished());
    assert_eq!(resolver.finish(), vec!["L_bug", "L_docs", "L_new", "L_bug"]);
    assert_eq!(cache.get("lost"), None);

    let mut resolver = LabelResolver::start(true, &["other".to_string()]);
    resolver.take_cached(&cache);
    assert!(resolver.labels_listed(&mut cache, &listing, false).is_none());
    assert!(resolver.is_finished());
    let mut resolver = LabelResolver::start(true, &["other".to_string()]);
    resolver.label_created(&mut cache, Err("denied".to_string()));
    assert!(resolver.is_finished());
    assert!(resolver.finish().is_empty());
}

fn option(id: &str, name: &str) -> FieldOption {
    FieldOption { id: id.to_string(), name: name.to_string() }
}

fn fields() -> Vec<ProjectFieldInfo> {
    vec![
        ProjectFieldInfo { id: "F_title".to_string(), name: "Title".to_string(), field_type: ProjectFieldType::Other },
        ProjectFieldInfo {
            id: "F_status".to_string(),
            name: "STATUS".to_string(),
            field_type: ProjectFieldType::SingleSelect {
                options: vec![option("O_1", "Todo"), option("O_2", "In Progress"), option("O_3", "Done")],
            },
        },
        ProjectFieldInfo {
            id: "F_iter".to_string(),
            name: "Iteration".to_string(),
            field_type: ProjectFieldType::Iteration {
                active: vec![
                    IterationInfo { id: "IT_2".to_string(), title: "Sprint 2".to_string() },
                    IterationInfo { id: "IT_3".to_string(), title: "Sprint 3".to_string() },
                ],
                completed: vec![IterationInfo { id: "IT_1".to_string(), title: "Sprint 1".to_string() }],
            },
        },
    ]
}

#[test]
fn status_field_is_set_up_from_the_mapping() {
    let mut config = ProjectConfig::default();
    assert!(!needs_project_fields(&config));
    config.status.insert("Open".to_string(), "todo".to_string());
    config.status.insert("closed".to_string(), "DONE".to_string());
    assert!(needs_project_fields(&config));
    match setup_status_field(&fields(), &config) {
        StatusSetup::Ready(cache) => {
            assert_eq!(cache.field_id, "F_status");
            assert_eq!(cache.status_to_option.get("open"), Some(&"O_1".to_string()));
            assert_eq!(cache.status_to_option.get("closed"), Some(&"O_3".to_string()));
            assert_eq!(cache.status_to_option.len(), 2);
        }
        _ => panic!("every option is there"),
    }

    config.status.insert("blocked".to_string(), "Blocked".to_string());
    config.status.insert("later".to_string(), "Later".to_string());
    match setup_status_field(&fields(), &config) {
        StatusSetup::Invalid { error } => assert_eq!(
            error,
            "Project status option 'Blocked' (for ticket status 'blocked') not found.\nAvailable options: [\"Todo\", \"In Progress\", \"Done\"]"
        ),
        _ => panic!("an option is missing"),
    }

    config.status_field = "State".to_string();
    match setup_status_field(&fields(), &config) {
        StatusSetup::Skipped { warning } => {
            assert_eq!(warning, "Project field 'State' not found, skipping status sync")
        }
        _ => panic!("there is no such field"),
    }
    config.status_field = "title".to_string();
    match setup_status_field(&fields(), &config) {
        StatusSetup::Skipped { warning } => assert_eq!(
            warning,
            "Project field 'title' is not a single-select field, skipping status sync"
        ),
        _ => panic!("the field is of another kind"),
    }
}

#[test]
fn iteration_field_is_set_up_from_the_setting() {
    let mut config = ProjectConfig::default();
    assert!(matches!(setup_iteration_field(&fields(), &config), IterationSetup::NotConfigured));

    config.iteration = Some("@current".to_string());
    assert!(needs_project_fields(&config));
    match setup_iteration_field(&fields(), &config) {
        IterationSetup::Ready(cache) => {
            assert_eq!((cache.field_id.as_str(), cache.iteration_id.as_str()), ("F_iter", "IT_2"))
        }
        _ => panic!("an iteration is active"),
    }
    config.iteration = Some("sprint 3".to_string());
    match setup_iteration_field(&fields(), &config) {
        IterationSetup::Ready(cache) => assert_eq!(cache.iteration_id, "IT_3"),
        _ => panic!("the iteration is active"),
    }
    config.iteration = Some("Sprint 1".to_string());
    match setup_iteration_field(&fields(), &config) {
        IterationSetup::Invalid { error } => assert_eq!(
            error,
            "Iteration 'Sprint 1' not found.\nAvailable active iterations: [\"Sprint 2\", \"Sprint 3\"]"
        ),
        _ => panic!("the iteration is completed"),
    }
    config.iteration_field = "Cycle".to_string();
    match setup_iteration_field(&fields(), &config) {
        IterationSetup::Skipped { warning } => {
            assert_eq!(warning, "Project field 'Cycle' not found, skipping iteration sync")
        }
        _ => panic!("there is no such field"),
    }
    config.iteration_field = "Status".to_string();
    match setup_iteration_field(&fields(), &config) {
        IterationSetup::Skipped { warning } => assert_eq!(
            warning,
            "Project field 'Status' is not an iteration field, skipping iteration sync"
        ),
        _ => panic!("the field is of another kind"),
    }
    config.iteration_field = "Iteration".to_string();
    config.iteration = Some("@current".to_string());
    let mut none_active = fields();
    none_active[2].field_type = ProjectFieldType::Iteration { active: vec![], completed: vec![] };
    match setup_iteration_field(&none_active, &config) {
        IterationSetup::Skipped { warning } => {
            assert_eq!(warning, "No active iteration found, skipping iteration sync")
        }
        _ => panic!("no iteration is active"),
    }
}

#[test]
fn project_fields_are_set_up_together() {
    let mut config = ProjectConfig::default();
    config.status.insert("open".to_string(), "Todo".to_string());
    config.iteration = Some("@current".to_string());
    let setup = setup_project_fields(&fields(), &config).ok().unwrap();
    assert!(setup.warnings.is_empty());
    let cache = setup.cache.unwrap();
    assert!(cache.status.is_some());
    assert_eq!(cache.iteration.unwrap().iteration_id, "IT_2");

    config.status_field = "State".to_string();
    config.iteration_field = "Cycle".to_string();
    let setup = setup_project_fields(&fields(), &config).ok().unwrap();
    assert!(setup.cache.is_none());
    assert_eq!(
        setup.warnings,
        vec![
            "Project field 'State' not found, skipping status sync",
            "Project field 'Cycle' not found, skipping iteration sync"
        ]
    );

    config.status_field = "Status".to_string();
    config.status.insert("x".to_string(), "Nope".to_string());
    assert!(setup_project_fields(&fields(), &config).err().unwrap().starts_with("Project status option 'Nope'"));

    let mut only_iteration = ProjectConfig::default();
    only_iteration.iteration = Some("none".to_string());
    assert!(setup_project_fields(&fields(), &only_iteration).err().unwrap().starts_with("Iteration 'none' not found."));
    let nothing = ProjectConfig::default();
    let setup = setup_project_fields(&fields(), &nothing).ok().unwrap();
    assert!(setup.cache.is_none() && setup.warnings.is_empty());
}
