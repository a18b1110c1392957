use ticket_to_ride::github::batch::{
    alias_key_text, build_batch, build_batch_document, input_key_text, Operation,
};
use ticket_to_ride::github::fields::{
    count_failures, get_issue_types_results, get_project_fields_results,
    get_project_item_ids_batch_request, get_project_item_ids_batch_results,
    set_field_batch_results, set_project_items_iteration_batch_request,
    set_project_items_single_select_batch_request, StatusUpdate,
};
use ticket_to_ride::github::issues::{
    close_issues_batch_request, create_issues_batch_request, create_issues_batch_results,
    get_issues_batch_request, get_issues_batch_results, reopen_issues_batch_request,
    update_issues_batch_request, update_issues_batch_results, IssueCreate, IssueUpdate,
};
use ticket_to_ride::github::json::Json;
use ticket_to_ride::github::projects::{
    add_issue_to_project_result, add_issues_to_project_batch_request,
    add_issues_to_project_batch_results, is_already_in_project, ProjectFieldType,
};
use ticket_to_ride::github::queries::{
    add_labels_to_issue_request, create_issue_request, get_issue_request, get_issue_result,
    get_repository_id_request, get_repository_id_result, get_user_id_result, is_organization,
};
use ticket_to_ride::github::subissues::{
    add_sub_issue_result, add_sub_issues_batch_request, add_sub_issues_batch_results,
    is_already_linked, SubIssueLink,
};

fn from_value(value: &serde_json::Value) -> Json {
    match value {
        serde_json::Value::Null => Json::Null,
        serde_json::Value::Bool(b) => Json::Flag(*b),
        serde_json::Value::Number(n) => match n.as_u64() {
            Some(u) => Json::Number(u),
            None => Json::Decimal(n.to_string()),
        },
        serde_json::Value::String(s) => Json::Text(s.clone()),
        serde_json::Value::Array(items) => Json::List(items.iter().map(from_value).collect()),
        serde_json::Value::Object(members) => {
            Json::Object(members.iter().map(|(k, v)| (k.clone(), from_value(v))).collect())
        }
    }
}

fn to_value(value: &Json) -> serde_json::Value {
    match value {
        Json::Null => serde_json::Value::Null,
        Json::Flag(b) => serde_json::Value::Bool(*b),
        Json::Number(n) => serde_json::Value::from(*n),
        Json::Decimal(text) => serde_json::from_str(text).unwrap(),
        Json::Text(s) => serde_json::Value::String(s.clone()),
        Json::List(items) => serde_json::Value::Array(items.iter().map(to_value).collect()),
        Json::Object(members) => serde_json::Value::Object(
            members.iter().map(|(k, v)| (k.clone(), to_value(v))).collect(),
        ),
    }
}

fn json(text: &str) -> Json {
    from_value(&serde_json::from_str(text).unwrap())
}

fn same(value: &Json, text: &str) -> bool {
    to_value(value) == serde_json::from_str::<serde_json::Value>(text).unwrap()
}

fn strings(items: &[&str]) -> Vec<String> {
    items.iter().map(|s| s.to_string()).collect()
}

#[test]
fn json_values_are_read_as_they_are_written() {
    let value = json(r#"{"a": {"b": "text", "n": 3, "neg": -1, "f": 1.5, "z": null, "l": [1, "x"]}}"#);
    let a = value.get("a").unwrap();
    assert_eq!(a.get_str("b"), Some("text"));
    assert_eq!(a.get_u64("n"), Some(3));
    assert_eq!(a.get_u64("neg"), None);
    assert_eq!(a.get_u64("f"), None);
    assert_eq!(a.get_u64("b"), None);
    assert_eq!(a.get_str("n"), None);
    assert!(a.get("z").unwrap().is_null());
    assert!(!a.get("b").unwrap().is_null());
    assert!(a.get("missing").is_none());
    assert!(a.get("b").unwrap().get("x").is_none());
    assert_eq!(a.get("l").unwrap().as_list().unwrap().len(), 2);
    assert!(a.get("b").unwrap().as_list().is_none());
    let twice = Json::Object(vec![("k".to_string(), Json::Number(1)), ("k".to_string(), Json::Number(2))]);
    assert_eq!(twice.get_u64("k"), Some(1));
}

#[test]
fn batch_document_has_one_aliased_call_for_each_input() {
    assert_eq!(
        build_batch_document(Operation::CreateIssue, 2),
        "mutation($input_0: CreateIssueInput!, $input_1: CreateIssueInput!) {\n  create_0: createIssue(input: $input_0) { issue { id number url } }\n  create_1: createIssue(input: $input_1) { issue { id number url } }\n}"
    );
    assert_eq!(
        build_batch_document(Operation::CloseIssue, 1),
        "mutation($input_0: CloseIssueInput!) {\n  close_0: closeIssue(input: $input_0) { issue { id } }\n}"
    );
    assert_eq!(
        build_batch_document(Operation::AddSubIssue, 1),
        "mutation($input_0: AddSubIssueInput!) {\n  link_0: addSubIssue(input: $input_0) { subIssue { id } }\n}"
    );
    assert_eq!(
        build_batch_document(Operation::AddProjectItem, 1),
        "mutation($input_0: AddProjectV2ItemByIdInput!) {\n  add_0: addProjectV2ItemById(input: $input_0) { item { id } }\n}"
    );
    assert_eq!(alias_key_text(Operation::UpdateIssue, 12), "update_12");
    assert_eq!(alias_key_text(Operation::ReopenIssue, 0), "reopen_0");
    assert_eq!(input_key_text(107), "input_107");
}

#[test]
fn batch_keeps_the_order_of_its_inputs() {
    let inputs = vec![Json::Number(10), Json::Number(11), Json::Number(12)];
    let request = build_batch(Operation::UpdateIssue, inputs).unwrap();
    assert!(same(request.variables.as_ref().unwrap(), r#"{"input_0": 10, "input_1": 11, "input_2": 12}"#));
    match request.variables.unwrap() {
        Json::Object(members) => {
            let keys: Vec<&str> = members.iter().map(|(k, _)| k.as_str()).collect();
            assert_eq!(keys, vec!["input_0", "input_1", "input_2"]);
        }
        _ => panic!("the variables are an object"),
    }
    assert!(build_batch(Operation::UpdateIssue, vec![]).is_none());
}

#[test]
fn two_creations_make_one_request_and_come_back_by_index() {
    let creates = vec![
        IssueCreate {
            title: "Issue 1".to_string(),
            body: "Body 1".to_string(),
            label_ids: vec![],
            issue_type_id: None,
        },
        IssueCreate {
            title: "Issue 2".to_string(),
            body: "Body 2".to_string(),
            label_ids: strings(&["L1", "L2"]),
            issue_type_id: Some("IT_1".to_string()),
        },
    ];
    let request = create_issues_batch_request("R_123", &creates, &strings(&["U_1"])).unwrap();
    assert!(request.query.contains("create_0: createIssue(input: $input_0)"));
    assert!(request.query.contains("create_1: createIssue(input: $input_1)"));
    assert!(!request.query.contains("create_2"));
    assert!(same(
        request.variables.as_ref().unwrap(),
        r#"{
            "input_0": {"repositoryId": "R_123", "title": "Issue 1", "body": "Body 1", "assigneeIds": ["U_1"]},
            "input_1": {"repositoryId": "R_123", "title": "Issue 2", "body": "Body 2", "assigneeIds": ["U_1"],
                        "labelIds": ["L1", "L2"], "issueTypeId": "IT_1"}
        }"#
    ));

    let response = json(
        r#"{
            "create_0": {"issue": {"id": "I_1", "number": 1, "url": "https://github.com/owner/repo/issues/1"}},
            "create_1": {"issue": {"id": "I_2", "number": 2, "url": "https://github.com/owner/repo/issues/2"}}
        }"#,
    );
    let results = create_issues_batch_results(&response, 2);
    assert_eq!(results.len(), 2);
    assert_eq!(results[0].as_ref().unwrap().number, 1);
    assert_eq!(results[0].as_ref().unwrap().id, "I_1");
    assert_eq!(results[1].as_ref().unwrap().number, 2);
    assert_eq!(results[1].as_ref().unwrap().url, "https://github.com/owner/repo/issues/2");
}

#[test]
fn empty_batches_make_no_request() {
    assert!(create_issues_batch_request("R", &[], &[]).is_none());
    assert!(update_issues_batch_request(&[]).is_none());
    assert!(close_issues_batch_request(&[]).is_none());
    assert!(reopen_issues_batch_request(&[]).is_none());
    assert!(add_sub_issues_batch_request(&[]).is_none());
    assert!(add_issues_to_project_batch_request("P", &[]).is_none());
    assert!(get_issues_batch_request("o", "r", &[]).is_none());
    assert!(get_project_item_ids_batch_request(&[]).is_none());
    assert!(set_project_items_single_select_batch_request("P", "F", &[]).is_none());
    assert!(set_project_items_iteration_batch_request("P", "F", "I", &[]).is_none());
    assert!(add_labels_to_issue_request("I", &[]).is_none());
    assert!(create_issues_batch_results(&json("{}"), 0).is_empty());
}

#[test]
fn creation_without_assignees_or_labels_names_neither() {
    let creates = vec![IssueCreate {
        title: "T".to_string(),
        body: "B".to_string(),
        label_ids: vec![],
        issue_type_id: None,
    }];
    let request = create_issues_batch_request("R", &creates, &[]).unwrap();
    assert!(same(
        request.variables.as_ref().unwrap(),
        r#"{"input_0": {"repositoryId": "R", "title": "T", "body": "B"}}"#
    ));
}

#[test]
fn missing_or_malformed_results_fail_item_by_item() {
    let response = json(
        r#"{
            "create_0": {"issue": {"id": "I_1", "number": 1, "url": "u"}},
            "create_1": {"issue": null},
            "create_2": {"issue": {"id": "I_3", "number": "3", "url": "u"}},
            "create_4": {"issue": {"id": "I_5", "number": 5}}
        }"#,
    );
    let results = create_issues_batch_results(&response, 5);
    assert!(results[0].is_ok());
    assert_eq!(results[1].as_ref().unwrap_err(), "Failed to create issue 1");
    assert_eq!(results[2].as_ref().unwrap_err(), "Failed to create issue 2");
    assert_eq!(results[3].as_ref().unwrap_err(), "Failed to create issue 3");
    assert_eq!(results[4].as_ref().unwrap_err(), "Failed to create issue 4");
}

#[test]
fn updates_come_back_by_issue_id() {
    let updates = vec![
        IssueUpdate {
            issue_id: "I_1".to_string(),
            title: "Updated 1".to_string(),
            body: "New body 1".to_string(),
            issue_type_id: None,
        },
        IssueUpdate {
            issue_id: "I_2".to_string(),
            title: "Updated 2".to_string(),
            body: "New body 2".to_string(),
            issue_type_id: Some("IT".to_string()),
        },
    ];
    let request = update_issues_batch_request(&updates).unwrap();
    assert_eq!(
        request.query,
        "mutation($input_0: UpdateIssueInput!, $input_1: UpdateIssueInput!) {\n  update_0: updateIssue(input: $input_0) { issue { id number url } }\n  update_1: updateIssue(input: $input_1) { issue { id number url } }\n}"
    );
    assert!(same(
        request.variables.as_ref().unwrap(),
        r#"{"input_0": {"id": "I_1", "title": "Updated 1", "body": "New body 1"},
            "input_1": {"id": "I_2", "title": "Updated 2", "body": "New body 2", "issueTypeId": "IT"}}"#
    ));
    let response = json(r#"{"update_0": {"issue": {"id": "I_1", "number": 1, "url": "u1"}}}"#);
    let results = update_issues_batch_results(&response, &updates);
    assert_eq!(results.len(), 2);
    assert_eq!(results.get("I_1").unwrap().as_ref().unwrap().number, 1);
    assert_eq!(results.get("I_2").unwrap().as_ref().unwrap_err(), "Failed to update issue I_2");
}

#[test]
fn close_and_reopen_name_the_issues() {
    let request = close_issues_batch_request(&strings(&["I_1", "I_2"])).unwrap();
    assert!(request.query.contains("close_1: closeIssue(input: $input_1) { issue { id } }"));
    assert!(same(
        request.variables.as_ref().unwrap(),
        r#"{"input_0": {"issueId": "I_1"}, "input_1": {"issueId": "I_2"}}"#
    ));
    let request = reopen_issues_batch_request(&strings(&["I_9"])).unwrap();
    assert_eq!(
        request.query,
        "mutation($input_0: ReopenIssueInput!) {\n  reopen_0: reopenIssue(input: $input_0) { issue { id } }\n}"
    );
}

#[test]
fn issues_are_fetched_under_their_numbers() {
    let request = get_issues_batch_request("owner", "repo", &[7, 12]).unwrap();
    assert!(request.query.contains("issue_7: issue(number: 7) { id number title body state url }"));
    assert!(request.query.contains("issue_12: issue(number: 12) { id number title body state url }"));
    assert!(request.query.starts_with("query($owner: String!, $name: String!) {"));
    assert!(same(request.variables.as_ref().unwrap(), r#"{"owner": "owner", "name": "repo"}"#));

    let response = json(
        r#"{"repository": {
            "issue_7": {"id": "I_7", "number": 7, "title": "T", "body": "B", "state": "OPEN", "url": "u"},
            "issue_12": null,
            "issue_13": {"id": "I_13", "title": "T", "body": "B", "state": "OPEN", "url": "u"},
            "issue_14": {"id": "I_14", "title": "T", "body": "B", "state": "OPEN"}
        }}"#,
    );
    let found = get_issues_batch_results(&response, &[7, 12, 14, 15, 7]);
    assert_eq!(found.len(), 1);
    let issue = &found[&7];
    assert_eq!(issue.id, "I_7");
    assert_eq!(issue.number, 7);
    assert_eq!(issue.state, "OPEN");
    assert!(get_issues_batch_results(&json("{}"), &[7]).is_empty());
}

#[test]
fn sub_issue_links_are_idempotent() {
    let links = vec![SubIssueLink {
        parent_issue_id: "I_parent".to_string(),
        child_issue_id: "I_child".to_string(),
    }];
    let request = add_sub_issues_batch_request(&links).unwrap();
    assert!(same(
        request.variables.as_ref().unwrap(),
        r#"{"input_0": {"issueId": "I_parent", "subIssueId": "I_child"}}"#
    ));

    let response = json(r#"{"link_0": {"subIssue": {"id": "I_child"}}, "link_1": {}, "link_3": {"subIssue": null}}"#);
    let results = add_sub_issues_batch_results(Ok(response), 4).unwrap();
    assert_eq!(results.len(), 4);
    assert!(results[0].is_ok());
    assert_eq!(results[1].as_ref().unwrap_err(), "No subIssue in response");
    assert_eq!(results[2].as_ref().unwrap_err(), "Missing response for link");
    assert!(results[3].is_ok());

    for message in [
        "Issue is Already a sub-issue of this parent",
        "x IS ALREADY A CHILD y",
        "parent already has this sub-issue",
        "Duplicate sub-issues are not allowed",
        "An issue may only have one parent",
    ] {
        assert!(is_already_linked(message), "{}", message);
        let results = add_sub_issues_batch_results(Err(message.to_string()), 3).unwrap();
        assert_eq!(results.len(), 3);
        assert!(results.iter().all(|r| r.is_ok()));
        assert!(add_sub_issue_result(Err(message.to_string())).is_ok());
    }
    assert!(!is_already_linked("Could not resolve to a node"));
    assert_eq!(
        add_sub_issues_batch_results(Err("Could not resolve".to_string()), 3).unwrap_err(),
        "Could not resolve"
    );
    assert_eq!(add_sub_issue_result(Err("boom".to_string())).unwrap_err(), "boom");
    assert!(add_sub_issue_result(Ok(())).is_ok());
    assert!(add_sub_issues_batch_results(Ok(json("{}")), 0).unwrap().is_empty());
}

#[test]
fn project_additions_are_idempotent() {
    let request = add_issues_to_project_batch_request("PVT_1", &strings(&["I_1", "I_2"])).unwrap();
    assert!(same(
        request.variables.as_ref().unwrap(),
        r#"{"input_0": {"projectId": "PVT_1", "contentId": "I_1"},
            "input_1": {"projectId": "PVT_1", "contentId": "I_2"}}"#
    ));
    let response = json(r#"{"add_0": {"item": {"id": "PVTI_1"}}, "add_1": {"item": null}, "add_2": {}}"#);
    let results = add_issues_to_project_batch_results(Ok(response), 4).unwrap();
    assert_eq!(results[0].as_ref().unwrap().item_id, "PVTI_1");
    assert_eq!(results[1].as_ref().unwrap_err(), "No item ID in response");
    assert_eq!(results[2].as_ref().unwrap_err(), "No item ID in response");
    assert_eq!(results[3].as_ref().unwrap_err(), "Missing response for item");

    assert!(is_already_in_project("Content ALREADY IN THE PROJECT"));
    assert!(is_already_in_project("item already added"));
    assert!(!is_already_in_project("already"));
    let results = add_issues_to_project_batch_results(Err("Already added".to_string()), 2).unwrap();
    assert_eq!(results.len(), 2);
    assert!(results.iter().all(|r| r.as_ref().unwrap().item_id.is_empty()));
    assert_eq!(
        add_issues_to_project_batch_results(Err("denied".to_string()), 2).unwrap_err(),
        "denied"
    );

    assert_eq!(add_issue_to_project_result(Ok(Some("PVTI_9".to_string()))).unwrap().item_id, "PVTI_9");
    assert_eq!(add_issue_to_project_result(Ok(None)).unwrap_err(), "Failed to add issue to project");
    assert_eq!(add_issue_to_project_result(Err("already in the project".to_string())).unwrap().item_id, "");
    assert_eq!(add_issue_to_project_result(Err("no".to_string())).unwrap_err(), "no");
}

#[test]
fn field_values_are_set_item_by_item() {
    let updates = vec![
        StatusUpdate { item_id: "PVTI_1".to_string(), option_id: "O_1".to_string() },
        StatusUpdate { item_id: "PVTI_2".to_string(), option_id: "O_2".to_string() },
    ];
    let request = set_project_items_single_select_batch_request("PVT", "F_status", &updates).unwrap();
    assert!(request.query.contains("field_1: updateProjectV2ItemFieldValue(input: $input_1) { projectV2Item { id } }"));
    assert!(same(
        request.variables.as_ref().unwrap(),
        r#"{"input_0": {"projectId": "PVT", "itemId": "PVTI_1", "fieldId": "F_status", "value": {"singleSelectOptionId": "O_1"}},
            "input_1": {"projectId": "PVT", "itemId": "PVTI_2", "fieldId": "F_status", "value": {"singleSelectOptionId": "O_2"}}}"#
    ));
    let request =
        set_project_items_iteration_batch_request("PVT", "F_iter", "IT_1", &strings(&["PVTI_1"])).unwrap();
    assert!(same(
        request.variables.as_ref().unwrap(),
        r#"{"input_0": {"projectId": "PVT", "itemId": "PVTI_1", "fieldId": "F_iter", "value": {"iterationId": "IT_1"}}}"#
    ));

    let response = json(r#"{"field_0": {"projectV2Item": {"id": "PVTI_1"}}, "field_1": {"projectV2Item": null}, "field_2": {}}"#);
    let results = set_field_batch_results(Ok(response), 4).unwrap();
    assert!(results[0].is_ok());
    assert_eq!(results[1].as_ref().unwrap_err(), "No item in response");
    assert_eq!(results[2].as_ref().unwrap_err(), "No item in response");
    assert_eq!(results[3].as_ref().unwrap_err(), "Missing response for item");
    assert_eq!(count_failures(&results), 3);
    assert_eq!(count_failures(&[]), 0);
    assert_eq!(set_field_batch_results(Err("e".to_string()), 4).unwrap_err(), "e");
}

#[test]
fn project_items_are_found_by_project() {
    let request = get_project_item_ids_batch_request(&strings(&["I_1", "I_2"])).unwrap();
    assert_eq!(
        request.query,
        "query($id_0: ID!, $id_1: ID!) {\n  issue_0: node(id: $id_0) { ... on Issue { projectItems(first: 50) { nodes { id project { id } } } } }\n  issue_1: node(id: $id_1) { ... on Issue { projectItems(first: 50) { nodes { id project { id } } } } }\n}"
    );
    assert!(same(request.variables.as_ref().unwrap(), r#"{"id_0": "I_1", "id_1": "I_2"}"#));

    let response = json(
        r#"{
            "issue_0": {"projectItems": {"nodes": [
                {"id": "X", "project": {"id": "OTHER"}},
                {"id": "PVTI_1", "project": {"id": "PVT"}},
                {"id": "PVTI_1b", "project": {"id": "PVT"}}
            ]}},
            "issue_1": {"projectItems": {"nodes": [{"id": "Y", "project": {"id": "OTHER"}}]}},
            "issue_2": null
        }"#,
    );
    let items = get_project_item_ids_batch_results(&response, "PVT", &strings(&["I_1", "I_2", "I_3", "I_4"]));
    assert_eq!(items.len(), 1);
    assert_eq!(items.get("I_1"), Some(&"PVTI_1".to_string()));
    assert_eq!(items.get("I_2"), None);
}

#[test]
fn project_fields_are_read_by_kind() {
    let response = json(
        r#"{"node": {"fields": {"nodes": [
            {"id": "F1", "name": "Title"},
            {"id": "F2", "name": "Status", "options": [{"id": "O1", "name": "Todo"}, {"id": "O2"}, {"id": "O3", "name": "Done"}]},
            {"id": "F3", "name": "Sprint", "configuration": {
                "iterations": [{"id": "IT1", "title": "Sprint 1"}],
                "completedIterations": [{"id": "IT0", "title": "Sprint 0"}]}},
            {},
            {"id": "F5"}
        ]}}}"#,
    );
    let fields = get_project_fields_results(&response);
    assert_eq!(fields.len(), 3);
    assert_eq!(fields[0].name, "Title");
    assert!(matches!(fields[0].field_type, ProjectFieldType::Other));
    match &fields[1].field_type {
        ProjectFieldType::SingleSelect { options } => {
            assert_eq!(options.len(), 2);
            assert_eq!(options[0].id, "O1");
            assert_eq!(options[1].name, "Done");
        }
        _ => panic!("Status is a single-select field"),
    }
    match &fields[2].field_type {
        ProjectFieldType::Iteration { active, completed } => {
            assert_eq!(active.len(), 1);
            assert_eq!(active[0].title, "Sprint 1");
            assert_eq!(completed[0].id, "IT0");
        }
        _ => panic!("Sprint is an iteration field"),
    }
    assert!(get_project_fields_results(&json(r#"{"node": null}"#)).is_empty());
    assert!(get_project_fields_results(&json(r#"{"node": {"fields": {"nodes": 3}}}"#)).is_empty());
}

#[test]
fn issue_types_are_read_where_the_repository_has_them() {
    let response = json(r#"{"repository": {"issueTypes": {"nodes": [{"id": "IT_1", "name": "Bug"}, {"id": "IT_2", "name": "Task"}]}}}"#);
    let types = get_issue_types_results(&response);
    assert_eq!(types.len(), 2);
    assert_eq!(types[0].id, "IT_1");
    assert_eq!(types[1].name, "Task");
    assert!(get_issue_types_results(&json(r#"{"repository": {"issueTypes": null}}"#)).is_empty());
    assert!(get_issue_types_results(&json(r#"{"repository": {}}"#)).is_empty());
}

#[test]
fn single_requests_carry_their_variables() {
    let request = get_repository_id_request("owner", "repo");
    assert_eq!(
        request.query,
        "query($owner: String!, $name: String!) { repository(owner: $owner, name: $name) { id } }"
    );
    assert!(same(request.variables.as_ref().unwrap(), r#"{"owner": "owner", "name": "repo"}"#));

    let request = create_issue_request("R_123", "Test Issue", "Test body", &strings(&["U_1"]));
    assert!(same(
        request.variables.as_ref().unwrap(),
        r#"{"input": {"repositoryId": "R_123", "title": "Test Issue", "body": "Test body", "assigneeIds": ["U_1"]}}"#
    ));
    let request = get_issue_request("o", "r", 42);
    assert!(same(request.variables.as_ref().unwrap(), r#"{"owner": "o", "name": "r", "number": 42}"#));
    let request = add_labels_to_issue_request("I_1", &strings(&["L_1"])).unwrap();
    assert!(same(
        request.variables.as_ref().unwrap(),
        r#"{"input": {"labelableId": "I_1", "labelIds": ["L_1"]}}"#
    ));
}

#[test]
fn single_results_say_what_was_not_found() {
    assert_eq!(get_repository_id_result(Some("R_1".to_string()), "o", "r").unwrap(), "R_1");
    assert_eq!(
        get_repository_id_result(None, "owner", "nonexistent").unwrap_err(),
        "Repository owner/nonexistent not found"
    );
    assert_eq!(get_user_id_result(None, "ghost").unwrap_err(), "User 'ghost' not found");
    assert_eq!(get_issue_result(None, 42, "o", "r").unwrap_err(), "Issue #42 not found in o/r");
    assert!(is_organization(Some("Organization")));
    assert!(!is_organization(Some("User")));
    assert!(!is_organization(None));
}
