//! The requests that deal with one thing at a time, and what their
//! responses mean.

use crate::decimal::decimal;
use crate::github::batch::{GraphQLRequest, GraphQLRequestView};
use crate::github::issues::{
    build_create_input, build_issue_id_input, build_repository_variables, build_update_input,
    create_input, issue_id_input, repository_variables, text_list, update_input, ExistingIssue,
    IssueCreate, IssueCreateView, IssueInfo, IssueUpdate, IssueUpdateView, LabelInfo,
};
use crate::github::json::{Json, JsonView};
use crate::github::projects::{build_project_item_input, project_item_input};
use crate::github::subissues::{build_link_input, link_input, SubIssueLink, SubIssueLinkView};
use crate::text::{extend_from, extend_str, outcome_view, string_of, views};
use vstd::prelude::*;

verus! {

/// The document that asks for the node id of a repository.
pub const REPOSITORY_ID_QUERY: &'static str =
    "query($owner: String!, $name: String!) { repository(owner: $owner, name: $name) { id } }";

/// The document that asks for the node id of a user.
pub const USER_ID_QUERY: &'static str =
    "query($login: String!) { user(login: $login) { id } }";

/// The document that creates one issue.
pub const CREATE_ISSUE_MUTATION: &'static str =
    "mutation($input: CreateIssueInput!) { createIssue(input: $input) { issue { id number url } } }";

/// The document that asks for one issue of a repository.
pub const ISSUE_QUERY: &'static str =
    "query($owner: String!, $name: String!, $number: Int!) { repository(owner: $owner, name: $name) { issue(number: $number) { id number title body state url } } }";

/// The document that updates one issue.
pub const UPDATE_ISSUE_MUTATION: &'static str =
    "mutation($input: UpdateIssueInput!) { updateIssue(input: $input) { issue { id number url } } }";

/// The document that closes one issue.
pub const CLOSE_ISSUE_MUTATION: &'static str =
    "mutation($input: CloseIssueInput!) { closeIssue(input: $input) { issue { id } } }";

/// The document that reopens one issue.
pub const REOPEN_ISSUE_MUTATION: &'static str =
    "mutation($input: ReopenIssueInput!) { reopenIssue(input: $input) { issue { id } } }";

/// The document that lists the labels of a repository.
pub const LABELS_QUERY: &'static str =
    "query($owner: String!, $name: String!) { repository(owner: $owner, name: $name) { labels(first: 100) { nodes { id name } } } }";

/// The document that creates one label.
pub const CREATE_LABEL_MUTATION: &'static str =
    "mutation($input: CreateLabelInput!) { createLabel(input: $input) { label { id name } } }";

/// The document that puts labels on an issue.
pub const ADD_LABELS_MUTATION: &'static str =
    "mutation($input: AddLabelsToLabelableInput!) { addLabelsToLabelable(input: $input) { labelable { __typename } } }";

/// The document that lists the projects of a repository.
pub const REPOSITORY_PROJECTS_QUERY: &'static str =
    "query($owner: String!, $repo: String!) { repository(owner: $owner, name: $repo) { projectsV2(first: 50) { nodes { id title number } } } }";

/// The document that lists the projects of an organization.
pub const ORGANIZATION_PROJECTS_QUERY: &'static str =
    "query($org: String!) { organization(login: $org) { projectsV2(first: 50) { nodes { id title number } } } }";

/// The document that lists the projects of a user.
pub const USER_PROJECTS_QUERY: &'static str =
    "query($user: String!) { user(login: $user) { projectsV2(first: 50) { nodes { id title number } } } }";

/// The document that asks what kind of owner a repository has.
pub const OWNER_KIND_QUERY: &'static str =
    "query($owner: String!, $repo: String!) { repository(owner: $owner, name: $repo) { owner { __typename } } }";

/// The document that adds one issue to a project.
pub const ADD_PROJECT_ITEM_MUTATION: &'static str =
    "mutation($input: AddProjectV2ItemByIdInput!) { addProjectV2ItemById(input: $input) { item { id } } }";

/// The document that puts one issue under another.
pub const ADD_SUB_ISSUE_MUTATION: &'static str =
    "mutation($input: AddSubIssueInput!) { addSubIssue(input: $input) { subIssue { id } } }";

/// The document that asks for the fields of a project.
pub const PROJECT_FIELDS_QUERY: &'static str =
    "query($projectId: ID!) { node(id: $projectId) { ... on ProjectV2 { fields(first: 50) { nodes { ... on ProjectV2FieldCommon { id name } ... on ProjectV2SingleSelectField { options { id name } } ... on ProjectV2IterationField { configuration { iterations { id title } completedIterations { id title } } } } } } } }";

/// The document that lists the issue types of a repository.
pub const ISSUE_TYPES_QUERY: &'static str =
    "query($owner: String!, $name: String!) { repository(owner: $owner, name: $name) { issueTypes(first: 50) { nodes { id name } } } }";

/// The variables of a mutation that takes one input.
pub open spec fn input_variables(input: JsonView) -> JsonView {
    JsonView::Object(seq![("input"@, input)])
}

/// An object with one member, which is a text.
pub open spec fn one_text(key: Seq<char>, value: Seq<char>) -> JsonView {
    JsonView::Object(seq![(key, JsonView::Text(value))])
}

/// An object with two members, which are texts.
pub open spec fn two_texts(
    first: (Seq<char>, Seq<char>),
    second: (Seq<char>, Seq<char>),
) -> JsonView {
    JsonView::Object(
        seq![(first.0, JsonView::Text(first.1)), (second.0, JsonView::Text(second.1))],
    )
}

/// The variables that name one issue of a repository.
pub open spec fn issue_variables(owner: Seq<char>, name: Seq<char>, number: u64) -> JsonView {
    JsonView::Object(
        seq![
            ("owner"@, JsonView::Text(owner)),
            ("name"@, JsonView::Text(name)),
            ("number"@, JsonView::Number(number)),
        ],
    )
}

/// The input of the mutation that creates one label.
pub open spec fn label_input(repo_id: Seq<char>, name: Seq<char>, color: Seq<char>) -> JsonView {
    JsonView::Object(
        seq![
            ("repositoryId"@, JsonView::Text(repo_id)),
            ("name"@, JsonView::Text(name)),
            ("color"@, JsonView::Text(color)),
        ],
    )
}

/// The input of the mutation that puts labels on an issue.
pub open spec fn labels_input(issue_id: Seq<char>, label_ids: Seq<Seq<char>>) -> JsonView {
    JsonView::Object(
        seq![("labelableId"@, JsonView::Text(issue_id)), ("labelIds"@, text_list(label_ids))],
    )
}

/// The request with the given document and variables.
pub fn request(document: &str, variables: Json) -> (request: GraphQLRequest)
    ensures
        request@ == (GraphQLRequestView { query: document@, variables: Some(variables@) }),
{
    GraphQLRequest { query: String::from_str(document), variables: Some(variables) }
}

/// The variables of a mutation that takes one input: see
/// [`input_variables`].
fn wrap_input(input: Json) -> (variables: Json)
    ensures
        variables@ == input_variables(input@),
{
    let mut members: Vec<(String, Json)> = Vec::new();
    members.push((String::from_str("input"), input));
    let variables = Json::object(members);
    assert(variables@->Object_0 =~= input_variables(input@)->Object_0);
    variables
}

/// An object with one member, which is a text: see [`one_text`].
fn build_one_text(key: &str, value: &str) -> (object: Json)
    ensures
        object@ == one_text(key@, value@),
{
    let mut members: Vec<(String, Json)> = Vec::new();
    members.push((String::from_str(key), Json::text(value)));
    let object = Json::object(members);
    assert(object@->Object_0 =~= one_text(key@, value@)->Object_0);
    object
}

/// An object with two members, which are texts: see [`two_texts`].
fn build_two_texts(first: (&str, &str), second: (&str, &str)) -> (object: Json)
    ensures
        object@ == two_texts((first.0@, first.1@), (second.0@, second.1@)),
{
    let mut members: Vec<(String, Json)> = Vec::new();
    members.push((String::from_str(first.0), Json::text(first.1)));
    members.push((String::from_str(second.0), Json::text(second.1)));
    let object = Json::object(members);
    assert(object@->Object_0 =~= two_texts(
        (first.0@, first.1@),
        (second.0@, second.1@),
    )->Object_0);
    object
}

/// The request for the node id of a repository.
pub fn get_repository_id_request(owner: &str, name: &str) -> (request: GraphQLRequest)
    ensures
        request@ == (GraphQLRequestView {
            query: REPOSITORY_ID_QUERY@,
            variables: Some(repository_variables(owner@, name@)),
        }),
{
    request(REPOSITORY_ID_QUERY, build_repository_variables(owner, name))
}

/// The message for a repository that the API does not know.
pub open spec fn repository_not_found(owner: Seq<char>, name: Seq<char>) -> Seq<char> {
    "Repository "@ + owner + "/"@ + name + " not found"@
}

/// The node id of a repository, or the message that it was not found.
/// `found` is the id as far as the response held one.
pub fn get_repository_id_result(found: Option<String>, owner: &str, name: &str) -> (result: Result<
    String,
    String,
>)
    ensures
        match found {
            Some(id) => result is Ok && result->Ok_0@ == id@,
            None => result is Err && result->Err_0@ == repository_not_found(owner@, name@),
        },
{
    match found {
        Some(id) => Ok(id),
        None => {
            let mut buf: Vec<char> = Vec::new();
            extend_str(&mut buf, "Repository ");
            extend_str(&mut buf, owner);
            extend_str(&mut buf, "/");
            extend_str(&mut buf, name);
            extend_str(&mut buf, " not found");
            Err(string_of(buf.as_slice()))
        },
    }
}

/// The request for the node id of a user.
pub fn get_user_id_request(username: &str) -> (request: GraphQLRequest)
    ensures
        request@ == (GraphQLRequestView {
            query: USER_ID_QUERY@,
            variables: Some(one_text("login"@, username@)),
        }),
{
    request(USER_ID_QUERY, build_one_text("login", username))
}

/// The message for a user that the API does not know.
pub open spec fn user_not_found(username: Seq<char>) -> Seq<char> {
    "User '"@ + username + "' not found"@
}

/// The node id of a user, or the message that the user was not found.
/// `found` is the id as far as the response held one.
pub fn get_user_id_result(found: Option<String>, username: &str) -> (result: Result<String, String>)
    ensures
        match found {
            Some(id) => result is Ok && result->Ok_0@ == id@,
            None => result is Err && result->Err_0@ == user_not_found(username@),
        },
{
    match found {
        Some(id) => Ok(id),
        None => {
            let mut buf: Vec<char> = Vec::new();
            extend_str(&mut buf, "User '");
            extend_str(&mut buf, username);
            extend_str(&mut buf, "' not found");
            Err(string_of(buf.as_slice()))
        },
    }
}

/// The request that creates one issue without labels or type, assigned to
/// the given users.
pub fn create_issue_request(repo_id: &str, title: &str, body: &str, assignee_ids: &[String]) -> (request:
    GraphQLRequest)
    ensures
        request@ == (GraphQLRequestView {
            query: CREATE_ISSUE_MUTATION@,
            variables: Some(
                input_variables(
                    create_input(
                        repo_id@,
                        IssueCreateView {
                            title: title@,
                            body: body@,
                            label_ids: Seq::empty(),
                            issue_type_id: None,
                        },
                        views(assignee_ids@),
                    ),
                ),
            ),
        }),
{
    let create = IssueCreate {
        title: String::from_str(title),
        body: String::from_str(body),
        label_ids: Vec::new(),
        issue_type_id: None,
    };
    assert(create@.label_ids =~= Seq::<Seq<char>>::empty());
    request(CREATE_ISSUE_MUTATION, wrap_input(build_create_input(repo_id, &create, assignee_ids)))
}

/// The issue that a mutation made, or the message that it made none.
/// `found` is the issue as far as the response held one.
pub fn issue_result(found: Option<IssueInfo>, failure: &str) -> (result: Result<IssueInfo, String>)
    ensures
        outcome_view(result) == match found {
            Some(info) => Ok(info@),
            None => Err(failure@),
        },
{
    match found {
        Some(info) => Ok(info),
        None => Err(String::from_str(failure)),
    }
}

/// What creating one issue came to: the issue, or `Failed to create
/// issue`.
pub fn create_issue_result(found: Option<IssueInfo>) -> (result: Result<IssueInfo, String>)
    ensures
        outcome_view(result) == match found {
            Some(info) => Ok(info@),
            None => Err("Failed to create issue"@),
        },
{
    issue_result(found, "Failed to create issue")
}

/// What updating one issue came to: the issue, or `Failed to update
/// issue`.
pub fn update_issue_result(found: Option<IssueInfo>) -> (result: Result<IssueInfo, String>)
    ensures
        outcome_view(result) == match found {
            Some(info) => Ok(info@),
            None => Err("Failed to update issue"@),
        },
{
    issue_result(found, "Failed to update issue")
}

/// The request for one issue of a repository.
pub fn get_issue_request(owner: &str, name: &str, number: u64) -> (request: GraphQLRequest)
    ensures
        request@ == (GraphQLRequestView {
            query: ISSUE_QUERY@,
            variables: Some(issue_variables(owner@, name@, number)),
        }),
{
    let mut members: Vec<(String, Json)> = Vec::new();
    members.push((String::from_str("owner"), Json::text(owner)));
    members.push((String::from_str("name"), Json::text(name)));
    members.push((String::from_str("number"), Json::Number(number)));
    let variables = Json::object(members);
    assert(variables@->Object_0 =~= issue_variables(owner@, name@, number)->Object_0);
    request(ISSUE_QUERY, variables)
}

/// The message for an issue that the repository does not have.
pub open spec fn issue_not_in_repository(number: u64, owner: Seq<char>, name: Seq<char>) -> Seq<
    char,
> {
    "Issue #"@ + decimal(number as nat) + " not found in "@ + owner + "/"@ + name
}

/// The issue that was asked for, or the message that it was not found.
/// `found` is the issue as far as the response held one.
pub fn get_issue_result(found: Option<ExistingIssue>, number: u64, owner: &str, name: &str) -> (result:
    Result<ExistingIssue, String>)
    ensures
        outcome_view(result) == match found {
            Some(issue) => Ok(issue@),
            None => Err(issue_not_in_repository(number, owner@, name@)),
        },
{
    match found {
        Some(issue) => Ok(issue),
        None => {
            let mut buf: Vec<char> = Vec::new();
            extend_str(&mut buf, "Issue #");
            let digits = crate::decimal::decimal_chars(number);
            extend_from(&mut buf, digits.as_slice(), 0, digits.len());
            assert(digits@.subrange(0, digits@.len() as int) == digits@);
            extend_str(&mut buf, " not found in ");
            extend_str(&mut buf, owner);
            extend_str(&mut buf, "/");
            extend_str(&mut buf, name);
            Err(string_of(buf.as_slice()))
        },
    }
}

/// The request that gives one issue a new title and body.
pub fn update_issue_request(issue_id: &str, title: &str, body: &str) -> (request: GraphQLRequest)
    ensures
        request@ == (GraphQLRequestView {
            query: UPDATE_ISSUE_MUTATION@,
            variables: Some(
                input_variables(
                    update_input(
                        IssueUpdateView {
                            issue_id: issue_id@,
                            title: title@,
                            body: body@,
                            issue_type_id: None,
                        },
                    ),
                ),
            ),
        }),
{
    let update = IssueUpdate {
        issue_id: String::from_str(issue_id),
        title: String::from_str(title),
        body: String::from_str(body),
        issue_type_id: None,
    };
    request(UPDATE_ISSUE_MUTATION, wrap_input(build_update_input(&update)))
}

/// The request that closes one issue.
pub fn close_issue_request(issue_id: &str) -> (request: GraphQLRequest)
    ensures
        request@ == (GraphQLRequestView {
            query: CLOSE_ISSUE_MUTATION@,
            variables: Some(input_variables(issue_id_input(issue_id@))),
        }),
{
    request(CLOSE_ISSUE_MUTATION, wrap_input(build_issue_id_input(issue_id)))
}

/// The request that reopens one issue.
pub fn reopen_issue_request(issue_id: &str) -> (request: GraphQLRequest)
    ensures
        request@ == (GraphQLRequestView {
            query: REOPEN_ISSUE_MUTATION@,
            variables: Some(input_variables(issue_id_input(issue_id@))),
        }),
{
    request(REOPEN_ISSUE_MUTATION, wrap_input(build_issue_id_input(issue_id)))
}

/// The request that lists the labels of a repository.
pub fn get_labels_request(owner: &str, name: &str) -> (request: GraphQLRequest)
    ensures
        request@ == (GraphQLRequestView {
            query: LABELS_QUERY@,
            variables: Some(repository_variables(owner@, name@)),
        }),
{
    request(LABELS_QUERY, build_repository_variables(owner, name))
}

/// The request that creates one label.
pub fn create_label_request(repo_id: &str, name: &str, color: &str) -> (request: GraphQLRequest)
    ensures
        request@ == (GraphQLRequestView {
            query: CREATE_LABEL_MUTATION@,
            variables: Some(input_variables(label_input(repo_id@, name@, color@))),
        }),
{
    let mut members: Vec<(String, Json)> = Vec::new();
    members.push((String::from_str("repositoryId"), Json::text(repo_id)));
    members.push((String::from_str("name"), Json::text(name)));
    members.push((String::from_str("color"), Json::text(color)));
    let input = Json::object(members);
    assert(input@->Object_0 =~= label_input(repo_id@, name@, color@)->Object_0);
    request(CREATE_LABEL_MUTATION, wrap_input(input))
}

/// The message for a label that could not be created.
pub open spec fn label_not_created(name: Seq<char>) -> Seq<char> {
    "Failed to create label '"@ + name + "'"@
}

/// The label that was created, or the message that none was. `found` is
/// the label as far as the response held one.
pub fn create_label_result(found: Option<LabelInfo>, name: &str) -> (result: Result<
    LabelInfo,
    String,
>)
    ensures
        outcome_view(result) == match found {
            Some(label) => Ok(label@),
            None => Err(label_not_created(name@)),
        },
{
    match found {
        Some(label) => Ok(label),
        None => {
            let mut buf: Vec<char> = Vec::new();
            extend_str(&mut buf, "Failed to create label '");
            extend_str(&mut buf, name);
            extend_str(&mut buf, "'");
            Err(string_of(buf.as_slice()))
        },
    }
}

/// The request that puts the given labels on an issue; no request where
/// there is no label.
pub fn add_labels_to_issue_request(issue_id: &str, label_ids: &[String]) -> (request: Option<
    GraphQLRequest,
>)
    ensures
        label_ids@.len() == 0 ==> request is None,
        label_ids@.len() > 0 ==> request is Some && request->0@ == (GraphQLRequestView {
            query: ADD_LABELS_MUTATION@,
            variables: Some(input_variables(labels_input(issue_id@, views(label_ids@)))),
        }),
{
    if label_ids.len() == 0 {
        return None;
    }
    let list = Json::texts(label_ids);
    assert(list@->List_0 =~= text_list(views(label_ids@))->List_0);
    let mut members: Vec<(String, Json)> = Vec::new();
    members.push((String::from_str("labelableId"), Json::text(issue_id)));
    members.push((String::from_str("labelIds"), list));
    let input = Json::object(members);
    assert(input@->Object_0 =~= labels_input(issue_id@, views(label_ids@))->Object_0);
    Some(request(ADD_LABELS_MUTATION, wrap_input(input)))
}

/// The request that lists the projects of a repository.
pub fn find_repo_project_request(owner: &str, repo: &str) -> (request: GraphQLRequest)
    ensures
        request@ == (GraphQLRequestView {
            query: REPOSITORY_PROJECTS_QUERY@,
            variables: Some(two_texts(("owner"@, owner@), ("repo"@, repo@))),
        }),
{
    request(REPOSITORY_PROJECTS_QUERY, build_two_texts(("owner", owner), ("repo", repo)))
}

/// The request that lists the projects of an organization.
pub fn find_org_project_request(org: &str) -> (request: GraphQLRequest)
    ensures
        request@ == (GraphQLRequestView {
            query: ORGANIZATION_PROJECTS_QUERY@,
            variables: Some(one_text("org"@, org@)),
        }),
{
    request(ORGANIZATION_PROJECTS_QUERY, build_one_text("org", org))
}

/// The request that lists the projects of a user.
pub fn find_user_project_request(user: &str) -> (request: GraphQLRequest)
    ensures
        request@ == (GraphQLRequestView {
            query: USER_PROJECTS_QUERY@,
            variables: Some(one_text("user"@, user@)),
        }),
{
    request(USER_PROJECTS_QUERY, build_one_text("user", user))
}

/// The request that asks what kind of owner a repository has.
pub fn is_organization_request(owner: &str, repo: &str) -> (request: GraphQLRequest)
    ensures
        request@ == (GraphQLRequestView {
            query: OWNER_KIND_QUERY@,
            variables: Some(two_texts(("owner"@, owner@), ("repo"@, repo@))),
        }),
{
    request(OWNER_KIND_QUERY, build_two_texts(("owner", owner), ("repo", repo)))
}

/// Whether the owner of a repository is an organization, from the name of
/// its kind as far as the response held one.
pub fn is_organization(kind: Option<&str>) -> (r: bool)
    ensures
        r == match kind {
            Some(name) => name@ == "Organization"@,
            None => false,
        },
{
    match kind {
        Some(name) => crate::text::same_text(name, "Organization"),
        None => false,
    }
}

/// The request that adds one issue to a project.
pub fn add_issue_to_project_request(project_id: &str, issue_id: &str) -> (request: GraphQLRequest)
    ensures
        request@ == (GraphQLRequestView {
            query: ADD_PROJECT_ITEM_MUTATION@,
            variables: Some(input_variables(project_item_input(project_id@, issue_id@))),
        }),
{
    request(ADD_PROJECT_ITEM_MUTATION, wrap_input(build_project_item_input(project_id, issue_id)))
}

/// The request that puts one issue under another.
pub fn add_sub_issue_request(parent_issue_id: &str, child_issue_id: &str) -> (request:
    GraphQLRequest)
    ensures
        request@ == (GraphQLRequestView {
            query: ADD_SUB_ISSUE_MUTATION@,
            variables: Some(
                input_variables(
                    link_input(
                        SubIssueLinkView {
                            parent_issue_id: parent_issue_id@,
                            child_issue_id: child_issue_id@,
                        },
                    ),
                ),
            ),
        }),
{
    let link = SubIssueLink {
        parent_issue_id: String::from_str(parent_issue_id),
        child_issue_id: String::from_str(child_issue_id),
    };
    request(ADD_SUB_ISSUE_MUTATION, wrap_input(build_link_input(&link)))
}

/// The request for the fields of a project.
pub fn get_project_fields_request(project_id: &str) -> (request: GraphQLRequest)
    ensures
        request@ == (GraphQLRequestView {
            query: PROJECT_FIELDS_QUERY@,
            variables: Some(one_text("projectId"@, project_id@)),
        }),
{
    request(PROJECT_FIELDS_QUERY, build_one_text("projectId", project_id))
}

/// The request that lists the issue types of a repository.
pub fn get_issue_types_request(owner: &str, name: &str) -> (request: GraphQLRequest)
    ensures
        request@ == (GraphQLRequestView {
            query: ISSUE_TYPES_QUERY@,
            variables: Some(repository_variables(owner@, name@)),
        }),
{
    request(ISSUE_TYPES_QUERY, build_repository_variables(owner, name))
}

} // verus!
