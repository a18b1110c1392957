//! Issues and labels: the requests that create, read and change them, and
//! what their responses mean.

use crate::decimal::{decimal, decimal_chars};
use crate::github::batch::{
    alias_key, alias_key_text, batch_request, build_batch, extend_decimal, GraphQLRequest,
    GraphQLRequestView, Operation,
};
use crate::github::json::{member_number, member_text, Json, JsonView};
use crate::name_map::{lemma_position_of, position_of, upsert, NameMap};
use crate::text::{
    extend_from, extend_str, join, lemma_join_push, option_view, outcome_view, string_of, views,
};
use std::collections::HashMap;
use vstd::prelude::*;

verus! {

/// An issue as a mutation reports it.
#[derive(Debug)]
pub struct IssueInfo {
    /// The node id.
    pub id: String,
    /// The issue number.
    pub number: u64,
    /// The web address.
    pub url: String,
}

/// The model of an [`IssueInfo`].
pub struct IssueInfoView {
    pub id: Seq<char>,
    pub number: u64,
    pub url: Seq<char>,
}

impl View for IssueInfo {
    type V = IssueInfoView;

    open spec fn view(&self) -> IssueInfoView {
        IssueInfoView { id: self.id@, number: self.number, url: self.url@ }
    }
}

impl Clone for IssueInfo {
    fn clone(&self) -> (out: Self)
        ensures
            out@ == self@,
    {
        IssueInfo { id: self.id.clone(), number: self.number, url: self.url.clone() }
    }
}

/// An issue as it stands in the repository.
#[derive(Debug)]
pub struct ExistingIssue {
    pub id: String,
    pub number: u64,
    pub title: String,
    pub body: String,
    /// `OPEN` or `CLOSED`.
    pub state: String,
    pub url: String,
}

/// The model of an [`ExistingIssue`].
pub struct ExistingIssueView {
    pub id: Seq<char>,
    pub number: u64,
    pub title: Seq<char>,
    pub body: Seq<char>,
    pub state: Seq<char>,
    pub url: Seq<char>,
}

impl View for ExistingIssue {
    type V = ExistingIssueView;

    open spec fn view(&self) -> ExistingIssueView {
        ExistingIssueView {
            id: self.id@,
            number: self.number,
            title: self.title@,
            body: self.body@,
            state: self.state@,
            url: self.url@,
        }
    }
}

impl Clone for ExistingIssue {
    fn clone(&self) -> (out: Self)
        ensures
            out@ == self@,
    {
        ExistingIssue {
            id: self.id.clone(),
            number: self.number,
            title: self.title.clone(),
            body: self.body.clone(),
            state: self.state.clone(),
            url: self.url.clone(),
        }
    }
}

/// A change of the title, body and type of an issue.
#[derive(Debug)]
pub struct IssueUpdate {
    pub issue_id: String,
    pub title: String,
    pub body: String,
    pub issue_type_id: Option<String>,
}

/// The model of an [`IssueUpdate`].
pub struct IssueUpdateView {
    pub issue_id: Seq<char>,
    pub title: Seq<char>,
    pub body: Seq<char>,
    pub issue_type_id: Option<Seq<char>>,
}

impl View for IssueUpdate {
    type V = IssueUpdateView;

    open spec fn view(&self) -> IssueUpdateView {
        IssueUpdateView {
            issue_id: self.issue_id@,
            title: self.title@,
            body: self.body@,
            issue_type_id: option_view(self.issue_type_id),
        }
    }
}

/// An issue to create.
#[derive(Debug)]
pub struct IssueCreate {
    pub title: String,
    pub body: String,
    pub label_ids: Vec<String>,
    pub issue_type_id: Option<String>,
}

/// The model of an [`IssueCreate`].
pub struct IssueCreateView {
    pub title: Seq<char>,
    pub body: Seq<char>,
    pub label_ids: Seq<Seq<char>>,
    pub issue_type_id: Option<Seq<char>>,
}

impl View for IssueCreate {
    type V = IssueCreateView;

    open spec fn view(&self) -> IssueCreateView {
        IssueCreateView {
            title: self.title@,
            body: self.body@,
            label_ids: views(self.label_ids@),
            issue_type_id: option_view(self.issue_type_id),
        }
    }
}

/// A label of the repository.
#[derive(Debug)]
pub struct LabelInfo {
    pub id: String,
    pub name: String,
}

/// The model of a [`LabelInfo`].
pub struct LabelInfoView {
    pub id: Seq<char>,
    pub name: Seq<char>,
}

impl View for LabelInfo {
    type V = LabelInfoView;

    open spec fn view(&self) -> LabelInfoView {
        LabelInfoView { id: self.id@, name: self.name@ }
    }
}

/// An issue type of the organization.
#[derive(Debug)]
pub struct IssueTypeInfo {
    pub id: String,
    pub name: String,
}

/// The model of an [`IssueTypeInfo`].
pub struct IssueTypeInfoView {
    pub id: Seq<char>,
    pub name: Seq<char>,
}

impl View for IssueTypeInfo {
    type V = IssueTypeInfoView;

    open spec fn view(&self) -> IssueTypeInfoView {
        IssueTypeInfoView { id: self.id@, name: self.name@ }
    }
}

/// A list of texts as a JSON value.
pub open spec fn text_list(items: Seq<Seq<char>>) -> JsonView {
    JsonView::List(Seq::new(items.len(), |i: int| JsonView::Text(items[i])))
}

/// The input of the mutation that creates one issue. Assignees and labels
/// are named only where there are any, the issue type only where it is set.
pub open spec fn create_input(
    repo_id: Seq<char>,
    create: IssueCreateView,
    assignee_ids: Seq<Seq<char>>,
) -> JsonView {
    let base = seq![
        ("repositoryId"@, JsonView::Text(repo_id)),
        ("title"@, JsonView::Text(create.title)),
        ("body"@, JsonView::Text(create.body)),
    ];
    let assignees = if assignee_ids.len() > 0 {
        seq![("assigneeIds"@, text_list(assignee_ids))]
    } else {
        Seq::empty()
    };
    let labels = if create.label_ids.len() > 0 {
        seq![("labelIds"@, text_list(create.label_ids))]
    } else {
        Seq::empty()
    };
    let issue_type = match create.issue_type_id {
        Some(id) => seq![("issueTypeId"@, JsonView::Text(id))],
        None => Seq::empty(),
    };
    JsonView::Object(base + assignees + labels + issue_type)
}

/// The input of the mutation that updates one issue.
pub open spec fn update_input(update: IssueUpdateView) -> JsonView {
    let base = seq![
        ("id"@, JsonView::Text(update.issue_id)),
        ("title"@, JsonView::Text(update.title)),
        ("body"@, JsonView::Text(update.body)),
    ];
    let issue_type = match update.issue_type_id {
        Some(id) => seq![("issueTypeId"@, JsonView::Text(id))],
        None => Seq::empty(),
    };
    JsonView::Object(base + issue_type)
}

/// The input of the mutations that close or reopen one issue.
pub open spec fn issue_id_input(issue_id: Seq<char>) -> JsonView {
    JsonView::Object(seq![("issueId"@, JsonView::Text(issue_id))])
}

/// The issue that the result of one create or update call reports: its
/// member `issue` with a text `id`, an integer `number` and a text `url`.
pub open spec fn reported_issue(data: JsonView) -> Option<IssueInfoView> {
    match data.member("issue"@) {
        None => None,
        Some(issue) => match (
            member_text(issue, "id"@),
            member_number(issue, "number"@),
            member_text(issue, "url"@),
        ) {
            (Some(id), Some(number), Some(url)) => Some(IssueInfoView { id, number, url }),
            _ => None,
        },
    }
}

/// The issue reported under the alias of call `i` of a batch of `op`.
pub open spec fn reported_issue_at(response: JsonView, op: Operation, i: nat) -> Option<
    IssueInfoView,
> {
    match response.member(alias_key(op, i)) {
        None => None,
        Some(data) => reported_issue(data),
    }
}

/// The message for an issue that a batch was to create and did not report.
pub open spec fn create_failure(i: nat) -> Seq<char> {
    "Failed to create issue "@ + decimal(i)
}

/// The message for an issue that a batch was to update and did not report.
pub open spec fn update_failure(issue_id: Seq<char>) -> Seq<char> {
    "Failed to update issue "@ + issue_id
}

/// What a batch of creations reports of its call `i`.
pub open spec fn created_outcome(response: JsonView, i: nat) -> Result<IssueInfoView, Seq<char>> {
    match reported_issue_at(response, Operation::CreateIssue, i) {
        Some(info) => Ok(info),
        None => Err(create_failure(i)),
    }
}

/// What a batch of updates reports of its call `i`, which was for the issue
/// with the given id.
pub open spec fn updated_outcome(response: JsonView, i: nat, issue_id: Seq<char>) -> Result<
    IssueInfoView,
    Seq<char>,
> {
    match reported_issue_at(response, Operation::UpdateIssue, i) {
        Some(info) => Ok(info),
        None => Err(update_failure(issue_id)),
    }
}

/// The outcomes of the first `k` calls of a batch of updates, by issue id.
/// Where several calls were for one issue, the outcome of the last of them
/// stands.
pub open spec fn updated_outcomes(
    response: JsonView,
    updates: Seq<IssueUpdateView>,
    k: nat,
) -> Seq<(Seq<char>, Result<IssueInfoView, Seq<char>>)>
    decreases k,
{
    if k == 0 || k > updates.len() {
        Seq::empty()
    } else {
        let i = (k - 1) as nat;
        upsert(
            updated_outcomes(response, updates, i),
            updates[i as int].issue_id,
            updated_outcome(response, i, updates[i as int].issue_id),
        )
    }
}

/// The models of the outcomes in a map from issue ids.
pub open spec fn outcome_pairs(pairs: Seq<(Seq<char>, Result<IssueInfo, String>)>) -> Seq<
    (Seq<char>, Result<IssueInfoView, Seq<char>>),
> {
    Seq::new(pairs.len(), |i: int| (pairs[i].0, outcome_view(pairs[i].1)))
}

/// A list of texts as a JSON value: see [`text_list`].
fn text_list_value(items: &[String]) -> (value: Json)
    ensures
        value@ == text_list(views(items@)),
{
    let value = Json::texts(items);
    assert(value@->List_0 =~= text_list(views(items@))->List_0);
    value
}

/// The input for creating one issue: see [`create_input`].
pub fn build_create_input(repo_id: &str, create: &IssueCreate, assignee_ids: &[String]) -> (value:
    Json)
    ensures
        value@ == create_input(repo_id@, create@, views(assignee_ids@)),
{
    let mut members: Vec<(String, Json)> = Vec::new();
    members.push((String::from_str("repositoryId"), Json::text(repo_id)));
    members.push((String::from_str("title"), Json::text(create.title.as_str())));
    members.push((String::from_str("body"), Json::text(create.body.as_str())));
    if assignee_ids.len() > 0 {
        members.push((String::from_str("assigneeIds"), text_list_value(assignee_ids)));
    }
    if create.label_ids.len() > 0 {
        members.push((String::from_str("labelIds"), text_list_value(create.label_ids.as_slice())));
    }
    match &create.issue_type_id {
        Some(id) => {
            members.push((String::from_str("issueTypeId"), Json::text(id.as_str())));
        },
        None => {},
    }
    let value = Json::object(members);
    assert(value@->Object_0 =~= create_input(repo_id@, create@, views(assignee_ids@))->Object_0);
    value
}

/// The input for updating one issue: see [`update_input`].
pub fn build_update_input(update: &IssueUpdate) -> (value: Json)
    ensures
        value@ == update_input(update@),
{
    let mut members: Vec<(String, Json)> = Vec::new();
    members.push((String::from_str("id"), Json::text(update.issue_id.as_str())));
    members.push((String::from_str("title"), Json::text(update.title.as_str())));
    members.push((String::from_str("body"), Json::text(update.body.as_str())));
    match &update.issue_type_id {
        Some(id) => {
            members.push((String::from_str("issueTypeId"), Json::text(id.as_str())));
        },
        None => {},
    }
    let value = Json::object(members);
    assert(value@->Object_0 =~= update_input(update@)->Object_0);
    value
}

/// The input for closing or reopening one issue: see [`issue_id_input`].
pub fn build_issue_id_input(issue_id: &str) -> (value: Json)
    ensures
        value@ == issue_id_input(issue_id@),
{
    let mut members: Vec<(String, Json)> = Vec::new();
    members.push((String::from_str("issueId"), Json::text(issue_id)));
    let value = Json::object(members);
    assert(value@->Object_0 =~= issue_id_input(issue_id@)->Object_0);
    value
}

/// The one request that creates all the given issues in the repository,
/// each assigned to the given users; no request where there is no issue to
/// create.
pub fn create_issues_batch_request(
    repo_id: &str,
    creates: &[IssueCreate],
    assignee_ids: &[String],
) -> (request: Option<GraphQLRequest>)
    ensures
        creates@.len() == 0 ==> request is None,
        creates@.len() > 0 ==> request is Some && request->0@ == batch_request(
            Operation::CreateIssue,
            Seq::new(
                creates@.len(),
                |i: int| create_input(repo_id@, creates@[i]@, views(assignee_ids@)),
            ),
        ),
{
    let mut inputs: Vec<Json> = Vec::new();
    let mut i: usize = 0;
    while i < creates.len()
        invariant
            i <= creates.len(),
            inputs@.len() == i,
            forall|j: int|
                0 <= j < i ==> (#[trigger] inputs@[j])@ == create_input(
                    repo_id@,
                    creates@[j]@,
                    views(assignee_ids@),
                ),
        decreases creates.len() - i,
    {
        inputs.push(build_create_input(repo_id, &creates[i], assignee_ids));
        i += 1;
    }
    assert(Seq::new(inputs@.len(), |i: int| inputs@[i]@) =~= Seq::new(
        creates@.len(),
        |i: int| create_input(repo_id@, creates@[i]@, views(assignee_ids@)),
    ));
    build_batch(Operation::CreateIssue, inputs)
}

/// The one request that applies all the given updates; no request where
/// there is none.
pub fn update_issues_batch_request(updates: &[IssueUpdate]) -> (request: Option<GraphQLRequest>)
    ensures
        updates@.len() == 0 ==> request is None,
        updates@.len() > 0 ==> request is Some && request->0@ == batch_request(
            Operation::UpdateIssue,
            Seq::new(updates@.len(), |i: int| update_input(updates@[i]@)),
        ),
{
    let mut inputs: Vec<Json> = Vec::new();
    let mut i: usize = 0;
    while i < updates.len()
        invariant
            i <= updates.len(),
            inputs@.len() == i,
            forall|j: int| 0 <= j < i ==> (#[trigger] inputs@[j])@ == update_input(updates@[j]@),
        decreases updates.len() - i,
    {
        inputs.push(build_update_input(&updates[i]));
        i += 1;
    }
    assert(Seq::new(inputs@.len(), |i: int| inputs@[i]@) =~= Seq::new(
        updates@.len(),
        |i: int| update_input(updates@[i]@),
    ));
    build_batch(Operation::UpdateIssue, inputs)
}

/// The inputs that name one issue each, in order.
fn issue_id_inputs(issue_ids: &[String]) -> (inputs: Vec<Json>)
    ensures
        Seq::new(inputs@.len(), |i: int| inputs@[i]@) == Seq::new(
            issue_ids@.len(),
            |i: int| issue_id_input(issue_ids@[i]@),
        ),
{
    let mut inputs: Vec<Json> = Vec::new();
    let mut i: usize = 0;
    while i < issue_ids.len()
        invariant
            i <= issue_ids.len(),
            inputs@.len() == i,
            forall|j: int|
                0 <= j < i ==> (#[trigger] inputs@[j])@ == issue_id_input(issue_ids@[j]@),
        decreases issue_ids.len() - i,
    {
        inputs.push(build_issue_id_input(issue_ids[i].as_str()));
        i += 1;
    }
    assert(Seq::new(inputs@.len(), |i: int| inputs@[i]@) =~= Seq::new(
        issue_ids@.len(),
        |i: int| issue_id_input(issue_ids@[i]@),
    ));
    inputs
}

/// The one request that closes all the given issues; no request where there
/// is none.
pub fn close_issues_batch_request(issue_ids: &[String]) -> (request: Option<GraphQLRequest>)
    ensures
        issue_ids@.len() == 0 ==> request is None,
        issue_ids@.len() > 0 ==> request is Some && request->0@ == batch_request(
            Operation::CloseIssue,
            Seq::new(issue_ids@.len(), |i: int| issue_id_input(issue_ids@[i]@)),
        ),
{
    build_batch(Operation::CloseIssue, issue_id_inputs(issue_ids))
}

/// The one request that reopens all the given issues; no request where
/// there is none.
pub fn reopen_issues_batch_request(issue_ids: &[String]) -> (request: Option<GraphQLRequest>)
    ensures
        issue_ids@.len() == 0 ==> request is None,
        issue_ids@.len() > 0 ==> request is Some && request->0@ == batch_request(
            Operation::ReopenIssue,
            Seq::new(issue_ids@.len(), |i: int| issue_id_input(issue_ids@[i]@)),
        ),
{
    build_batch(Operation::ReopenIssue, issue_id_inputs(issue_ids))
}

/// The issue that one create or update call reports: see [`reported_issue`].
pub fn read_reported_issue(data: &Json) -> (found: Option<IssueInfo>)
    ensures
        option_view(found) == reported_issue(data@),
{
    let issue = match data.get("issue") {
        Some(issue) => issue,
        None => {
            return None;
        },
    };
    let id = issue.get_str("id");
    let number = issue.get_u64("number");
    let url = issue.get_str("url");
    match (id, number, url) {
        (Some(id), Some(number), Some(url)) => Some(
            IssueInfo { id: String::from_str(id), number, url: String::from_str(url) },
        ),
        _ => None,
    }
}

/// The issue reported for call `i` of a batch of `op`.
fn read_reported_issue_at(response: &Json, op: Operation, i: usize) -> (found: Option<IssueInfo>)
    ensures
        option_view(found) == reported_issue_at(response@, op, i as nat),
{
    let key = alias_key_text(op, i);
    match response.get(key.as_str()) {
        Some(data) => read_reported_issue(data),
        None => None,
    }
}

/// The outcomes of a batch of `count` creations, in the order of the calls:
/// the issue where the response reports one, a message where it does not.
pub fn create_issues_batch_results(response: &Json, count: usize) -> (results: Vec<
    Result<IssueInfo, String>,
>)
    ensures
        results@.len() == count,
        forall|i: int|
            0 <= i < count ==> outcome_view(#[trigger] results@[i]) == created_outcome(
                response@,
                i as nat,
            ),
{
    let mut results: Vec<Result<IssueInfo, String>> = Vec::new();
    let mut i: usize = 0;
    while i < count
        invariant
            i <= count,
            results@.len() == i,
            forall|j: int|
                0 <= j < i ==> outcome_view(#[trigger] results@[j]) == created_outcome(
                    response@,
                    j as nat,
                ),
        decreases count - i,
    {
        match read_reported_issue_at(response, Operation::CreateIssue, i) {
            Some(info) => {
                results.push(Ok(info));
            },
            None => {
                let mut buf: Vec<char> = Vec::new();
                extend_str(&mut buf, "Failed to create issue ");
                extend_decimal(&mut buf, i);
                results.push(Err(string_of(buf.as_slice())));
            },
        }
        i += 1;
    }
    results
}

/// The outcomes of a batch of updates, by the id of the issue: the issue
/// where the response reports one, a message where it does not.
pub fn update_issues_batch_results(response: &Json, updates: &[IssueUpdate]) -> (results: NameMap<
    Result<IssueInfo, String>,
>)
    ensures
        outcome_pairs(results.pairs()) == updated_outcomes(
            response@,
            views(updates@),
            updates@.len(),
        ),
{
    let mut results: NameMap<Result<IssueInfo, String>> = NameMap::new();
    let mut i: usize = 0;
    assert(outcome_pairs(results.pairs()) =~= updated_outcomes(response@, views(updates@), 0));
    while i < updates.len()
        invariant
            i <= updates.len(),
            outcome_pairs(results.pairs()) == updated_outcomes(
                response@,
                views(updates@),
                i as nat,
            ),
        decreases updates.len() - i,
    {
        let ghost before = results.pairs();
        let outcome = match read_reported_issue_at(response, Operation::UpdateIssue, i) {
            Some(info) => Ok(info),
            None => {
                let mut buf: Vec<char> = Vec::new();
                extend_str(&mut buf, "Failed to update issue ");
                extend_str(&mut buf, updates[i].issue_id.as_str());
                Err(string_of(buf.as_slice()))
            },
        };
        let key = updates[i].issue_id.clone();
        proof {
            assert(views(updates@)[i as int] == updates@[i as int]@);
            assert(outcome_view(outcome) == updated_outcome(
                response@,
                i as nat,
                updates@[i as int]@.issue_id,
            ));
            lemma_upsert_outcomes(before, key@, outcome);
        }
        results.insert(key, outcome);
        i += 1;
    }
    results
}

/// Taking models commutes with giving a key an outcome.
proof fn lemma_upsert_outcomes(
    pairs: Seq<(Seq<char>, Result<IssueInfo, String>)>,
    key: Seq<char>,
    outcome: Result<IssueInfo, String>,
)
    ensures
        outcome_pairs(upsert(pairs, key, outcome)) == upsert(
            outcome_pairs(pairs),
            key,
            outcome_view(outcome),
        ),
{
    lemma_position_of_outcomes(pairs, key);
    lemma_position_of(pairs, key);
    assert(outcome_pairs(upsert(pairs, key, outcome)) =~= upsert(
        outcome_pairs(pairs),
        key,
        outcome_view(outcome),
    ));
}

/// A key stands at the same place before and after taking models.
proof fn lemma_position_of_outcomes(
    pairs: Seq<(Seq<char>, Result<IssueInfo, String>)>,
    key: Seq<char>,
)
    ensures
        position_of(outcome_pairs(pairs), key) == position_of(pairs, key),
    decreases pairs.len(),
{
    if pairs.len() > 0 {
        assert(outcome_pairs(pairs)[0].0 == pairs[0].0);
        if pairs[0].0 != key {
            lemma_position_of_outcomes(pairs.drop_first(), key);
            assert(outcome_pairs(pairs).drop_first() =~= outcome_pairs(pairs.drop_first()));
        }
    }
}

/// The alias under which a query asks for the issue with the given number.
pub open spec fn issue_alias(number: u64) -> Seq<char> {
    "issue_"@ + decimal(number as nat)
}

/// The part of a query that asks for the issue with the given number.
pub open spec fn issue_selection(number: u64) -> Seq<char> {
    issue_alias(number) + ": issue(number: "@ + decimal(number as nat)
        + ") { id number title body state url }"@
}

/// The document that asks for the issues with the given numbers at once.
pub open spec fn issues_query(numbers: Seq<u64>) -> Seq<char> {
    "query($owner: String!, $name: String!) {\n  repository(owner: $owner, name: $name) {\n    "@
        + join(
        Seq::new(numbers.len(), |i: int| issue_selection(numbers[i])),
        "\n    "@,
    ) + "\n  }\n}"@
}

/// The variables that name a repository.
pub open spec fn repository_variables(owner: Seq<char>, name: Seq<char>) -> JsonView {
    JsonView::Object(seq![("owner"@, JsonView::Text(owner)), ("name"@, JsonView::Text(name))])
}

/// The issue that a response reports under the alias of `number`: the
/// member of `repository` with that alias, where it is not `null` and holds
/// `id`, `title`, `body`, `state` and `url` as texts.
pub open spec fn fetched_issue(response: JsonView, number: u64) -> Option<ExistingIssueView> {
    match response.member("repository"@) {
        None => None,
        Some(repository) => match repository.member(issue_alias(number)) {
            None => None,
            Some(data) => match (
                member_text(data, "id"@),
                member_text(data, "title"@),
                member_text(data, "body"@),
                member_text(data, "state"@),
                member_text(data, "url"@),
            ) {
                (Some(id), Some(title), Some(body), Some(state), Some(url)) => Some(
                    ExistingIssueView { id, number, title, body, state, url },
                ),
                _ => None,
            },
        },
    }
}

/// The variables that name a repository: see [`repository_variables`].
pub fn build_repository_variables(owner: &str, name: &str) -> (value: Json)
    ensures
        value@ == repository_variables(owner@, name@),
{
    let mut members: Vec<(String, Json)> = Vec::new();
    members.push((String::from_str("owner"), Json::text(owner)));
    members.push((String::from_str("name"), Json::text(name)));
    let value = Json::object(members);
    assert(value@->Object_0 =~= repository_variables(owner@, name@)->Object_0);
    value
}

/// The one request that reads all the issues with the given numbers from a
/// repository; no request where no number is given.
pub fn get_issues_batch_request(owner: &str, name: &str, numbers: &[u64]) -> (request: Option<
    GraphQLRequest,
>)
    ensures
        numbers@.len() == 0 ==> request is None,
        numbers@.len() > 0 ==> request is Some && request->0@ == (GraphQLRequestView {
            query: issues_query(numbers@),
            variables: Some(repository_variables(owner@, name@)),
        }),
{
    if numbers.len() == 0 {
        return None;
    }
    let ghost parts = Seq::new(numbers@.len(), |i: int| issue_selection(numbers@[i]));
    let ghost head =
        "query($owner: String!, $name: String!) {\n  repository(owner: $owner, name: $name) {\n    "@;
    let mut buf: Vec<char> = Vec::new();
    extend_str(
        &mut buf,
        "query($owner: String!, $name: String!) {\n  repository(owner: $owner, name: $name) {\n    ",
    );
    let mut i: usize = 0;
    while i < numbers.len()
        invariant
            i <= numbers.len(),
            parts == Seq::new(numbers@.len(), |i: int| issue_selection(numbers@[i])),
            buf@ == head + join(parts.take(i as int), "\n    "@),
        decreases numbers.len() - i,
    {
        if i > 0 {
            extend_str(&mut buf, "\n    ");
        }
        let digits = decimal_chars(numbers[i]);
        extend_str(&mut buf, "issue_");
        extend_from(&mut buf, digits.as_slice(), 0, digits.len());
        extend_str(&mut buf, ": issue(number: ");
        extend_from(&mut buf, digits.as_slice(), 0, digits.len());
        extend_str(&mut buf, ") { id number title body state url }");
        proof {
            let done = parts.take(i as int);
            assert(digits@.subrange(0, digits@.len() as int) == digits@);
            assert(parts[i as int] == issue_selection(numbers@[i as int]));
            lemma_join_push(done, "\n    "@, parts[i as int]);
            assert(parts.take(i + 1) == done.push(parts[i as int]));
            assert(buf@ =~= head + join(parts.take(i + 1), "\n    "@));
        }
        i += 1;
    }
    assert(parts.take(parts.len() as int) == parts);
    extend_str(&mut buf, "\n  }\n}");
    Some(
        GraphQLRequest {
            query: string_of(buf.as_slice()),
            variables: Some(build_repository_variables(owner, name)),
        },
    )
}

/// The issue that a response reports for `number`: see [`fetched_issue`].
pub fn read_fetched_issue(response: &Json, number: u64) -> (found: Option<ExistingIssue>)
    ensures
        option_view(found) == fetched_issue(response@, number),
{
    let repository = match response.get("repository") {
        Some(repository) => repository,
        None => {
            return None;
        },
    };
    let mut key: Vec<char> = Vec::new();
    extend_str(&mut key, "issue_");
    let digits = decimal_chars(number);
    extend_from(&mut key, digits.as_slice(), 0, digits.len());
    assert(digits@.subrange(0, digits@.len() as int) == digits@);
    let key = string_of(key.as_slice());
    let data = match repository.get(key.as_str()) {
        Some(data) => data,
        None => {
            return None;
        },
    };
    match (
        data.get_str("id"),
        data.get_str("title"),
        data.get_str("body"),
        data.get_str("state"),
        data.get_str("url"),
    ) {
        (Some(id), Some(title), Some(body), Some(state), Some(url)) => Some(
            ExistingIssue {
                id: String::from_str(id),
                number,
                title: String::from_str(title),
                body: String::from_str(body),
                state: String::from_str(state),
                url: String::from_str(url),
            },
        ),
        _ => None,
    }
}

/// The issues that a response reports, by number: one for each of the
/// numbers asked for that the response holds an issue for.
pub fn get_issues_batch_results(response: &Json, numbers: &[u64]) -> (found: HashMap<
    u64,
    ExistingIssue,
>)
    ensures
        forall|n: u64|
            found@.contains_key(n) <==> numbers@.contains(n) && fetched_issue(response@, n)
                is Some,
        forall|n: u64|
            found@.contains_key(n) ==> (#[trigger] found@[n])@ == fetched_issue(response@, n)->0,
{
    let mut found: HashMap<u64, ExistingIssue> = HashMap::new();
    let mut i: usize = 0;
    while i < numbers.len()
        invariant
            i <= numbers.len(),
            forall|n: u64|
                found@.contains_key(n) <==> numbers@.take(i as int).contains(n) && fetched_issue(
                    response@,
                    n,
                ) is Some,
            forall|n: u64|
                found@.contains_key(n) ==> (#[trigger] found@[n])@ == fetched_issue(
                    response@,
                    n,
                )->0,
        decreases numbers.len() - i,
    {
        let number = numbers[i];
        let ghost before = numbers@.take(i as int);
        proof {
            assert(numbers@.take(i + 1) == before.push(number));
            assert forall|n: u64| numbers@.take(i + 1).contains(n) <==> before.contains(n) || n
                == number by {
                if before.contains(n) {
                    let k = choose|k: int| 0 <= k < before.len() && before[k] == n;
                    assert(before.push(number)[k] == n);
                }
                if n == number {
                    assert(before.push(number)[i as int] == n);
                }
            }
        }
        match read_fetched_issue(response, number) {
            Some(issue) => {
                found.insert(number, issue);
            },
            None => {},
        }
        i += 1;
    }
    assert(numbers@.take(numbers@.len() as int) == numbers@);
    found
}

} // verus!
