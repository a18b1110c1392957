//! The fields of a project: reading them, setting their values on items,
//! and finding the items of issues. Also the issue types of a repository.

use crate::decimal::decimal;
use crate::github::batch::{
    alias_key, alias_key_text, batch_request, build_batch, extend_decimal, GraphQLRequest,
    GraphQLRequestView, Operation,
};
use crate::github::issues::IssueTypeInfo;
use crate::github::json::{member_text, Json, JsonView};
use crate::github::projects::{
    FieldOption, IterationInfo, NamedView, ProjectFieldInfo, ProjectFieldInfoView, ProjectFieldType,
    ProjectFieldTypeView,
};
use crate::github::subissues::done_view;
use crate::name_map::{lemma_upsert_text, text_pairs, upsert, NameMap};
use crate::seqs::{first_where, lemma_first_where};
use crate::text::{extend_str, join, lemma_join_push, option_view, string_of, views};
use vstd::prelude::*;

verus! {

/// The option to set for an item of the project.
#[derive(Debug)]
pub struct StatusUpdate {
    pub item_id: String,
    pub option_id: String,
}

/// The model of a [`StatusUpdate`].
pub struct StatusUpdateView {
    pub item_id: Seq<char>,
    pub option_id: Seq<char>,
}

impl View for StatusUpdate {
    type V = StatusUpdateView;

    open spec fn view(&self) -> StatusUpdateView {
        StatusUpdateView { item_id: self.item_id@, option_id: self.option_id@ }
    }
}

/// The input of the mutation that sets one field of one item. `kind` names
/// the kind of value, `value` is the id of the option or the iteration.
pub open spec fn field_value_input(
    project_id: Seq<char>,
    field_id: Seq<char>,
    item_id: Seq<char>,
    kind: Seq<char>,
    value: Seq<char>,
) -> JsonView {
    JsonView::Object(
        seq![
            ("projectId"@, JsonView::Text(project_id)),
            ("itemId"@, JsonView::Text(item_id)),
            ("fieldId"@, JsonView::Text(field_id)),
            ("value"@, JsonView::Object(seq![(kind, JsonView::Text(value))])),
        ],
    )
}

/// What a batch of field values reports of its call `i`: the call is done
/// where the response holds, under its alias, a `projectV2Item` that is
/// not `null`.
pub open spec fn field_outcome(response: JsonView, i: nat) -> Result<(), Seq<char>> {
    match response.member(alias_key(Operation::SetFieldValue, i)) {
        None => Err("Missing response for item"@),
        Some(data) => match data.member("projectV2Item"@) {
            None => Err("No item in response"@),
            Some(item) => if item is Null {
                Err("No item in response"@)
            } else {
                Ok(())
            },
        },
    }
}

/// How many of the first `k` outcomes are failures.
pub open spec fn failures(outcomes: Seq<Result<(), String>>, k: nat) -> nat
    decreases k,
{
    if k == 0 || k > outcomes.len() {
        0
    } else {
        failures(outcomes, (k - 1) as nat) + if outcomes[k - 1] is Err {
            1nat
        } else {
            0nat
        }
    }
}

/// The input for setting one field of one item: see
/// [`field_value_input`].
pub fn build_field_value_input(
    project_id: &str,
    field_id: &str,
    item_id: &str,
    kind: &str,
    value: &str,
) -> (input: Json)
    ensures
        input@ == field_value_input(project_id@, field_id@, item_id@, kind@, value@),
{
    let mut inner: Vec<(String, Json)> = Vec::new();
    inner.push((String::from_str(kind), Json::text(value)));
    let inner = Json::object(inner);
    assert(inner@->Object_0 =~= seq![(kind@, JsonView::Text(value@))]);
    let mut members: Vec<(String, Json)> = Vec::new();
    members.push((String::from_str("projectId"), Json::text(project_id)));
    members.push((String::from_str("itemId"), Json::text(item_id)));
    members.push((String::from_str("fieldId"), Json::text(field_id)));
    members.push((String::from_str("value"), inner));
    let input = Json::object(members);
    assert(input@->Object_0 =~= field_value_input(
        project_id@,
        field_id@,
        item_id@,
        kind@,
        value@,
    )->Object_0);
    input
}

/// The one request that sets a single-select field on all the given items,
/// each to its own option; no request where there is no item.
pub fn set_project_items_single_select_batch_request(
    project_id: &str,
    field_id: &str,
    updates: &[StatusUpdate],
) -> (request: Option<GraphQLRequest>)
    ensures
        updates@.len() == 0 ==> request is None,
        updates@.len() > 0 ==> request is Some && request->0@ == batch_request(
            Operation::SetFieldValue,
            Seq::new(
                updates@.len(),
                |i: int|
                    field_value_input(
                        project_id@,
                        field_id@,
                        updates@[i].item_id@,
                        "singleSelectOptionId"@,
                        updates@[i].option_id@,
                    ),
            ),
        ),
{
    let mut inputs: Vec<Json> = Vec::new();
    let mut i: usize = 0;
    while i < updates.len()
        invariant
            i <= updates.len(),
            inputs@.len() == i,
            forall|j: int|
                0 <= j < i ==> (#[trigger] inputs@[j])@ == field_value_input(
                    project_id@,
                    field_id@,
                    updates@[j].item_id@,
                    "singleSelectOptionId"@,
                    updates@[j].option_id@,
                ),
        decreases updates.len() - i,
    {
        inputs.push(
            build_field_value_input(
                project_id,
                field_id,
                updates[i].item_id.as_str(),
                "singleSelectOptionId",
                updates[i].option_id.as_str(),
            ),
        );
        i += 1;
    }
    assert(Seq::new(inputs@.len(), |i: int| inputs@[i]@) =~= Seq::new(
        updates@.len(),
        |i: int|
            field_value_input(
                project_id@,
                field_id@,
                updates@[i].item_id@,
                "singleSelectOptionId"@,
                updates@[i].option_id@,
            ),
    ));
    build_batch(Operation::SetFieldValue, inputs)
}

/// The one request that sets an iteration field on all the given items, to
/// one iteration; no request where there is no item.
pub fn set_project_items_iteration_batch_request(
    project_id: &str,
    field_id: &str,
    iteration_id: &str,
    item_ids: &[String],
) -> (request: Option<GraphQLRequest>)
    ensures
        item_ids@.len() == 0 ==> request is None,
        item_ids@.len() > 0 ==> request is Some && request->0@ == batch_request(
            Operation::SetFieldValue,
            Seq::new(
                item_ids@.len(),
                |i: int|
                    field_value_input(
                        project_id@,
                        field_id@,
                        item_ids@[i]@,
                        "iterationId"@,
                        iteration_id@,
                    ),
            ),
        ),
{
    let mut inputs: Vec<Json> = Vec::new();
    let mut i: usize = 0;
    while i < item_ids.len()
        invariant
            i <= item_ids.len(),
            inputs@.len() == i,
            forall|j: int|
                0 <= j < i ==> (#[trigger] inputs@[j])@ == field_value_input(
                    project_id@,
                    field_id@,
                    item_ids@[j]@,
                    "iterationId"@,
                    iteration_id@,
                ),
        decreases item_ids.len() - i,
    {
        inputs.push(
            build_field_value_input(
                project_id,
                field_id,
                item_ids[i].as_str(),
                "iterationId",
                iteration_id,
            ),
        );
        i += 1;
    }
    assert(Seq::new(inputs@.len(), |i: int| inputs@[i]@) =~= Seq::new(
        item_ids@.len(),
        |i: int|
            field_value_input(project_id@, field_id@, item_ids@[i]@, "iterationId"@, iteration_id@),
    ));
    build_batch(Operation::SetFieldValue, inputs)
}

/// The outcomes of a batch of `count` field values, in the order of the
/// calls: see [`field_outcome`]. Without a response the batch fails with
/// the error of the request.
pub fn set_field_batch_results(outcome: Result<Json, String>, count: usize) -> (results: Result<
    Vec<Result<(), String>>,
    String,
>)
    ensures
        match outcome {
            Ok(response) => results is Ok && results->Ok_0@.len() == count && forall|i: int|
                0 <= i < count ==> done_view(#[trigger] results->Ok_0@[i]) == field_outcome(
                    response@,
                    i as nat,
                ),
            Err(error) => results is Err && results->Err_0@ == error@,
        },
{
    match outcome {
        Ok(response) => {
            let mut results: Vec<Result<(), String>> = Vec::new();
            let mut i: usize = 0;
            while i < count
                invariant
                    i <= count,
                    results@.len() == i,
                    forall|j: int|
                        0 <= j < i ==> done_view(#[trigger] results@[j]) == field_outcome(
                            response@,
                            j as nat,
                        ),
                decreases count - i,
            {
                let key = alias_key_text(Operation::SetFieldValue, i);
                match response.get(key.as_str()) {
                    Some(data) => {
                        let set = match data.get("projectV2Item") {
                            Some(item) => !item.is_null(),
                            None => false,
                        };
                        if set {
                            results.push(Ok(()));
                        } else {
                            results.push(Err(String::from_str("No item in response")));
                        }
                    },
                    None => {
                        results.push(Err(String::from_str("Missing response for item")));
                    },
                }
                i += 1;
            }
            Ok(results)
        },
        Err(error) => Err(error),
    }
}

/// How many of the outcomes are failures.
pub fn count_failures(outcomes: &[Result<(), String>]) -> (count: usize)
    ensures
        count == failures(outcomes@, outcomes@.len()),
{
    let mut count: usize = 0;
    let mut i: usize = 0;
    while i < outcomes.len()
        invariant
            i <= outcomes.len(),
            count == failures(outcomes@, i as nat),
            count <= i,
        decreases outcomes.len() - i,
    {
        if outcomes[i].is_err() {
            count += 1;
        }
        i += 1;
    }
    count
}

/// The things with an id and a name among the first `k` values of a list:
/// those that hold `id` and `name_key` as texts, in order.
pub open spec fn named_items(items: Seq<JsonView>, name_key: Seq<char>, k: nat) -> Seq<NamedView>
    decreases k,
{
    if k == 0 || k > items.len() {
        Seq::empty()
    } else {
        let rest = named_items(items, name_key, (k - 1) as nat);
        match (member_text(items[k - 1], "id"@), member_text(items[k - 1], name_key)) {
            (Some(id), Some(name)) => rest.push(NamedView { id, name }),
            _ => rest,
        }
    }
}

/// The things with an id and a name in the list that `value` holds under
/// `key`; none where it holds no list there.
pub open spec fn named_members(value: JsonView, key: Seq<char>, name_key: Seq<char>) -> Seq<
    NamedView,
> {
    match value.member(key) {
        Some(list) => match list.items() {
            Some(items) => named_items(items, name_key, items.len()),
            None => Seq::empty(),
        },
        None => Seq::empty(),
    }
}

/// The kind of a field, from what its value holds: a single-select field
/// where it holds `options`, an iteration field where it holds a
/// `configuration`, and any other field otherwise.
pub open spec fn field_kind(node: JsonView) -> ProjectFieldTypeView {
    if node.member("options"@) is Some {
        ProjectFieldTypeView::SingleSelect { options: named_members(node, "options"@, "name"@) }
    } else {
        match node.member("configuration"@) {
            Some(configuration) => ProjectFieldTypeView::Iteration {
                active: named_members(configuration, "iterations"@, "title"@),
                completed: named_members(configuration, "completedIterations"@, "title"@),
            },
            None => ProjectFieldTypeView::Other,
        }
    }
}

/// The fields among the first `k` values of a list: those that hold `id`
/// and `name` as texts, in order.
pub open spec fn fields_among(nodes: Seq<JsonView>, k: nat) -> Seq<ProjectFieldInfoView>
    decreases k,
{
    if k == 0 || k > nodes.len() {
        Seq::empty()
    } else {
        let rest = fields_among(nodes, (k - 1) as nat);
        match (member_text(nodes[k - 1], "id"@), member_text(nodes[k - 1], "name"@)) {
            (Some(id), Some(name)) => rest.push(
                ProjectFieldInfoView { id, name, field_type: field_kind(nodes[k - 1]) },
            ),
            _ => rest,
        }
    }
}

/// The fields that a response reports: the list at `node.fields.nodes`;
/// none where there is no such list.
pub open spec fn reported_fields(response: JsonView) -> Seq<ProjectFieldInfoView> {
    match response.member("node"@) {
        None => Seq::empty(),
        Some(node) => match node.member("fields"@) {
            None => Seq::empty(),
            Some(fields) => match fields.member("nodes"@) {
                None => Seq::empty(),
                Some(list) => match list.items() {
                    Some(nodes) => fields_among(nodes, nodes.len()),
                    None => Seq::empty(),
                },
            },
        },
    }
}

/// The issue types that a response reports: the list at
/// `repository.issueTypes.nodes`; none where there is no such list.
pub open spec fn reported_issue_types(response: JsonView) -> Seq<NamedView> {
    match response.member("repository"@) {
        None => Seq::empty(),
        Some(repository) => match repository.member("issueTypes"@) {
            None => Seq::empty(),
            Some(types) => named_members(types, "nodes"@, "name"@),
        },
    }
}

/// The ids and names in a list of values: see [`named_items`].
fn read_named_items(items: &Vec<Json>, name_key: &str) -> (found: Vec<(String, String)>)
    ensures
        found@.len() == named_items(views(items@), name_key@, items@.len()).len(),
        forall|i: int|
            0 <= i < found@.len() ==> (NamedView {
                id: (#[trigger] found@[i]).0@,
                name: found@[i].1@,
            }) == named_items(views(items@), name_key@, items@.len())[i],
{
    let ghost models = views(items@);
    let mut found: Vec<(String, String)> = Vec::new();
    let mut i: usize = 0;
    while i < items.len()
        invariant
            i <= items.len(),
            models == views(items@),
            found@.len() == named_items(models, name_key@, i as nat).len(),
            forall|j: int|
                0 <= j < found@.len() ==> (NamedView {
                    id: (#[trigger] found@[j]).0@,
                    name: found@[j].1@,
                }) == named_items(models, name_key@, i as nat)[j],
        decreases items.len() - i,
    {
        assert(models[i as int] == items@[i as int]@);
        match (items[i].get_str("id"), items[i].get_str(name_key)) {
            (Some(id), Some(name)) => {
                found.push((String::from_str(id), String::from_str(name)));
            },
            _ => {},
        }
        i += 1;
    }
    found
}

/// The ids and names in the list that `value` holds under `key`: see
/// [`named_members`].
fn read_named_members(value: &Json, key: &str, name_key: &str) -> (found: Vec<(String, String)>)
    ensures
        found@.len() == named_members(value@, key@, name_key@).len(),
        forall|i: int|
            0 <= i < found@.len() ==> (NamedView {
                id: (#[trigger] found@[i]).0@,
                name: found@[i].1@,
            }) == named_members(value@, key@, name_key@)[i],
{
    match value.get(key) {
        Some(list) => match list.as_list() {
            Some(items) => {
                assert(views(items@) =~= list@.items()->0);
                read_named_items(items, name_key)
            },
            None => Vec::new(),
        },
        None => Vec::new(),
    }
}

/// The options that a list of ids and names stands for.
fn as_options(pairs: Vec<(String, String)>) -> (options: Vec<FieldOption>)
    ensures
        options@.len() == pairs@.len(),
        forall|i: int|
            0 <= i < pairs@.len() ==> (#[trigger] options@[i])@ == (NamedView {
                id: pairs@[i].0@,
                name: pairs@[i].1@,
            }),
{
    let mut options: Vec<FieldOption> = Vec::new();
    let mut i: usize = 0;
    while i < pairs.len()
        invariant
            i <= pairs.len(),
            options@.len() == i,
            forall|j: int|
                0 <= j < i ==> (#[trigger] options@[j])@ == (NamedView {
                    id: pairs@[j].0@,
                    name: pairs@[j].1@,
                }),
        decreases pairs.len() - i,
    {
        options.push(FieldOption { id: pairs[i].0.clone(), name: pairs[i].1.clone() });
        i += 1;
    }
    options
}

/// The iterations that a list of ids and titles stands for.
fn as_iterations(pairs: Vec<(String, String)>) -> (iterations: Vec<IterationInfo>)
    ensures
        iterations@.len() == pairs@.len(),
        forall|i: int|
            0 <= i < pairs@.len() ==> (#[trigger] iterations@[i])@ == (NamedView {
                id: pairs@[i].0@,
                name: pairs@[i].1@,
            }),
{
    let mut iterations: Vec<IterationInfo> = Vec::new();
    let mut i: usize = 0;
    while i < pairs.len()
        invariant
            i <= pairs.len(),
            iterations@.len() == i,
            forall|j: int|
                0 <= j < i ==> (#[trigger] iterations@[j])@ == (NamedView {
                    id: pairs@[j].0@,
                    name: pairs@[j].1@,
                }),
        decreases pairs.len() - i,
    {
        iterations.push(IterationInfo { id: pairs[i].0.clone(), title: pairs[i].1.clone() });
        i += 1;
    }
    iterations
}

/// The kind of a field: see [`field_kind`].
fn read_field_kind(node: &Json) -> (kind: ProjectFieldType)
    ensures
        kind@ == field_kind(node@),
{
    if node.get("options").is_some() {
        let options = as_options(read_named_members(node, "options", "name"));
        assert(views(options@) =~= named_members(node@, "options"@, "name"@));
        ProjectFieldType::SingleSelect { options }
    } else {
        match node.get("configuration") {
            Some(configuration) => {
                let active = as_iterations(
                    read_named_members(configuration, "iterations", "title"),
                );
                let completed = as_iterations(
                    read_named_members(configuration, "completedIterations", "title"),
                );
                assert(views(active@) =~= named_members(
                    configuration@,
                    "iterations"@,
                    "title"@,
                ));
                assert(views(completed@) =~= named_members(
                    configuration@,
                    "completedIterations"@,
                    "title"@,
                ));
                ProjectFieldType::Iteration { active, completed }
            },
            None => ProjectFieldType::Other,
        }
    }
}

/// The fields of a project as a response reports them: see
/// [`reported_fields`].
pub fn get_project_fields_results(response: &Json) -> (fields: Vec<ProjectFieldInfo>)
    ensures
        views(fields@) == reported_fields(response@),
{
    let mut fields: Vec<ProjectFieldInfo> = Vec::new();
    assert(views(fields@) =~= Seq::<ProjectFieldInfoView>::empty());
    let node = match response.get("node") {
        Some(node) => node,
        None => {
            return fields;
        },
    };
    let holder = match node.get("fields") {
        Some(holder) => holder,
        None => {
            return fields;
        },
    };
    let list = match holder.get("nodes") {
        Some(list) => list,
        None => {
            return fields;
        },
    };
    let nodes = match list.as_list() {
        Some(nodes) => nodes,
        None => {
            return fields;
        },
    };
    let ghost models = list@.items()->0;
    assert(views(nodes@) =~= models);
    let mut i: usize = 0;
    while i < nodes.len()
        invariant
            i <= nodes.len(),
            models == views(nodes@),
            views(fields@) == fields_among(models, i as nat),
        decreases nodes.len() - i,
    {
        let ghost before = views(fields@);
        assert(models[i as int] == nodes@[i as int]@);
        match (nodes[i].get_str("id"), nodes[i].get_str("name")) {
            (Some(id), Some(name)) => {
                fields.push(
                    ProjectFieldInfo {
                        id: String::from_str(id),
                        name: String::from_str(name),
                        field_type: read_field_kind(&nodes[i]),
                    },
                );
                assert(views(fields@) =~= before.push(fields@[fields@.len() - 1]@));
            },
            _ => {},
        }
        i += 1;
    }
    fields
}

/// The issue types of a repository as a response reports them: see
/// [`reported_issue_types`].
pub fn get_issue_types_results(response: &Json) -> (types: Vec<IssueTypeInfo>)
    ensures
        types@.len() == reported_issue_types(response@).len(),
        forall|i: int|
            0 <= i < types@.len() ==> (NamedView {
                id: (#[trigger] types@[i]).id@,
                name: types@[i].name@,
            }) == reported_issue_types(response@)[i],
{
    let mut types: Vec<IssueTypeInfo> = Vec::new();
    let repository = match response.get("repository") {
        Some(repository) => repository,
        None => {
            return types;
        },
    };
    let holder = match repository.get("issueTypes") {
        Some(holder) => holder,
        None => {
            return types;
        },
    };
    let pairs = read_named_members(holder, "nodes", "name");
    let mut i: usize = 0;
    while i < pairs.len()
        invariant
            i <= pairs.len(),
            types@.len() == i,
            forall|j: int|
                0 <= j < i ==> (#[trigger] types@[j]).id@ == pairs@[j].0@ && types@[j].name@
                    == pairs@[j].1@,
        decreases pairs.len() - i,
    {
        types.push(IssueTypeInfo { id: pairs[i].0.clone(), name: pairs[i].1.clone() });
        i += 1;
    }
    types
}

/// The name of the variable that holds the id of issue `i`, without `$`.
pub open spec fn item_variable(i: nat) -> Seq<char> {
    "id_"@ + decimal(i)
}

/// The alias under which the items of issue `i` are asked for.
pub open spec fn item_alias(i: nat) -> Seq<char> {
    "issue_"@ + decimal(i)
}

/// The declaration of the variable of issue `i`.
pub open spec fn item_definition(i: nat) -> Seq<char> {
    "$"@ + item_variable(i) + ": ID!"@
}

/// The part of a query that asks for the project items of issue `i`.
pub open spec fn item_selection(i: nat) -> Seq<char> {
    item_alias(i) + ": node(id: $"@ + item_variable(i)
        + ") { ... on Issue { projectItems(first: 50) { nodes { id project { id } } } } }"@
}

/// The document that asks for the project items of `n` issues at once.
pub open spec fn item_ids_query(n: nat) -> Seq<char> {
    "query("@ + join(Seq::new(n, |i: int| item_definition(i as nat)), ", "@) + ") {\n  "@ + join(
        Seq::new(n, |i: int| item_selection(i as nat)),
        "\n  "@,
    ) + "\n}"@
}

/// The variables of that document: the id of issue `i` under the name of
/// its variable.
pub open spec fn item_ids_variables(issue_ids: Seq<Seq<char>>) -> JsonView {
    JsonView::Object(
        Seq::new(issue_ids.len(), |i: int| (item_variable(i as nat), JsonView::Text(issue_ids[i]))),
    )
}

/// A value is an item of the given project: it holds a text `id`, and a
/// `project` whose `id` is that of the project.
pub open spec fn is_item_of(node: JsonView, project_id: Seq<char>) -> bool {
    &&& member_text(node, "id"@) is Some
    &&& match node.member("project"@) {
        Some(project) => member_text(project, "id"@) == Some(project_id),
        None => false,
    }
}

/// The index of the first item of the given project among the values, or
/// the number of values.
pub open spec fn first_item_of(nodes: Seq<JsonView>, project_id: Seq<char>) -> int {
    first_where(nodes, |node: JsonView| is_item_of(node, project_id))
}

/// The id of the item under which issue `i` is in the project, as the
/// response reports it at `issue_<i>.projectItems.nodes`.
pub open spec fn item_of_issue(response: JsonView, i: nat, project_id: Seq<char>) -> Option<
    Seq<char>,
> {
    match response.member(item_alias(i)) {
        None => None,
        Some(issue) => match issue.member("projectItems"@) {
            None => None,
            Some(items) => match items.member("nodes"@) {
                None => None,
                Some(list) => match list.items() {
                    None => None,
                    Some(nodes) => {
                        let at = first_item_of(nodes, project_id);
                        if 0 <= at < nodes.len() {
                            member_text(nodes[at], "id"@)
                        } else {
                            None
                        }
                    },
                },
            },
        },
    }
}

/// The items of the first `k` issues, by the id of the issue, as far as
/// the issues are in the project.
pub open spec fn project_items(
    response: JsonView,
    issue_ids: Seq<Seq<char>>,
    project_id: Seq<char>,
    k: nat,
) -> Seq<(Seq<char>, Seq<char>)>
    decreases k,
{
    if k == 0 || k > issue_ids.len() {
        Seq::empty()
    } else {
        let rest = project_items(response, issue_ids, project_id, (k - 1) as nat);
        match item_of_issue(response, (k - 1) as nat, project_id) {
            Some(item_id) => upsert(rest, issue_ids[k - 1], item_id),
            None => rest,
        }
    }
}

/// The one request that asks for the project items of all the given
/// issues; no request where there is no issue.
pub fn get_project_item_ids_batch_request(issue_ids: &[String]) -> (request: Option<GraphQLRequest>)
    ensures
        issue_ids@.len() == 0 ==> request is None,
        issue_ids@.len() > 0 ==> request is Some && request->0@ == (GraphQLRequestView {
            query: item_ids_query(issue_ids@.len()),
            variables: Some(item_ids_variables(views(issue_ids@))),
        }),
{
    let n = issue_ids.len();
    if n == 0 {
        return None;
    }
    let ghost defs = Seq::new(n as nat, |i: int| item_definition(i as nat));
    let ghost parts = Seq::new(n as nat, |i: int| item_selection(i as nat));
    let mut buf: Vec<char> = Vec::new();
    extend_str(&mut buf, "query(");
    let mut i: usize = 0;
    while i < n
        invariant
            i <= n,
            defs == Seq::new(n as nat, |i: int| item_definition(i as nat)),
            buf@ == "query("@ + join(defs.take(i as int), ", "@),
        decreases n - i,
    {
        if i > 0 {
            extend_str(&mut buf, ", ");
        }
        extend_str(&mut buf, "$");
        extend_str(&mut buf, "id_");
        extend_decimal(&mut buf, i);
        extend_str(&mut buf, ": ID!");
        proof {
            let done = defs.take(i as int);
            assert(defs[i as int] == item_definition(i as nat));
            lemma_join_push(done, ", "@, defs[i as int]);
            assert(defs.take(i + 1) == done.push(defs[i as int]));
            assert(buf@ =~= "query("@ + join(defs.take(i + 1), ", "@));
        }
        i += 1;
    }
    assert(defs.take(n as int) == defs);
    extend_str(&mut buf, ") {\n  ");
    let ghost head = buf@;
    let mut k: usize = 0;
    while k < n
        invariant
            k <= n,
            parts == Seq::new(n as nat, |i: int| item_selection(i as nat)),
            buf@ == head + join(parts.take(k as int), "\n  "@),
        decreases n - k,
    {
        if k > 0 {
            extend_str(&mut buf, "\n  ");
        }
        extend_str(&mut buf, "issue_");
        extend_decimal(&mut buf, k);
        extend_str(&mut buf, ": node(id: $");
        extend_str(&mut buf, "id_");
        extend_decimal(&mut buf, k);
        extend_str(
            &mut buf,
            ") { ... on Issue { projectItems(first: 50) { nodes { id project { id } } } } }",
        );
        proof {
            let done = parts.take(k as int);
            assert(parts[k as int] == item_selection(k as nat));
            lemma_join_push(done, "\n  "@, parts[k as int]);
            assert(parts.take(k + 1) == done.push(parts[k as int]));
            assert(buf@ =~= head + join(parts.take(k + 1), "\n  "@));
        }
        k += 1;
    }
    assert(parts.take(n as int) == parts);
    extend_str(&mut buf, "\n}");
    let mut members: Vec<(String, Json)> = Vec::new();
    let mut m: usize = 0;
    while m < n
        invariant
            m <= n,
            n == issue_ids@.len(),
            members@.len() == m,
            forall|j: int|
                0 <= j < m ==> (#[trigger] members@[j]).0@ == item_variable(j as nat)
                    && members@[j].1@ == JsonView::Text(issue_ids@[j]@),
        decreases n - m,
    {
        let mut key: Vec<char> = Vec::new();
        extend_str(&mut key, "id_");
        extend_decimal(&mut key, m);
        members.push((string_of(key.as_slice()), Json::text(issue_ids[m].as_str())));
        m += 1;
    }
    let variables = Json::object(members);
    assert(variables@->Object_0 =~= item_ids_variables(views(issue_ids@))->Object_0);
    Some(GraphQLRequest { query: string_of(buf.as_slice()), variables: Some(variables) })
}

/// The id of the first item of the given project among the values.
fn find_item_of(nodes: &Vec<Json>, project_id: &str) -> (found: Option<String>)
    ensures
        ({
            let models = views(nodes@);
            let at = first_item_of(models, project_id@);
            option_view(found) == if 0 <= at < models.len() {
                member_text(models[at], "id"@)
            } else {
                None
            }
        }),
{
    let ghost models = views(nodes@);
    let mut k: usize = 0;
    while k < nodes.len()
        invariant
            k <= nodes.len(),
            models == views(nodes@),
            forall|j: int| 0 <= j < k ==> !is_item_of(models[j], project_id@),
        decreases nodes.len() - k,
    {
        assert(models[k as int] == nodes@[k as int]@);
        let id = nodes[k].get_str("id");
        let in_project = match nodes[k].get("project") {
            Some(project) => match project.get_str("id") {
                Some(found) => crate::text::same_text(found, project_id),
                None => false,
            },
            None => false,
        };
        match id {
            Some(id) => {
                if in_project {
                    proof {
                        lemma_first_where(
                            models,
                            |node: JsonView| is_item_of(node, project_id@),
                            k as int,
                        );
                    }
                    return Some(String::from_str(id));
                }
            },
            None => {},
        }
        k += 1;
    }
    proof {
        lemma_first_where(models, |node: JsonView| is_item_of(node, project_id@), k as int);
    }
    None
}

/// The id of the item under which issue `i` is in the project: see
/// [`item_of_issue`].
fn read_item_of_issue(response: &Json, i: usize, project_id: &str) -> (found: Option<String>)
    ensures
        option_view(found) == item_of_issue(response@, i as nat, project_id@),
{
    let mut key: Vec<char> = Vec::new();
    extend_str(&mut key, "issue_");
    extend_decimal(&mut key, i);
    let key = string_of(key.as_slice());
    let issue = match response.get(key.as_str()) {
        Some(issue) => issue,
        None => {
            return None;
        },
    };
    let items = match issue.get("projectItems") {
        Some(items) => items,
        None => {
            return None;
        },
    };
    let list = match items.get("nodes") {
        Some(list) => list,
        None => {
            return None;
        },
    };
    let nodes = match list.as_list() {
        Some(nodes) => nodes,
        None => {
            return None;
        },
    };
    assert(views(nodes@) =~= list@.items()->0);
    find_item_of(nodes, project_id)
}

/// The items of the given issues in the project, by the id of the issue:
/// see [`project_items`].
pub fn get_project_item_ids_batch_results(
    response: &Json,
    project_id: &str,
    issue_ids: &[String],
) -> (items: NameMap<String>)
    ensures
        text_pairs(items.pairs()) == project_items(
            response@,
            views(issue_ids@),
            project_id@,
            issue_ids@.len(),
        ),
{
    let ghost ids = views(issue_ids@);
    let mut items: NameMap<String> = NameMap::new();
    assert(text_pairs(items.pairs()) =~= project_items(
        response@,
        ids,
        project_id@,
        0,
    ));
    let mut i: usize = 0;
    while i < issue_ids.len()
        invariant
            i <= issue_ids.len(),
            ids == views(issue_ids@),
            text_pairs(items.pairs()) == project_items(
                response@,
                ids,
                project_id@,
                i as nat,
            ),
        decreases issue_ids.len() - i,
    {
        assert(ids[i as int] == issue_ids@[i as int]@);
        match read_item_of_issue(response, i, project_id) {
            Some(item_id) => {
                let key = issue_ids[i].clone();
                proof {
                    lemma_upsert_text(items.pairs(), key@, item_id);
                }
                items.insert(key, item_id);
            },
            None => {},
        }
        i += 1;
    }
    items
}

} // verus!
