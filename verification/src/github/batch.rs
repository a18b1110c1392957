//! Many operations of one kind in a single GraphQL document.
//!
//! A batch of `n` operations is one mutation with `n` aliased calls. Call `i`
//! has the alias `<prefix>_<i>` and takes its input from the variable
//! `$input_<i>`; the response holds the result of call `i` under its alias.

use crate::decimal::{decimal, decimal_chars};
use crate::github::json::{Json, JsonView};
use crate::text::{extend_from, extend_str, join, join_chars, string_of, views};
use vstd::prelude::*;

verus! {

/// The kinds of operation that are sent in batches.
#[derive(Clone, Copy, PartialEq, Eq, Debug, Structural)]
pub enum Operation {
    CreateIssue,
    UpdateIssue,
    CloseIssue,
    ReopenIssue,
    AddSubIssue,
    AddProjectItem,
    SetFieldValue,
}

impl Operation {
    /// The prefix of the aliases under which the calls of a batch stand.
    pub open spec fn alias(self) -> Seq<char> {
        match self {
            Operation::CreateIssue => "create"@,
            Operation::UpdateIssue => "update"@,
            Operation::CloseIssue => "close"@,
            Operation::ReopenIssue => "reopen"@,
            Operation::AddSubIssue => "link"@,
            Operation::AddProjectItem => "add"@,
            Operation::SetFieldValue => "field"@,
        }
    }

    /// The name of the mutation that is called.
    pub open spec fn field(self) -> Seq<char> {
        match self {
            Operation::CreateIssue => "createIssue"@,
            Operation::UpdateIssue => "updateIssue"@,
            Operation::CloseIssue => "closeIssue"@,
            Operation::ReopenIssue => "reopenIssue"@,
            Operation::AddSubIssue => "addSubIssue"@,
            Operation::AddProjectItem => "addProjectV2ItemById"@,
            Operation::SetFieldValue => "updateProjectV2ItemFieldValue"@,
        }
    }

    /// The GraphQL type of the input of one call.
    pub open spec fn input_type(self) -> Seq<char> {
        match self {
            Operation::CreateIssue => "CreateIssueInput"@,
            Operation::UpdateIssue => "UpdateIssueInput"@,
            Operation::CloseIssue => "CloseIssueInput"@,
            Operation::ReopenIssue => "ReopenIssueInput"@,
            Operation::AddSubIssue => "AddSubIssueInput"@,
            Operation::AddProjectItem => "AddProjectV2ItemByIdInput"@,
            Operation::SetFieldValue => "UpdateProjectV2ItemFieldValueInput"@,
        }
    }

    /// What is asked back of each call.
    pub open spec fn selection(self) -> Seq<char> {
        match self {
            Operation::CreateIssue => "issue { id number url }"@,
            Operation::UpdateIssue => "issue { id number url }"@,
            Operation::CloseIssue => "issue { id }"@,
            Operation::ReopenIssue => "issue { id }"@,
            Operation::AddSubIssue => "subIssue { id }"@,
            Operation::AddProjectItem => "item { id }"@,
            Operation::SetFieldValue => "projectV2Item { id }"@,
        }
    }

    /// See [`Operation::alias`].
    pub fn alias_text(self) -> (s: &'static str)
        ensures
            s@ == self.alias(),
    {
        match self {
            Operation::CreateIssue => "create",
            Operation::UpdateIssue => "update",
            Operation::CloseIssue => "close",
            Operation::ReopenIssue => "reopen",
            Operation::AddSubIssue => "link",
            Operation::AddProjectItem => "add",
            Operation::SetFieldValue => "field",
        }
    }

    /// See [`Operation::field`].
    pub fn field_text(self) -> (s: &'static str)
        ensures
            s@ == self.field(),
    {
        match self {
            Operation::CreateIssue => "createIssue",
            Operation::UpdateIssue => "updateIssue",
            Operation::CloseIssue => "closeIssue",
            Operation::ReopenIssue => "reopenIssue",
            Operation::AddSubIssue => "addSubIssue",
            Operation::AddProjectItem => "addProjectV2ItemById",
            Operation::SetFieldValue => "updateProjectV2ItemFieldValue",
        }
    }

    /// See [`Operation::input_type`].
    pub fn input_type_text(self) -> (s: &'static str)
        ensures
            s@ == self.input_type(),
    {
        match self {
            Operation::CreateIssue => "CreateIssueInput",
            Operation::UpdateIssue => "UpdateIssueInput",
            Operation::CloseIssue => "CloseIssueInput",
            Operation::ReopenIssue => "ReopenIssueInput",
            Operation::AddSubIssue => "AddSubIssueInput",
            Operation::AddProjectItem => "AddProjectV2ItemByIdInput",
            Operation::SetFieldValue => "UpdateProjectV2ItemFieldValueInput",
        }
    }

    /// See [`Operation::selection`].
    pub fn selection_text(self) -> (s: &'static str)
        ensures
            s@ == self.selection(),
    {
        match self {
            Operation::CreateIssue => "issue { id number url }",
            Operation::UpdateIssue => "issue { id number url }",
            Operation::CloseIssue => "issue { id }",
            Operation::ReopenIssue => "issue { id }",
            Operation::AddSubIssue => "subIssue { id }",
            Operation::AddProjectItem => "item { id }",
            Operation::SetFieldValue => "projectV2Item { id }",
        }
    }
}

/// The name of the variable that holds the input of call `i`, without `$`.
pub open spec fn input_key(i: nat) -> Seq<char> {
    "input_"@ + decimal(i)
}

/// The alias of call `i`, which is also its key in the response.
pub open spec fn alias_key(op: Operation, i: nat) -> Seq<char> {
    op.alias() + "_"@ + decimal(i)
}

/// The declaration of the variable of call `i`.
pub open spec fn variable_definition(op: Operation, i: nat) -> Seq<char> {
    "$"@ + input_key(i) + ": "@ + op.input_type() + "!"@
}

/// Call `i` of a batch.
pub open spec fn aliased_call(op: Operation, i: nat) -> Seq<char> {
    alias_key(op, i) + ": "@ + op.field() + "(input: $"@ + input_key(i) + ") { "@ + op.selection()
        + " }"@
}

/// The variable declarations of a batch of `n` calls.
pub open spec fn variable_definitions(op: Operation, n: nat) -> Seq<Seq<char>> {
    Seq::new(n, |i: int| variable_definition(op, i as nat))
}

/// The calls of a batch of `n` calls.
pub open spec fn aliased_calls(op: Operation, n: nat) -> Seq<Seq<char>> {
    Seq::new(n, |i: int| aliased_call(op, i as nat))
}

/// The document of a batch of `n` calls of `op`.
pub open spec fn batch_document(op: Operation, n: nat) -> Seq<char> {
    "mutation("@ + join(variable_definitions(op, n), ", "@) + ") {\n  "@ + join(
        aliased_calls(op, n),
        "\n  "@,
    ) + "\n}"@
}

/// The variables of a batch: input `i` under the name of its variable.
pub open spec fn batch_variables(inputs: Seq<JsonView>) -> JsonView {
    JsonView::Object(Seq::new(inputs.len(), |i: int| (input_key(i as nat), inputs[i])))
}

/// A GraphQL document with the values of its variables.
pub struct GraphQLRequest {
    pub query: String,
    pub variables: Option<Json>,
}

/// The model of a [`GraphQLRequest`].
pub struct GraphQLRequestView {
    pub query: Seq<char>,
    pub variables: Option<JsonView>,
}

impl View for GraphQLRequest {
    type V = GraphQLRequestView;

    open spec fn view(&self) -> GraphQLRequestView {
        GraphQLRequestView {
            query: self.query@,
            variables: match self.variables {
                Some(v) => Some(v@),
                None => None,
            },
        }
    }
}

impl GraphQLRequestView {
    /// How many variables the request has: for a batch, the number of its
    /// calls.
    pub open spec fn size(self) -> nat {
        match self.variables {
            Some(JsonView::Object(members)) => members.len(),
            _ => 0,
        }
    }
}

impl GraphQLRequest {
    /// How many variables the request has: for a batch, the number of its
    /// calls.
    pub fn batch_size(&self) -> (n: usize)
        ensures
            n == self@.size(),
    {
        match &self.variables {
            Some(Json::Object(members)) => members.len(),
            _ => 0,
        }
    }
}

/// A batch has as many variables as calls.
pub proof fn lemma_batch_size(op: Operation, inputs: Seq<JsonView>)
    ensures
        batch_request(op, inputs).size() == inputs.len(),
{
}

/// The request that a batch of calls of `op` with the given inputs makes.
pub open spec fn batch_request(op: Operation, inputs: Seq<JsonView>) -> GraphQLRequestView {
    GraphQLRequestView {
        query: batch_document(op, inputs.len()),
        variables: Some(batch_variables(inputs)),
    }
}

/// The name of the variable of call `i`: see [`input_key`].
pub fn input_key_text(i: usize) -> (out: String)
    ensures
        out@ == input_key(i as nat),
{
    let mut buf: Vec<char> = Vec::new();
    extend_str(&mut buf, "input_");
    extend_decimal(&mut buf, i);
    string_of(buf.as_slice())
}

/// The alias of call `i`: see [`alias_key`].
pub fn alias_key_text(op: Operation, i: usize) -> (out: String)
    ensures
        out@ == alias_key(op, i as nat),
{
    let mut buf: Vec<char> = Vec::new();
    extend_str(&mut buf, op.alias_text());
    extend_str(&mut buf, "_");
    extend_decimal(&mut buf, i);
    string_of(buf.as_slice())
}

/// Appends the decimal notation of `i`.
pub fn extend_decimal(out: &mut Vec<char>, i: usize)
    ensures
        final(out)@ == old(out)@ + decimal(i as nat),
{
    let digits = decimal_chars(i as u64);
    extend_from(out, digits.as_slice(), 0, digits.len());
    assert(digits@.subrange(0, digits@.len() as int) == digits@);
}

/// The declaration of the variable of call `i`: see
/// [`variable_definition`].
fn variable_definition_chars(op: Operation, i: usize) -> (out: Vec<char>)
    ensures
        out@ == variable_definition(op, i as nat),
{
    let mut out: Vec<char> = Vec::new();
    extend_str(&mut out, "$");
    extend_str(&mut out, "input_");
    extend_decimal(&mut out, i);
    extend_str(&mut out, ": ");
    extend_str(&mut out, op.input_type_text());
    extend_str(&mut out, "!");
    out
}

/// Call `i` of a batch: see [`aliased_call`].
fn aliased_call_chars(op: Operation, i: usize) -> (out: Vec<char>)
    ensures
        out@ == aliased_call(op, i as nat),
{
    let mut out: Vec<char> = Vec::new();
    extend_str(&mut out, op.alias_text());
    extend_str(&mut out, "_");
    extend_decimal(&mut out, i);
    extend_str(&mut out, ": ");
    extend_str(&mut out, op.field_text());
    extend_str(&mut out, "(input: $");
    extend_str(&mut out, "input_");
    extend_decimal(&mut out, i);
    extend_str(&mut out, ") { ");
    extend_str(&mut out, op.selection_text());
    extend_str(&mut out, " }");
    out
}

/// The document of a batch of `n` calls of `op`: see [`batch_document`].
pub fn build_batch_document(op: Operation, n: usize) -> (out: String)
    ensures
        out@ == batch_document(op, n as nat),
{
    let mut definitions: Vec<Vec<char>> = Vec::new();
    let mut calls: Vec<Vec<char>> = Vec::new();
    let mut i: usize = 0;
    while i < n
        invariant
            i <= n,
            definitions@.len() == i,
            calls@.len() == i,
            forall|j: int|
                0 <= j < i ==> (#[trigger] definitions@[j])@ == variable_definition(op, j as nat),
            forall|j: int| 0 <= j < i ==> (#[trigger] calls@[j])@ == aliased_call(op, j as nat),
        decreases n - i,
    {
        definitions.push(variable_definition_chars(op, i));
        calls.push(aliased_call_chars(op, i));
        i += 1;
    }
    assert(views(definitions@) =~= variable_definitions(op, n as nat));
    assert(views(calls@) =~= aliased_calls(op, n as nat));
    let listed = join_chars(&definitions, ", ");
    let body = join_chars(&calls, "\n  ");
    let mut buf: Vec<char> = Vec::new();
    extend_str(&mut buf, "mutation(");
    extend_from(&mut buf, listed.as_slice(), 0, listed.len());
    extend_str(&mut buf, ") {\n  ");
    extend_from(&mut buf, body.as_slice(), 0, body.len());
    extend_str(&mut buf, "\n}");
    assert(listed@.subrange(0, listed@.len() as int) == listed@);
    assert(body@.subrange(0, body@.len() as int) == body@);
    string_of(buf.as_slice())
}

/// The request for a batch of calls of `op`, one for each input; no request
/// at all for an empty batch.
pub fn build_batch(op: Operation, inputs: Vec<Json>) -> (request: Option<GraphQLRequest>)
    ensures
        inputs@.len() == 0 ==> request is None,
        inputs@.len() > 0 ==> request is Some && request->0@ == batch_request(
            op,
            Seq::new(inputs@.len(), |i: int| inputs@[i]@),
        ),
{
    let n = inputs.len();
    if n == 0 {
        return None;
    }
    let ghost models = Seq::new(inputs@.len(), |i: int| inputs@[i]@);
    let query = build_batch_document(op, n);
    let mut members: Vec<(String, Json)> = Vec::new();
    for input in iter: inputs
        invariant
            members@.len() == iter.index(),
            iter.seq().len() == n,
            models.len() == n,
            forall|j: int| 0 <= j < n ==> (#[trigger] iter.seq()[j])@ == models[j],
            forall|j: int|
                0 <= j < members@.len() ==> (#[trigger] members@[j]).0@ == input_key(j as nat)
                    && members@[j].1@ == models[j],
    {
        let at = members.len();
        members.push((input_key_text(at), input));
    }
    let variables = Json::object(members);
    assert(variables@->Object_0 =~= batch_variables(models)->Object_0);
    Some(GraphQLRequest { query, variables: Some(variables) })
}

} // verus!
