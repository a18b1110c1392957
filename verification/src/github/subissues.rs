//! Parent and child issues: the request that links them, and what its
//! response means.

use crate::github::batch::{
    alias_key, alias_key_text, batch_request, build_batch, GraphQLRequest, Operation,
};
use crate::github::json::{Json, JsonView};
use crate::text::{contains, contains_sub, lowercase, to_lowercase};
use vstd::prelude::*;

verus! {

/// A child issue to put under a parent issue, both by node id.
#[derive(Debug)]
pub struct SubIssueLink {
    pub parent_issue_id: String,
    pub child_issue_id: String,
}

/// The model of a [`SubIssueLink`].
pub struct SubIssueLinkView {
    pub parent_issue_id: Seq<char>,
    pub child_issue_id: Seq<char>,
}

impl View for SubIssueLink {
    type V = SubIssueLinkView;

    open spec fn view(&self) -> SubIssueLinkView {
        SubIssueLinkView {
            parent_issue_id: self.parent_issue_id@,
            child_issue_id: self.child_issue_id@,
        }
    }
}

impl Clone for SubIssueLink {
    fn clone(&self) -> (out: Self)
        ensures
            out@ == self@,
    {
        SubIssueLink {
            parent_issue_id: self.parent_issue_id.clone(),
            child_issue_id: self.child_issue_id.clone(),
        }
    }
}

/// The model of an outcome that carries nothing on success.
pub open spec fn done_view(outcome: Result<(), String>) -> Result<(), Seq<char>> {
    match outcome {
        Ok(_) => Ok(()),
        Err(e) => Err(e@),
    }
}

/// The input of the mutation that links one child to its parent.
pub open spec fn link_input(link: SubIssueLinkView) -> JsonView {
    JsonView::Object(
        seq![
            ("issueId"@, JsonView::Text(link.parent_issue_id)),
            ("subIssueId"@, JsonView::Text(link.child_issue_id)),
        ],
    )
}

/// An error of the API says that the link it was to make is there already.
pub open spec fn says_already_linked(error: Seq<char>) -> bool {
    let text = lowercase(error);
    ||| contains_sub(text, "already a sub-issue"@)
    ||| contains_sub(text, "is already a child"@)
    ||| contains_sub(text, "already has this sub-issue"@)
    ||| contains_sub(text, "duplicate sub-issues"@)
    ||| contains_sub(text, "may only have one parent"@)
}

/// What a batch of links reports of its call `i`: the link is made where
/// the response holds, under the alias of the call, something with a
/// member `subIssue`; it failed where that member or the alias is missing.
pub open spec fn link_outcome(response: JsonView, i: nat) -> Result<(), Seq<char>> {
    match response.member(alias_key(Operation::AddSubIssue, i)) {
        None => Err("Missing response for link"@),
        Some(data) => if data.member("subIssue"@) is Some {
            Ok(())
        } else {
            Err("No subIssue in response"@)
        },
    }
}

/// The input for linking one child to its parent: see [`link_input`].
pub fn build_link_input(link: &SubIssueLink) -> (value: Json)
    ensures
        value@ == link_input(link@),
{
    let mut members: Vec<(String, Json)> = Vec::new();
    members.push((String::from_str("issueId"), Json::text(link.parent_issue_id.as_str())));
    members.push((String::from_str("subIssueId"), Json::text(link.child_issue_id.as_str())));
    let value = Json::object(members);
    assert(value@->Object_0 =~= link_input(link@)->Object_0);
    value
}

/// The one request that makes all the given links; no request where there
/// is none.
pub fn add_sub_issues_batch_request(links: &[SubIssueLink]) -> (request: Option<GraphQLRequest>)
    ensures
        links@.len() == 0 ==> request is None,
        links@.len() > 0 ==> request is Some && request->0@ == batch_request(
            Operation::AddSubIssue,
            Seq::new(links@.len(), |i: int| link_input(links@[i]@)),
        ),
{
    let mut inputs: Vec<Json> = Vec::new();
    let mut i: usize = 0;
    while i < links.len()
        invariant
            i <= links.len(),
            inputs@.len() == i,
            forall|j: int| 0 <= j < i ==> (#[trigger] inputs@[j])@ == link_input(links@[j]@),
        decreases links.len() - i,
    {
        inputs.push(build_link_input(&links[i]));
        i += 1;
    }
    assert(Seq::new(inputs@.len(), |i: int| inputs@[i]@) =~= Seq::new(
        links@.len(),
        |i: int| link_input(links@[i]@),
    ));
    build_batch(Operation::AddSubIssue, inputs)
}

/// Whether an error of the API says that a link is there already: see
/// [`says_already_linked`].
pub fn is_already_linked(error: &str) -> (r: bool)
    ensures
        r == says_already_linked(error@),
{
    let text = to_lowercase(error);
    let text = text.as_str();
    contains(text, "already a sub-issue") || contains(text, "is already a child") || contains(
        text,
        "already has this sub-issue",
    ) || contains(text, "duplicate sub-issues") || contains(text, "may only have one parent")
}

/// What the one attempt to make a single link came to: an error that says
/// the link is there already counts as success.
pub fn add_sub_issue_result(outcome: Result<(), String>) -> (result: Result<(), String>)
    ensures
        match outcome {
            Ok(_) => result is Ok,
            Err(error) => if says_already_linked(error@) {
                result is Ok
            } else {
                result is Err && result->Err_0@ == error@
            },
        },
{
    match outcome {
        Ok(_) => Ok(()),
        Err(error) => {
            if is_already_linked(error.as_str()) {
                Ok(())
            } else {
                Err(error)
            }
        },
    }
}

/// The outcomes of a batch of `count` links, in the order of the calls.
///
/// With a response, see [`link_outcome`]. Without one, the whole batch
/// counts as done where the error says that a link is there already, and
/// fails with that error otherwise.
pub fn add_sub_issues_batch_results(outcome: Result<Json, String>, count: usize) -> (results:
    Result<Vec<Result<(), String>>, String>)
    ensures
        match outcome {
            Ok(response) => results is Ok && results->Ok_0@.len() == count && forall|i: int|
                0 <= i < count ==> done_view(#[trigger] results->Ok_0@[i]) == link_outcome(
                    response@,
                    i as nat,
                ),
            Err(error) => if says_already_linked(error@) {
                results is Ok && results->Ok_0@.len() == count && forall|i: int|
                    0 <= i < count ==> (#[trigger] results->Ok_0@[i]) is Ok
            } else {
                results is Err && results->Err_0@ == error@
            },
        },
{
    match outcome {
        Ok(response) => {
            let mut results: Vec<Result<(), String>> = Vec::new();
            let mut i: usize = 0;
            while i < count
                invariant
                    i <= count,
                    results@.len() == i,
                    forall|j: int|
                        0 <= j < i ==> done_view(#[trigger] results@[j]) == link_outcome(
                            response@,
                            j as nat,
                        ),
                decreases count - i,
            {
                let key = alias_key_text(Operation::AddSubIssue, i);
                match response.get(key.as_str()) {
                    Some(data) => {
                        if data.get("subIssue").is_some() {
                            results.push(Ok(()));
                        } else {
                            results.push(Err(String::from_str("No subIssue in response")));
                        }
                    },
                    None => {
                        results.push(Err(String::from_str("Missing response for link")));
                    },
                }
                i += 1;
            }
            Ok(results)
        },
        Err(error) => {
            if is_already_linked(error.as_str()) {
                let mut results: Vec<Result<(), String>> = Vec::new();
                let mut i: usize = 0;
                while i < count
                    invariant
                        i <= count,
                        results@.len() == i,
                        forall|j: int| 0 <= j < i ==> (#[trigger] results@[j]) is Ok,
                    decreases count - i,
                {
                    results.push(Ok(()));
                    i += 1;
                }
                Ok(results)
            } else {
                Err(error)
            }
        },
    }
}

} // verus!
