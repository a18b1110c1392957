//! Projects: finding the one that is configured, and adding issues to it.

use crate::decimal::{parse_u64, parsed_u64};
use crate::github::batch::{
    alias_key, alias_key_text, batch_request, build_batch, GraphQLRequest, Operation,
};
use crate::github::json::{member_text, Json, JsonView};
use crate::seqs::{first_where, lemma_first_where, lemma_first_where_is_first};
use crate::text::{
    chars_of, contains, contains_sub, extend_from, lowercase, option_view, outcome_view,
    to_lowercase, views,
};
use vstd::prelude::*;

verus! {

/// A project that issues are added to.
#[derive(Debug)]
pub struct ProjectInfo {
    pub id: String,
    pub title: String,
    pub number: u64,
}

/// The model of a [`ProjectInfo`].
pub struct ProjectInfoView {
    pub id: Seq<char>,
    pub title: Seq<char>,
    pub number: u64,
}

impl View for ProjectInfo {
    type V = ProjectInfoView;

    open spec fn view(&self) -> ProjectInfoView {
        ProjectInfoView { id: self.id@, title: self.title@, number: self.number }
    }
}

impl Clone for ProjectInfo {
    fn clone(&self) -> (out: Self)
        ensures
            out@ == self@,
    {
        ProjectInfo { id: self.id.clone(), title: self.title.clone(), number: self.number }
    }
}

/// An issue as an item of a project.
#[derive(Debug)]
pub struct ProjectItemInfo {
    /// The id of the item; empty where the issue was in the project before
    /// and the API did not say under which id.
    pub item_id: String,
}

/// The model of a [`ProjectItemInfo`].
pub struct ProjectItemInfoView {
    pub item_id: Seq<char>,
}

impl View for ProjectItemInfo {
    type V = ProjectItemInfoView;

    open spec fn view(&self) -> ProjectItemInfoView {
        ProjectItemInfoView { item_id: self.item_id@ }
    }
}

/// A project as a listing of projects reports it.
#[derive(Debug)]
pub struct ProjectNode {
    pub id: String,
    pub title: String,
    pub number: u64,
}

impl View for ProjectNode {
    type V = ProjectInfoView;

    open spec fn view(&self) -> ProjectInfoView {
        ProjectInfoView { id: self.id@, title: self.title@, number: self.number }
    }
}

/// The index of the first project with the given number, or the number of
/// projects.
pub open spec fn first_numbered(projects: Seq<ProjectInfoView>, number: u64) -> int {
    first_where(projects, |project: ProjectInfoView| project.number == number)
}

/// The index of the first project whose title is `name` when case is
/// ignored, or the number of projects.
pub open spec fn first_titled(projects: Seq<ProjectInfoView>, name: Seq<char>) -> int {
    first_where(
        projects,
        |project: ProjectInfoView| lowercase(project.title) == lowercase(name),
    )
}

/// The project that a name or number stands for: the first with that
/// number, where a number is given and a project has it; else the first
/// whose title is the name when case is ignored.
pub open spec fn matching_project(
    projects: Seq<ProjectInfoView>,
    name: Seq<char>,
    number: Option<u64>,
) -> Option<ProjectInfoView> {
    let by_number = match number {
        Some(n) => first_numbered(projects, n),
        None => projects.len() as int,
    };
    if 0 <= by_number < projects.len() {
        Some(projects[by_number])
    } else {
        let by_name = first_titled(projects, name);
        if 0 <= by_name < projects.len() {
            Some(projects[by_name])
        } else {
            None
        }
    }
}

/// A project that has the number asked for is found whatever the titles of
/// the projects are: a match by number has precedence over one by name.
pub proof fn lemma_number_has_precedence(
    projects: Seq<ProjectInfoView>,
    name: Seq<char>,
    number: u64,
    i: int,
)
    requires
        0 <= i < projects.len(),
        projects[i].number == number,
    ensures
        matching_project(projects, name, Some(number)) is Some,
        matching_project(projects, name, Some(number))->0.number == number,
{
    lemma_first_where_is_first(
        projects,
        |project: ProjectInfoView| project.number == number,
    );
}

/// The project that a name or number stands for: see [`matching_project`].
pub fn find_matching_project(projects: &[ProjectNode], name: &str, number: Option<u64>) -> (found:
    Option<ProjectInfo>)
    ensures
        option_view(found) == matching_project(views(projects@), name@, number),
{
    let ghost models = views(projects@);
    if let Some(wanted) = number {
        let mut i: usize = 0;
        while i < projects.len()
            invariant
                i <= projects.len(),
                models == views(projects@),
                number == Some(wanted),
                forall|j: int| 0 <= j < i ==> models[j].number != wanted,
            decreases projects.len() - i,
        {
            if projects[i].number == wanted {
                proof {
                    assert(models[i as int] == projects@[i as int]@);
                    lemma_first_where(
                        models,
                        |project: ProjectInfoView| project.number == wanted,
                        i as int,
                    );
                }
                return Some(
                    ProjectInfo {
                        id: projects[i].id.clone(),
                        title: projects[i].title.clone(),
                        number: projects[i].number,
                    },
                );
            }
            assert(models[i as int] == projects@[i as int]@);
            i += 1;
        }
        proof {
            lemma_first_where(
                models,
                |project: ProjectInfoView| project.number == wanted,
                projects@.len() as int,
            );
        }
    }
    let wanted = to_lowercase(name);
    let mut i: usize = 0;
    while i < projects.len()
        invariant
            i <= projects.len(),
            models == views(projects@),
            wanted@ == lowercase(name@),
            number is Some ==> first_numbered(models, number->0) == models.len(),
            forall|j: int| 0 <= j < i ==> lowercase(models[j].title) != lowercase(name@),
        decreases projects.len() - i,
    {
        let title = to_lowercase(projects[i].title.as_str());
        assert(models[i as int] == projects@[i as int]@);
        if title == wanted {
            proof {
                lemma_first_where(
                    models,
                    |project: ProjectInfoView| lowercase(project.title) == lowercase(name@),
                    i as int,
                );
            }
            return Some(
                ProjectInfo {
                    id: projects[i].id.clone(),
                    title: projects[i].title.clone(),
                    number: projects[i].number,
                },
            );
        }
        i += 1;
    }
    proof {
        lemma_first_where(
            models,
            |project: ProjectInfoView| lowercase(project.title) == lowercase(name@),
            projects@.len() as int,
        );
    }
    None
}

/// The number that a text denotes as an unsigned integer: digits only, with
/// one `+` before them at most, and a value that fits in 64 bits.
pub open spec fn unsigned_number(text: Seq<char>) -> Option<u64> {
    if text.len() > 0 && text[0] == '+' {
        parsed_u64(text.drop_first())
    } else {
        parsed_u64(text)
    }
}

/// The project number that the configured name may be: see
/// [`unsigned_number`].
pub fn project_number(name_or_number: &str) -> (number: Option<u64>)
    ensures
        number == unsigned_number(name_or_number@),
{
    let text = chars_of(name_or_number);
    if text.len() > 0 && text[0] == '+' {
        let mut rest: Vec<char> = Vec::new();
        let total = text.len();
        extend_from(&mut rest, text.as_slice(), 1, total);
        assert(rest@ =~= text@.drop_first());
        parse_u64(rest.as_slice())
    } else {
        parse_u64(text.as_slice())
    }
}

/// Where the search for the configured project stands.
#[derive(Debug)]
pub enum ProjectSearch {
    /// The projects of the repository are to be listed.
    Repository,
    /// Whether the owner is an organization is to be asked.
    OwnerKind,
    /// The projects of the organization are to be listed.
    Organization,
    /// The projects of the user are to be listed.
    User,
    /// The search is over, with the project that was found.
    Finished(Option<ProjectInfo>),
}

/// The model of a [`ProjectSearch`].
pub enum ProjectSearchView {
    Repository,
    OwnerKind,
    Organization,
    User,
    Finished(Option<ProjectInfoView>),
}

impl View for ProjectSearch {
    type V = ProjectSearchView;

    open spec fn view(&self) -> ProjectSearchView {
        match self {
            ProjectSearch::Repository => ProjectSearchView::Repository,
            ProjectSearch::OwnerKind => ProjectSearchView::OwnerKind,
            ProjectSearch::Organization => ProjectSearchView::Organization,
            ProjectSearch::User => ProjectSearchView::User,
            ProjectSearch::Finished(found) => ProjectSearchView::Finished(option_view(*found)),
        }
    }
}

/// How the search goes on after a listing of projects. A project found
/// ends it. After the repository's own projects come those of its owner,
/// once the kind of owner is known; after the owner's, nothing.
pub open spec fn after_listing(
    at: ProjectSearchView,
    projects: Seq<ProjectInfoView>,
    name: Seq<char>,
) -> ProjectSearchView {
    let found = matching_project(projects, name, unsigned_number(name));
    match at {
        ProjectSearchView::Repository => if found is Some {
            ProjectSearchView::Finished(found)
        } else {
            ProjectSearchView::OwnerKind
        },
        ProjectSearchView::Organization => ProjectSearchView::Finished(found),
        ProjectSearchView::User => ProjectSearchView::Finished(found),
        other => other,
    }
}

/// How the search goes on once the kind of owner is known.
pub open spec fn after_owner_kind(at: ProjectSearchView, is_organization: bool) -> ProjectSearchView {
    match at {
        ProjectSearchView::OwnerKind => if is_organization {
            ProjectSearchView::Organization
        } else {
            ProjectSearchView::User
        },
        other => other,
    }
}

impl ProjectSearch {
    /// The search goes on after a listing of projects: see
    /// [`after_listing`].
    pub fn listed(self, projects: &[ProjectNode], name_or_number: &str) -> (next: ProjectSearch)
        ensures
            next@ == after_listing(self@, views(projects@), name_or_number@),
    {
        match self {
            ProjectSearch::Repository => {
                let number = project_number(name_or_number);
                match find_matching_project(projects, name_or_number, number) {
                    Some(project) => ProjectSearch::Finished(Some(project)),
                    None => ProjectSearch::OwnerKind,
                }
            },
            ProjectSearch::Organization => {
                let number = project_number(name_or_number);
                ProjectSearch::Finished(find_matching_project(projects, name_or_number, number))
            },
            ProjectSearch::User => {
                let number = project_number(name_or_number);
                ProjectSearch::Finished(find_matching_project(projects, name_or_number, number))
            },
            other => other,
        }
    }

    /// The search goes on once the kind of owner is known: see
    /// [`after_owner_kind`].
    pub fn owner_known(self, is_organization: bool) -> (next: ProjectSearch)
        ensures
            next@ == after_owner_kind(self@, is_organization),
    {
        match self {
            ProjectSearch::OwnerKind => {
                if is_organization {
                    ProjectSearch::Organization
                } else {
                    ProjectSearch::User
                }
            },
            other => other,
        }
    }
}

/// The input of the mutation that adds one issue to a project.
pub open spec fn project_item_input(project_id: Seq<char>, issue_id: Seq<char>) -> JsonView {
    JsonView::Object(
        seq![("projectId"@, JsonView::Text(project_id)), ("contentId"@, JsonView::Text(issue_id))],
    )
}

/// An error of the API says that the issue is in the project already.
pub open spec fn says_already_in_project(error: Seq<char>) -> bool {
    let text = lowercase(error);
    contains_sub(text, "already in the project"@) || contains_sub(text, "already added"@)
}

/// What a batch of additions reports of its call `i`: the id of the item
/// where there is one, and else what is missing.
pub open spec fn added_outcome(response: JsonView, i: nat) -> Result<
    ProjectItemInfoView,
    Seq<char>,
> {
    match response.member(alias_key(Operation::AddProjectItem, i)) {
        None => Err("Missing response for item"@),
        Some(data) => match data.member("item"@) {
            None => Err("No item ID in response"@),
            Some(item) => match member_text(item, "id"@) {
                None => Err("No item ID in response"@),
                Some(id) => Ok(ProjectItemInfoView { item_id: id }),
            },
        },
    }
}

/// The input for adding one issue to a project: see
/// [`project_item_input`].
pub fn build_project_item_input(project_id: &str, issue_id: &str) -> (value: Json)
    ensures
        value@ == project_item_input(project_id@, issue_id@),
{
    let mut members: Vec<(String, Json)> = Vec::new();
    members.push((String::from_str("projectId"), Json::text(project_id)));
    members.push((String::from_str("contentId"), Json::text(issue_id)));
    let value = Json::object(members);
    assert(value@->Object_0 =~= project_item_input(project_id@, issue_id@)->Object_0);
    value
}

/// The one request that adds all the given issues to a project; no request
/// where there is none.
pub fn add_issues_to_project_batch_request(project_id: &str, issue_ids: &[String]) -> (request:
    Option<GraphQLRequest>)
    ensures
        issue_ids@.len() == 0 ==> request is None,
        issue_ids@.len() > 0 ==> request is Some && request->0@ == batch_request(
            Operation::AddProjectItem,
            Seq::new(issue_ids@.len(), |i: int| project_item_input(project_id@, issue_ids@[i]@)),
        ),
{
    let mut inputs: Vec<Json> = Vec::new();
    let mut i: usize = 0;
    while i < issue_ids.len()
        invariant
            i <= issue_ids.len(),
            inputs@.len() == i,
            forall|j: int|
                0 <= j < i ==> (#[trigger] inputs@[j])@ == project_item_input(
                    project_id@,
                    issue_ids@[j]@,
                ),
        decreases issue_ids.len() - i,
    {
        inputs.push(build_project_item_input(project_id, issue_ids[i].as_str()));
        i += 1;
    }
    assert(Seq::new(inputs@.len(), |i: int| inputs@[i]@) =~= Seq::new(
        issue_ids@.len(),
        |i: int| project_item_input(project_id@, issue_ids@[i]@),
    ));
    build_batch(Operation::AddProjectItem, inputs)
}

/// Whether an error of the API says that an issue is in the project
/// already: see [`says_already_in_project`].
pub fn is_already_in_project(error: &str) -> (r: bool)
    ensures
        r == says_already_in_project(error@),
{
    let text = to_lowercase(error);
    contains(text.as_str(), "already in the project") || contains(text.as_str(), "already added")
}

/// What the one attempt to add a single issue came to. `outcome` holds the
/// id of the item as far as the response named one. An error that says the
/// issue is in the project already counts as success, with an empty id.
pub fn add_issue_to_project_result(outcome: Result<Option<String>, String>) -> (result: Result<
    ProjectItemInfo,
    String,
>)
    ensures
        outcome_view(result) == match outcome {
            Ok(Some(id)) => Ok(ProjectItemInfoView { item_id: id@ }),
            Ok(None) => Err("Failed to add issue to project"@),
            Err(error) => if says_already_in_project(error@) {
                Ok(ProjectItemInfoView { item_id: Seq::empty() })
            } else {
                Err(error@)
            },
        },
{
    match outcome {
        Ok(Some(id)) => Ok(ProjectItemInfo { item_id: id }),
        Ok(None) => Err(String::from_str("Failed to add issue to project")),
        Err(error) => {
            if is_already_in_project(error.as_str()) {
                Ok(ProjectItemInfo { item_id: String::new() })
            } else {
                Err(error)
            }
        },
    }
}

/// The outcomes of a batch of `count` additions, in the order of the calls.
///
/// With a response, see [`added_outcome`]. Without one, every issue counts
/// as added, under an empty item id, where the error says that an issue is
/// in the project already; otherwise the batch fails with that error.
pub fn add_issues_to_project_batch_results(outcome: Result<Json, String>, count: usize) -> (results:
    Result<Vec<Result<ProjectItemInfo, String>>, String>)
    ensures
        match outcome {
            Ok(response) => results is Ok && results->Ok_0@.len() == count && forall|i: int|
                0 <= i < count ==> outcome_view(#[trigger] results->Ok_0@[i]) == added_outcome(
                    response@,
                    i as nat,
                ),
            Err(error) => if says_already_in_project(error@) {
                results is Ok && results->Ok_0@.len() == count && forall|i: int|
                    0 <= i < count ==> outcome_view(#[trigger] results->Ok_0@[i]) == Ok::<
                        ProjectItemInfoView,
                        Seq<char>,
                    >(ProjectItemInfoView { item_id: Seq::empty() })
            } else {
                results is Err && results->Err_0@ == error@
            },
        },
{
    match outcome {
        Ok(response) => {
            let mut results: Vec<Result<ProjectItemInfo, String>> = Vec::new();
            let mut i: usize = 0;
            while i < count
                invariant
                    i <= count,
                    results@.len() == i,
                    forall|j: int|
                        0 <= j < i ==> outcome_view(#[trigger] results@[j]) == added_outcome(
                            response@,
                            j as nat,
                        ),
                decreases count - i,
            {
                let key = alias_key_text(Operation::AddProjectItem, i);
                match response.get(key.as_str()) {
                    Some(data) => {
                        let id = match data.get("item") {
                            Some(item) => item.get_str("id"),
                            None => None,
                        };
                        match id {
                            Some(id) => {
                                results.push(Ok(ProjectItemInfo { item_id: String::from_str(id) }));
                            },
                            None => {
                                results.push(Err(String::from_str("No item ID in response")));
                            },
                        }
                    },
                    None => {
                        results.push(Err(String::from_str("Missing response for item")));
                    },
                }
                i += 1;
            }
            Ok(results)
        },
        Err(error) => {
            if is_already_in_project(error.as_str()) {
                let mut results: Vec<Result<ProjectItemInfo, String>> = Vec::new();
                let mut i: usize = 0;
                while i < count
                    invariant
                        i <= count,
                        results@.len() == i,
                        forall|j: int|
                            0 <= j < i ==> outcome_view(#[trigger] results@[j]) == Ok::<
                                ProjectItemInfoView,
                                Seq<char>,
                            >(ProjectItemInfoView { item_id: Seq::empty() }),
                    decreases count - i,
                {
                    results.push(Ok(ProjectItemInfo { item_id: String::new() }));
                    i += 1;
                }
                Ok(results)
            } else {
                Err(error)
            }
        },
    }
}

/// One option of a single-select field.
#[derive(Debug)]
pub struct FieldOption {
    pub id: String,
    pub name: String,
}

/// A named thing with an id: the model of an option and of an iteration.
pub struct NamedView {
    pub id: Seq<char>,
    pub name: Seq<char>,
}

impl View for FieldOption {
    type V = NamedView;

    open spec fn view(&self) -> NamedView {
        NamedView { id: self.id@, name: self.name@ }
    }
}

/// One iteration of an iteration field.
#[derive(Debug)]
pub struct IterationInfo {
    pub id: String,
    pub title: String,
}

impl View for IterationInfo {
    type V = NamedView;

    open spec fn view(&self) -> NamedView {
        NamedView { id: self.id@, name: self.title@ }
    }
}

/// What kind of field a project field is, with what the kind brings.
#[derive(Debug)]
pub enum ProjectFieldType {
    SingleSelect { options: Vec<FieldOption> },
    Iteration { active: Vec<IterationInfo>, completed: Vec<IterationInfo> },
    Other,
}

/// The model of a [`ProjectFieldType`].
pub enum ProjectFieldTypeView {
    SingleSelect { options: Seq<NamedView> },
    Iteration { active: Seq<NamedView>, completed: Seq<NamedView> },
    Other,
}

impl View for ProjectFieldType {
    type V = ProjectFieldTypeView;

    open spec fn view(&self) -> ProjectFieldTypeView {
        match self {
            ProjectFieldType::SingleSelect { options } => ProjectFieldTypeView::SingleSelect {
                options: views(options@),
            },
            ProjectFieldType::Iteration { active, completed } => ProjectFieldTypeView::Iteration {
                active: views(active@),
                completed: views(completed@),
            },
            ProjectFieldType::Other => ProjectFieldTypeView::Other,
        }
    }
}

/// A field of a project.
#[derive(Debug)]
pub struct ProjectFieldInfo {
    pub id: String,
    pub name: String,
    pub field_type: ProjectFieldType,
}

/// The model of a [`ProjectFieldInfo`].
pub struct ProjectFieldInfoView {
    pub id: Seq<char>,
    pub name: Seq<char>,
    pub field_type: ProjectFieldTypeView,
}

impl View for ProjectFieldInfo {
    type V = ProjectFieldInfoView;

    open spec fn view(&self) -> ProjectFieldInfoView {
        ProjectFieldInfoView { id: self.id@, name: self.name@, field_type: self.field_type@ }
    }
}

/// The index of the first item whose name is `name` when case is ignored,
/// or the number of items.
pub open spec fn first_named(items: Seq<NamedView>, name: Seq<char>) -> int {
    first_where(items, |item: NamedView| lowercase(item.name) == lowercase(name))
}

/// The index of the first field whose name is `name` when case is ignored,
/// or the number of fields.
pub open spec fn first_field(fields: Seq<ProjectFieldInfoView>, name: Seq<char>) -> int {
    first_where(fields, |field: ProjectFieldInfoView| lowercase(field.name) == lowercase(name))
}

/// The index of the first option with the given name: see [`first_named`].
pub fn find_option(options: &[FieldOption], name: &str) -> (at: usize)
    ensures
        at == first_named(views(options@), name@),
        at <= options@.len(),
{
    let wanted = to_lowercase(name);
    let ghost models = views(options@);
    let mut i: usize = 0;
    while i < options.len()
        invariant
            i <= options.len(),
            models == views(options@),
            wanted@ == lowercase(name@),
            forall|j: int| 0 <= j < i ==> lowercase(models[j].name) != lowercase(name@),
        decreases options.len() - i,
    {
        let candidate = to_lowercase(options[i].name.as_str());
        assert(models[i as int] == options@[i as int]@);
        if candidate == wanted {
            proof {
                lemma_first_where(
                    models,
                    |item: NamedView| lowercase(item.name) == lowercase(name@),
                    i as int,
                );
            }
            return i;
        }
        i += 1;
    }
    proof {
        lemma_first_where(
            models,
            |item: NamedView| lowercase(item.name) == lowercase(name@),
            i as int,
        );
    }
    i
}

/// The index of the first iteration with the given title: see
/// [`first_named`].
pub fn find_iteration(iterations: &[IterationInfo], title: &str) -> (at: usize)
    ensures
        at == first_named(views(iterations@), title@),
        at <= iterations@.len(),
{
    let wanted = to_lowercase(title);
    let ghost models = views(iterations@);
    let mut i: usize = 0;
    while i < iterations.len()
        invariant
            i <= iterations.len(),
            models == views(iterations@),
            wanted@ == lowercase(title@),
            forall|j: int| 0 <= j < i ==> lowercase(models[j].name) != lowercase(title@),
        decreases iterations.len() - i,
    {
        let candidate = to_lowercase(iterations[i].title.as_str());
        assert(models[i as int] == iterations@[i as int]@);
        if candidate == wanted {
            proof {
                lemma_first_where(
                    models,
                    |item: NamedView| lowercase(item.name) == lowercase(title@),
                    i as int,
                );
            }
            return i;
        }
        i += 1;
    }
    proof {
        lemma_first_where(
            models,
            |item: NamedView| lowercase(item.name) == lowercase(title@),
            i as int,
        );
    }
    i
}

/// The index of the first field with the given name: see [`first_field`].
pub fn find_field(fields: &[ProjectFieldInfo], name: &str) -> (at: usize)
    ensures
        at == first_field(views(fields@), name@),
        at <= fields@.len(),
{
    let wanted = to_lowercase(name);
    let ghost models = views(fields@);
    let mut i: usize = 0;
    while i < fields.len()
        invariant
            i <= fields.len(),
            models == views(fields@),
            wanted@ == lowercase(name@),
            forall|j: int| 0 <= j < i ==> lowercase(models[j].name) != lowercase(name@),
        decreases fields.len() - i,
    {
        let candidate = to_lowercase(fields[i].name.as_str());
        assert(models[i as int] == fields@[i as int]@);
        if candidate == wanted {
            proof {
                lemma_first_where(
                    models,
                    |field: ProjectFieldInfoView| lowercase(field.name) == lowercase(name@),
                    i as int,
                );
            }
            return i;
        }
        i += 1;
    }
    proof {
        lemma_first_where(
            models,
            |field: ProjectFieldInfoView| lowercase(field.name) == lowercase(name@),
            i as int,
        );
    }
    i
}

} // verus!
