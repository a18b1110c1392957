//! The settings of a synchronisation: the repository, the mapping of ticket
//! types, the handling of labels, and the project fields to fill.

use crate::name_map::NameMap;
use crate::text::{chars_of, extend_str, option_view, string_of};
use vstd::prelude::*;
use vstd::string::StrSliceExecFns;

verus! {

/// All settings.
pub struct Config {
    pub github: GitHubConfig,
    pub mapping: MappingConfig,
    pub labels: LabelsConfig,
    pub project: ProjectConfig,
}

/// The repository and what belongs to it.
pub struct GitHubConfig {
    /// The repository, as `owner/repo`.
    pub repo: String,
    /// The name or number of the project that new issues are added to.
    pub project: Option<String>,
    /// The user that new issues are assigned to.
    pub assignee: Option<String>,
}

/// The model of a [`GitHubConfig`].
pub struct GitHubConfigView {
    pub repo: Seq<char>,
    pub project: Option<Seq<char>>,
    pub assignee: Option<Seq<char>>,
}

impl View for GitHubConfig {
    type V = GitHubConfigView;

    open spec fn view(&self) -> GitHubConfigView {
        GitHubConfigView {
            repo: self.repo@,
            project: option_view(self.project),
            assignee: option_view(self.assignee),
        }
    }
}

/// How ticket types are mapped to issue types.
pub struct MappingConfig {
    /// The name of the project field for the ticket type.
    pub type_field: String,
    /// From ticket type to the name of the issue type.
    pub type_map: NameMap<String>,
}

/// How tags are turned into labels.
pub struct LabelsConfig {
    /// Whether tags become labels at all.
    pub sync_tags: bool,
    /// Whether a label that the repository lacks is created.
    pub create_missing: bool,
}

/// Which project fields are filled, and from what.
pub struct ProjectConfig {
    /// The name of the single-select field for the ticket status.
    pub status_field: String,
    /// From ticket status to the name of the option of the status field.
    pub status: NameMap<String>,
    /// The name of the iteration field.
    pub iteration_field: String,
    /// The title of the iteration to put new items in, or `@current` for the
    /// first active one.
    pub iteration: Option<String>,
}

/// The default name of the project field for the ticket type.
pub fn default_type_field() -> (name: String)
    ensures
        name@ == "Type"@,
{
    String::from_str("Type")
}

/// The default of both label settings.
pub fn default_true() -> (flag: bool)
    ensures
        flag,
{
    true
}

/// The default name of the status field.
pub fn default_status_field() -> (name: String)
    ensures
        name@ == "Status"@,
{
    String::from_str("Status")
}

/// The default name of the iteration field.
pub fn default_iteration_field() -> (name: String)
    ensures
        name@ == "Iteration"@,
{
    String::from_str("Iteration")
}

impl Default for MappingConfig {
    fn default() -> (config: Self)
        ensures
            config.type_field@ == "Type"@,
            config.type_map.pairs().len() == 0,
    {
        MappingConfig { type_field: default_type_field(), type_map: NameMap::new() }
    }
}

impl Default for LabelsConfig {
    fn default() -> (config: Self)
        ensures
            config.sync_tags,
            config.create_missing,
    {
        LabelsConfig { sync_tags: true, create_missing: true }
    }
}

impl Default for ProjectConfig {
    fn default() -> (config: Self)
        ensures
            config.status_field@ == "Status"@,
            config.status.pairs().len() == 0,
            config.iteration_field@ == "Iteration"@,
            config.iteration is None,
    {
        ProjectConfig {
            status_field: default_status_field(),
            status: NameMap::new(),
            iteration_field: default_iteration_field(),
            iteration: None,
        }
    }
}

/// How often `c` occurs in `s`.
pub open spec fn count_of(s: Seq<char>, c: char) -> nat
    decreases s.len(),
{
    if s.len() == 0 {
        0
    } else {
        count_of(s.drop_last(), c) + if s.last() == c {
            1nat
        } else {
            0nat
        }
    }
}

/// The index of the first `c` in `s`, or the length of `s`.
pub open spec fn first_of(s: Seq<char>, c: char) -> int
    decreases s.len(),
{
    if s.len() == 0 {
        0
    } else if s[0] == c {
        0
    } else {
        1 + first_of(s.drop_first(), c)
    }
}

/// The owner and the name in `owner/repo`: the texts before and after the
/// slash, where there is exactly one slash.
pub open spec fn repo_parts_of(repo: Seq<char>) -> Option<(Seq<char>, Seq<char>)> {
    if count_of(repo, '/') == 1 {
        let at = first_of(repo, '/');
        Some((repo.take(at), repo.skip(at + 1)))
    } else {
        None
    }
}

/// The message for a repository that is not of the form `owner/repo`.
pub open spec fn invalid_repo_message(repo: Seq<char>) -> Seq<char> {
    "Invalid repo format '"@ + repo + "'. Expected 'owner/repo'"@
}

/// Counting over a longer text counts at least as much, and one more at
/// each further occurrence.
proof fn lemma_count_step(s: Seq<char>, c: char, i: int)
    requires
        0 <= i < s.len(),
    ensures
        count_of(s.take(i + 1), c) == count_of(s.take(i), c) + if s[i] == c {
            1nat
        } else {
            0nat
        },
{
    assert(s.take(i + 1).drop_last() =~= s.take(i));
}

/// Where the first `i` characters are not `c` and character `i` is, `i` is
/// the index that `first_of` gives.
proof fn lemma_first_of(s: Seq<char>, c: char, i: int)
    requires
        0 <= i <= s.len(),
        forall|j: int| 0 <= j < i ==> s[j] != c,
        i < s.len() ==> s[i] == c,
    ensures
        first_of(s, c) == i,
    decreases i,
{
    if i > 0 {
        let rest = s.drop_first();
        assert(s[0] != c);
        assert forall|j: int| 0 <= j < i - 1 implies rest[j] != c by {
            assert(rest[j] == s[j + 1]);
        }
        if i < s.len() {
            assert(rest[i - 1] == s[i]);
        }
        lemma_first_of(rest, c, i - 1);
    }
}

impl GitHubConfig {
    /// The owner and the name of the repository, or the message that says
    /// why `repo` does not name one: see [`repo_parts_of`].
    pub fn repo_parts(&self) -> (parts: Result<(&str, &str), String>)
        ensures
            match parts {
                Ok((owner, name)) => repo_parts_of(self.repo@) == Some((owner@, name@)),
                Err(message) => repo_parts_of(self.repo@) is None && message@
                    == invalid_repo_message(self.repo@),
            },
    {
        let text = chars_of(self.repo.as_str());
        let mut slashes: usize = 0;
        let mut first: usize = text.len();
        let mut i: usize = 0;
        while i < text.len()
            invariant
                i <= text.len(),
                text@ == self.repo@,
                slashes == count_of(text@.take(i as int), '/'),
                slashes <= i,
                slashes == 0 ==> first == text.len(),
                slashes > 0 ==> first < i && text@[first as int] == '/',
                forall|j: int| 0 <= j < i && j < first ==> text@[j] != '/',
            decreases text.len() - i,
        {
            proof {
                lemma_count_step(text@, '/', i as int);
            }
            if text[i] == '/' {
                if slashes == 0 {
                    first = i;
                }
                slashes += 1;
            }
            i += 1;
        }
        assert(text@.take(text@.len() as int) == text@);
        if slashes == 1 {
            proof {
                lemma_first_of(text@, '/', first as int);
            }
            let repo = self.repo.as_str();
            let owner = repo.substring_char(0, first);
            let name = repo.substring_char(first + 1, text.len());
            assert(self.repo@.subrange(0, first as int) == self.repo@.take(first as int));
            assert(self.repo@.subrange(first + 1, text@.len() as int) == self.repo@.skip(
                first + 1,
            ));
            Ok((owner, name))
        } else {
            let mut buf: Vec<char> = Vec::new();
            extend_str(&mut buf, "Invalid repo format '");
            extend_str(&mut buf, self.repo.as_str());
            extend_str(&mut buf, "'. Expected 'owner/repo'");
            Err(string_of(buf.as_slice()))
        }
    }
}

} // verus!
