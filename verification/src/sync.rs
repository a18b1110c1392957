//! Issue bodies and their identity marker, issue-type resolution, and the
//! outcome of synchronising one ticket.

pub mod create;
pub mod engine;
pub mod fields;
pub mod labels;
pub mod links;
pub mod phases;
pub mod plan;
pub mod project;
pub mod results;
pub mod update;

use crate::decimal::{decimal, decimal_chars};
use crate::github::issues::ExistingIssue;
use crate::name_map::{lemma_lookup_text, lookup_in, text_pairs, NameMap};
use crate::seqs::{first_where, lemma_first_where};
use crate::text::{
    chars_of, contains_sub, extend_from, extend_str, find, has_prefix, index_of,
    is_first_occurrence, join, lemma_first_occurrence_is_index, lemma_index_of_is_first,
    lemma_join_push, lowercase, occurs_at, option_view, quote_list, quoted_list, string_of,
    to_lowercase, views,
};
use crate::ticket::{github_number, Ticket, TicketView};
use std::collections::HashMap;
use vstd::prelude::*;
use vstd::string::StrSliceExecFns;

verus! {

/// The text that opens an identity marker.
pub open spec fn marker_open() -> Seq<char> {
    "<!-- ticket:"@
}

/// The text that closes an identity marker.
pub open spec fn marker_close() -> Seq<char> {
    " -->"@
}

/// The separator line between the parts of an issue body.
pub open spec fn section_rule() -> Seq<char> {
    "\n\n---\n"@
}

/// The identity marker of the ticket with the given id.
pub open spec fn marker(id: Seq<char>) -> Seq<char> {
    marker_open() + id + marker_close()
}

/// The attribution line that ends every issue body.
pub open spec fn footer(id: Seq<char>) -> Seq<char> {
    "<sub>Synced from ticket `"@ + id + "`</sub>"@
}

/// How one dependency is referred to: by issue number where the index knows
/// the ticket, by its quoted id otherwise.
pub open spec fn dependency_ref(dep: Seq<char>, index: Seq<(Seq<char>, u64)>) -> Seq<char> {
    match lookup_in(index, dep) {
        Some(number) => "#"@ + decimal(number as nat),
        None => "`"@ + dep + "` (not synced)"@,
    }
}

/// The references to all dependencies, in order.
pub open spec fn dependency_refs(deps: Seq<Seq<char>>, index: Seq<(Seq<char>, u64)>) -> Seq<
    Seq<char>,
> {
    Seq::new(deps.len(), |i: int| dependency_ref(deps[i], index))
}

/// The line that lists the dependencies of a ticket.
pub open spec fn dependencies_section(deps: Seq<Seq<char>>, index: Seq<(Seq<char>, u64)>) -> Seq<
    char,
> {
    "**Depends on:** "@ + join(dependency_refs(deps, index), ", "@)
}

/// The body of the issue for a ticket: marker, blank line, the ticket's own
/// text, the dependencies where there are any, and the footer.
pub open spec fn issue_body(
    id: Seq<char>,
    body: Seq<char>,
    deps: Seq<Seq<char>>,
    index: Seq<(Seq<char>, u64)>,
) -> Seq<char> {
    let head = marker(id) + "\n\n"@ + body;
    let middle = if deps.len() > 0 {
        section_rule() + dependencies_section(deps, index)
    } else {
        Seq::empty()
    };
    head + middle + section_rule() + footer(id)
}

/// The id inside the first identity marker of an issue body: the text
/// between the first marker opening and the first marker closing after it.
pub open spec fn marker_id(body: Seq<char>) -> Option<Seq<char>> {
    match index_of(body, marker_open()) {
        None => None,
        Some(start) => {
            let rest = body.skip(start + marker_open().len());
            match index_of(rest, marker_close()) {
                None => None,
                Some(end) => Some(rest.take(end)),
            }
        },
    }
}

/// The body of an issue for a ticket without dependencies.
pub fn format_issue_body(ticket_id: &str, ticket_body: &str) -> (out: String)
    ensures
        out@ == issue_body(ticket_id@, ticket_body@, Seq::empty(), Seq::empty()),
        out@ == marker(ticket_id@) + "\n\n"@ + ticket_body@ + section_rule() + footer(ticket_id@),
        has_prefix(out@, marker(ticket_id@)),
{
    let deps: Vec<String> = Vec::new();
    let index: NameMap<u64> = NameMap::new();
    let out = format_issue_body_with_deps(ticket_id, ticket_body, deps.as_slice(), &index);
    proof {
        assert(views(deps@) =~= Seq::<Seq<char>>::empty());
        lemma_body_without_dependencies(ticket_id@, ticket_body@, Seq::empty());
    }
    out
}

/// The body of an issue for a ticket: see [`issue_body`]. `ticket_to_issue`
/// maps the ids of synced tickets to their issue numbers.
pub fn format_issue_body_with_deps(
    ticket_id: &str,
    ticket_body: &str,
    deps: &[String],
    ticket_to_issue: &NameMap<u64>,
) -> (out: String)
    ensures
        out@ == issue_body(ticket_id@, ticket_body@, views(deps@), ticket_to_issue.pairs()),
        has_prefix(out@, marker(ticket_id@)),
{
    let mut buf: Vec<char> = Vec::new();
    extend_str(&mut buf, "<!-- ticket:");
    extend_str(&mut buf, ticket_id);
    extend_str(&mut buf, " -->");
    extend_str(&mut buf, "\n\n");
    extend_str(&mut buf, ticket_body);
    if deps.len() > 0 {
        extend_str(&mut buf, "\n\n---\n");
        let section = format_dependencies_section(deps, ticket_to_issue);
        extend_str(&mut buf, section.as_str());
    }
    extend_str(&mut buf, "\n\n---\n");
    extend_str(&mut buf, "<sub>Synced from ticket `");
    extend_str(&mut buf, ticket_id);
    extend_str(&mut buf, "`</sub>");
    proof {
        let want = issue_body(ticket_id@, ticket_body@, views(deps@), ticket_to_issue.pairs());
        assert(buf@ =~= want);
        lemma_body_starts_with_marker(
            ticket_id@,
            ticket_body@,
            views(deps@),
            ticket_to_issue.pairs(),
        );
    }
    string_of(buf.as_slice())
}

/// The line that lists the dependencies: see [`dependencies_section`].
pub fn format_dependencies_section(deps: &[String], ticket_to_issue: &NameMap<u64>) -> (out: String)
    ensures
        out@ == dependencies_section(views(deps@), ticket_to_issue.pairs()),
{
    let ghost index = ticket_to_issue.pairs();
    let ghost refs = dependency_refs(views(deps@), index);
    let mut buf: Vec<char> = Vec::new();
    extend_str(&mut buf, "**Depends on:** ");
    let mut i: usize = 0;
    while i < deps.len()
        invariant
            i <= deps.len(),
            index == ticket_to_issue.pairs(),
            refs == dependency_refs(views(deps@), index),
            buf@ == "**Depends on:** "@ + join(refs.take(i as int), ", "@),
        decreases deps.len() - i,
    {
        if i > 0 {
            extend_str(&mut buf, ", ");
        }
        match ticket_to_issue.get(deps[i].as_str()) {
            Some(number) => {
                extend_str(&mut buf, "#");
                let digits = decimal_chars(*number);
                extend_from(&mut buf, digits.as_slice(), 0, digits.len());
                assert(digits@.subrange(0, digits@.len() as int) == digits@);
            },
            None => {
                extend_str(&mut buf, "`");
                extend_str(&mut buf, deps[i].as_str());
                extend_str(&mut buf, "` (not synced)");
            },
        }
        proof {
            let done = refs.take(i as int);
            assert(views(deps@)[i as int] == deps@[i as int]@);
            assert(refs[i as int] == dependency_ref(deps@[i as int]@, index));
            lemma_join_push(done, ", "@, refs[i as int]);
            assert(refs.take(i + 1) == done.push(refs[i as int]));
            assert(buf@ =~= "**Depends on:** "@ + join(refs.take(i + 1), ", "@));
        }
        i += 1;
    }
    assert(refs.take(refs.len() as int) == refs);
    string_of(buf.as_slice())
}

/// The ticket id in the first identity marker of `body`, wherever in the
/// body the marker stands: see [`marker_id`].
pub fn extract_ticket_marker(body: &str) -> (id: Option<&str>)
    ensures
        match id {
            Some(found) => marker_id(body@) == Some(found@),
            None => marker_id(body@) is None,
        },
{
    let text = chars_of(body);
    let open = chars_of("<!-- ticket:");
    let close = chars_of(" -->");
    let start = match find(text.as_slice(), open.as_slice()) {
        Some(at) => at,
        None => {
            return None;
        },
    };
    proof {
        lemma_index_of_is_first(text@, open@);
        assert(occurs_at(text@, open@, start as int));
    }
    let total = text.len();
    let from = start + open.len();
    let mut rest: Vec<char> = Vec::new();
    extend_from(&mut rest, text.as_slice(), from, total);
    assert(rest@ =~= body@.skip(start + marker_open().len()));
    let end = match find(rest.as_slice(), close.as_slice()) {
        Some(at) => at,
        None => {
            return None;
        },
    };
    proof {
        lemma_index_of_is_first(rest@, close@);
        assert(occurs_at(rest@, close@, end as int));
        assert(body@.subrange(from as int, from + end) =~= rest@.take(end as int));
    }
    Some(body.substring_char(from, from + end))
}

/// Every issue body begins with the marker of its own ticket.
pub proof fn lemma_body_starts_with_marker(
    id: Seq<char>,
    body: Seq<char>,
    deps: Seq<Seq<char>>,
    index: Seq<(Seq<char>, u64)>,
)
    ensures
        has_prefix(issue_body(id, body, deps, index), marker(id)),
{
    let whole = issue_body(id, body, deps, index);
    assert(whole.subrange(0, marker(id).len() as int) =~= marker(id));
}

/// A ticket without dependencies gets a body of marker, text and footer, with
/// no dependencies line between them.
pub proof fn lemma_body_without_dependencies(
    id: Seq<char>,
    body: Seq<char>,
    index: Seq<(Seq<char>, u64)>,
)
    ensures
        issue_body(id, body, Seq::empty(), index) == marker(id) + "\n\n"@ + body + section_rule()
            + footer(id),
{
    assert(issue_body(id, body, Seq::empty(), index) =~= marker(id) + "\n\n"@ + body
        + section_rule() + footer(id));
}

/// Every issue body ends with the footer of its own ticket, whatever its
/// dependencies are.
pub proof fn lemma_body_ends_with_footer(
    id: Seq<char>,
    body: Seq<char>,
    deps: Seq<Seq<char>>,
    index: Seq<(Seq<char>, u64)>,
)
    ensures
        ({
            let whole = issue_body(id, body, deps, index);
            &&& whole.len() >= footer(id).len()
            &&& whole.subrange(whole.len() - footer(id).len(), whole.len() as int) == footer(id)
        }),
{
    let whole = issue_body(id, body, deps, index);
    assert(whole.subrange(whole.len() - footer(id).len(), whole.len() as int) =~= footer(id));
}

/// Of two dependencies of which only the first is synced, the first is
/// listed by its issue number and the second by its id.
pub proof fn lemma_synced_and_unsynced_dependency(a: Seq<char>, b: Seq<char>, number: u64)
    requires
        a != b,
    ensures
        dependencies_section(seq![a, b], seq![(a, number)]) == "**Depends on:** "@ + ("#"@
            + decimal(number as nat)) + ", "@ + ("`"@ + b + "` (not synced)"@),
{
    let index = seq![(a, number)];
    let deps = seq![a, b];
    let refs = dependency_refs(deps, index);
    assert(index.drop_first().len() == 0);
    assert(lookup_in(index, a) == Some(number));
    assert(lookup_in(index.drop_first(), b) is None);
    assert(lookup_in(index, b) is None);
    assert(refs[0] == "#"@ + decimal(number as nat));
    assert(refs[1] == "`"@ + b + "` (not synced)"@);
    assert(refs.drop_last().len() == 1);
    assert(refs.drop_last()[0] == refs[0]);
    assert(join(refs.drop_last(), ", "@) == refs[0]);
    assert(join(refs, ", "@) == refs[0] + ", "@ + refs[1]);
    assert(dependencies_section(deps, index) =~= "**Depends on:** "@ + ("#"@ + decimal(
        number as nat,
    )) + ", "@ + ("`"@ + b + "` (not synced)"@));
}

/// Reading the marker back from a body gives the ticket id, for
/// every id that does not itself hold the text that closes a marker.
pub proof fn lemma_marker_round_trip(
    id: Seq<char>,
    body: Seq<char>,
    deps: Seq<Seq<char>>,
    index: Seq<(Seq<char>, u64)>,
)
    requires
        !contains_sub(id, marker_close()),
    ensures
        marker_id(issue_body(id, body, deps, index)) == Some(id),
{
    reveal_strlit("<!-- ticket:");
    reveal_strlit(" -->");
    let whole = issue_body(id, body, deps, index);
    let open = marker_open();
    let close = marker_close();
    assert(whole.subrange(0, open.len() as int) =~= open);
    assert(is_first_occurrence(whole, open, 0));
    lemma_first_occurrence_is_index(whole, open, 0);
    let rest = whole.skip(open.len() as int);
    let tail = rest.skip((id.len() + close.len()) as int);
    assert(rest =~= id + close + tail);
    let at = id.len() as int;
    assert(rest.subrange(at, at + close.len()) =~= close);
    assert forall|j: int| 0 <= j < at implies !occurs_at(rest, close, j) by {
        if occurs_at(rest, close, j) {
            let window = rest.subrange(j, j + close.len());
            assert(window == close);
            if j + close.len() <= at {
                assert(id.subrange(j, j + close.len()) =~= window);
                assert(occurs_at(id, close, j));
            } else {
                // The window reaches into the closing text that follows the
                // id, so one of its later characters would have to be the
                // space that the closing text starts with.
                let k = at - j;
                assert(window[k] == rest[at]);
                assert(rest[at] == close[0]);
                assert(window[k] == close[k]);
            }
        }
    }
    assert(is_first_occurrence(rest, close, at));
    lemma_first_occurrence_is_index(rest, close, at);
    assert(rest.take(at) =~= id);
}

/// The id of the issue type for a ticket type: none where the repository
/// has no issue types at all, none where the ticket type is not mapped, and
/// else what the cache holds for the mapped name in lower case.
pub open spec fn issue_type_for(
    ticket_type: Seq<char>,
    type_map: Seq<(Seq<char>, Seq<char>)>,
    cache: Seq<(Seq<char>, Seq<char>)>,
) -> Option<Seq<char>> {
    if cache.len() == 0 {
        None
    } else {
        match lookup_in(type_map, ticket_type) {
            None => None,
            Some(github_type) => lookup_in(cache, lowercase(github_type)),
        }
    }
}

/// The index of the first pair of the mapping that names an issue type
/// which the cache lacks, in lower case, or the number of pairs.
pub open spec fn first_dangling(
    type_map: Seq<(Seq<char>, Seq<char>)>,
    cache: Seq<(Seq<char>, Seq<char>)>,
) -> int {
    first_where(
        type_map,
        |pair: (Seq<char>, Seq<char>)| lookup_in(cache, lowercase(pair.1)) is None,
    )
}

/// The keys of the pairs, in order.
pub open spec fn keys_of<V>(pairs: Seq<(Seq<char>, V)>) -> Seq<Seq<char>> {
    Seq::new(pairs.len(), |i: int| pairs[i].0)
}

/// The message for a ticket type that is mapped to an issue type which the
/// repository does not have.
pub open spec fn mapping_error(
    ticket_type: Seq<char>,
    github_type: Seq<char>,
    available: Seq<Seq<char>>,
) -> Seq<char> {
    "Issue type mapping error: '"@ + ticket_type + "' -> '"@ + github_type
        + "' not found.\nAvailable issue types: "@ + quoted_list(available)
}

/// What is wrong with the mapping of ticket types, if anything.
///
/// Nothing is wrong where the repository has no issue types. Otherwise the
/// first pair of the mapping whose issue type the cache lacks is reported,
/// with the names of all the types there are.
pub open spec fn mapping_failure(
    type_map: Seq<(Seq<char>, Seq<char>)>,
    cache: Seq<(Seq<char>, Seq<char>)>,
) -> Option<Seq<char>> {
    let k = first_dangling(type_map, cache);
    if cache.len() > 0 && 0 <= k < type_map.len() {
        Some(mapping_error(type_map[k].0, type_map[k].1, keys_of(cache)))
    } else {
        None
    }
}

/// Without issue types in the repository, no ticket type has one, whatever
/// the mapping says.
pub proof fn lemma_no_issue_types_no_type(ticket_type: Seq<char>, type_map: Seq<(Seq<char>, Seq<char>)>)
    ensures
        issue_type_for(ticket_type, type_map, Seq::empty()) is None,
{
}

/// Nothing is wrong with the mapping where the repository has no issue
/// types, and where nothing is mapped.
pub proof fn lemma_nothing_to_validate(
    type_map: Seq<(Seq<char>, Seq<char>)>,
    cache: Seq<(Seq<char>, Seq<char>)>,
)
    requires
        cache.len() == 0 || type_map.len() == 0,
    ensures
        mapping_failure(type_map, cache) is None,
{
}

/// The id of the issue type for a ticket type: see [`issue_type_for`].
pub fn resolve_issue_type(
    ticket_type: &str,
    type_map: &NameMap<String>,
    issue_type_cache: &NameMap<String>,
) -> (id: Option<String>)
    ensures
        option_view(id) == issue_type_for(
            ticket_type@,
            text_pairs(type_map.pairs()),
            text_pairs(issue_type_cache.pairs()),
        ),
        issue_type_cache.pairs().len() == 0 ==> id is None,
{
    if issue_type_cache.is_empty() {
        return None;
    }
    proof {
        lemma_lookup_text(type_map.pairs(), ticket_type@);
    }
    let github_type = match type_map.get(ticket_type) {
        Some(name) => name,
        None => {
            return None;
        },
    };
    let key = to_lowercase(github_type.as_str());
    proof {
        lemma_lookup_text(issue_type_cache.pairs(), key@);
    }
    match issue_type_cache.get(key.as_str()) {
        Some(id) => Some(id.clone()),
        None => None,
    }
}

/// Checks that every mapped issue type exists: see [`mapping_failure`].
pub fn validate_issue_type_mappings(
    type_map: &NameMap<String>,
    issue_type_cache: &NameMap<String>,
) -> (checked: Result<(), String>)
    ensures
        match checked {
            Ok(_) => mapping_failure(
                text_pairs(type_map.pairs()),
                text_pairs(issue_type_cache.pairs()),
            ) is None,
            Err(message) => mapping_failure(
                text_pairs(type_map.pairs()),
                text_pairs(issue_type_cache.pairs()),
            ) == Some(message@),
        },
        issue_type_cache.pairs().len() == 0 || type_map.pairs().len() == 0 ==> checked is Ok,
{
    if issue_type_cache.is_empty() {
        return Ok(());
    }
    if type_map.is_empty() {
        return Ok(());
    }
    let ghost mapping = text_pairs(type_map.pairs());
    let ghost cache = text_pairs(issue_type_cache.pairs());
    let n = type_map.len();
    let mut i: usize = 0;
    while i < n
        invariant
            i <= n,
            n == type_map.pairs().len(),
            mapping == text_pairs(type_map.pairs()),
            cache == text_pairs(issue_type_cache.pairs()),
            cache.len() > 0,
            forall|j: int| 0 <= j < i ==> lookup_in(cache, lowercase(mapping[j].1)) is Some,
        decreases n - i,
    {
        let ticket_type = type_map.key_at(i);
        let github_type = type_map.value_at(i);
        let key = to_lowercase(github_type.as_str());
        proof {
            lemma_lookup_text(issue_type_cache.pairs(), key@);
            assert(mapping[i as int] == (ticket_type@, github_type@));
        }
        if !issue_type_cache.contains_key(key.as_str()) {
            let available = issue_type_cache.keys();
            assert(views(available@) =~= keys_of(cache));
            let listed = quote_list(available.as_slice());
            let mut buf: Vec<char> = Vec::new();
            extend_str(&mut buf, "Issue type mapping error: '");
            extend_str(&mut buf, ticket_type.as_str());
            extend_str(&mut buf, "' -> '");
            extend_str(&mut buf, github_type.as_str());
            extend_str(&mut buf, "' not found.\nAvailable issue types: ");
            extend_str(&mut buf, listed.as_str());
            proof {
                lemma_first_where(
                    mapping,
                    |pair: (Seq<char>, Seq<char>)| lookup_in(cache, lowercase(pair.1)) is None,
                    i as int,
                );
                assert(keys_of(cache) =~= keys_of(issue_type_cache.pairs()));
            }
            return Err(string_of(buf.as_slice()));
        }
        i += 1;
    }
    proof {
        lemma_first_where(
            mapping,
            |pair: (Seq<char>, Seq<char>)| lookup_in(cache, lowercase(pair.1)) is None,
            n as int,
        );
    }
    Ok(())
}

/// What synchronising one ticket came to.
#[derive(Debug)]
pub enum SyncResult {
    Created { issue_id: String, issue_number: u64, url: String },
    Updated { issue_number: u64 },
    Skipped { reason: String },
    Failed { error: String },
}

/// The model of a [`SyncResult`].
pub enum SyncResultView {
    Created { issue_id: Seq<char>, issue_number: u64, url: Seq<char> },
    Updated { issue_number: u64 },
    Skipped { reason: Seq<char> },
    Failed { error: Seq<char> },
}

impl View for SyncResult {
    type V = SyncResultView;

    open spec fn view(&self) -> SyncResultView {
        match self {
            SyncResult::Created { issue_id, issue_number, url } => SyncResultView::Created {
                issue_id: issue_id@,
                issue_number: *issue_number,
                url: url@,
            },
            SyncResult::Updated { issue_number } => SyncResultView::Updated {
                issue_number: *issue_number,
            },
            SyncResult::Skipped { reason } => SyncResultView::Skipped { reason: reason@ },
            SyncResult::Failed { error } => SyncResultView::Failed { error: error@ },
        }
    }
}

impl Clone for SyncResult {
    fn clone(&self) -> (out: Self)
        ensures
            out@ == self@,
    {
        match self {
            SyncResult::Created { issue_id, issue_number, url } => SyncResult::Created {
                issue_id: issue_id.clone(),
                issue_number: *issue_number,
                url: url.clone(),
            },
            SyncResult::Updated { issue_number } => SyncResult::Updated {
                issue_number: *issue_number,
            },
            SyncResult::Skipped { reason } => SyncResult::Skipped { reason: reason.clone() },
            SyncResult::Failed { error } => SyncResult::Failed { error: error.clone() },
        }
    }
}

/// How many tickets came to each kind of result.
#[derive(Debug, Clone, Copy, PartialEq, Eq, Structural)]
pub struct SyncSummary {
    pub created: u32,
    pub updated: u32,
    pub skipped: u32,
    pub failed: u32,
}

impl Default for SyncSummary {
    fn default() -> (summary: Self)
        ensures
            summary == (SyncSummary { created: 0, updated: 0, skipped: 0, failed: 0 }),
    {
        SyncSummary { created: 0, updated: 0, skipped: 0, failed: 0 }
    }
}

/// What comparing a synced ticket with its issue came to.
#[derive(Debug)]
pub enum UpdateCheck {
    /// Title, body and state are as they should be.
    NoChanges,
    /// The issue is not the ticket's to change.
    Conflict(String),
    /// The issue cannot be compared.
    Error(String),
    /// The issue differs from what the ticket asks for.
    NeedsUpdate {
        issue_id: String,
        issue_number: u64,
        title: String,
        body: String,
        needs_close: bool,
        needs_reopen: bool,
    },
}

/// The model of an [`UpdateCheck`].
pub enum UpdateCheckView {
    NoChanges,
    Conflict(Seq<char>),
    Error(Seq<char>),
    NeedsUpdate {
        issue_id: Seq<char>,
        issue_number: u64,
        title: Seq<char>,
        body: Seq<char>,
        needs_close: bool,
        needs_reopen: bool,
    },
}

impl View for UpdateCheck {
    type V = UpdateCheckView;

    open spec fn view(&self) -> UpdateCheckView {
        match self {
            UpdateCheck::NoChanges => UpdateCheckView::NoChanges,
            UpdateCheck::Conflict(reason) => UpdateCheckView::Conflict(reason@),
            UpdateCheck::Error(error) => UpdateCheckView::Error(error@),
            UpdateCheck::NeedsUpdate {
                issue_id,
                issue_number,
                title,
                body,
                needs_close,
                needs_reopen,
            } => UpdateCheckView::NeedsUpdate {
                issue_id: issue_id@,
                issue_number: *issue_number,
                title: title@,
                body: body@,
                needs_close: *needs_close,
                needs_reopen: *needs_reopen,
            },
        }
    }
}

/// The message for a ticket whose issue was not among those fetched.
pub open spec fn issue_not_found(number: u64) -> Seq<char> {
    "Issue #"@ + decimal(number as nat) + " not found"@
}

/// What comparing a ticket with the issues that were fetched comes to.
///
/// A reference without an issue number is a conflict. An issue that was
/// not fetched is an error. An issue whose body lacks the marker of the
/// ticket is a conflict. Otherwise title, body and state are compared, and
/// where any differs the issue needs an update, which closes it where the
/// ticket is closed and the issue is not, and reopens it in the opposite
/// case.
pub open spec fn update_check(
    ticket: TicketView,
    existing: Map<u64, ExistingIssue>,
    index: Seq<(Seq<char>, u64)>,
) -> UpdateCheckView {
    match github_number(ticket.external_ref) {
        None => UpdateCheckView::Conflict("invalid external-ref"@),
        Some(number) => if !existing.contains_key(number) {
            UpdateCheckView::Error(issue_not_found(number))
        } else {
            let issue = existing[number]@;
            if !contains_sub(issue.body, marker(ticket.id)) {
                UpdateCheckView::Conflict("issue modified outside ttr"@)
            } else {
                let body = issue_body(ticket.id, ticket.body, ticket.deps, index);
                let should_be_closed = ticket.status == "closed"@;
                let is_closed = issue.state == "CLOSED"@;
                if issue.title == ticket.title && issue.body == body && should_be_closed
                    == is_closed {
                    UpdateCheckView::NoChanges
                } else {
                    UpdateCheckView::NeedsUpdate {
                        issue_id: issue.id,
                        issue_number: number,
                        title: ticket.title,
                        body,
                        needs_close: should_be_closed && !is_closed,
                        needs_reopen: !should_be_closed && is_closed,
                    }
                }
            }
        },
    }
}

/// No update both closes and reopens an issue.
pub proof fn lemma_close_excludes_reopen(
    ticket: TicketView,
    existing: Map<u64, ExistingIssue>,
    index: Seq<(Seq<char>, u64)>,
)
    ensures
        match update_check(ticket, existing, index) {
            UpdateCheckView::NeedsUpdate { needs_close, needs_reopen, .. } => !(needs_close
                && needs_reopen),
            _ => true,
        },
{
}

/// An issue whose body lacks the marker of the ticket is never updated.
pub proof fn lemma_unmarked_issue_is_left_alone(
    ticket: TicketView,
    existing: Map<u64, ExistingIssue>,
    index: Seq<(Seq<char>, u64)>,
)
    requires
        github_number(ticket.external_ref) is Some,
        existing.contains_key(github_number(ticket.external_ref)->0),
        !contains_sub(existing[github_number(ticket.external_ref)->0]@.body, marker(ticket.id)),
    ensures
        update_check(ticket, existing, index) == UpdateCheckView::Conflict(
            "issue modified outside ttr"@,
        ),
{
}

/// An issue that is as the ticket asks for is not updated: comparing a
/// ticket with the issue that its own update would make finds no changes.
pub proof fn lemma_update_is_idempotent(
    ticket: TicketView,
    existing: Map<u64, ExistingIssue>,
    index: Seq<(Seq<char>, u64)>,
)
    requires
        github_number(ticket.external_ref) is Some,
        existing.contains_key(github_number(ticket.external_ref)->0),
        ({
            let issue = existing[github_number(ticket.external_ref)->0]@;
            &&& issue.title == ticket.title
            &&& issue.body == issue_body(ticket.id, ticket.body, ticket.deps, index)
            &&& (issue.state == "CLOSED"@) == (ticket.status == "closed"@)
        }),
    ensures
        update_check(ticket, existing, index) == UpdateCheckView::NoChanges,
{
    let body = issue_body(ticket.id, ticket.body, ticket.deps, index);
    lemma_body_starts_with_marker(ticket.id, ticket.body, ticket.deps, index);
    assert(occurs_at(body, marker(ticket.id), 0));
}

/// Compares a synced ticket with the issues that were fetched: see
/// [`update_check`]. `ticket_to_issue` maps the ids of synced tickets to
/// their issue numbers.
pub fn check_update_needed(
    ticket: &Ticket,
    existing_issues: &HashMap<u64, ExistingIssue>,
    ticket_to_issue: &NameMap<u64>,
) -> (check: UpdateCheck)
    ensures
        check@ == update_check(ticket@, existing_issues@, ticket_to_issue.pairs()),
{
    let issue_number = match ticket.github_issue_number() {
        Some(number) => number,
        None => {
            return UpdateCheck::Conflict(String::from_str("invalid external-ref"));
        },
    };
    let existing = match existing_issues.get(&issue_number) {
        Some(issue) => issue,
        None => {
            let mut buf: Vec<char> = Vec::new();
            extend_str(&mut buf, "Issue #");
            let digits = decimal_chars(issue_number);
            extend_from(&mut buf, digits.as_slice(), 0, digits.len());
            assert(digits@.subrange(0, digits@.len() as int) == digits@);
            extend_str(&mut buf, " not found");
            return UpdateCheck::Error(string_of(buf.as_slice()));
        },
    };
    let mut wanted: Vec<char> = Vec::new();
    extend_str(&mut wanted, "<!-- ticket:");
    extend_str(&mut wanted, ticket.id.as_str());
    extend_str(&mut wanted, " -->");
    let body_text = chars_of(existing.body.as_str());
    if find(body_text.as_slice(), wanted.as_slice()).is_none() {
        return UpdateCheck::Conflict(String::from_str("issue modified outside ttr"));
    }
    let new_body = format_issue_body_with_deps(
        ticket.id.as_str(),
        ticket.body.as_str(),
        ticket.deps.as_slice(),
        ticket_to_issue,
    );
    let title_changed = existing.title != ticket.title;
    let body_changed = existing.body != new_body;
    let closed = String::from_str("closed");
    let closed_state = String::from_str("CLOSED");
    let state_should_be_closed = ticket.status == closed;
    let state_is_closed = existing.state == closed_state;
    let state_changed = state_should_be_closed != state_is_closed;
    if !title_changed && !body_changed && !state_changed {
        return UpdateCheck::NoChanges;
    }
    UpdateCheck::NeedsUpdate {
        issue_id: existing.id.clone(),
        issue_number,
        title: ticket.title.clone(),
        body: new_body,
        needs_close: state_changed && state_should_be_closed,
        needs_reopen: state_changed && !state_should_be_closed,
    }
}

} // verus!
