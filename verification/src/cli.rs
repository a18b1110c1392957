//! What the command line decides: which tickets a push is for, how a ticket
//! stands against its issue, what a new configuration holds, and what is
//! printed of a run.

use crate::config::count_of;
use crate::decimal::{decimal, decimal_chars};
use crate::github::issues::ExistingIssue;
use crate::lines::{trim, trimmed};
use crate::sync::{issue_body, marker, SyncResult, SyncResultView, SyncSummary};
use crate::text::{
    chars_of, contains_sub, extend_from, extend_str, find, has_prefix, matches_at, option_view,
    string_of, views,
};
use crate::ticket::{github_number, Ticket, TicketView};
use std::collections::HashMap;
use vstd::prelude::*;

verus! {

/// A ticket is among those asked for: one of the ids that were given occurs
/// in its id.
pub open spec fn is_selected(ticket_id: Seq<char>, ids: Seq<Seq<char>>) -> bool {
    exists|i: int| 0 <= i < ids.len() && contains_sub(ticket_id, ids[i])
}

/// The indices, among the first `k` tickets, of those that a push is for:
/// all where no id was given, else those that are selected.
pub open spec fn selected_indices(tickets: Seq<TicketView>, ids: Seq<Seq<char>>, k: nat) -> Seq<
    usize,
>
    decreases k,
{
    if k == 0 || k > tickets.len() {
        Seq::empty()
    } else {
        let rest = selected_indices(tickets, ids, (k - 1) as nat);
        if ids.len() == 0 || is_selected(tickets[k - 1].id, ids) {
            rest.push((k - 1) as usize)
        } else {
            rest
        }
    }
}

/// Whether a ticket is among those asked for: see [`is_selected`].
pub fn matches_any_id(ticket_id: &str, ids: &[String]) -> (r: bool)
    ensures
        r == is_selected(ticket_id@, views(ids@)),
{
    let text = chars_of(ticket_id);
    let ghost models = views(ids@);
    let mut i: usize = 0;
    while i < ids.len()
        invariant
            i <= ids.len(),
            models == views(ids@),
            text@ == ticket_id@,
            forall|j: int| 0 <= j < i ==> !contains_sub(ticket_id@, models[j]),
        decreases ids.len() - i,
    {
        let id = chars_of(ids[i].as_str());
        assert(models[i as int] == ids@[i as int]@);
        if find(text.as_slice(), id.as_slice()).is_some() {
            return true;
        }
        i += 1;
    }
    false
}

/// The indices of the tickets that a push is for: see
/// [`selected_indices`].
pub fn select_tickets(tickets: &[Ticket], ids: &[String]) -> (selected: Vec<usize>)
    ensures
        selected@ == selected_indices(views(tickets@), views(ids@), tickets@.len()),
{
    let ghost models = views(tickets@);
    let mut selected: Vec<usize> = Vec::new();
    let mut i: usize = 0;
    while i < tickets.len()
        invariant
            i <= tickets.len(),
            models == views(tickets@),
            selected@ == selected_indices(models, views(ids@), i as nat),
        decreases tickets.len() - i,
    {
        assert(models[i as int] == tickets@[i as int]@);
        if ids.len() == 0 || matches_any_id(tickets[i].id.as_str(), ids) {
            selected.push(i);
        }
        i += 1;
    }
    selected
}

/// How a synced ticket stands against its issue.
#[derive(Debug, Clone, Copy, PartialEq, Eq, Structural)]
pub enum TicketState {
    /// The issue is as the ticket asks for.
    UpToDate,
    TitleChanged,
    BodyChanged,
    StateChanged,
    /// The issue is not there, or is not the ticket's to change.
    Conflict,
}

/// How a synced ticket stands against the issues that were fetched.
///
/// Without an issue number, without its issue, and with an issue whose body
/// lacks the marker of the ticket, there is a conflict. Otherwise the first
/// of title, body and state that differs is named. The body is compared
/// with the one that the ticket would get without its dependencies.
pub open spec fn ticket_state(ticket: TicketView, existing: Map<u64, ExistingIssue>) -> TicketState {
    match github_number(ticket.external_ref) {
        None => TicketState::Conflict,
        Some(number) => if !existing.contains_key(number) {
            TicketState::Conflict
        } else {
            let issue = existing[number]@;
            if !contains_sub(issue.body, marker(ticket.id)) {
                TicketState::Conflict
            } else if issue.title != ticket.title {
                TicketState::TitleChanged
            } else if issue.body != issue_body(
                ticket.id,
                ticket.body,
                Seq::empty(),
                Seq::empty(),
            ) {
                TicketState::BodyChanged
            } else if (ticket.status == "closed"@) != (issue.state == "CLOSED"@) {
                TicketState::StateChanged
            } else {
                TicketState::UpToDate
            }
        },
    }
}

/// How a synced ticket stands against the issues that were fetched: see
/// [`ticket_state`].
pub fn classify_ticket(ticket: &Ticket, existing_issues: &HashMap<u64, ExistingIssue>) -> (state:
    TicketState)
    ensures
        state == ticket_state(ticket@, existing_issues@),
{
    let number = match ticket.github_issue_number() {
        Some(number) => number,
        None => {
            return TicketState::Conflict;
        },
    };
    let issue = match existing_issues.get(&number) {
        Some(issue) => issue,
        None => {
            return TicketState::Conflict;
        },
    };
    let mut wanted: Vec<char> = Vec::new();
    extend_str(&mut wanted, "<!-- ticket:");
    extend_str(&mut wanted, ticket.id.as_str());
    extend_str(&mut wanted, " -->");
    let body = chars_of(issue.body.as_str());
    if find(body.as_slice(), wanted.as_slice()).is_none() {
        return TicketState::Conflict;
    }
    let expected = crate::sync::format_issue_body(ticket.id.as_str(), ticket.body.as_str());
    let closed = String::from_str("closed");
    let closed_state = String::from_str("CLOSED");
    if issue.title != ticket.title {
        TicketState::TitleChanged
    } else if issue.body != expected {
        TicketState::BodyChanged
    } else if (ticket.status == closed) != (issue.state == closed_state) {
        TicketState::StateChanged
    } else {
        TicketState::UpToDate
    }
}

/// Why a ticket will be updated, as it is shown; nothing for a ticket that
/// will not.
pub fn change_reason(state: TicketState) -> (reason: Option<&'static str>)
    ensures
        match state {
            TicketState::TitleChanged => reason is Some && reason->0@ == "title changed"@,
            TicketState::BodyChanged => reason is Some && reason->0@ == "body changed"@,
            TicketState::StateChanged => reason is Some && reason->0@ == "state changed"@,
            _ => reason is None,
        },
{
    match state {
        TicketState::TitleChanged => Some("title changed"),
        TicketState::BodyChanged => Some("body changed"),
        TicketState::StateChanged => Some("state changed"),
        _ => None,
    }
}

/// A text without every repetition of `suffix` at its end.
pub open spec fn strip_all_end(text: Seq<char>, suffix: Seq<char>) -> Seq<char>
    decreases text.len(),
{
    if suffix.len() > 0 && text.len() >= suffix.len() && text.subrange(
        text.len() - suffix.len(),
        text.len() as int,
    ) == suffix {
        strip_all_end(text.take(text.len() - suffix.len()), suffix)
    } else {
        text
    }
}

/// The repository that the address of a remote names, as `owner/repo`:
/// what follows `git@github.com:` or `https://github.com/`, without `.git`
/// at its end. The address is taken without the white space at its ends.
pub open spec fn remote_repository(url: Seq<char>) -> Option<Seq<char>> {
    let address = trim(url);
    if !contains_sub(address, "github.com"@) {
        None
    } else if has_prefix(address, "git@github.com:"@) {
        Some(strip_all_end(address.skip("git@github.com:"@.len() as int), ".git"@))
    } else if has_prefix(address, "https://github.com/"@) {
        Some(strip_all_end(address.skip("https://github.com/"@.len() as int), ".git"@))
    } else {
        None
    }
}

/// A text without every repetition of `suffix` at its end: see
/// [`strip_all_end`].
fn strip_repeated_end(text: &[char], from: usize, suffix: &[char]) -> (out: Vec<char>)
    requires
        from <= text@.len(),
    ensures
        out@ == strip_all_end(text@.skip(from as int), suffix@),
{
    let mut to: usize = text.len();
    let m = suffix.len();
    if m > 0 {
        assert(text@.skip(from as int).take(to - from) =~= text@.skip(from as int));
        while to - from >= m && matches_at(text, suffix, to - m)
            invariant
                from <= to <= text.len(),
                m == suffix.len(),
                m > 0,
                strip_all_end(text@.skip(from as int), suffix@) == strip_all_end(
                    text@.skip(from as int).take(to - from),
                    suffix@,
                ),
            decreases to,
        {
            proof {
                let part = text@.skip(from as int).take(to - from);
                assert(part.subrange(part.len() - m, part.len() as int) =~= text@.subrange(
                    to - m,
                    to as int,
                ));
                assert(part.take(part.len() - m) =~= text@.skip(from as int).take(to - m - from));
            }
            to -= m;
        }
        proof {
            let part = text@.skip(from as int).take(to - from);
            if part.len() >= m {
                assert(part.subrange(part.len() - m, part.len() as int) =~= text@.subrange(
                    to - m,
                    to as int,
                ));
            }
        }
    }
    let mut out: Vec<char> = Vec::new();
    extend_from(&mut out, text, from, to);
    assert(out@ =~= text@.skip(from as int).take(to - from));
    out
}

/// The repository that the address of a remote names: see
/// [`remote_repository`].
pub fn detect_github_repo(url: &str) -> (repo: Option<String>)
    ensures
        option_view(repo) == remote_repository(url@),
{
    let text = chars_of(url);
    let address = trimmed(text.as_slice());
    let host = chars_of("github.com");
    if find(address.as_slice(), host.as_slice()).is_none() {
        return None;
    }
    let suffix = chars_of(".git");
    let ssh = chars_of("git@github.com:");
    let https = chars_of("https://github.com/");
    if matches_at(address.as_slice(), ssh.as_slice(), 0) {
        let rest = strip_repeated_end(address.as_slice(), ssh.len(), suffix.as_slice());
        return Some(string_of(rest.as_slice()));
    }
    if matches_at(address.as_slice(), https.as_slice(), 0) {
        let rest = strip_repeated_end(address.as_slice(), https.len(), suffix.as_slice());
        return Some(string_of(rest.as_slice()));
    }
    None
}

/// Whether a text is of the form `owner/repo`: it holds exactly one slash.
pub fn is_repo_name(repo: &str) -> (r: bool)
    ensures
        r == (count_of(repo@, '/') == 1),
{
    let text = chars_of(repo);
    let mut slashes: usize = 0;
    let mut i: usize = 0;
    while i < text.len()
        invariant
            i <= text.len(),
            slashes == count_of(text@.take(i as int), '/'),
            slashes <= i,
        decreases text.len() - i,
    {
        proof {
            assert(text@.take(i + 1).drop_last() =~= text@.take(i as int));
        }
        if text[i] == '/' {
            slashes += 1;
        }
        i += 1;
    }
    assert(text@.take(text@.len() as int) == text@);
    slashes == 1
}

/// A setting of the head of a new configuration, or the comment that shows
/// how it would be set.
pub open spec fn optional_setting(value: Option<Seq<char>>, key: Seq<char>, hint: Seq<char>) -> Seq<
    char,
> {
    match value {
        Some(text) => key + " = \""@ + text + "\"\n"@,
        None => hint,
    }
}

/// The part of a new configuration that is the same for every repository.
pub const DEFAULT_SECTIONS: &'static str =
    "\n[mapping]\ntype_field = \"Type\"  # Project field name for ticket type\n\n[mapping.type]\nbug = \"Bug\"\nfeature = \"Feature\"\ntask = \"Task\"\nepic = \"Epic\"\nchore = \"Chore\"\n\n[labels]\nsync_tags = true  # Sync ticket tags as GitHub labels\ncreate_missing = true  # Create labels that don't exist\n";

/// The comment that shows how a project would be set.
pub const PROJECT_HINT: &'static str =
    "# project = \"Project Name\"  # Optional: GitHub Project to add issues to\n";

/// The comment that shows how an assignee would be set.
pub const ASSIGNEE_HINT: &'static str =
    "# assignee = \"username\"  # Optional: assign all issues to this user\n";

/// The text of a new configuration for a repository.
pub open spec fn initial_config(
    repo: Seq<char>,
    project: Option<Seq<char>>,
    assignee: Option<Seq<char>>,
) -> Seq<char> {
    "[github]\nrepo = \""@ + repo + "\"\n"@ + optional_setting(project, "project"@, PROJECT_HINT@)
        + optional_setting(assignee, "assignee"@, ASSIGNEE_HINT@) + DEFAULT_SECTIONS@
}

/// The text of a new configuration for a repository: see
/// [`initial_config`].
pub fn render_initial_config(repo: &str, project: &Option<String>, assignee: &Option<String>) -> (text:
    String)
    ensures
        text@ == initial_config(repo@, option_view(*project), option_view(*assignee)),
{
    let mut buf: Vec<char> = Vec::new();
    extend_str(&mut buf, "[github]\nrepo = \"");
    extend_str(&mut buf, repo);
    extend_str(&mut buf, "\"\n");
    match project {
        Some(name) => {
            extend_str(&mut buf, "project");
            extend_str(&mut buf, " = \"");
            extend_str(&mut buf, name.as_str());
            extend_str(&mut buf, "\"\n");
        },
        None => {
            extend_str(&mut buf, PROJECT_HINT);
        },
    }
    match assignee {
        Some(name) => {
            extend_str(&mut buf, "assignee");
            extend_str(&mut buf, " = \"");
            extend_str(&mut buf, name.as_str());
            extend_str(&mut buf, "\"\n");
        },
        None => {
            extend_str(&mut buf, ASSIGNEE_HINT);
        },
    }
    extend_str(&mut buf, DEFAULT_SECTIONS);
    assert(buf@ =~= initial_config(repo@, option_view(*project), option_view(*assignee)));
    string_of(buf.as_slice())
}

/// The line that sums a run up.
pub open spec fn summary_text(summary: SyncSummary) -> Seq<char> {
    "Summary: "@ + decimal(summary.created as nat) + " created, "@ + decimal(
        summary.updated as nat,
    ) + " updated, "@ + decimal(summary.skipped as nat) + " skipped, "@ + decimal(
        summary.failed as nat,
    ) + " failed"@
}

/// The line that sums a run up: see [`summary_text`].
pub fn summary_line(summary: &SyncSummary) -> (line: String)
    ensures
        line@ == summary_text(*summary),
{
    let mut buf: Vec<char> = Vec::new();
    extend_str(&mut buf, "Summary: ");
    extend_number(&mut buf, summary.created as u64);
    extend_str(&mut buf, " created, ");
    extend_number(&mut buf, summary.updated as u64);
    extend_str(&mut buf, " updated, ");
    extend_number(&mut buf, summary.skipped as u64);
    extend_str(&mut buf, " skipped, ");
    extend_number(&mut buf, summary.failed as u64);
    extend_str(&mut buf, " failed");
    string_of(buf.as_slice())
}

/// Whether a run counts as failed: it does where a ticket failed.
pub fn run_failed(summary: &SyncSummary) -> (failed: bool)
    ensures
        failed == (summary.failed > 0),
{
    summary.failed > 0
}

/// Appends the decimal notation of `number`.
fn extend_number(out: &mut Vec<char>, number: u64)
    ensures
        final(out)@ == old(out)@ + decimal(number as nat),
{
    let digits = decimal_chars(number);
    extend_from(out, digits.as_slice(), 0, digits.len());
    assert(digits@.subrange(0, digits@.len() as int) == digits@);
}

/// The lines that report the result of one ticket.
pub open spec fn result_text(ticket: TicketView, result: SyncResultView) -> Seq<Seq<char>> {
    match result {
        SyncResultView::Created { issue_number, url, .. } => seq![
            "CREATE  "@ + ticket.id + " \u{2192} #"@ + decimal(issue_number as nat) + "  "@
                + ticket.title,
            "  \u{2514}\u{2500} "@ + url,
        ],
        SyncResultView::Updated { issue_number } => seq![
            "UPDATE  "@ + ticket.id + " \u{2192} #"@ + decimal(issue_number as nat) + "  "@
                + ticket.title,
        ],
        SyncResultView::Skipped { reason } => seq![
            "SKIP    "@ + ticket.id + "  ("@ + reason + ")"@,
        ],
        SyncResultView::Failed { error } => seq!["FAIL    "@ + ticket.id + "  "@ + error],
    }
}

/// The lines that report the result of one ticket: see [`result_text`].
pub fn result_lines(ticket: &Ticket, result: &SyncResult) -> (lines: Vec<String>)
    ensures
        views(lines@) == result_text(ticket@, result@),
{
    let mut lines: Vec<String> = Vec::new();
    let mut buf: Vec<char> = Vec::new();
    match result {
        SyncResult::Created { issue_number, url, .. } => {
            extend_str(&mut buf, "CREATE  ");
            extend_str(&mut buf, ticket.id.as_str());
            extend_str(&mut buf, " \u{2192} #");
            extend_number(&mut buf, *issue_number);
            extend_str(&mut buf, "  ");
            extend_str(&mut buf, ticket.title.as_str());
            lines.push(string_of(buf.as_slice()));
            let mut second: Vec<char> = Vec::new();
            extend_str(&mut second, "  \u{2514}\u{2500} ");
            extend_str(&mut second, url.as_str());
            lines.push(string_of(second.as_slice()));
        },
        SyncResult::Updated { issue_number } => {
            extend_str(&mut buf, "UPDATE  ");
            extend_str(&mut buf, ticket.id.as_str());
            extend_str(&mut buf, " \u{2192} #");
            extend_number(&mut buf, *issue_number);
            extend_str(&mut buf, "  ");
            extend_str(&mut buf, ticket.title.as_str());
            lines.push(string_of(buf.as_slice()));
        },
        SyncResult::Skipped { reason } => {
            extend_str(&mut buf, "SKIP    ");
            extend_str(&mut buf, ticket.id.as_str());
            extend_str(&mut buf, "  (");
            extend_str(&mut buf, reason.as_str());
            extend_str(&mut buf, ")");
            lines.push(string_of(buf.as_slice()));
        },
        SyncResult::Failed { error } => {
            extend_str(&mut buf, "FAIL    ");
            extend_str(&mut buf, ticket.id.as_str());
            extend_str(&mut buf, "  ");
            extend_str(&mut buf, error.as_str());
            lines.push(string_of(buf.as_slice()));
        },
    }
    assert(views(lines@) =~= result_text(ticket@, result@));
    lines
}

} // verus!
