//! Tickets: their fields, their link to an issue, and the text of their
//! files.

use crate::decimal::{
    all_digits, decimal, decimal_chars, is_all_digits, lemma_decimal_round_trip, parse_u64,
    parsed_u64,
};
use crate::text::{
    chars_of, extend_from, extend_str, has_prefix, matches_at, option_view, string_of, views,
};
use vstd::prelude::*;

verus! {

/// A ticket of the local store.
#[derive(Debug)]
pub struct Ticket {
    /// The path of the file that holds the ticket.
    pub path: String,
    /// The id, such as `ttr-0001`.
    pub id: String,
    /// `open`, `in_progress` or `closed`.
    pub status: String,
    /// The ids of the tickets that this one depends on.
    pub deps: Vec<String>,
    /// The ids of linked tickets.
    pub links: Vec<String>,
    /// When the ticket was created.
    pub created: Option<String>,
    /// `bug`, `feature`, `task`, `epic` or `chore`.
    pub ticket_type: String,
    /// From 0, the highest, to 4.
    pub priority: u8,
    pub assignee: Option<String>,
    /// The reference to what the ticket is synced to, such as `gh-123`.
    pub external_ref: Option<String>,
    /// The id of the parent ticket.
    pub parent: Option<String>,
    pub tags: Vec<String>,
    /// The title, from the first heading of the file.
    pub title: String,
    /// The text of the ticket without its title and its notes.
    pub body: String,
}

/// The model of a [`Ticket`].
pub struct TicketView {
    pub path: Seq<char>,
    pub id: Seq<char>,
    pub status: Seq<char>,
    pub deps: Seq<Seq<char>>,
    pub links: Seq<Seq<char>>,
    pub created: Option<Seq<char>>,
    pub ticket_type: Seq<char>,
    pub priority: u8,
    pub assignee: Option<Seq<char>>,
    pub external_ref: Option<Seq<char>>,
    pub parent: Option<Seq<char>>,
    pub tags: Seq<Seq<char>>,
    pub title: Seq<char>,
    pub body: Seq<char>,
}

impl View for Ticket {
    type V = TicketView;

    open spec fn view(&self) -> TicketView {
        TicketView {
            path: self.path@,
            id: self.id@,
            status: self.status@,
            deps: views(self.deps@),
            links: views(self.links@),
            created: option_view(self.created),
            ticket_type: self.ticket_type@,
            priority: self.priority,
            assignee: option_view(self.assignee),
            external_ref: option_view(self.external_ref),
            parent: option_view(self.parent),
            tags: views(self.tags@),
            title: self.title@,
            body: self.body@,
        }
    }
}

/// The fields that stand at the head of a ticket file.
#[derive(Debug)]
pub struct Frontmatter {
    pub id: String,
    pub status: String,
    pub deps: Vec<String>,
    pub links: Vec<String>,
    pub created: Option<String>,
    pub ticket_type: String,
    pub priority: u8,
    pub assignee: Option<String>,
    pub external_ref: Option<String>,
    pub parent: Option<String>,
    pub tags: Vec<String>,
}

/// The status of a ticket that names none.
pub fn default_status() -> (status: String)
    ensures
        status@ == "open"@,
{
    String::from_str("open")
}

/// The type of a ticket that names none.
pub fn default_type() -> (ticket_type: String)
    ensures
        ticket_type@ == "task"@,
{
    String::from_str("task")
}

/// The priority of a ticket that names none.
pub fn default_priority() -> (priority: u8)
    ensures
        priority == 2,
{
    2
}

/// The prefix of a reference to a GitHub issue.
pub open spec fn github_prefix() -> Seq<char> {
    "gh-"@
}

/// The reference to the issue with the given number.
pub open spec fn github_ref(number: u64) -> Seq<char> {
    github_prefix() + decimal(number as nat)
}

/// The issue number that a reference names: the reference is `gh-` and then
/// nothing but digits, and their value fits in 64 bits.
pub open spec fn github_number(external_ref: Option<Seq<char>>) -> Option<u64> {
    match external_ref {
        Some(r) => if has_prefix(r, github_prefix()) {
            parsed_u64(r.skip(github_prefix().len() as int))
        } else {
            None
        },
        None => None,
    }
}

/// A reference is to a GitHub issue: it is `gh-` and then nothing but
/// digits, at least one.
pub open spec fn is_github_ref(external_ref: Option<Seq<char>>) -> bool {
    match external_ref {
        Some(r) => has_prefix(r, github_prefix()) && all_digits(r.skip(github_prefix().len() as int)),
        None => false,
    }
}

/// The reference made for an issue number names that number.
pub proof fn lemma_github_ref_round_trip(number: u64)
    ensures
        is_github_ref(Some(github_ref(number))),
        github_number(Some(github_ref(number))) == Some(number),
{
    let r = github_ref(number);
    let prefix = github_prefix();
    lemma_decimal_round_trip(number as nat);
    assert(r.subrange(0, prefix.len() as int) =~= prefix);
    assert(r.skip(prefix.len() as int) =~= decimal(number as nat));
}

/// A reference that names an issue number is a reference to a GitHub issue.
pub proof fn lemma_numbered_is_synced(external_ref: Option<Seq<char>>)
    ensures
        github_number(external_ref) is Some ==> is_github_ref(external_ref),
{
}

/// The reference to the issue with the given number: see [`github_ref`].
pub fn external_ref_for(number: u64) -> (out: String)
    ensures
        out@ == github_ref(number),
{
    let mut buf: Vec<char> = Vec::new();
    extend_str(&mut buf, "gh-");
    let digits = decimal_chars(number);
    extend_from(&mut buf, digits.as_slice(), 0, digits.len());
    assert(digits@.subrange(0, digits@.len() as int) == digits@);
    string_of(buf.as_slice())
}

/// The digits of a reference to a GitHub issue: what follows `gh-`.
fn github_digits(external_ref: &Option<String>) -> (digits: Option<Vec<char>>)
    ensures
        match digits {
            Some(d) => external_ref is Some && has_prefix(external_ref->0@, github_prefix()) && d@
                == external_ref->0@.skip(github_prefix().len() as int),
            None => external_ref is None || !has_prefix(external_ref->0@, github_prefix()),
        },
{
    match external_ref {
        Some(r) => {
            let text = chars_of(r.as_str());
            let prefix = chars_of("gh-");
            if matches_at(text.as_slice(), prefix.as_slice(), 0) {
                let mut rest: Vec<char> = Vec::new();
                let total = text.len();
                extend_from(&mut rest, text.as_slice(), prefix.len(), total);
                assert(rest@ =~= r@.skip(github_prefix().len() as int));
                Some(rest)
            } else {
                None
            }
        },
        None => None,
    }
}

impl Ticket {
    /// Whether the ticket is synced to a GitHub issue: see
    /// [`is_github_ref`].
    pub fn is_synced(&self) -> (synced: bool)
        ensures
            synced == is_github_ref(self@.external_ref),
    {
        match github_digits(&self.external_ref) {
            Some(digits) => is_all_digits(digits.as_slice()),
            None => false,
        }
    }

    /// The number of the issue that the ticket is synced to: see
    /// [`github_number`].
    pub fn github_issue_number(&self) -> (number: Option<u64>)
        ensures
            number == github_number(self@.external_ref),
    {
        match github_digits(&self.external_ref) {
            Some(digits) => parse_u64(digits.as_slice()),
            None => None,
        }
    }

    /// Records that the ticket is synced to what `external_ref` names.
    /// Nothing else of the ticket changes.
    pub fn set_external_ref(&mut self, external_ref: &str)
        ensures
            final(self)@ == (TicketView { external_ref: Some(external_ref@), ..old(self)@ }),
    {
        self.external_ref = Some(String::from_str(external_ref));
    }
}

} // verus!
