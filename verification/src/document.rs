//! The text of a ticket file: its title, its body without the notes, and
//! the line that holds the external reference.

use crate::lines::{lines, lines_of, trim, trimmed};
use crate::seqs::{first_where, lemma_first_where};
use crate::text::{
    chars_of, copy_option, copy_strings, extend_from, extend_str, has_prefix, join, lemma_join_push,
    matches_at, option_view, string_of, views,
};
use crate::ticket::{Frontmatter, Ticket, TicketView};
use gray_matter::Matter;
use gray_matter::engine::YAML;
use vstd::prelude::*;

verus! {

/// What has been kept of the lines read so far, and whether the notes are
/// being read.
pub struct BodyScan {
    pub kept: Seq<Seq<char>>,
    pub in_notes: bool,
}

/// The scan after one more line.
///
/// A line that starts with `# ` is the title as long as nothing was kept;
/// it is left out. A line that starts with `## Notes` begins the notes and
/// is left out with all that follows, up to the next line that starts with
/// `## `, which is kept as every other line is.
pub open spec fn scan_line(state: BodyScan, line: Seq<char>) -> BodyScan {
    if has_prefix(line, "# "@) && state.kept.len() == 0 {
        state
    } else if has_prefix(line, "## Notes"@) {
        BodyScan { kept: state.kept, in_notes: true }
    } else if state.in_notes && !has_prefix(line, "## "@) {
        state
    } else {
        BodyScan { kept: state.kept.push(line), in_notes: false }
    }
}

/// The scan after the first `k` lines.
pub open spec fn scan_lines(all: Seq<Seq<char>>, k: nat) -> BodyScan
    decreases k,
{
    if k == 0 || k > all.len() {
        BodyScan { kept: Seq::empty(), in_notes: false }
    } else {
        scan_line(scan_lines(all, (k - 1) as nat), all[k - 1])
    }
}

/// The body of a ticket: the lines of its text without the title and the
/// notes, joined by line feeds, with no white space at either end.
pub open spec fn body_of(content: Seq<char>) -> Seq<char> {
    let all = lines(content);
    trim(join(scan_lines(all, all.len()).kept, "\n"@))
}

/// A text without every repetition of `prefix` at its start.
pub open spec fn strip_all(text: Seq<char>, prefix: Seq<char>) -> Seq<char>
    decreases text.len(),
{
    if prefix.len() > 0 && has_prefix(text, prefix) {
        strip_all(text.skip(prefix.len() as int), prefix)
    } else {
        text
    }
}

/// The index of the first line that starts with `prefix`, or the number of
/// lines.
pub open spec fn first_starting(all: Seq<Seq<char>>, prefix: Seq<char>) -> int {
    first_where(all, |line: Seq<char>| has_prefix(line, prefix))
}

/// The title of a ticket: what follows `# ` on the first line that starts
/// with it, and `Untitled` where no line does.
pub open spec fn title_of(content: Seq<char>) -> Seq<char> {
    let all = lines(content);
    let at = first_starting(all, "# "@);
    if 0 <= at < all.len() {
        strip_all(all[at], "# "@)
    } else {
        "Untitled"@
    }
}

/// The body of a ticket: see [`body_of`].
pub fn extract_body(content: &str) -> (body: String)
    ensures
        body@ == body_of(content@),
{
    let text = chars_of(content);
    let all = lines_of(text.as_slice());
    let ghost models = lines(content@);
    let title = chars_of("# ");
    let notes = chars_of("## Notes");
    let section = chars_of("## ");
    let mut buf: Vec<char> = Vec::new();
    let mut kept: usize = 0;
    let mut in_notes = false;
    let mut i: usize = 0;
    while i < all.len()
        invariant
            i <= all.len(),
            all@.len() == models.len(),
            forall|j: int| 0 <= j < all@.len() ==> (#[trigger] all@[j])@ == models[j],
            title@ == "# "@,
            notes@ == "## Notes"@,
            section@ == "## "@,
            kept == scan_lines(models, i as nat).kept.len(),
            kept <= i,
            in_notes == scan_lines(models, i as nat).in_notes,
            buf@ == join(scan_lines(models, i as nat).kept, "\n"@),
        decreases all.len() - i,
    {
        let line = all[i].as_slice();
        let ghost before = scan_lines(models, i as nat);
        assert(line@ == models[i as int]);
        if matches_at(line, title.as_slice(), 0) && kept == 0 {
        } else if matches_at(line, notes.as_slice(), 0) {
            in_notes = true;
        } else if in_notes && !matches_at(line, section.as_slice(), 0) {
        } else {
            in_notes = false;
            if kept > 0 {
                extend_str(&mut buf, "\n");
            }
            extend_from(&mut buf, line, 0, line.len());
            proof {
                assert(line@.subrange(0, line@.len() as int) == line@);
                lemma_join_push(before.kept, "\n"@, line@);
            }
            kept += 1;
        }
        i += 1;
    }
    let out = trimmed(buf.as_slice());
    string_of(out.as_slice())
}

/// A text without every repetition of `prefix` at its start: see
/// [`strip_all`].
fn strip_repeated(text: &[char], prefix: &[char]) -> (out: Vec<char>)
    ensures
        out@ == strip_all(text@, prefix@),
{
    let mut from: usize = 0;
    if prefix.len() > 0 {
        assert(text@.skip(0) =~= text@);
        while matches_at(text, prefix, from)
            invariant
                from <= text.len(),
                prefix.len() > 0,
                strip_all(text@, prefix@) == strip_all(text@.skip(from as int), prefix@),
            decreases text.len() - from,
        {
            proof {
                let rest = text@.skip(from as int);
                assert(rest.subrange(0, prefix@.len() as int) =~= text@.subrange(
                    from as int,
                    from + prefix@.len(),
                ));
                assert(rest.skip(prefix@.len() as int) =~= text@.skip(from + prefix@.len()));
            }
            from += prefix.len();
        }
        proof {
            let rest = text@.skip(from as int);
            if has_prefix(rest, prefix@) {
                assert(rest.subrange(0, prefix@.len() as int) =~= text@.subrange(
                    from as int,
                    from + prefix@.len(),
                ));
            }
        }
    } else {
        assert(text@.skip(0) =~= text@);
    }
    let mut out: Vec<char> = Vec::new();
    let total = text.len();
    extend_from(&mut out, text, from, total);
    assert(out@ =~= text@.skip(from as int));
    out
}

/// The title of a ticket: see [`title_of`].
pub fn extract_title(content: &str) -> (title: String)
    ensures
        title@ == title_of(content@),
{
    let text = chars_of(content);
    let all = lines_of(text.as_slice());
    let ghost models = lines(content@);
    let mark = chars_of("# ");
    let mut i: usize = 0;
    while i < all.len()
        invariant
            i <= all.len(),
            all@.len() == models.len(),
            forall|j: int| 0 <= j < all@.len() ==> (#[trigger] all@[j])@ == models[j],
            mark@ == "# "@,
            models == lines(content@),
            forall|j: int| 0 <= j < i ==> !has_prefix(models[j], "# "@),
        decreases all.len() - i,
    {
        let line = all[i].as_slice();
        assert(line@ == models[i as int]);
        if matches_at(line, mark.as_slice(), 0) {
            proof {
                lemma_first_where(models, |line: Seq<char>| has_prefix(line, "# "@), i as int);
            }
            let stripped = strip_repeated(line, mark.as_slice());
            return string_of(stripped.as_slice());
        }
        i += 1;
    }
    proof {
        lemma_first_where(models, |line: Seq<char>| has_prefix(line, "# "@), i as int);
    }
    String::from_str("Untitled")
}

impl Ticket {
    /// The ticket of a file: the fields at its head, and title and body from
    /// the text below them, taken without the white space at its ends.
    pub fn from_front_matter(path: String, front: Frontmatter, content: &str) -> (ticket: Ticket)
        ensures
            ticket@ == (TicketView {
                path: path@,
                id: front.id@,
                status: front.status@,
                deps: views(front.deps@),
                links: views(front.links@),
                created: option_view(front.created),
                ticket_type: front.ticket_type@,
                priority: front.priority,
                assignee: option_view(front.assignee),
                external_ref: option_view(front.external_ref),
                parent: option_view(front.parent),
                tags: views(front.tags@),
                title: title_of(trim(content@)),
                body: body_of(trim(content@)),
            }),
    {
        let text = chars_of(content);
        let inner = trimmed(text.as_slice());
        let inner = string_of(inner.as_slice());
        let title = extract_title(inner.as_str());
        let body = extract_body(inner.as_str());
        Ticket {
            path,
            id: front.id,
            status: front.status,
            deps: front.deps,
            links: front.links,
            created: front.created,
            ticket_type: front.ticket_type,
            priority: front.priority,
            assignee: front.assignee,
            external_ref: front.external_ref,
            parent: front.parent,
            tags: front.tags,
            title,
            body,
        }
    }
}

/// The line that opens and closes the head of a ticket file.
pub open spec fn rule_line() -> Seq<char> {
    "---"@
}

/// The line that holds the given external reference.
pub open spec fn reference_line(external_ref: Seq<char>) -> Seq<char> {
    "external-ref: "@ + external_ref
}

/// A line holds an external reference.
pub open spec fn is_reference_line(line: Seq<char>) -> bool {
    has_prefix(line, "external-ref:"@)
}

/// The index of the first rule line at or after `from`, or the number of
/// lines.
pub open spec fn next_rule(all: Seq<Seq<char>>, from: int) -> int
    decreases all.len() - from,
{
    if from < 0 || from >= all.len() {
        all.len() as int
    } else if all[from] == rule_line() {
        from
    } else {
        next_rule(all, from + 1)
    }
}

/// The lines of a ticket file after the external reference was set.
///
/// The head of the file lies between the first rule line and the next.
/// Every line of the head that holds an external reference is replaced by
/// the line for the new one. Where the head holds none, the line is put in
/// before the rule line that closes the head; a file without such a rule
/// line stays as it is.
pub open spec fn lines_with_reference(all: Seq<Seq<char>>, external_ref: Seq<char>) -> Seq<
    Seq<char>,
> {
    let open = next_rule(all, 0);
    let close = next_rule(all, open + 1);
    if exists|i: int| open < i < close && is_reference_line(all[i]) {
        Seq::new(
            all.len(),
            |i: int|
                if open < i < close && is_reference_line(all[i]) {
                    reference_line(external_ref)
                } else {
                    all[i]
                },
        )
    } else if 0 <= close < all.len() {
        all.take(close).push(reference_line(external_ref)) + all.skip(close)
    } else {
        all
    }
}

/// The text of a ticket file after the external reference was set: the
/// lines of [`lines_with_reference`], joined by line feeds, with a line feed
/// at the end.
pub open spec fn text_with_reference(content: Seq<char>, external_ref: Seq<char>) -> Seq<char> {
    let joined = join(lines_with_reference(lines(content), external_ref), "\n"@);
    if joined.len() > 0 && joined.last() == '\n' {
        joined
    } else {
        joined + "\n"@
    }
}

/// Where no line from `from` up to `i` is a rule line and line `i` is one,
/// `i` is the index that `next_rule` gives.
proof fn lemma_next_rule(all: Seq<Seq<char>>, from: int, i: int)
    requires
        0 <= from <= i <= all.len(),
        forall|j: int| from <= j < i ==> all[j] != rule_line(),
        i < all.len() ==> all[i] == rule_line(),
    ensures
        next_rule(all, from) == i,
    decreases i - from,
{
    if from < i {
        lemma_next_rule(all, from + 1, i);
    }
}

/// `next_rule` gives an index at or after `from`, within the lines, at which
/// a rule line stands unless it is the number of lines, and before which,
/// from `from` on, no rule line stands.
proof fn lemma_next_rule_is_first(all: Seq<Seq<char>>, from: int)
    requires
        0 <= from <= all.len(),
    ensures
        from <= next_rule(all, from) <= all.len(),
        next_rule(all, from) < all.len() ==> all[next_rule(all, from)] == rule_line(),
        forall|j: int| from <= j < next_rule(all, from) ==> all[j] != rule_line(),
    decreases all.len() - from,
{
    if from < all.len() && all[from] != rule_line() {
        lemma_next_rule_is_first(all, from + 1);
    }
}

/// The line for a reference holds a reference and is no rule line.
proof fn lemma_reference_line(external_ref: Seq<char>)
    ensures
        is_reference_line(reference_line(external_ref)),
        reference_line(external_ref) != rule_line(),
{
    reveal_strlit("external-ref: ");
    reveal_strlit("external-ref:");
    reveal_strlit("---");
    let line = reference_line(external_ref);
    assert(line.subrange(0, "external-ref:"@.len() as int) =~= "external-ref:"@);
    assert(line[0] == 'e');
    assert(rule_line()[0] == '-');
}

/// Setting the same reference twice changes no more than setting it once:
/// a reference that is there is replaced in place, and one that was put in
/// is found where it was put.
pub proof fn lemma_setting_reference_is_idempotent(all: Seq<Seq<char>>, external_ref: Seq<char>)
    ensures
        lines_with_reference(lines_with_reference(all, external_ref), external_ref)
            == lines_with_reference(all, external_ref),
{
    let new_line = reference_line(external_ref);
    let once = lines_with_reference(all, external_ref);
    let open = next_rule(all, 0);
    lemma_reference_line(external_ref);
    lemma_next_rule_is_first(all, 0);
    if open < all.len() {
        lemma_next_rule_is_first(all, open + 1);
    }
    let close = next_rule(all, open + 1);
    if exists|i: int| open < i < close && is_reference_line(all[i]) {
        let at = choose|i: int| open < i < close && is_reference_line(all[i]);
        assert(once.len() == all.len());
        assert forall|j: int| 0 <= j < all.len() implies (#[trigger] once[j] == rule_line())
            == (all[j] == rule_line()) by {
            if open < j < close && is_reference_line(all[j]) {
                assert(all[j] != rule_line());
            }
        }
        lemma_next_rule(once, 0, open);
        lemma_next_rule(once, open + 1, close);
        assert(once[at] == new_line);
        assert(open < at < close && is_reference_line(once[at]));
        assert(lines_with_reference(once, external_ref) =~= once);
    } else if 0 <= close < all.len() {
        assert(once.len() == all.len() + 1);
        assert forall|j: int| 0 <= j < close implies #[trigger] once[j] == all[j] by {}
        assert(once[close] == new_line);
        assert forall|j: int| close < j < once.len() implies #[trigger] once[j] == all[j - 1] by {}
        lemma_next_rule(once, 0, open);
        assert(once[close + 1] == all[close]);
        lemma_next_rule(once, open + 1, close + 1);
        assert(open < close < close + 1 && is_reference_line(once[close]));
        assert forall|j: int| 0 <= j < once.len() implies #[trigger] lines_with_reference(
            once,
            external_ref,
        )[j] == once[j] by {
            if open < j < close {
                assert(once[j] == all[j]);
                assert(!is_reference_line(all[j]));
            }
        }
        assert(lines_with_reference(once, external_ref) =~= once);
    } else {
        assert(once == all);
    }
}

/// Whether two texts hold the same characters.
fn same_chars(a: &[char], b: &[char]) -> (r: bool)
    ensures
        r == (a@ == b@),
{
    if a.len() != b.len() {
        return false;
    }
    let r = matches_at(a, b, 0);
    assert(a@.subrange(0, a@.len() as int) == a@);
    r
}

/// The index of the first rule line at or after `from`: see [`next_rule`].
fn find_rule(all: &Vec<Vec<char>>, from: usize) -> (at: usize)
    ensures
        at == next_rule(views(all@), from as int),
        at <= all@.len(),
        from <= all@.len() ==> from <= at,
{
    let ghost models = views(all@);
    if from >= all.len() {
        return all.len();
    }
    let rule = chars_of("---");
    let mut i: usize = from;
    while i < all.len()
        invariant
            from <= i <= all.len(),
            models == views(all@),
            rule@ == rule_line(),
            forall|j: int| from <= j < i ==> models[j] != rule_line(),
        decreases all.len() - i,
    {
        assert(models[i as int] == all@[i as int]@);
        if same_chars(all[i].as_slice(), rule.as_slice()) {
            proof {
                lemma_next_rule(models, from as int, i as int);
            }
            return i;
        }
        i += 1;
    }
    proof {
        lemma_next_rule(models, from as int, i as int);
    }
    i
}

/// The lines joined by line feeds.
fn join_lines(all: &Vec<Vec<char>>) -> (out: Vec<char>)
    ensures
        out@ == join(views(all@), "\n"@),
{
    let ghost models = views(all@);
    let mut out: Vec<char> = Vec::new();
    let mut i: usize = 0;
    while i < all.len()
        invariant
            i <= all.len(),
            models == views(all@),
            out@ == join(models.take(i as int), "\n"@),
        decreases all.len() - i,
    {
        if i > 0 {
            extend_str(&mut out, "\n");
        }
        let line = all[i].as_slice();
        extend_from(&mut out, line, 0, line.len());
        proof {
            assert(line@.subrange(0, line@.len() as int) == line@);
            assert(models[i as int] == line@);
            lemma_join_push(models.take(i as int), "\n"@, line@);
            assert(models.take(i + 1) == models.take(i as int).push(line@));
        }
        i += 1;
    }
    assert(models.take(models.len() as int) == models);
    out
}

/// A copy of the characters.
fn copy_chars(line: &[char]) -> (out: Vec<char>)
    ensures
        out@ == line@,
{
    let mut out: Vec<char> = Vec::new();
    extend_from(&mut out, line, 0, line.len());
    assert(line@.subrange(0, line@.len() as int) == line@);
    out
}

/// The text of a ticket file after the external reference was set: see
/// [`text_with_reference`].
pub fn with_external_ref(content: &str, external_ref: &str) -> (out: String)
    ensures
        out@ == text_with_reference(content@, external_ref@),
{
    let text = chars_of(content);
    let all = lines_of(text.as_slice());
    let ghost models = lines(content@);
    assert(views(all@) =~= models);
    let key = chars_of("external-ref:");
    let mut new_line: Vec<char> = Vec::new();
    extend_str(&mut new_line, "external-ref: ");
    extend_str(&mut new_line, external_ref);
    let open = find_rule(&all, 0);
    let close = if open < all.len() {
        find_rule(&all, open + 1)
    } else {
        all.len()
    };
    assert(close == next_rule(models, open + 1));
    let mut found = false;
    let mut i: usize = 0;
    while i < close
        invariant
            i <= close <= all@.len(),
            views(all@) == models,
            key@ == "external-ref:"@,
            found == exists|j: int| open < j < i && is_reference_line(models[j]),
        decreases close - i,
    {
        assert(models[i as int] == all@[i as int]@);
        if i > open && matches_at(all[i].as_slice(), key.as_slice(), 0) {
            found = true;
        }
        i += 1;
    }
    let mut target: Vec<Vec<char>> = Vec::new();
    let ghost wanted = lines_with_reference(models, external_ref@);
    if found {
        let mut k: usize = 0;
        while k < all.len()
            invariant
                k <= all@.len(),
                close <= all@.len(),
                views(all@) == models,
                key@ == "external-ref:"@,
                new_line@ == reference_line(external_ref@),
                wanted.len() == models.len(),
                forall|j: int|
                    0 <= j < models.len() ==> #[trigger] wanted[j] == if open < j < close
                        && is_reference_line(models[j]) {
                        reference_line(external_ref@)
                    } else {
                        models[j]
                    },
                target@.len() == k,
                forall|j: int| 0 <= j < k ==> (#[trigger] target@[j])@ == wanted[j],
            decreases all.len() - k,
        {
            assert(models[k as int] == all@[k as int]@);
            if k > open && k < close && matches_at(all[k].as_slice(), key.as_slice(), 0) {
                target.push(copy_chars(new_line.as_slice()));
            } else {
                target.push(copy_chars(all[k].as_slice()));
            }
            k += 1;
        }
        assert(views(target@) =~= wanted);
    } else if close < all.len() {
        let mut k: usize = 0;
        while k < all.len()
            invariant
                k <= all@.len(),
                close < all@.len(),
                views(all@) == models,
                new_line@ == reference_line(external_ref@),
                wanted == models.take(close as int).push(reference_line(external_ref@))
                    + models.skip(close as int),
                target@.len() == if k <= close {
                    k as int
                } else {
                    k + 1
                },
                forall|j: int| 0 <= j < target@.len() ==> (#[trigger] target@[j])@ == wanted[j],
            decreases all.len() - k,
        {
            assert(models[k as int] == all@[k as int]@);
            if k == close {
                target.push(copy_chars(new_line.as_slice()));
            }
            target.push(copy_chars(all[k].as_slice()));
            k += 1;
        }
        assert(views(target@) =~= wanted);
    } else {
        let mut k: usize = 0;
        while k < all.len()
            invariant
                k <= all@.len(),
                views(all@) == models,
                target@.len() == k,
                forall|j: int| 0 <= j < k ==> (#[trigger] target@[j])@ == models[j],
            decreases all.len() - k,
        {
            assert(models[k as int] == all@[k as int]@);
            target.push(copy_chars(all[k].as_slice()));
            k += 1;
        }
        assert(views(target@) =~= wanted);
    }
    let mut joined = join_lines(&target);
    let n = joined.len();
    if !(n > 0 && joined[n - 1] == '\n') {
        extend_str(&mut joined, "\n");
    }
    string_of(joined.as_slice())
}

/// What `gray_matter` makes of a text when it parses it for YAML front
/// matter: whether it found front matter, and the text below it.
pub uninterp spec fn front_matter_split(content: Seq<char>) -> (bool, Seq<char>);

/// `Matter::<YAML>::new().parse`: whether the result holds front matter
/// data, and its content. Both are functions of the text alone; they are
/// named [`front_matter_split`] and not described further.
#[verifier::external_body]
fn split_front_matter(content: &str) -> (parts: (bool, String))
    ensures
        parts.0 == front_matter_split(content@).0,
        parts.1@ == front_matter_split(content@).1,
{
    let parsed = Matter::<YAML>::new().parse(content);
    (parsed.data.is_some(), parsed.content)
}

/// The message for a ticket file without front matter.
pub open spec fn no_front_matter(path: Seq<char>) -> Seq<char> {
    "No frontmatter found in "@ + path
}

impl Ticket {
    /// The ticket that a file holds. `content` is the text of the file and
    /// `front` what its front matter was decoded to.
    ///
    /// There is a ticket where the file has front matter and `front` is
    /// given: its title and body are those of the text below the front
    /// matter, taken without the white space at its ends.
    pub fn parse(path: String, content: &str, front: Option<Frontmatter>) -> (parsed: Result<
        Ticket,
        String,
    >)
        ensures
            match parsed {
                Ok(ticket) => front_matter_split(content@).0 && front is Some && ticket@ == (
                TicketView {
                    path: path@,
                    id: front->0.id@,
                    status: front->0.status@,
                    deps: views(front->0.deps@),
                    links: views(front->0.links@),
                    created: option_view(front->0.created),
                    ticket_type: front->0.ticket_type@,
                    priority: front->0.priority,
                    assignee: option_view(front->0.assignee),
                    external_ref: option_view(front->0.external_ref),
                    parent: option_view(front->0.parent),
                    tags: views(front->0.tags@),
                    title: title_of(trim(front_matter_split(content@).1)),
                    body: body_of(trim(front_matter_split(content@).1)),
                }),
                Err(message) => !(front_matter_split(content@).0 && front is Some) && message@
                    == no_front_matter(path@),
            },
    {
        let (found, below) = split_front_matter(content);
        match front {
            Some(front) => {
                if found {
                    return Ok(Ticket::from_front_matter(path, front, below.as_str()));
                }
            },
            None => {},
        }
        let mut buf: Vec<char> = Vec::new();
        extend_str(&mut buf, "No frontmatter found in ");
        extend_str(&mut buf, path.as_str());
        Err(string_of(buf.as_slice()))
    }
}

impl Clone for Ticket {
    fn clone(&self) -> (out: Self)
        ensures
            out@ == self@,
    {
        Ticket {
            path: self.path.clone(),
            id: self.id.clone(),
            status: self.status.clone(),
            deps: copy_strings(self.deps.as_slice()),
            links: copy_strings(self.links.as_slice()),
            created: copy_option(&self.created),
            ticket_type: self.ticket_type.clone(),
            priority: self.priority,
            assignee: copy_option(&self.assignee),
            external_ref: copy_option(&self.external_ref),
            parent: copy_option(&self.parent),
            tags: copy_strings(self.tags.as_slice()),
            title: self.title.clone(),
            body: self.body.clone(),
        }
    }
}

} // verus!
