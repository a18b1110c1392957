//! Text as sequences of characters: conversion between strings and
//! character vectors, substring search, joining, and case folding.
//!
//! Every contract in the crate that speaks of a string speaks of its view,
//! a `Seq<char>`. The functions here are the executable counterparts of the
//! sequence operations those contracts use.

use vstd::prelude::*;
use vstd::std_specs::iter::IteratorSpec;

verus! {

/// `needle` occurs in `hay` starting at index `i`.
pub open spec fn occurs_at(hay: Seq<char>, needle: Seq<char>, i: int) -> bool {
    &&& 0 <= i
    &&& i + needle.len() <= hay.len()
    &&& hay.subrange(i, i + needle.len()) == needle
}

/// `needle` occurs somewhere in `hay`.
pub open spec fn contains_sub(hay: Seq<char>, needle: Seq<char>) -> bool {
    exists|i: int| occurs_at(hay, needle, i)
}

/// `i` is the leftmost index at which `needle` occurs in `hay`.
pub open spec fn is_first_occurrence(hay: Seq<char>, needle: Seq<char>, i: int) -> bool {
    &&& occurs_at(hay, needle, i)
    &&& forall|j: int| 0 <= j < i ==> !occurs_at(hay, needle, j)
}

/// The leftmost index at which `needle` occurs in `hay`, if it occurs at all.
pub open spec fn index_of(hay: Seq<char>, needle: Seq<char>) -> Option<int> {
    if contains_sub(hay, needle) {
        Some(choose|i: int| is_first_occurrence(hay, needle, i))
    } else {
        None
    }
}

/// `hay` begins with `prefix`.
pub open spec fn has_prefix(hay: Seq<char>, prefix: Seq<char>) -> bool {
    occurs_at(hay, prefix, 0)
}

/// The parts joined with `sep` between each two neighbours.
pub open spec fn join(parts: Seq<Seq<char>>, sep: Seq<char>) -> Seq<char>
    decreases parts.len(),
{
    if parts.len() == 0 {
        Seq::empty()
    } else if parts.len() == 1 {
        parts[0]
    } else {
        join(parts.drop_last(), sep) + sep + parts.last()
    }
}

/// The models of a sequence of values, in order.
pub open spec fn views<T: View>(items: Seq<T>) -> Seq<T::V> {
    Seq::new(items.len(), |i: int| items[i]@)
}

/// The model of an optional value.
pub open spec fn option_view<T: View>(item: Option<T>) -> Option<T::V> {
    match item {
        Some(v) => Some(v@),
        None => None,
    }
}

/// The model of a result whose error is a message.
pub open spec fn outcome_view<T: View>(outcome: Result<T, String>) -> Result<T::V, Seq<char>> {
    match outcome {
        Ok(v) => Ok(v@),
        Err(e) => Err(e@),
    }
}

/// What `str::to_lowercase` returns for a string with the given characters.
pub uninterp spec fn lowercase(s: Seq<char>) -> Seq<char>;

/// A leftmost occurrence is unique, so it is the one `index_of` names.
pub proof fn lemma_first_occurrence_is_index(hay: Seq<char>, needle: Seq<char>, i: int)
    requires
        is_first_occurrence(hay, needle, i),
    ensures
        index_of(hay, needle) == Some(i),
{
    assert(occurs_at(hay, needle, i));
    let k = choose|k: int| is_first_occurrence(hay, needle, k);
    assert(is_first_occurrence(hay, needle, k));
    if k < i {
        assert(!occurs_at(hay, needle, k));
    }
    if i < k {
        assert(!occurs_at(hay, needle, i));
    }
}

/// When `needle` occurs in `hay`, `index_of` names its leftmost occurrence.
pub proof fn lemma_index_of_is_first(hay: Seq<char>, needle: Seq<char>)
    requires
        contains_sub(hay, needle),
    ensures
        index_of(hay, needle) is Some,
        is_first_occurrence(hay, needle, index_of(hay, needle)->0),
{
    let w = choose|i: int| occurs_at(hay, needle, i);
    lemma_first_occurrence_exists(hay, needle, w);
}

/// Below any occurrence there is a leftmost one.
proof fn lemma_first_occurrence_exists(hay: Seq<char>, needle: Seq<char>, w: int)
    requires
        occurs_at(hay, needle, w),
    ensures
        exists|i: int| is_first_occurrence(hay, needle, i),
    decreases w,
{
    if forall|j: int| 0 <= j < w ==> !occurs_at(hay, needle, j) {
        assert(is_first_occurrence(hay, needle, w));
    } else {
        let j = choose|j: int| 0 <= j < w && occurs_at(hay, needle, j);
        lemma_first_occurrence_exists(hay, needle, j);
    }
}

/// Joining one more part appends the separator and the part.
pub proof fn lemma_join_push(parts: Seq<Seq<char>>, sep: Seq<char>, last: Seq<char>)
    ensures
        join(parts.push(last), sep) == if parts.len() == 0 {
            last
        } else {
            join(parts, sep) + sep + last
        },
{
    let all = parts.push(last);
    assert(all.drop_last() =~= parts);
    assert(all.last() == last);
    if parts.len() == 0 {
        assert(all.len() == 1);
        assert(all[0] == last);
    }
}

/// `String::push`: the string grows by exactly the given character, at its end.
#[verifier::external_body]
fn push_char(s: &mut String, c: char)
    ensures
        final(s)@ == old(s)@.push(c),
{
    s.push(c)
}

/// `str::to_lowercase`: the result is a function of the characters alone; it
/// is named [`lowercase`] and not described further.
#[verifier::external_body]
pub(crate) fn to_lowercase(s: &str) -> (out: String)
    ensures
        out@ == lowercase(s@),
{
    s.to_lowercase()
}

/// The characters of `s`, in order.
pub fn chars_of(s: &str) -> (out: Vec<char>)
    ensures
        out@ == s@,
{
    let mut out: Vec<char> = Vec::new();
    let it = s.chars();
    for c in iter: it
        invariant
            out@ == iter.seq().take(iter.index() as int),
            iter.seq() == s@,
    {
        out.push(c);
    }
    out
}

/// The string made of the given characters, in order.
pub fn string_of(chars: &[char]) -> (out: String)
    ensures
        out@ == chars@,
{
    let mut out = String::new();
    let mut i: usize = 0;
    while i < chars.len()
        invariant
            i <= chars.len(),
            out@ == chars@.take(i as int),
        decreases chars.len() - i,
    {
        push_char(&mut out, chars[i]);
        i += 1;
        assert(chars@.take(i as int) == chars@.take(i - 1).push(chars@[i - 1]));
    }
    out
}

/// Appends the characters `src[from..to]` to `out`.
pub fn extend_from(out: &mut Vec<char>, src: &[char], from: usize, to: usize)
    requires
        from <= to <= src.len(),
    ensures
        final(out)@ == old(out)@ + src@.subrange(from as int, to as int),
{
    let mut i: usize = from;
    while i < to
        invariant
            from <= i <= to <= src.len(),
            out@ == old(out)@ + src@.subrange(from as int, i as int),
        decreases to - i,
    {
        out.push(src[i]);
        i += 1;
    }
}

/// Appends the characters of `s` to `out`.
pub fn extend_str(out: &mut Vec<char>, s: &str)
    ensures
        final(out)@ == old(out)@ + s@,
{
    let cs = chars_of(s);
    extend_from(out, cs.as_slice(), 0, cs.len());
    assert(cs@.subrange(0, cs@.len() as int) == cs@);
}

/// Whether `needle` occurs in `hay` at index `at`.
pub fn matches_at(hay: &[char], needle: &[char], at: usize) -> (r: bool)
    ensures
        r == occurs_at(hay@, needle@, at as int),
{
    if needle.len() > hay.len() || at > hay.len() - needle.len() {
        return false;
    }
    let mut k: usize = 0;
    while k < needle.len()
        invariant
            k <= needle.len(),
            at + needle.len() <= hay.len(),
            forall|j: int| 0 <= j < k ==> hay@[at + j] == needle@[j],
        decreases needle.len() - k,
    {
        if hay[at + k] != needle[k] {
            assert(hay@.subrange(at as int, at + needle.len())[k as int] != needle@[k as int]);
            return false;
        }
        k += 1;
    }
    assert(hay@.subrange(at as int, at + needle.len()) =~= needle@);
    true
}

/// The leftmost index at which `needle` occurs in `hay`.
pub fn find(hay: &[char], needle: &[char]) -> (r: Option<usize>)
    ensures
        match r {
            Some(i) => index_of(hay@, needle@) == Some(i as int),
            None => index_of(hay@, needle@) is None,
        },
{
    if needle.len() > hay.len() {
        assert(forall|j: int| !occurs_at(hay@, needle@, j));
        return None;
    }
    let last: usize = hay.len() - needle.len();
    let mut i: usize = 0;
    loop
        invariant
            i <= last,
            last == hay.len() - needle.len(),
            forall|j: int| 0 <= j < i ==> !occurs_at(hay@, needle@, j),
        decreases last - i,
    {
        if matches_at(hay, needle, i) {
            proof {
                lemma_first_occurrence_is_index(hay@, needle@, i as int);
            }
            return Some(i);
        }
        if i == last {
            assert(forall|j: int| !occurs_at(hay@, needle@, j));
            return None;
        }
        i += 1;
    }
}

/// Whether `needle` occurs in `hay`.
pub fn contains(hay: &str, needle: &str) -> (r: bool)
    ensures
        r == contains_sub(hay@, needle@),
{
    let h = chars_of(hay);
    let n = chars_of(needle);
    find(h.as_slice(), n.as_slice()).is_some()
}

/// Whether two strings hold the same characters.
pub fn same_text(a: &str, b: &str) -> (r: bool)
    ensures
        r == (a@ == b@),
{
    let x = chars_of(a);
    let y = chars_of(b);
    if x.len() != y.len() {
        return false;
    }
    let r = matches_at(x.as_slice(), y.as_slice(), 0);
    assert(x@.subrange(0, x@.len() as int) == x@);
    r
}

/// A copy of the strings.
pub fn copy_strings(items: &[String]) -> (out: Vec<String>)
    ensures
        views(out@) == views(items@),
{
    let mut out: Vec<String> = Vec::new();
    let mut i: usize = 0;
    while i < items.len()
        invariant
            i <= items.len(),
            out@.len() == i,
            forall|j: int| 0 <= j < i ==> (#[trigger] out@[j])@ == items@[j]@,
        decreases items.len() - i,
    {
        out.push(items[i].clone());
        i += 1;
    }
    assert(views(out@) =~= views(items@));
    out
}

/// A copy of an optional string.
pub fn copy_option(item: &Option<String>) -> (out: Option<String>)
    ensures
        option_view(out) == option_view(*item),
{
    match item {
        Some(s) => Some(s.clone()),
        None => None,
    }
}

/// The texts joined with `sep` between each two neighbours.
pub fn join_chars(parts: &Vec<Vec<char>>, sep: &str) -> (out: Vec<char>)
    ensures
        out@ == join(views(parts@), sep@),
{
    let ghost models = views(parts@);
    let mut out: Vec<char> = Vec::new();
    let mut i: usize = 0;
    while i < parts.len()
        invariant
            i <= parts.len(),
            models == views(parts@),
            out@ == join(models.take(i as int), sep@),
        decreases parts.len() - i,
    {
        if i > 0 {
            extend_str(&mut out, sep);
        }
        let part = parts[i].as_slice();
        extend_from(&mut out, part, 0, part.len());
        proof {
            assert(part@.subrange(0, part@.len() as int) == part@);
            assert(models[i as int] == part@);
            lemma_join_push(models.take(i as int), sep@, part@);
            assert(models.take(i + 1) == models.take(i as int).push(part@));
        }
        i += 1;
    }
    assert(models.take(models.len() as int) == models);
    out
}

/// The strings joined with `sep` between each two neighbours.
pub fn join_strings(parts: &Vec<String>, sep: &str) -> (out: String)
    ensures
        out@ == join(views(parts@), sep@),
{
    let mut buf: Vec<char> = Vec::new();
    let mut i: usize = 0;
    while i < parts.len()
        invariant
            i <= parts.len(),
            buf@ == join(views(parts@).take(i as int), sep@),
        decreases parts.len() - i,
    {
        if i > 0 {
            extend_str(&mut buf, sep);
        }
        extend_str(&mut buf, parts[i].as_str());
        proof {
            let done = views(parts@).take(i as int);
            lemma_join_push(done, sep@, parts@[i as int]@);
            assert(views(parts@).take(i + 1) == done.push(parts@[i as int]@));
        }
        i += 1;
    }
    assert(views(parts@).take(parts@.len() as int) == views(parts@));
    string_of(buf.as_slice())
}

/// What `{:?}` prints for a string with the given characters: the string in
/// double quotes, with the characters that need it escaped.
pub uninterp spec fn quoted(s: Seq<char>) -> Seq<char>;

/// The texts of a list as `{:?}` prints them: each quoted, a comma and a
/// space between neighbours, the whole in square brackets.
pub open spec fn quoted_list(items: Seq<Seq<char>>) -> Seq<char> {
    "["@ + join(Seq::new(items.len(), |i: int| quoted(items[i])), ", "@) + "]"@
}

/// `format!` with `{:?}` on a string: the result is a function of the
/// characters alone; it is named [`quoted`] and not described further.
#[verifier::external_body]
pub(crate) fn quote(s: &str) -> (out: String)
    ensures
        out@ == quoted(s@),
{
    format!("{:?}", s)
}

/// The texts of a list as `{:?}` prints them: see [`quoted_list`].
pub fn quote_list(items: &[String]) -> (out: String)
    ensures
        out@ == quoted_list(views(items@)),
{
    let ghost parts = Seq::new(items@.len(), |i: int| quoted(items@[i]@));
    let mut buf: Vec<char> = Vec::new();
    extend_str(&mut buf, "[");
    let mut i: usize = 0;
    while i < items.len()
        invariant
            i <= items.len(),
            parts == Seq::new(items@.len(), |i: int| quoted(items@[i]@)),
            buf@ == "["@ + join(parts.take(i as int), ", "@),
        decreases items.len() - i,
    {
        if i > 0 {
            extend_str(&mut buf, ", ");
        }
        let part = quote(items[i].as_str());
        extend_str(&mut buf, part.as_str());
        proof {
            let done = parts.take(i as int);
            lemma_join_push(done, ", "@, parts[i as int]);
            assert(parts.take(i + 1) == done.push(parts[i as int]));
            assert(buf@ =~= "["@ + join(parts.take(i + 1), ", "@));
        }
        i += 1;
    }
    assert(parts.take(parts.len() as int) == parts);
    extend_str(&mut buf, "]");
    assert(parts =~= Seq::new(views(items@).len(), |i: int| quoted(views(items@)[i])));
    string_of(buf.as_slice())
}

} // verus!
