//! Labels: finding the label for a name, and the colour of a new label.

use crate::github::issues::{LabelInfo, LabelInfoView};
use crate::seqs::{first_where, lemma_first_where};
use crate::text::{chars_of, string_of, views};
use vstd::prelude::*;
use vstd::utf8::encode_utf8;

verus! {

/// The lower-case form of an ASCII capital; any other character as it is.
pub open spec fn ascii_lower(c: char) -> char {
    if 'A' <= c && c <= 'Z' {
        ((c as u32 + 32) as u8) as char
    } else {
        c
    }
}

/// Two texts are equal when the case of ASCII letters is ignored.
pub open spec fn same_ignoring_ascii_case(a: Seq<char>, b: Seq<char>) -> bool {
    &&& a.len() == b.len()
    &&& forall|i: int| 0 <= i < a.len() ==> ascii_lower(a[i]) == ascii_lower(b[i])
}

/// The index of the first label with the given name, ASCII case ignored,
/// or the number of labels.
pub open spec fn first_label(labels: Seq<LabelInfoView>, name: Seq<char>) -> int {
    first_where(labels, |label: LabelInfoView| same_ignoring_ascii_case(label.name, name))
}

/// The number that the bytes of a name are folded into: each byte is added
/// and the sum multiplied by 31, modulo 2^32.
pub open spec fn name_hash(bytes: Seq<u8>) -> nat
    decreases bytes.len(),
{
    if bytes.len() == 0 {
        0
    } else {
        ((name_hash(bytes.drop_last()) + bytes.last() as nat) * 31) % 0x1_0000_0000
    }
}

/// One colour channel from eight bits of the hash: between 40 and 219.
pub open spec fn channel(bits: nat) -> nat {
    (bits % 256) % 180 + 40
}

/// The character for a hexadecimal digit, in lower case.
pub open spec fn hex_digit(d: nat) -> char
    recommends
        d < 16,
{
    if d < 10 {
        ('0' as nat + d) as char
    } else {
        ('a' as nat + d - 10) as char
    }
}

/// A channel as two hexadecimal digits.
pub open spec fn hex_pair(value: nat) -> Seq<char>
    recommends
        value < 256,
{
    seq![hex_digit(value / 16), hex_digit(value % 16)]
}

/// The colour of the label with the given name as UTF-8 bytes: red from
/// bits 16 to 23 of the hash, green from bits 8 to 15, blue from bits 0 to
/// 7, each as two hexadecimal digits.
pub open spec fn label_color(bytes: Seq<u8>) -> Seq<char> {
    let hash = name_hash(bytes);
    hex_pair(channel(hash / 0x1_0000)) + hex_pair(channel(hash / 0x100)) + hex_pair(channel(hash))
}

/// What is to be done about the label for a name.
#[derive(Debug)]
pub enum LabelDecision {
    /// The repository has the label, under this id.
    Existing(String),
    /// The repository lacks the label, and none is to be created.
    Absent,
    /// The label is to be created, in this colour.
    Create { color: String },
}

/// The model of a [`LabelDecision`].
pub enum LabelDecisionView {
    Existing(Seq<char>),
    Absent,
    Create { color: Seq<char> },
}

impl View for LabelDecision {
    type V = LabelDecisionView;

    open spec fn view(&self) -> LabelDecisionView {
        match self {
            LabelDecision::Existing(id) => LabelDecisionView::Existing(id@),
            LabelDecision::Absent => LabelDecisionView::Absent,
            LabelDecision::Create { color } => LabelDecisionView::Create { color: color@ },
        }
    }
}

/// What is to be done about the label for `name`, given the labels of the
/// repository: the first label of that name, ASCII case ignored, is used;
/// without one the label is created where that is wanted.
pub open spec fn label_decision(
    labels: Seq<LabelInfoView>,
    name: Seq<char>,
    create_if_missing: bool,
) -> LabelDecisionView {
    let at = first_label(labels, name);
    if 0 <= at < labels.len() {
        LabelDecisionView::Existing(labels[at].id)
    } else if create_if_missing {
        LabelDecisionView::Create { color: label_color(encode_utf8(name)) }
    } else {
        LabelDecisionView::Absent
    }
}

/// The colour of a label depends on nothing but its name.
pub proof fn lemma_color_is_determined_by_name(a: Seq<char>, b: Seq<char>)
    requires
        a == b,
    ensures
        label_color(encode_utf8(a)) == label_color(encode_utf8(b)),
{
}

/// A colour is six hexadecimal digits.
pub proof fn lemma_color_length(bytes: Seq<u8>)
    ensures
        label_color(bytes).len() == 6,
{
}

/// The lower-case form of an ASCII capital: see [`ascii_lower`].
fn to_ascii_lower(c: char) -> (out: char)
    ensures
        out == ascii_lower(c),
{
    if c >= 'A' && c <= 'Z' {
        ((c as u32 + 32) as u8) as char
    } else {
        c
    }
}

/// Whether two texts are equal when the case of ASCII letters is ignored.
pub fn eq_ignore_ascii_case(a: &[char], b: &[char]) -> (r: bool)
    ensures
        r == same_ignoring_ascii_case(a@, b@),
{
    if a.len() != b.len() {
        return false;
    }
    let mut i: usize = 0;
    while i < a.len()
        invariant
            i <= a.len(),
            a.len() == b.len(),
            forall|j: int| 0 <= j < i ==> ascii_lower(a@[j]) == ascii_lower(b@[j]),
        decreases a.len() - i,
    {
        if to_ascii_lower(a[i]) != to_ascii_lower(b[i]) {
            return false;
        }
        i += 1;
    }
    true
}

/// The character for a hexadecimal digit: see [`hex_digit`].
fn hex_char(d: u32) -> (c: char)
    requires
        d < 16,
    ensures
        c == hex_digit(d as nat),
{
    if d < 10 {
        ((d + 48) as u8) as char
    } else {
        ((d + 87) as u8) as char
    }
}

/// The colour for a new label of the given name: see [`label_color`].
pub fn generate_label_color(name: &str) -> (color: String)
    ensures
        color@ == label_color(encode_utf8(name@)),
        color@.len() == 6,
{
    let bytes = name.as_bytes();
    let mut hash: u64 = 0;
    let mut i: usize = 0;
    while i < bytes.len()
        invariant
            i <= bytes.len(),
            hash == name_hash(bytes@.take(i as int)),
            hash < 0x1_0000_0000,
        decreases bytes.len() - i,
    {
        proof {
            assert(bytes@.take(i + 1).drop_last() =~= bytes@.take(i as int));
        }
        hash = ((hash + bytes[i] as u64) * 31) % 0x1_0000_0000;
        i += 1;
    }
    assert(bytes@.take(bytes@.len() as int) =~= bytes@);
    let r: u32 = ((hash / 0x1_0000 % 256) % 180 + 40) as u32;
    let g: u32 = ((hash / 0x100 % 256) % 180 + 40) as u32;
    let b: u32 = ((hash % 256) % 180 + 40) as u32;
    let mut out: Vec<char> = Vec::new();
    out.push(hex_char(r / 16));
    out.push(hex_char(r % 16));
    out.push(hex_char(g / 16));
    out.push(hex_char(g % 16));
    out.push(hex_char(b / 16));
    out.push(hex_char(b % 16));
    assert(out@ =~= label_color(bytes@));
    string_of(out.as_slice())
}

/// What is to be done about the label for a name: see
/// [`label_decision`].
pub fn get_or_create_label(labels: &[LabelInfo], label_name: &str, create_if_missing: bool) -> (found:
    LabelDecision)
    ensures
        found@ == label_decision(views(labels@), label_name@, create_if_missing),
{
    let wanted = chars_of(label_name);
    let ghost models = views(labels@);
    let mut i: usize = 0;
    while i < labels.len()
        invariant
            i <= labels.len(),
            models == views(labels@),
            wanted@ == label_name@,
            forall|j: int| 0 <= j < i ==> !same_ignoring_ascii_case(models[j].name, label_name@),
        decreases labels.len() - i,
    {
        let name = chars_of(labels[i].name.as_str());
        assert(models[i as int] == labels@[i as int]@);
        if eq_ignore_ascii_case(name.as_slice(), wanted.as_slice()) {
            proof {
                lemma_first_where(
                    models,
                    |label: LabelInfoView| same_ignoring_ascii_case(label.name, label_name@),
                    i as int,
                );
            }
            return LabelDecision::Existing(labels[i].id.clone());
        }
        i += 1;
    }
    proof {
        lemma_first_where(
            models,
            |label: LabelInfoView| same_ignoring_ascii_case(label.name, label_name@),
            i as int,
        );
    }
    if !create_if_missing {
        return LabelDecision::Absent;
    }
    LabelDecision::Create { color: generate_label_color(label_name) }
}

} // verus!
