//! JSON values as the library holds them: the variables of a request and the
//! data of a response.

use crate::name_map::{lemma_lookup_absent, lemma_lookup_at, lookup_in};
use vstd::prelude::*;

verus! {

/// A JSON value. An object keeps its members in the order given; where a key
/// occurs twice, the first member with that key is the one that is read.
pub enum Json {
    Null,
    Flag(bool),
    /// A number that is a non-negative integer below 2^64.
    Number(u64),
    /// Any other number, kept as the text that denotes it.
    Decimal(String),
    Text(String),
    List(Vec<Json>),
    Object(Vec<(String, Json)>),
}

/// The mathematical model of a [`Json`] value.
pub enum JsonView {
    Null,
    Flag(bool),
    Number(u64),
    Decimal(Seq<char>),
    Text(Seq<char>),
    List(Seq<JsonView>),
    Object(Seq<(Seq<char>, JsonView)>),
}

/// The model of a value: see [`JsonView`].
pub open spec fn json_view(value: Json) -> JsonView
    decreases value,
{
    match value {
        Json::Null => JsonView::Null,
        Json::Flag(b) => JsonView::Flag(b),
        Json::Number(n) => JsonView::Number(n),
        Json::Decimal(s) => JsonView::Decimal(s@),
        Json::Text(s) => JsonView::Text(s@),
        Json::List(items) => JsonView::List(
            Seq::new(
                items@.len(),
                |i: int|
                    if 0 <= i < items@.len() {
                        json_view(items@[i])
                    } else {
                        JsonView::Null
                    },
            ),
        ),
        Json::Object(members) => JsonView::Object(
            Seq::new(
                members@.len(),
                |i: int|
                    if 0 <= i < members@.len() {
                        (members@[i].0@, json_view(members@[i].1))
                    } else {
                        (Seq::empty(), JsonView::Null)
                    },
            ),
        ),
    }
}

impl View for Json {
    type V = JsonView;

    open spec fn view(&self) -> JsonView {
        json_view(*self)
    }
}

impl JsonView {
    /// The member of an object with the given key; nothing for a value that
    /// is no object or has no such member.
    pub open spec fn member(self, key: Seq<char>) -> Option<JsonView> {
        match self {
            JsonView::Object(members) => lookup_in(members, key),
            _ => None,
        }
    }

    /// The characters of a text value; nothing for any other value.
    pub open spec fn text(self) -> Option<Seq<char>> {
        match self {
            JsonView::Text(s) => Some(s),
            _ => None,
        }
    }

    /// The number of a non-negative integer value; nothing for any other
    /// value.
    pub open spec fn number(self) -> Option<u64> {
        match self {
            JsonView::Number(n) => Some(n),
            _ => None,
        }
    }

    /// The items of a list; nothing for any other value.
    pub open spec fn items(self) -> Option<Seq<JsonView>> {
        match self {
            JsonView::List(items) => Some(items),
            _ => None,
        }
    }
}

/// The text of the member `key` of `value`, where that member is a text.
pub open spec fn member_text(value: JsonView, key: Seq<char>) -> Option<Seq<char>> {
    match value.member(key) {
        Some(m) => m.text(),
        None => None,
    }
}

/// The number of the member `key` of `value`, where that member is a
/// non-negative integer.
pub open spec fn member_number(value: JsonView, key: Seq<char>) -> Option<u64> {
    match value.member(key) {
        Some(m) => m.number(),
        None => None,
    }
}

impl Json {
    /// A text value with the characters of `s`.
    pub fn text(s: &str) -> (value: Json)
        ensures
            value@ == JsonView::Text(s@),
    {
        Json::Text(String::from_str(s))
    }

    /// A list of text values, one for each string, in order.
    pub fn texts(items: &[String]) -> (value: Json)
        ensures
            value@ == JsonView::List(Seq::new(items@.len(), |i: int| JsonView::Text(items@[i]@))),
    {
        let mut out: Vec<Json> = Vec::new();
        let mut i: usize = 0;
        while i < items.len()
            invariant
                i <= items.len(),
                out@.len() == i,
                forall|j: int| 0 <= j < i ==> (#[trigger] out@[j])@ == JsonView::Text(items@[j]@),
            decreases items.len() - i,
        {
            out.push(Json::Text(items[i].clone()));
            i += 1;
        }
        let value = Json::List(out);
        assert(value@->List_0 =~= Seq::new(items@.len(), |i: int| JsonView::Text(items@[i]@)));
        value
    }

    /// An object with the given members, in order.
    pub fn object(members: Vec<(String, Json)>) -> (value: Json)
        ensures
            value@ == JsonView::Object(
                Seq::new(members@.len(), |i: int| (members@[i].0@, members@[i].1@)),
            ),
    {
        let value = Json::Object(members);
        proof {
            let got = value@->Object_0;
            assert(got.len() == members@.len());
            assert forall|i: int| 0 <= i < got.len() implies got[i] == (
                members@[i].0@,
                members@[i].1@,
            ) by {
                assert(members[i] == members@[i]);
            }
            assert(got =~= Seq::new(members@.len(), |i: int| (members@[i].0@, members@[i].1@)));
        }
        value
    }

    /// The member of an object with the given key.
    pub fn get(&self, key: &str) -> (found: Option<&Json>)
        ensures
            match found {
                Some(m) => self@.member(key@) == Some(m@),
                None => self@.member(key@) is None,
            },
    {
        match self {
            Json::Object(members) => {
                let wanted = String::from_str(key);
                let ghost pairs = self@->Object_0;
                let mut i: usize = 0;
                while i < members.len()
                    invariant
                        i <= members.len(),
                        wanted@ == key@,
                        self@ == JsonView::Object(pairs),
                        pairs.len() == members.len(),
                        forall|j: int|
                            0 <= j < members.len() ==> #[trigger] pairs[j] == (
                                members[j].0@,
                                members[j].1@,
                            ),
                        forall|j: int| 0 <= j < i ==> (#[trigger] pairs[j]).0 != key@,
                    decreases members.len() - i,
                {
                    if members[i].0 == wanted {
                        proof {
                            assert(pairs[i as int].0 == key@);
                            lemma_lookup_at(pairs, i as int);
                        }
                        return Some(&members[i].1);
                    }
                    i += 1;
                }
                proof {
                    lemma_lookup_absent(pairs, key@);
                }
                None
            },
            _ => None,
        }
    }

    /// The characters of a text value.
    pub fn as_str(&self) -> (found: Option<&str>)
        ensures
            match found {
                Some(s) => self@.text() == Some(s@),
                None => self@.text() is None,
            },
    {
        match self {
            Json::Text(s) => Some(s.as_str()),
            _ => None,
        }
    }

    /// The number of a non-negative integer value.
    pub fn as_u64(&self) -> (found: Option<u64>)
        ensures
            found == self@.number(),
    {
        match self {
            Json::Number(n) => Some(*n),
            _ => None,
        }
    }

    /// Whether the value is `null`.
    pub fn is_null(&self) -> (r: bool)
        ensures
            r == (self@ is Null),
    {
        match self {
            Json::Null => true,
            _ => false,
        }
    }

    /// The items of a list.
    pub fn as_list(&self) -> (found: Option<&Vec<Json>>)
        ensures
            match found {
                Some(items) => self@.items() == Some(
                    Seq::new(items@.len(), |i: int| items@[i]@),
                ),
                None => self@.items() is None,
            },
    {
        match self {
            Json::List(items) => {
                assert(self@->List_0 =~= Seq::new(items@.len(), |i: int| items@[i]@));
                Some(items)
            },
            _ => None,
        }
    }

    /// The text of the member `key`, where that member is a text.
    pub fn get_str(&self, key: &str) -> (found: Option<&str>)
        ensures
            match found {
                Some(s) => member_text(self@, key@) == Some(s@),
                None => member_text(self@, key@) is None,
            },
    {
        match self.get(key) {
            Some(m) => m.as_str(),
            None => None,
        }
    }

    /// The number of the member `key`, where that member is a non-negative
    /// integer.
    pub fn get_u64(&self, key: &str) -> (found: Option<u64>)
        ensures
            found == member_number(self@, key@),
    {
        match self.get(key) {
            Some(m) => m.as_u64(),
            None => None,
        }
    }
}

} // verus!
