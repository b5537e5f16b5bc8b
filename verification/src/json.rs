//! A JSON document as a plain tree, with its mathematical model.
//!
//! Query documents are built as values of [`Json`] and engine replies are read
//! as values of it. Contracts speak of [`JsonValue`], the view of a `Json`.

use vstd::prelude::*;
use crate::text::str_eq;

verus! {

/// A JSON document.
///
/// A number is an integer (`Int`, or `UInt` for one that may exceed
/// `i64::MAX`) or a binary64 float, which is kept as its bit pattern.
/// An object is a list of members; where a key occurs twice, the later member
/// is the one that counts.
#[derive(Debug, PartialEq)]
pub enum Json {
    Null,
    Bool(bool),
    Int(i64),
    UInt(u64),
    Float(u64),
    Str(String),
    Array(Vec<Json>),
    Object(Vec<(String, Json)>),
}

/// The mathematical model of a JSON document: integers are unbounded and
/// strings are sequences of characters.
pub enum JsonValue {
    Null,
    Bool(bool),
    Int(int),
    Float(u64),
    Str(Seq<char>),
    Array(Seq<JsonValue>),
    Object(Seq<(Seq<char>, JsonValue)>),
}

/// The model of `doc`: each number as a mathematical integer, each string as
/// its characters, arrays and objects member by member.
pub open spec fn model(doc: Json) -> JsonValue
    decreases doc,
{
    match doc {
        Json::Null => JsonValue::Null,
        Json::Bool(b) => JsonValue::Bool(b),
        Json::Int(i) => JsonValue::Int(i as int),
        Json::UInt(u) => JsonValue::Int(u as int),
        Json::Float(bits) => JsonValue::Float(bits),
        Json::Str(s) => JsonValue::Str(s@),
        Json::Array(items) => JsonValue::Array(
            Seq::new(
                items@.len(),
                |i: int|
                    if 0 <= i < items@.len() {
                        model(items@[i])
                    } else {
                        JsonValue::Null
                    },
            ),
        ),
        Json::Object(members) => JsonValue::Object(
            Seq::new(
                members@.len(),
                |i: int|
                    if 0 <= i < members@.len() {
                        (members@[i].0@, model(members@[i].1))
                    } else {
                        (Seq::empty(), JsonValue::Null)
                    },
            ),
        ),
    }
}

impl View for Json {
    type V = JsonValue;

    open spec fn view(&self) -> JsonValue {
        model(*self)
    }
}

/// The views of the items of an array.
pub open spec fn item_views(items: Seq<Json>) -> Seq<JsonValue> {
    Seq::new(items.len(), |i: int| items[i]@)
}

/// The views of the members of an object.
pub open spec fn member_views(members: Seq<(String, Json)>) -> Seq<(Seq<char>, JsonValue)> {
    Seq::new(members.len(), |i: int| (members[i].0@, members[i].1@))
}

/// The view of a document that may be missing: `Null` where it is.
pub open spec fn value_or_null(doc: Option<&Json>) -> JsonValue {
    match doc {
        Some(d) => d@,
        None => JsonValue::Null,
    }
}

/// The view of a document that may be absent.
pub open spec fn value_or_absent(doc: Option<Json>) -> Option<JsonValue> {
    match doc {
        Some(d) => Some(d@),
        None => None,
    }
}

/// The value of the last member of `members` whose key is `key`.
pub open spec fn lookup(members: Seq<(Seq<char>, JsonValue)>, key: Seq<char>) -> Option<JsonValue>
    decreases members.len(),
{
    if members.len() == 0 {
        None
    } else if members.last().0 == key {
        Some(members.last().1)
    } else {
        lookup(members.drop_last(), key)
    }
}

/// Looking a key up after one more member was added: the new member answers
/// for its own key, the earlier members for every other key.
pub proof fn lemma_lookup_push(
    members: Seq<(Seq<char>, JsonValue)>,
    added: (Seq<char>, JsonValue),
    key: Seq<char>,
)
    ensures
        lookup(members.push(added), key) == (if added.0 == key {
            Some(added.1)
        } else {
            lookup(members, key)
        }),
{
    assert(members.push(added).drop_last() =~= members);
}

/// Looking a key up in an object of one member.
pub proof fn lemma_lookup_single(member: (Seq<char>, JsonValue), key: Seq<char>)
    ensures
        lookup(seq![member], key) == (if member.0 == key {
            Some(member.1)
        } else {
            None
        }),
{
    reveal_with_fuel(lookup, 2);
}

impl JsonValue {
    /// The member `key` of an object; `None` for a missing member and for a
    /// document that is no object.
    pub open spec fn get(self, key: Seq<char>) -> Option<JsonValue> {
        match self {
            JsonValue::Object(members) => lookup(members, key),
            _ => None,
        }
    }

    /// The member `key` of an object, `Null` where `get` has none.
    pub open spec fn at(self, key: Seq<char>) -> JsonValue {
        match self.get(key) {
            Some(v) => v,
            None => JsonValue::Null,
        }
    }

    /// The characters of a string document.
    pub open spec fn as_str(self) -> Option<Seq<char>> {
        match self {
            JsonValue::Str(s) => Some(s),
            _ => None,
        }
    }

    /// The items of an array document.
    pub open spec fn as_array(self) -> Option<Seq<JsonValue>> {
        match self {
            JsonValue::Array(items) => Some(items),
            _ => None,
        }
    }

    /// An integer document that fits a signed 64-bit integer.
    pub open spec fn as_i64(self) -> Option<i64> {
        match self {
            JsonValue::Int(n) => if i64::MIN <= n <= i64::MAX {
                Some(n as i64)
            } else {
                None
            },
            _ => None,
        }
    }

    /// An integer document that fits an unsigned 64-bit integer.
    pub open spec fn as_u64(self) -> Option<u64> {
        match self {
            JsonValue::Int(n) => if 0 <= n <= u64::MAX {
                Some(n as u64)
            } else {
                None
            },
            _ => None,
        }
    }
}

impl Json {
    /// A string document.
    pub fn text(s: &str) -> (doc: Json)
        ensures
            doc@ == JsonValue::Str(s@),
    {
        Json::Str(String::from_str(s))
    }

    /// An array document with the given items.
    pub fn array(items: Vec<Json>) -> (doc: Json)
        ensures
            doc@ == JsonValue::Array(item_views(items@)),
    {
        let doc = Json::Array(items);
        proof {
            assert(doc@->Array_0 =~= item_views(items@));
        }
        doc
    }

    /// An object document with the given members.
    pub fn object(members: Vec<(String, Json)>) -> (doc: Json)
        ensures
            doc@ == JsonValue::Object(member_views(members@)),
    {
        let doc = Json::Object(members);
        proof {
            assert(doc@->Object_0 =~= member_views(members@));
        }
        doc
    }

    /// One member of an object.
    pub fn member(key: &str, value: Json) -> (m: (String, Json))
        ensures
            m.0@ == key@,
            m.1 == value,
    {
        (String::from_str(key), value)
    }

    /// The member `key` of an object, if there is one.
    pub fn get(&self, key: &str) -> (found: Option<&Json>)
        ensures
            match found {
                Some(v) => self@.get(key@) == Some(v@),
                None => self@.get(key@) is None,
            },
    {
        match self {
            Json::Object(members) => {
                let ghost all = member_views(members@);
                proof {
                    assert(self@->Object_0 =~= all);
                    assert(all.take(all.len() as int) == all);
                }
                let mut i: usize = members.len();
                while i > 0
                    invariant
                        i <= members.len(),
                        all == member_views(members@),
                        self@.get(key@) == lookup(all, key@),
                        lookup(all, key@) == lookup(all.take(i as int), key@),
                    decreases i,
                {
                    proof {
                        let upto = all.take(i as int);
                        assert(upto.drop_last() == all.take(i - 1));
                        assert(upto.last() == all[i - 1]);
                    }
                    i = i - 1;
                    if str_eq(members[i].0.as_str(), key) {
                        return Some(&members[i].1);
                    }
                }
                None
            },
            _ => None,
        }
    }

    /// The member `key` of `doc`, where `doc` is an object that has one.
    /// A missing document stands for `Null`, and so does a missing result.
    pub fn descend<'a>(doc: Option<&'a Json>, key: &str) -> (found: Option<&'a Json>)
        ensures
            value_or_null(found) == value_or_null(doc).at(key@),
    {
        match doc {
            Some(d) => d.get(key),
            None => None,
        }
    }

    /// The text of a string document.
    pub fn as_str(&self) -> (found: Option<&str>)
        ensures
            match found {
                Some(s) => self@.as_str() == Some(s@),
                None => self@.as_str() is None,
            },
    {
        match self {
            Json::Str(s) => Some(s.as_str()),
            _ => None,
        }
    }

    /// The items of an array document.
    pub fn as_array(&self) -> (found: Option<&Vec<Json>>)
        ensures
            match found {
                Some(items) => self@.as_array() == Some(item_views(items@)),
                None => self@.as_array() is None,
            },
    {
        match self {
            Json::Array(items) => {
                proof {
                    assert(self@->Array_0 =~= item_views(items@));
                }
                Some(items)
            },
            _ => None,
        }
    }

    /// The number of an integer document, if a signed 64-bit integer holds it.
    pub fn as_i64(&self) -> (found: Option<i64>)
        ensures
            found == self@.as_i64(),
    {
        match self {
            Json::Int(i) => Some(*i),
            Json::UInt(u) => if *u <= 0x7fff_ffff_ffff_ffff {
                Some(*u as i64)
            } else {
                None
            },
            _ => None,
        }
    }

    /// The number of an integer document, if an unsigned 64-bit integer holds
    /// it.
    pub fn as_u64(&self) -> (found: Option<u64>)
        ensures
            found == self@.as_u64(),
    {
        match self {
            Json::Int(i) => if *i >= 0 {
                Some(*i as u64)
            } else {
                None
            },
            Json::UInt(u) => Some(*u),
            _ => None,
        }
    }
}

} // verus!
