//! JSON documents: the data type, the value that a document stands for, and
//! the readers that the engine and its slice functions use.

use vstd::prelude::*;

pub mod codec;
pub mod merge;
pub mod object;

verus! {

/// A JSON number that is no integer of 64 bits, kept as the decimal text
/// that serde_json prints for it. Two such numbers are the same where their
/// texts are.
#[derive(Debug)]
pub struct RealNumber {
    text: String,
}

/// A JSON number: an integer of 64 bits, with or without a sign, or any
/// other number.
#[derive(Debug)]
pub enum JsonNumber {
    Int(i64),
    UInt(u64),
    Real(RealNumber),
}

/// A JSON document.
#[derive(Debug)]
pub enum Json {
    Null,
    Bool(bool),
    Number(JsonNumber),
    Str(String),
    Array(Vec<Json>),
    Object(JsonObject),
}

/// The members of a JSON object: no key occurs twice.
#[derive(Debug)]
pub struct JsonObject {
    members: Vec<(String, Json)>,
}

/// The mathematical value of a JSON document: an integer is its number,
/// whichever way it is held; an object is a map from its keys to the values
/// of its members.
pub enum JsonValue {
    Null,
    Bool(bool),
    Int(int),
    Real(Seq<char>),
    Str(Seq<char>),
    Array(Seq<JsonValue>),
    Object(Map<Seq<char>, JsonValue>),
}

impl RealNumber {
    /// The decimal text of the number.
    pub closed spec fn text(self) -> Seq<char> {
        self.text@
    }

    /// The decimal text of the number.
    pub fn as_str(&self) -> (r: &str)
        ensures
            r@ == self.text(),
    {
        self.text.as_str()
    }

    /// A copy of the number.
    pub fn duplicate(&self) -> (r: RealNumber)
        ensures
            r.text() == self.text(),
    {
        RealNumber { text: self.text.clone() }
    }
}

/// The value that a number stands for.
pub open spec fn number_value(n: JsonNumber) -> JsonValue {
    match n {
        JsonNumber::Int(i) => JsonValue::Int(i as int),
        JsonNumber::UInt(u) => JsonValue::Int(u as int),
        JsonNumber::Real(r) => JsonValue::Real(r.text()),
    }
}

/// The map that a list of members stands for: where a key occurs twice, the
/// later member counts.
pub(crate) open spec fn members_value(members: Seq<(String, Json)>) -> Map<Seq<char>, JsonValue>
    decreases members, 0nat,
{
    if members.len() == 0 {
        Map::empty()
    } else {
        members_value(members.drop_last()).insert(
            members.last().0@,
            json_value(members.last().1),
        )
    }
}

/// The values of a list of documents, one by one.
pub open spec fn items_value(items: Seq<Json>) -> Seq<JsonValue>
    decreases items, 0nat,
{
    if items.len() == 0 {
        Seq::empty()
    } else {
        items_value(items.drop_last()).push(json_value(items.last()))
    }
}

/// The value that a document stands for.
pub open spec fn json_value(j: Json) -> JsonValue
    decreases j, 1nat,
{
    match j {
        Json::Null => JsonValue::Null,
        Json::Bool(b) => JsonValue::Bool(b),
        Json::Number(n) => number_value(n),
        Json::Str(s) => JsonValue::Str(s@),
        Json::Array(items) => JsonValue::Array(items_value(items@)),
        Json::Object(object) => JsonValue::Object(object.value()),
    }
}

/// Whether a key names scratch data: its first character is an underscore.
pub open spec fn is_scratch_key(key: Seq<char>) -> bool {
    key.len() > 0 && key[0] == '_'
}

/// The members that are kept when scratch data is dropped.
pub open spec fn prune_value(members: Map<Seq<char>, JsonValue>) -> Map<Seq<char>, JsonValue> {
    Map::new(|k: Seq<char>| members.contains_key(k) && !is_scratch_key(k), |k: Seq<char>| members[k])
}

/// The member of an object under `key`; null where the document is no object
/// or has no such member.
pub open spec fn member_value(doc: JsonValue, key: Seq<char>) -> JsonValue {
    match doc {
        JsonValue::Object(members) => if members.contains_key(key) {
            members[key]
        } else {
            JsonValue::Null
        },
        _ => JsonValue::Null,
    }
}

/// A document with `value` under `key`, where it is an object; the document
/// as it is otherwise.
pub open spec fn with_member_value(doc: JsonValue, key: Seq<char>, value: JsonValue) -> JsonValue {
    match doc {
        JsonValue::Object(members) => JsonValue::Object(members.insert(key, value)),
        _ => doc,
    }
}

/// A document without its scratch members, where it is an object; the
/// document as it is otherwise.
pub open spec fn pruned_value(doc: JsonValue) -> JsonValue {
    match doc {
        JsonValue::Object(members) => JsonValue::Object(prune_value(members)),
        _ => doc,
    }
}

/// The members of a document that is an object; none otherwise.
pub open spec fn members_of(doc: JsonValue) -> Map<Seq<char>, JsonValue> {
    match doc {
        JsonValue::Object(members) => members,
        _ => Map::empty(),
    }
}

/// The result of applying a merge patch to a document: a patch that is no
/// object replaces the document; a patch that is an object is applied member
/// by member to the document's members, where a null member deletes and any
/// other member is merged into what stands under its key.
pub open spec fn merge_value(doc: JsonValue, patch: JsonValue) -> JsonValue
    decreases patch,
{
    match patch {
        JsonValue::Object(p) => JsonValue::Object(
            Map::new(
                |k: Seq<char>|
                    if p.contains_key(k) {
                        p[k] !is Null
                    } else {
                        members_of(doc).contains_key(k)
                    },
                |k: Seq<char>|
                    if p.contains_key(k) {
                        merge_value(member_value(doc, k), p[k])
                    } else {
                        members_of(doc)[k]
                    },
            ),
        ),
        _ => patch,
    }
}

/// The characters of a document that is a string.
pub open spec fn text_of(doc: JsonValue) -> Option<Seq<char>> {
    match doc {
        JsonValue::Str(s) => Some(s),
        _ => None,
    }
}

/// The number of a document that is an integer of 64 bits with a sign.
pub open spec fn int_of(doc: JsonValue) -> Option<int> {
    match doc {
        JsonValue::Int(n) => if i64::MIN <= n <= i64::MAX {
            Some(n)
        } else {
            None
        },
        _ => None,
    }
}

/// The items of a document that is an array.
pub open spec fn items_of(doc: JsonValue) -> Option<Seq<JsonValue>> {
    match doc {
        JsonValue::Array(items) => Some(items),
        _ => None,
    }
}

/// The truth value of a document that is a boolean.
pub open spec fn bool_of(doc: JsonValue) -> Option<bool> {
    match doc {
        JsonValue::Bool(b) => Some(b),
        _ => None,
    }
}

/// The values of a list of documents are as many as the documents, and
/// each is the value of the document at its place.
pub proof fn lemma_items_value(items: Seq<Json>)
    ensures
        items_value(items).len() == items.len(),
        forall|i: int|
            0 <= i < items.len() ==> #[trigger] items_value(items)[i] == json_value(items[i]),
    decreases items.len(),
{
    if items.len() != 0 {
        lemma_items_value(items.drop_last());
    }
}

impl JsonNumber {
    /// A copy of the number.
    pub fn duplicate(&self) -> (r: JsonNumber)
        ensures
            number_value(r) == number_value(*self),
    {
        match self {
            JsonNumber::Int(i) => JsonNumber::Int(*i),
            JsonNumber::UInt(u) => JsonNumber::UInt(*u),
            JsonNumber::Real(x) => JsonNumber::Real(x.duplicate()),
        }
    }

    /// Whether two numbers have the same value.
    pub fn same(&self, other: &JsonNumber) -> (r: bool)
        ensures
            r == (number_value(*self) == number_value(*other)),
    {
        match (self, other) {
            (JsonNumber::Int(a), JsonNumber::Int(b)) => *a == *b,
            (JsonNumber::UInt(a), JsonNumber::UInt(b)) => *a == *b,
            (JsonNumber::Int(a), JsonNumber::UInt(b)) => *a >= 0 && *a as u64 == *b,
            (JsonNumber::UInt(a), JsonNumber::Int(b)) => *b >= 0 && *b as u64 == *a,
            (JsonNumber::Real(a), JsonNumber::Real(b)) => a.text == b.text,
            _ => false,
        }
    }
}

impl Json {
    /// The member under `key` of a document that is an object.
    pub fn member(&self, key: &str) -> (r: Option<&Json>)
        ensures
            r is Some <==> members_of(json_value(*self)).contains_key(key@),
            r is Some ==> json_value(*r->0) == member_value(json_value(*self), key@),
    {
        match self {
            Json::Object(object) => object.get(key),
            Json::Number(n) => {
                None
            },
            _ => None,
        }
    }

    /// The characters of a document that is a string.
    pub fn as_str(&self) -> (r: Option<&str>)
        ensures
            r is Some <==> text_of(json_value(*self)) is Some,
            r is Some ==> r->0@ == text_of(json_value(*self))->0,
    {
        match self {
            Json::Str(s) => Some(s.as_str()),
            Json::Number(n) => {
                None
            },
            _ => None,
        }
    }

    /// The number of a document that is an integer of 64 bits with a sign.
    pub fn as_i64(&self) -> (r: Option<i64>)
        ensures
            r is Some <==> int_of(json_value(*self)) is Some,
            r is Some ==> r->0 as int == int_of(json_value(*self))->0,
    {
        match self {
            Json::Number(JsonNumber::Int(i)) => Some(*i),
            Json::Number(JsonNumber::UInt(u)) => if *u <= 0x7fff_ffff_ffff_ffff {
                Some(*u as i64)
            } else {
                None
            },
            _ => None,
        }
    }

    /// The items of a document that is an array.
    pub fn as_array(&self) -> (r: Option<&Vec<Json>>)
        ensures
            r is Some <==> items_of(json_value(*self)) is Some,
            r is Some ==> items_value(r->0@) == items_of(json_value(*self))->0,
    {
        match self {
            Json::Array(items) => Some(items),
            Json::Number(n) => {
                None
            },
            _ => None,
        }
    }

    /// The truth value of a document that is a boolean.
    pub fn as_bool(&self) -> (r: Option<bool>)
        ensures
            r == bool_of(json_value(*self)),
    {
        match self {
            Json::Bool(b) => Some(*b),
            Json::Number(n) => {
                None
            },
            _ => None,
        }
    }

    /// Whether two documents have the same value.
    pub fn same(&self, other: &Json) -> (r: bool)
        ensures
            r == (json_value(*self) == json_value(*other)),
        decreases self,
    {
        match (self, other) {
            (Json::Null, Json::Null) => true,
            (Json::Bool(a), Json::Bool(b)) => *a == *b,
            (Json::Number(a), Json::Number(b)) => a.same(b),
            (Json::Str(a), Json::Str(b)) => *a == *b,
            (Json::Array(a), Json::Array(b)) => {
                proof {
                    lemma_items_value(a@);
                    lemma_items_value(b@);
                }
                if a.len() != b.len() {
                    return false;
                }
                let mut i: usize = 0;
                while i < a.len()
                    invariant
                        i <= a.len(),
                        a.len() == b.len(),
                        decreases_to!(*self => *a),
                        json_value(*self) == JsonValue::Array(items_value(a@)),
                        json_value(*other) == JsonValue::Array(items_value(b@)),
                        items_value(a@).len() == a@.len(),
                        items_value(b@).len() == b@.len(),
                        forall|q: int|
                            0 <= q < a@.len() ==> #[trigger] items_value(a@)[q] == json_value(
                                a@[q],
                            ),
                        forall|q: int|
                            0 <= q < b@.len() ==> #[trigger] items_value(b@)[q] == json_value(
                                b@[q],
                            ),
                        forall|q: int| 0 <= q < i ==> json_value(#[trigger] a@[q]) == json_value(b@[q]),
                    decreases a.len() - i,
                {
                    if !a[i].same(&b[i]) {
                        assert(items_value(a@)[i as int] != items_value(b@)[i as int]);
                        return false;
                    }
                    i += 1;
                }
                assert(items_value(a@) =~= items_value(b@));
                true
            },
            (Json::Object(a), Json::Object(b)) => a.same(b),
            (Json::Number(a), _) => {
                false
            },
            (_, Json::Number(b)) => {
                false
            },
            _ => false,
        }
    }

    /// The document with `value` under `key`, where it is an object; as it
    /// is otherwise.
    pub fn with_member(self, key: String, value: Json) -> (r: Json)
        ensures
            json_value(r) == with_member_value(json_value(self), key@, json_value(value)),
    {
        match self {
            Json::Object(object) => Json::Object(object.insert(key, value)),
            Json::Number(n) => {
                Json::Number(n)
            },
            other => other,
        }
    }

    /// The document without its scratch members, where it is an object; as
    /// it is otherwise.
    pub fn pruned(self) -> (r: Json)
        ensures
            json_value(r) == pruned_value(json_value(self)),
    {
        match self {
            Json::Object(object) => Json::Object(object.prune()),
            Json::Number(n) => {
                Json::Number(n)
            },
            other => other,
        }
    }

    /// A copy of the document.
    pub fn duplicate(&self) -> (r: Json)
        ensures
            json_value(r) == json_value(*self),
        decreases self,
    {
        match self {
            Json::Null => Json::Null,
            Json::Bool(b) => Json::Bool(*b),
            Json::Number(n) => Json::Number(n.duplicate()),
            Json::Str(s) => Json::Str(s.clone()),
            Json::Array(items) => {
                let mut copy: Vec<Json> = Vec::new();
                let mut i: usize = 0;
                while i < items.len()
                    invariant
                        i <= items.len(),
                        copy@.len() == i,
                        decreases_to!(*self => *items),
                        forall|q: int|
                            0 <= q < i ==> json_value(#[trigger] copy@[q]) == json_value(
                                items@[q],
                            ),
                    decreases items.len() - i,
                {
                    copy.push(items[i].duplicate());
                    i += 1;
                }
                proof {
                    lemma_items_value(items@);
                    lemma_items_value(copy@);
                    assert(items_value(copy@) =~= items_value(items@));
                }
                Json::Array(copy)
            },
            Json::Object(object) => Json::Object(object.duplicate()),
        }
    }
}

impl PartialEq for Json {
    /// Two documents are equal where they have the same value.
    fn eq(&self, other: &Json) -> (r: bool) {
        self.same(other)
    }
}

impl vstd::std_specs::cmp::PartialEqSpecImpl for Json {
    open spec fn obeys_eq_spec() -> bool {
        true
    }

    open spec fn eq_spec(&self, other: &Json) -> bool {
        json_value(*self) == json_value(*other)
    }
}

} // verus!
