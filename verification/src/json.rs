//! JSON values as trees of plain data.
use crate::number::{number_copy, number_text};
use vstd::prelude::*;

verus! {

/// A JSON value. An object keeps its entries in the order they were written.
#[derive(Debug, PartialEq, Eq)]
pub enum Json {
    Null,
    Bool(bool),
    /// A number, as `serde_json` holds it.
    Number(serde_json::Number),
    String(String),
    Array(Vec<Json>),
    Object(Vec<Member>),
}

/// One entry of an object: a key and the value under it.
#[derive(Debug, PartialEq, Eq)]
pub struct Member {
    pub key: String,
    pub value: Json,
}

/// The mathematical tree that a `Json` stands for.
pub enum JsonValue {
    Null,
    Bool(bool),
    /// A number, as the text that writes it.
    Number(Seq<char>),
    String(Seq<char>),
    Array(Seq<JsonValue>),
    Object(Seq<MemberValue>),
}

/// One entry of an object in the tree: the key and the value under it.
pub struct MemberValue {
    pub key: Seq<char>,
    pub value: JsonValue,
}

impl View for Member {
    type V = MemberValue;

    open spec fn view(&self) -> MemberValue
        decreases self,
    {
        MemberValue { key: self.key@, value: self.value@ }
    }
}

impl View for Json {
    type V = JsonValue;

    open spec fn view(&self) -> JsonValue
        decreases self,
    {
        match self {
            Json::Null => JsonValue::Null,
            Json::Bool(b) => JsonValue::Bool(*b),
            Json::Number(number) => JsonValue::Number(number_text(*number)),
            Json::String(text) => JsonValue::String(text@),
            Json::Array(items) => JsonValue::Array(
                Seq::new(
                    items@.len(),
                    |i: int|
                        if 0 <= i < items@.len() {
                            items@[i]@
                        } else {
                            JsonValue::Null
                        },
                ),
            ),
            Json::Object(entries) => JsonValue::Object(
                Seq::new(
                    entries@.len(),
                    |i: int|
                        if 0 <= i < entries@.len() {
                            entries[i]@
                        } else {
                            MemberValue { key: Seq::empty(), value: JsonValue::Null }
                        },
                ),
            ),
        }
    }
}

impl JsonValue {
    /// The members of an object, in their order; none for any other value.
    pub open spec fn members(self) -> Seq<MemberValue> {
        match self {
            JsonValue::Object(members) => members,
            _ => Seq::empty(),
        }
    }
}

/// The value under the first member named `key`, if there is one.
pub open spec fn first_named(members: Seq<MemberValue>, key: Seq<char>) -> Option<JsonValue>
    decreases members.len(),
{
    if members.len() == 0 {
        None
    } else if members[0].key == key {
        Some(members[0].value)
    } else {
        first_named(members.drop_first(), key)
    }
}

/// The value that an object holds under `key`; nothing for a missing key and
/// for a value that is no object.
pub open spec fn field(value: JsonValue, key: Seq<char>) -> Option<JsonValue> {
    match value {
        JsonValue::Object(members) => first_named(members, key),
        _ => None,
    }
}

impl Json {
    /// Looks `key` up in an object.
    pub fn get(&self, key: &str) -> (found: Option<&Json>)
        ensures
            match field(self@, key@) {
                Some(value) => found matches Some(json) && json@ == value,
                None => found is None,
            },
    {
        match self {
            Json::Object(members) => {
                let wanted = String::from_str(key);
                let mut i: usize = 0;
                assert(self@->Object_0.subrange(0, members@.len() as int) =~= self@->Object_0);
                while i < members.len()
                    invariant
                        i <= members.len(),
                        *self == Json::Object(*members),
                        wanted@ == key@,
                        first_named(self@->Object_0, key@) == first_named(
                            self@->Object_0.subrange(i as int, members@.len() as int),
                            key@,
                        ),
                    decreases members.len() - i,
                {
                    let ghost rest = self@->Object_0.subrange(i as int, members@.len() as int);
                    assert(rest[0] == members@[i as int]@);
                    assert(rest.drop_first() =~= self@->Object_0.subrange(
                        i + 1,
                        members@.len() as int,
                    ));
                    if members[i].key == wanted {
                        return Some(&members[i].value);
                    }
                    i = i + 1;
                }
                None
            },
            _ => None,
        }
    }

    /// A copy of this value, equal to it member for member.
    pub fn duplicate(&self) -> (copy: Json)
        ensures
            copy@ == self@,
        decreases self,
    {
        match self {
            Json::Null => Json::Null,
            Json::Bool(b) => Json::Bool(*b),
            Json::Number(number) => Json::Number(number_copy(number)),
            Json::String(text) => Json::String(text.clone()),
            Json::Array(items) => {
                let mut copies: Vec<Json> = Vec::new();
                let mut i: usize = 0;
                while i < items.len()
                    invariant
                        i <= items.len(),
                        *self == Json::Array(*items),
                        copies@.len() == i,
                        forall|j: int| 0 <= j < i ==> copies@[j]@ == items@[j]@,
                    decreases items.len() - i,
                {
                    let item = &items[i];
                    assert(decreases_to!(self => self->Array_0));
                    copies.push(item.duplicate());
                    i = i + 1;
                }
                let copy = Json::Array(copies);
                assert(copy@->Array_0 =~= self@->Array_0);
                copy
            },
            Json::Object(members) => {
                let mut copies: Vec<Member> = Vec::new();
                let mut i: usize = 0;
                while i < members.len()
                    invariant
                        i <= members.len(),
                        *self == Json::Object(*members),
                        copies@.len() == i,
                        forall|j: int| 0 <= j < i ==> copies@[j]@ == members@[j]@,
                    decreases members.len() - i,
                {
                    let member = &members[i];
                    assert(decreases_to!(self => self->Object_0));
                    let copy = Member { key: member.key.clone(), value: member.value.duplicate() };
                    copies.push(copy);
                    i = i + 1;
                }
                let copy = Json::Object(copies);
                assert(copy@->Object_0 =~= self@->Object_0);
                copy
            },
        }
    }
}

impl Clone for Json {
    fn clone(&self) -> (copy: Json)
        ensures
            copy@ == self@,
    {
        self.duplicate()
    }
}

impl Clone for Member {
    fn clone(&self) -> (copy: Member)
        ensures
            copy@ == self@,
    {
        Member { key: self.key.clone(), value: self.value.duplicate() }
    }
}

} // verus!
