//! The bridge to `serde_json::Value`: a parsed value becomes a `Json`, and a
//! `Json` is written on one line as `serde_json` writes it.
use crate::json::{Json, JsonValue, Member, MemberValue};
use vstd::prelude::*;

verus! {

/// `serde_json::Value`, as the parser hands it over and as the writer takes
/// it. Nothing in it is open to the proofs; `value_tree` names what it holds.
#[verifier::external_type_specification]
#[verifier::external_body]
pub struct ExValue(serde_json::Value);

/// The tree that a `serde_json::Value` holds: its variant with what the
/// variant carries, each number as the text that `serde_json` displays for it,
/// the members of an object in the order in which its map hands them out.
pub uninterp spec fn value_tree(value: serde_json::Value) -> JsonValue;

/// The text that `serde_json` displays for a value, in its compact form; it
/// depends on the tree that the value holds and on nothing else.
pub uninterp spec fn compact_json(tree: JsonValue) -> Seq<char>;

/// The first place among `members` that has `key`, if any has.
pub open spec fn place_of(members: Seq<MemberValue>, key: Seq<char>) -> Option<int>
    decreases members.len(),
{
    if members.len() == 0 {
        None
    } else {
        match place_of(members.drop_last(), key) {
            Some(at) => Some(at),
            None => if members.last().key == key {
                Some(members.len() - 1)
            } else {
                None
            },
        }
    }
}

/// A tree as a map-backed value holds it: in every object a key stands once,
/// at the place where it came first and with the value that came last.
pub open spec fn merged(tree: JsonValue) -> JsonValue
    decreases tree, 0nat,
{
    match tree {
        JsonValue::Array(items) => JsonValue::Array(
            Seq::new(
                items.len(),
                |i: int|
                    if 0 <= i < items.len() {
                        merged(items[i])
                    } else {
                        JsonValue::Null
                    },
            ),
        ),
        JsonValue::Object(members) => JsonValue::Object(merged_members(members, members.len())),
        _ => tree,
    }
}

/// The first `count` of `members` put into a map one after the other: a member
/// whose key is new comes last, and one whose key is there already replaces
/// the value at the key's place.
pub open spec fn merged_members(members: Seq<MemberValue>, count: nat) -> Seq<MemberValue>
    decreases members, count,
{
    if count == 0 || count > members.len() {
        Seq::empty()
    } else {
        let before = merged_members(members, (count - 1) as nat);
        let member = MemberValue {
            key: members[count - 1].key,
            value: merged(members[count - 1].value),
        };
        match place_of(before, member.key) {
            Some(at) => before.update(at, member),
            None => before.push(member),
        }
    }
}

/// A value written on one line, as `serde_json` writes it in compact form.
pub open spec fn compact_text(tree: JsonValue) -> Seq<char> {
    compact_json(merged(tree))
}

/// Moves a `serde_json::Value` into a `Json`, variant by variant and member by
/// member in the order of the map's `into_iter`. The result is the tree that
/// `value_tree` names.
#[verifier::external_body]
pub(crate) fn json_from_value(value: serde_json::Value) -> (json: Json)
    ensures
        json@ == value_tree(value),
{
    match value {
        serde_json::Value::Null => Json::Null,
        serde_json::Value::Bool(b) => Json::Bool(b),
        serde_json::Value::Number(n) => Json::Number(n),
        serde_json::Value::String(s) => Json::String(s),
        serde_json::Value::Array(items) => Json::Array(
            items.into_iter().map(json_from_value).collect(),
        ),
        serde_json::Value::Object(map) => Json::Object(
            map.into_iter().map(|(key, value)| Member { key, value: json_from_value(value) }).collect(),
        ),
    }
}

/// Builds the `serde_json::Value` of a `Json`, variant by variant; the members
/// of an object are collected into a `serde_json::Map`, which inserts them one
/// after the other: a key that comes again keeps its place and takes the new
/// value. The value holds the tree of the `Json`, merged so.
#[verifier::external_body]
fn value_from_json(json: &Json) -> (value: serde_json::Value)
    ensures
        value_tree(value) == merged(json@),
{
    match json {
        Json::Null => serde_json::Value::Null,
        Json::Bool(b) => serde_json::Value::Bool(*b),
        Json::Number(n) => serde_json::Value::Number(n.clone()),
        Json::String(s) => serde_json::Value::String(s.clone()),
        Json::Array(items) => serde_json::Value::Array(
            items.iter().map(value_from_json).collect(),
        ),
        Json::Object(members) => serde_json::Value::Object(
            members.iter().map(|m| (m.key.clone(), value_from_json(&m.value))).collect(),
        ),
    }
}

/// The `Display` of `serde_json::Value`, through `to_string`: the result is the
/// text that `compact_json` names for the tree of the value.
#[verifier::external_body]
fn value_display(value: &serde_json::Value) -> (text: String)
    ensures
        text@ == compact_json(value_tree(*value)),
{
    value.to_string()
}

/// Writes a value on one line.
pub fn compact_value(json: &Json) -> (text: String)
    ensures
        text@ == compact_text(json@),
{
    let value = value_from_json(json);
    value_display(&value)
}

/// Whether no object of the tree, at any depth, has a key twice.
pub open spec fn keys_distinct(tree: JsonValue) -> bool
    decreases tree, 0nat,
{
    match tree {
        JsonValue::Array(items) => forall|i: int|
            0 <= i < items.len() ==> keys_distinct(#[trigger] items[i]),
        JsonValue::Object(members) => members_distinct(members),
        _ => true,
    }
}

/// Whether the members have keys that differ from one another, and values in
/// which no object has a key twice.
pub open spec fn members_distinct(members: Seq<MemberValue>) -> bool
    decreases members, 0nat,
{
    &&& forall|i: int, j: int|
        0 <= i < j < members.len() ==> (#[trigger] members[i]).key != (#[trigger] members[j]).key
    &&& forall|i: int| 0 <= i < members.len() ==> keys_distinct((#[trigger] members[i]).value)
}

proof fn lemma_place_of_absent(members: Seq<MemberValue>, key: Seq<char>)
    requires
        forall|i: int| 0 <= i < members.len() ==> (#[trigger] members[i]).key != key,
    ensures
        place_of(members, key) is None,
    decreases members.len(),
{
    if members.len() > 0 {
        assert forall|i: int| 0 <= i < members.drop_last().len() implies (#[trigger] members.drop_last()[i]).key
            != key by {
            assert(members.drop_last()[i] == members[i]);
        }
        lemma_place_of_absent(members.drop_last(), key);
        assert(members.last() == members[members.len() - 1]);
    }
}

proof fn lemma_merged_members_of_distinct(members: Seq<MemberValue>, count: nat)
    requires
        members_distinct(members),
        count <= members.len(),
    ensures
        merged_members(members, count) == members.take(count as int),
    decreases members, count,
{
    if count > 0 {
        let before = merged_members(members, (count - 1) as nat);
        lemma_merged_members_of_distinct(members, (count - 1) as nat);
        lemma_merged_of_distinct(members[count - 1].value);
        assert forall|i: int| 0 <= i < before.len() implies (#[trigger] before[i]).key
            != members[count - 1].key by {
            assert(before[i] == members[i]);
        }
        lemma_place_of_absent(before, members[count - 1].key);
        assert(before.push(members[count - 1]) =~= members.take(count as int));
    } else {
        assert(members.take(0) =~= Seq::<MemberValue>::empty());
    }
}

/// A tree in which no object has a key twice is held by a map as it is: it is
/// written on one line as `serde_json` writes the value that holds it.
pub proof fn lemma_merged_of_distinct(tree: JsonValue)
    requires
        keys_distinct(tree),
    ensures
        merged(tree) == tree,
        compact_text(tree) == compact_json(tree),
    decreases tree, 1nat,
{
    match tree {
        JsonValue::Array(items) => {
            assert forall|i: int| 0 <= i < items.len() implies merged(#[trigger] items[i])
                == items[i] by {
                lemma_merged_of_distinct(items[i]);
            }
            assert(merged(tree)->Array_0 =~= items);
        },
        JsonValue::Object(members) => {
            lemma_merged_members_of_distinct(members, members.len());
            assert(members.take(members.len() as int) =~= members);
        },
        _ => {},
    }
}

} // verus!
