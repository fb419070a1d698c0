//! The allow-list: which fields of a created repository are shown.
use crate::json::{field, first_named, Json, JsonValue, Member, MemberValue};
use crate::text::texts;
use vstd::prelude::*;

verus! {

/// Whether a member's key is one of `keys`.
pub open spec fn named_in(keys: Seq<Seq<char>>) -> spec_fn(MemberValue) -> bool {
    |member: MemberValue| keys.contains(member.key)
}

/// `value` without the members whose key is not among `keys`; the members that
/// stay keep their order. A value that is no object stays as it is.
pub open spec fn retained(value: JsonValue, keys: Seq<Seq<char>>) -> JsonValue {
    match value {
        JsonValue::Object(members) => JsonValue::Object(members.filter(named_in(keys))),
        _ => value,
    }
}

/// The fields of a created repository that are shown.
pub open spec fn kept_fields() -> Seq<Seq<char>> {
    seq![
        "id"@,
        "clone_url"@,
        "full_name"@,
        "name"@,
        "owner"@,
        "ssh_url"@,
        "private"@,
        "default_branch"@,
    ]
}

/// The fields of the owner that are shown.
pub open spec fn kept_owner_fields() -> Seq<Seq<char>> {
    seq!["login"@]
}

/// A member as the allow-list shows it: the owner reduced to its shown fields,
/// any other member unchanged.
pub open spec fn shown_member(member: MemberValue) -> MemberValue {
    if member.key == "owner"@ {
        MemberValue { key: member.key, value: retained(member.value, kept_owner_fields()) }
    } else {
        member
    }
}

/// The response reduced to the allow-list: of its members those with a shown
/// key, in their order, and inside `owner` only the owner's shown fields.
pub open spec fn allow_listed(response: JsonValue) -> JsonValue {
    match response {
        JsonValue::Object(members) => JsonValue::Object(
            members.filter(named_in(kept_fields())).map_values(|member: MemberValue| shown_member(member)),
        ),
        _ => response,
    }
}

fn list_of(names: &[&str]) -> (list: Vec<String>)
    ensures
        list@.len() == names@.len(),
        forall|i: int| 0 <= i < names@.len() ==> list@[i]@ == names@[i]@,
{
    let mut list: Vec<String> = Vec::new();
    let mut i: usize = 0;
    while i < names.len()
        invariant
            i <= names@.len(),
            list@.len() == i,
            forall|j: int| 0 <= j < i ==> list@[j]@ == names@[j]@,
        decreases names.len() - i,
    {
        list.push(String::from_str(names[i]));
        i = i + 1;
    }
    list
}

/// The names of the response fields that are shown.
pub fn keep_fields() -> (fields: Vec<String>)
    ensures
        texts(fields@) == kept_fields(),
{
    list_of(
        &["id", "clone_url", "full_name", "name", "owner", "ssh_url", "private", "default_branch"],
    )
}

/// The names of the owner's fields that are shown.
pub fn keep_owner_fields() -> (fields: Vec<String>)
    ensures
        texts(fields@) == kept_owner_fields(),
{
    list_of(&["login"])
}

fn is_among(keys: &Vec<String>, key: &String) -> (found: bool)
    ensures
        found == texts(keys@).contains(key@),
{
    let mut i: usize = 0;
    while i < keys.len()
        invariant
            i <= keys.len(),
            forall|j: int| 0 <= j < i ==> texts(keys@)[j] != key@,
        decreases keys.len() - i,
    {
        if keys[i] == *key {
            assert(texts(keys@)[i as int] == key@);
            return true;
        }
        i = i + 1;
    }
    false
}

/// Drops from an object the members whose key is not among `keys`.
pub fn retain_keys(value: &Json, keys: &Vec<String>) -> (kept: Json)
    ensures
        kept@ == retained(value@, texts(keys@)),
{
    match value {
        Json::Object(members) => {
            let ghost wanted = named_in(texts(keys@));
            let ghost all = value@->Object_0;
            let mut chosen: Vec<Member> = Vec::new();
            let mut i: usize = 0;
            while i < members.len()
                invariant
                    i <= members.len(),
                    *value == Json::Object(*members),
                    all == value@->Object_0,
                    wanted == named_in(texts(keys@)),
                    Json::Object(chosen)@->Object_0 == all.take(i as int).filter(wanted),
                decreases members.len() - i,
            {
                let ghost before = Json::Object(chosen)@->Object_0;
                proof {
                    reveal(Seq::filter);
                    assert(all.take(i + 1).drop_last() =~= all.take(i as int));
                }
                if is_among(keys, &members[i].key) {
                    chosen.push(members[i].clone());
                    assert(Json::Object(chosen)@->Object_0 =~= before.push(members[i as int]@));
                }
                i = i + 1;
            }
            assert(all.take(i as int) =~= all);
            Json::Object(chosen)
        },
        _ => value.clone(),
    }
}

/// Reduces a response to the allow-list.
pub fn filter_response(response: &Json) -> (shown: Json)
    ensures
        shown@ == allow_listed(response@),
{
    let owner_key = String::from_str("owner");
    let owner_fields = keep_owner_fields();
    match retain_keys(response, &keep_fields()) {
        Json::Object(members) => {
            let ghost kept = Json::Object(members)@->Object_0;
            let mut shown: Vec<Member> = Vec::new();
            let mut i: usize = 0;
            while i < members.len()
                invariant
                    i <= members.len(),
                    owner_key@ == "owner"@,
                    texts(owner_fields@) == kept_owner_fields(),
                    kept == Json::Object(members)@->Object_0,
                    shown@.len() == i,
                    forall|j: int| 0 <= j < i ==> shown@[j]@ == shown_member(kept[j]),
                decreases members.len() - i,
            {
                let member = &members[i];
                assert(kept[i as int] == member@);
                if member.key == owner_key {
                    let value = retain_keys(&member.value, &owner_fields);
                    shown.push(Member { key: member.key.clone(), value });
                } else {
                    shown.push(member.clone());
                }
                i = i + 1;
            }
            let shown = Json::Object(shown);
            assert(shown@->Object_0 =~= kept.map_values(|member: MemberValue| shown_member(member)));
            shown
        },
        other => other,
    }
}

proof fn lemma_filter_keeps_all<A>(s: Seq<A>, pred: spec_fn(A) -> bool)
    requires
        forall|i: int| 0 <= i < s.len() ==> pred(#[trigger] s[i]),
    ensures
        s.filter(pred) == s,
    decreases s.len(),
{
    reveal(Seq::filter);
    if s.len() > 0 {
        lemma_filter_keeps_all(s.drop_last(), pred);
    }
}

/// Dropping the members outside `keys` a second time changes nothing.
pub proof fn lemma_retained_idempotent(value: JsonValue, keys: Seq<Seq<char>>)
    ensures
        retained(retained(value, keys), keys) == retained(value, keys),
{
    if let JsonValue::Object(members) = value {
        let kept = members.filter(named_in(keys));
        assert forall|i: int| 0 <= i < kept.len() implies named_in(keys)(#[trigger] kept[i]) by {
            members.lemma_filter_pred(named_in(keys), i);
        }
        lemma_filter_keeps_all(kept, named_in(keys));
    }
}

/// Whether every member of `value`, if it is an object, has a key among `keys`.
pub open spec fn has_only(value: JsonValue, keys: Seq<Seq<char>>) -> bool {
    forall|i: int| 0 <= i < value.members().len() ==> keys.contains(#[trigger] value.members()[i].key)
}

/// Dropping the members outside `keys` leaves only members with a key among
/// `keys`.
pub proof fn lemma_retained_exact(value: JsonValue, keys: Seq<Seq<char>>)
    ensures
        has_only(retained(value, keys), keys),
{
    if let JsonValue::Object(members) = value {
        let kept = members.filter(named_in(keys));
        assert forall|i: int| 0 <= i < kept.len() implies keys.contains(#[trigger] kept[i].key) by {
            members.lemma_filter_pred(named_in(keys), i);
        }
    }
}

/// What the allow-list leaves: every member of the reduced response has a
/// shown key, and every member of an `owner` object in it is a shown field of
/// the owner.
pub proof fn lemma_allow_listed_exact(response: JsonValue)
    ensures
        has_only(allow_listed(response), kept_fields()),
        forall|i: int|
            0 <= i < allow_listed(response).members().len() && allow_listed(
                response,
            ).members()[i].key == "owner"@ ==> has_only(
                (#[trigger] allow_listed(response).members()[i]).value,
                kept_owner_fields(),
            ),
{
    if let JsonValue::Object(members) = response {
        let kept = members.filter(named_in(kept_fields()));
        let shown = kept.map_values(|member: MemberValue| shown_member(member));
        assert forall|i: int| 0 <= i < shown.len() implies kept_fields().contains(
            #[trigger] shown[i].key,
        ) by {
            members.lemma_filter_pred(named_in(kept_fields()), i);
        }
        assert forall|i: int| 0 <= i < shown.len() && shown[i].key == "owner"@ implies has_only(
            (#[trigger] shown[i]).value,
            kept_owner_fields(),
        ) by {
            lemma_retained_exact(kept[i].value, kept_owner_fields());
        }
    }
}

/// Reducing a response to the allow-list a second time changes nothing.
pub proof fn lemma_allow_listed_idempotent(response: JsonValue)
    ensures
        allow_listed(allow_listed(response)) == allow_listed(response),
{
    if let JsonValue::Object(members) = response {
        let wanted = named_in(kept_fields());
        let show = |member: MemberValue| shown_member(member);
        let once = members.filter(wanted).map_values(show);
        assert forall|i: int| 0 <= i < once.len() implies wanted(#[trigger] once[i]) by {
            members.lemma_filter_pred(wanted, i);
        }
        lemma_filter_keeps_all(once, wanted);
        assert forall|i: int| 0 <= i < once.len() implies shown_member(#[trigger] once[i])
            == once[i] by {
            lemma_retained_idempotent(members.filter(wanted)[i].value, kept_owner_fields());
        }
        assert(once.map_values(show) =~= once);
    }
}

/// The members that stay keep their order: what stays of two lists of members
/// written one after the other is what stays of the first, followed by what
/// stays of the second.
pub proof fn lemma_retained_in_order(
    first: Seq<MemberValue>,
    second: Seq<MemberValue>,
    keys: Seq<Seq<char>>,
)
    ensures
        retained(JsonValue::Object(first + second), keys).members() == retained(
            JsonValue::Object(first),
            keys,
        ).members() + retained(JsonValue::Object(second), keys).members(),
{
    Seq::filter_distributes_over_add(first, second, named_in(keys));
}

proof fn lemma_filter_first<A>(s: Seq<A>, pred: spec_fn(A) -> bool)
    requires
        s.len() > 0,
    ensures
        s.filter(pred) == if pred(s[0]) {
            seq![s[0]] + s.drop_first().filter(pred)
        } else {
            s.drop_first().filter(pred)
        },
{
    let head = seq![s[0]];
    assert(head + s.drop_first() =~= s);
    Seq::filter_distributes_over_add(head, s.drop_first(), pred);
    assert(head.filter(pred) =~= if pred(s[0]) {
        head
    } else {
        Seq::empty()
    }) by {
        reveal_with_fuel(Seq::filter, 2);
        assert(head.drop_last() =~= Seq::empty());
    }
    assert(Seq::<A>::empty() + s.drop_first().filter(pred) =~= s.drop_first().filter(pred));
}

proof fn lemma_shown_first_named(members: Seq<MemberValue>, key: Seq<char>)
    requires
        kept_fields().contains(key),
    ensures
        first_named(
            members.filter(named_in(kept_fields())).map_values(
                |member: MemberValue| shown_member(member),
            ),
            key,
        ) == match first_named(members, key) {
            Some(value) => Some(shown_member(MemberValue { key, value }).value),
            None => None,
        },
    decreases members.len(),
{
    let wanted = named_in(kept_fields());
    let show = |member: MemberValue| shown_member(member);
    if members.len() > 0 {
        let rest = members.drop_first();
        lemma_shown_first_named(rest, key);
        lemma_filter_first(members, wanted);
        if wanted(members[0]) {
            let shown = members.filter(wanted).map_values(show);
            assert(shown[0] == shown_member(members[0]));
            assert(shown.drop_first() =~= rest.filter(wanted).map_values(show));
        }
    }
}

/// The allow-list loses no shown field: under a shown key the reduced response
/// holds what the response holds, the owner reduced to its shown fields.
pub proof fn lemma_allow_listed_keeps(response: JsonValue, key: Seq<char>)
    requires
        kept_fields().contains(key),
    ensures
        field(allow_listed(response), key) == match field(response, key) {
            Some(value) => Some(
                if key == "owner"@ {
                    retained(value, kept_owner_fields())
                } else {
                    value
                },
            ),
            None => None,
        },
{
    if let JsonValue::Object(members) = response {
        lemma_shown_first_named(members, key);
    }
}

} // verus!
