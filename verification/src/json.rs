//! JSON documents as plain data.
//!
//! `Json` is the tree that the message schema reads and writes. `JsonModel` is
//! what such a tree denotes; every contract of the codec is stated over it.
//! The members of an object keep the order in which the document lists them.

use crate::number::{JsonNumber, NumberModel};
use vstd::prelude::*;

verus! {

/// What a JSON document denotes.
pub enum JsonModel {
    Null,
    Bool(bool),
    Number(NumberModel),
    Text(Seq<char>),
    Array(Seq<JsonModel>),
    /// The members in document order, each a key and its value.
    Object(Seq<(Seq<char>, JsonModel)>),
}

/// The shape of a JSON value, as far as a diagnostic names it.
#[derive(Clone, Copy, Debug, PartialEq, Eq, Structural)]
pub enum Shape {
    Null,
    Boolean,
    Integer,
    Float,
    String,
    Array,
    Object,
}

/// The shape of a value.
pub open spec fn shape_of(value: JsonModel) -> Shape {
    match value {
        JsonModel::Null => Shape::Null,
        JsonModel::Bool(_) => Shape::Boolean,
        JsonModel::Number(NumberModel::Integer(_)) => Shape::Integer,
        JsonModel::Number(NumberModel::Float(_)) => Shape::Float,
        JsonModel::Text(_) => Shape::String,
        JsonModel::Array(_) => Shape::Array,
        JsonModel::Object(_) => Shape::Object,
    }
}

/// The value of the first member named `key`, if there is one.
pub open spec fn lookup(members: Seq<(Seq<char>, JsonModel)>, key: Seq<char>) -> Option<JsonModel>
    decreases members.len(),
{
    if members.len() == 0 {
        None
    } else if members[0].0 == key {
        Some(members[0].1)
    } else {
        lookup(members.drop_first(), key)
    }
}

/// Whether some member is named `key`.
pub open spec fn has_key(members: Seq<(Seq<char>, JsonModel)>, key: Seq<char>) -> bool {
    exists|i: int| 0 <= i < members.len() && (#[trigger] members[i]).0 == key
}

/// Whether no two members share a key.
pub open spec fn distinct_keys(members: Seq<(Seq<char>, JsonModel)>) -> bool {
    forall|i: int, j: int|
        0 <= i < j < members.len() ==> (#[trigger] members[i]).0 != (#[trigger] members[j]).0
}

/// Whether no object anywhere in the document names a key twice.
pub open spec fn well_keyed(doc: JsonModel) -> bool
    decreases doc,
{
    match doc {
        JsonModel::Array(items) => forall|i: int|
            #![trigger items[i]]
            0 <= i < items.len() ==> well_keyed(items[i]),
        JsonModel::Object(members) => distinct_keys(members) && forall|i: int|
            #![trigger members[i]]
            0 <= i < members.len() ==> well_keyed(members[i].1),
        _ => true,
    }
}

/// The members that are not named `key`, in their order.
pub open spec fn without(members: Seq<(Seq<char>, JsonModel)>, key: Seq<char>) -> Seq<
    (Seq<char>, JsonModel),
>
    decreases members.len(),
{
    if members.len() == 0 {
        Seq::empty()
    } else if members[0].0 == key {
        without(members.drop_first(), key)
    } else {
        seq![members[0]] + without(members.drop_first(), key)
    }
}

/// Taking the members named `key` away leaves nothing under that name, and
/// under every other name what was there; every member left was there
/// before.
pub proof fn without_keeps(members: Seq<(Seq<char>, JsonModel)>, key: Seq<char>)
    ensures
        lookup(without(members, key), key) is None,
        forall|other: Seq<char>|
            other != key ==> #[trigger] lookup(without(members, key), other) == lookup(
                members,
                other,
            ),
        forall|i: int|
            0 <= i < without(members, key).len() ==> exists|j: int|
                0 <= j < members.len() && members[j] == #[trigger] without(members, key)[i],
    decreases members.len(),
{
    if members.len() == 0 {
    } else {
        let rest = members.drop_first();
        let left = without(members, key);
        without_keeps(rest, key);
        if members[0].0 == key {
            assert forall|i: int| 0 <= i < left.len() implies exists|j: int|
                0 <= j < members.len() && members[j] == #[trigger] left[i] by {
                let j = choose|j: int| 0 <= j < rest.len() && rest[j] == without(rest, key)[i];
                assert(members[j + 1] == left[i]);
            }
        } else {
            assert(left.drop_first() =~= without(rest, key));
            assert(left[0] == members[0]);
            assert forall|i: int| 0 <= i < left.len() implies exists|j: int|
                0 <= j < members.len() && members[j] == #[trigger] left[i] by {
                if i == 0 {
                    assert(members[0] == left[0]);
                } else {
                    assert(left[i] == without(rest, key)[i - 1]);
                    let j = choose|j: int|
                        0 <= j < rest.len() && rest[j] == without(rest, key)[i - 1];
                    assert(members[j + 1] == left[i]);
                }
            }
        }
    }
}

/// In a well-keyed array every item is well keyed.
pub proof fn well_keyed_item(items: Seq<JsonModel>, k: int)
    requires
        well_keyed(JsonModel::Array(items)),
        0 <= k < items.len(),
    ensures
        well_keyed(items[k]),
{
    let array = JsonModel::Array(items);
    assert(array->Array_0 == items);
    assert(well_keyed(array) == (forall|i: int|
        #![trigger items[i]]
        0 <= i < items.len() ==> well_keyed(items[i])));
}

/// A member that is not named `key` does not change what `key` finds behind
/// it; one that is named so decides it.
pub proof fn lookup_push(
    members: Seq<(Seq<char>, JsonModel)>,
    key: Seq<char>,
    value: JsonModel,
    wanted: Seq<char>,
)
    ensures
        lookup(members.push((key, value)), wanted) == match lookup(members, wanted) {
            Some(found) => Some(found),
            None => if key == wanted {
                Some(value)
            } else {
                None
            },
        },
    decreases members.len(),
{
    let longer = members.push((key, value));
    if members.len() == 0 {
        assert(longer[0] == (key, value));
        assert(longer.drop_first().len() == 0);
        assert(lookup(longer.drop_first(), wanted) is None);
    } else {
        assert(longer[0] == members[0]);
        assert(longer.drop_first() =~= members.drop_first().push((key, value)));
        lookup_push(members.drop_first(), key, value, wanted);
    }
}

/// `lookup` finds a value exactly when some member has the key, and the
/// value it finds is that of the first such member.
pub proof fn lookup_finds(members: Seq<(Seq<char>, JsonModel)>, key: Seq<char>)
    ensures
        lookup(members, key) is Some <==> has_key(members, key),
        lookup(members, key) matches Some(value) ==> exists|i: int|
            0 <= i < members.len() && (#[trigger] members[i]) == (key, value) && forall|j: int|
                0 <= j < i ==> (#[trigger] members[j]).0 != key,
    decreases members.len(),
{
    if members.len() == 0 {
    } else if members[0].0 == key {
        assert(members[0] == (key, members[0].1));
    } else {
        let rest = members.drop_first();
        lookup_finds(rest, key);
        if has_key(members, key) {
            let i = choose|i: int| 0 <= i < members.len() && (#[trigger] members[i]).0 == key;
            assert(rest[i - 1].0 == key);
        }
        if lookup(rest, key) is Some {
            let value = lookup(rest, key)->Some_0;
            let i = choose|i: int|
                0 <= i < rest.len() && (#[trigger] rest[i]) == (key, value) && forall|j: int|
                    0 <= j < i ==> (#[trigger] rest[j]).0 != key;
            assert(members[i + 1] == (key, value));
            assert forall|j: int| 0 <= j < i + 1 implies (#[trigger] members[j]).0 != key by {
                if j > 0 {
                    assert(rest[j - 1].0 != key);
                }
            }
        }
    }
}

/// One member of an object.
#[derive(Debug, PartialEq)]
pub struct Member {
    pub key: String,
    pub value: Json,
}

/// A JSON document.
#[derive(Debug, PartialEq)]
pub enum Json {
    Null,
    Bool(bool),
    Number(JsonNumber),
    Text(String),
    Array(Vec<Json>),
    Object(Vec<Member>),
}

/// What a list of values denotes, item by item.
pub open spec fn items_model(items: Seq<Json>) -> Seq<JsonModel> {
    Seq::new(items.len(), |i: int| items[i]@)
}

/// What a list of members denotes, member by member.
pub open spec fn members_model(members: Seq<Member>) -> Seq<(Seq<char>, JsonModel)> {
    Seq::new(members.len(), |i: int| (members[i].key@, members[i].value@))
}

impl Member {
    pub open spec fn view(&self) -> (Seq<char>, JsonModel) {
        (self.key@, self.value@)
    }

    /// A deep copy of the member.
    pub fn duplicate(&self) -> (copy: Member)
        ensures
            copy@ == self@,
    {
        Member { key: self.key.clone(), value: self.value.duplicate() }
    }
}

impl Clone for Member {
    fn clone(&self) -> (copy: Member)
        ensures
            copy@ == self@,
    {
        self.duplicate()
    }
}

impl Clone for Json {
    fn clone(&self) -> (copy: Json)
        ensures
            copy@ == self@,
    {
        self.duplicate()
    }
}

impl Json {
    pub open spec fn view(&self) -> JsonModel
        decreases self,
    {
        match self {
            Json::Null => JsonModel::Null,
            Json::Bool(b) => JsonModel::Bool(*b),
            Json::Number(n) => JsonModel::Number(n@),
            Json::Text(s) => JsonModel::Text(s@),
            Json::Array(items) => JsonModel::Array(
                Seq::new(
                    items@.len(),
                    |i: int|
                        if 0 <= i < items@.len() {
                            items@[i]@
                        } else {
                            JsonModel::Null
                        },
                ),
            ),
            Json::Object(members) => JsonModel::Object(
                Seq::new(
                    members@.len(),
                    |i: int|
                        if 0 <= i < members@.len() {
                            (members@[i].key@, members@[i].value@)
                        } else {
                            (Seq::empty(), JsonModel::Null)
                        },
                ),
            ),
        }
    }

    /// An array denotes the list of what its items denote.
    pub proof fn array_view(items: Vec<Json>)
        ensures
            Json::Array(items)@ == JsonModel::Array(items_model(items@)),
    {
        assert(Json::Array(items)@->Array_0 =~= items_model(items@));
    }

    /// An object denotes the list of what its members denote.
    pub proof fn object_view(members: Vec<Member>)
        ensures
            Json::Object(members)@ == JsonModel::Object(members_model(members@)),
    {
        assert(Json::Object(members)@->Object_0 =~= members_model(members@));
    }

    /// The shape of the value.
    pub fn shape(&self) -> (shape: Shape)
        ensures
            shape == shape_of(self@),
    {
        match self {
            Json::Null => Shape::Null,
            Json::Bool(_) => Shape::Boolean,
            Json::Number(n) => if n.is_integer() {
                Shape::Integer
            } else {
                Shape::Float
            },
            Json::Text(_) => Shape::String,
            Json::Array(_) => Shape::Array,
            Json::Object(_) => Shape::Object,
        }
    }

    /// A deep copy of the document.
    pub fn duplicate(&self) -> (copy: Json)
        ensures
            copy@ == self@,
        decreases self,
    {
        match self {
            Json::Null => Json::Null,
            Json::Bool(b) => Json::Bool(*b),
            Json::Number(n) => Json::Number(n.duplicate()),
            Json::Text(s) => Json::Text(s.clone()),
            Json::Array(items) => {
                let mut out: Vec<Json> = Vec::new();
                let mut i: usize = 0;
                while i < items.len()
                    invariant
                        i <= items.len(),
                        out.len() == i,
                        *self == Json::Array(*items),
                        forall|k: int| 0 <= k < i ==> (#[trigger] out@[k])@ == items@[k]@,
                    decreases items.len() - i,
                {
                    proof {
                        assert(decreases_to!(*self => self->Array_0));
                        assert(decreases_to!(self->Array_0 => self->Array_0[i as int]));
                    }
                    let item = items[i].duplicate();
                    out.push(item);
                    i = i + 1;
                }
                proof {
                    Json::array_view(out);
                    Json::array_view(*items);
                    assert(items_model(out@) =~= items_model(items@));
                }
                Json::Array(out)
            },
            Json::Object(members) => {
                let mut out: Vec<Member> = Vec::new();
                let mut i: usize = 0;
                while i < members.len()
                    invariant
                        i <= members.len(),
                        out.len() == i,
                        *self == Json::Object(*members),
                        forall|k: int| 0 <= k < i ==> (#[trigger] out@[k])@ == members@[k]@,
                    decreases members.len() - i,
                {
                    proof {
                        assert(decreases_to!(*self => self->Object_0));
                        assert(decreases_to!(self->Object_0 => self->Object_0[i as int]));
                        assert(decreases_to!(self->Object_0[i as int] => self->Object_0[i as int].value));
                    }
                    let value = members[i].value.duplicate();
                    let key = members[i].key.clone();
                    out.push(Member { key, value });
                    i = i + 1;
                }
                proof {
                    Json::object_view(out);
                    Json::object_view(*members);
                    assert forall|k: int| 0 <= k < out@.len() implies members_model(out@)[k]
                        == members_model(members@)[k] by {
                        assert(out@[k]@ == members@[k]@);
                    }
                    assert(members_model(out@) =~= members_model(members@));
                }
                Json::Object(out)
            },
        }
    }
}

/// What a value that may be there denotes.
pub open spec fn found_model(found: Option<&Json>) -> Option<JsonModel> {
    match found {
        Some(value) => Some(value@),
        None => None,
    }
}

/// What a value that may be there denotes.
pub open spec fn maybe_json_model(value: Option<Json>) -> Option<JsonModel> {
    match value {
        Some(v) => Some(v@),
        None => None,
    }
}

/// `<str as PartialEq>::eq`: two strings are equal when they hold the same
/// characters.
#[verifier::external_body]
pub(crate) fn same_text(a: &str, b: &str) -> (same: bool)
    ensures
        same == (a@ == b@),
{
    a == b
}

/// The value of the first member named `key`, if there is one.
pub fn find<'a>(members: &'a Vec<Member>, key: &str) -> (found: Option<&'a Json>)
    ensures
        found_model(found) == lookup(members_model(members@), key@),
{
    let mut i: usize = 0;
    assert(members_model(members@).skip(0) =~= members_model(members@));
    while i < members.len()
        invariant
            i <= members.len(),
            lookup(members_model(members@), key@) == lookup(
                members_model(members@).skip(i as int),
                key@,
            ),
        decreases members.len() - i,
    {
        let ghost rest = members_model(members@).skip(i as int);
        assert(rest[0] == members_model(members@)[i as int]);
        assert(rest.drop_first() =~= members_model(members@).skip(i as int + 1));
        if same_text(members[i].key.as_str(), key) {
            return Some(&members[i].value);
        }
        i = i + 1;
    }
    assert(members_model(members@).skip(i as int).len() == 0);
    None
}

} // verus!
