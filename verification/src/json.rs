//! JSON documents, and the lookup and making of their members.
use vstd::prelude::*;
use vstd::string::*;

use crate::model::Modeled;
use crate::text::same_text;

verus! {

#[derive(Debug, PartialEq, Eq)]
pub enum Json {
    Null,
    Bool(bool),
    Number(String),
    Text(String),
    Array(Vec<Json>),
    Object(Vec<Member>),
}

#[derive(Debug, PartialEq, Eq)]
pub struct Member {
    pub key: String,
    pub value: Json,
}

pub enum JsonModel {
    Null,
    Bool(bool),
    Number(Seq<char>),
    Text(Seq<char>),
    Array(Seq<JsonModel>),
    Object(Seq<MemberModel>),
}

pub struct MemberModel {
    pub key: Seq<char>,
    pub value: JsonModel,
}

impl DeepView for Json {
    type V = JsonModel;

    open spec fn deep_view(&self) -> JsonModel {
        json_model(*self)
    }
}

pub open spec fn json_model(j: Json) -> JsonModel
    decreases j,
{
    match j {
        Json::Null => JsonModel::Null,
        Json::Bool(b) => JsonModel::Bool(b),
        Json::Number(t) => JsonModel::Number(t@),
        Json::Text(t) => JsonModel::Text(t@),
        Json::Array(items) => JsonModel::Array(
            Seq::new(
                items@.len(),
                |i: int|
                    if 0 <= i < items@.len() {
                        json_model(items@[i])
                    } else {
                        JsonModel::Null
                    },
            ),
        ),
        Json::Object(members) => JsonModel::Object(
            Seq::new(
                members@.len(),
                |i: int|
                    if 0 <= i < members@.len() {
                        MemberModel { key: members@[i].key@, value: json_model(members@[i].value) }
                    } else {
                        MemberModel { key: Seq::empty(), value: JsonModel::Null }
                    },
            ),
        ),
    }
}

impl Modeled for Json {
    fn duplicate(&self) -> (r: Self)
        decreases self,
    {
        match self {
            Json::Null => Json::Null,
            Json::Bool(b) => Json::Bool(*b),
            Json::Number(t) => Json::Number(t.clone()),
            Json::Text(t) => Json::Text(t.clone()),
            Json::Array(items) => {
                let mut out: Vec<Json> = Vec::new();
                let mut i: usize = 0;
                while i < items.len()
                    invariant
                        i <= items@.len(),
                        out@.len() == i,
                        forall|k: int|
                            0 <= k < i ==> json_model(#[trigger] out@[k]) == json_model(items@[k]),
                        *self == Json::Array(*items),
                    decreases items.len() - i,
                {
                    let item = &items[i];
                    assert(decreases_to!(*self => self->Array_0));
                    out.push(item.duplicate());
                    i = i + 1;
                }
                let r = Json::Array(out);
                assert(json_model(r)->Array_0 =~= json_model(*self)->Array_0);
                r
            },
            Json::Object(members) => {
                let mut out: Vec<Member> = Vec::new();
                let mut i: usize = 0;
                while i < members.len()
                    invariant
                        i <= members@.len(),
                        out@.len() == i,
                        forall|k: int|
                            0 <= k < i ==> (#[trigger] out@[k]).key@ == members@[k].key@
                                && json_model(out@[k].value) == json_model(members@[k].value),
                        *self == Json::Object(*members),
                    decreases members.len() - i,
                {
                    let member = &members[i];
                    assert(decreases_to!(*self => self->Object_0));
                    assert(decreases_to!(member => member.value));
                    out.push(Member { key: member.key.clone(), value: member.value.duplicate() });
                    i = i + 1;
                }
                let r = Json::Object(out);
                proof {
                    let a = json_model(r)->Object_0;
                    let b = json_model(*self)->Object_0;
                    assert forall|k: int| 0 <= k < a.len() implies a[k] == b[k] by {
                        assert(out@[k].key@ == members@[k].key@);
                    }
                    assert(a =~= b);
                }
                r
            },
        }
    }

    fn same(&self, other: &Self) -> (r: bool)
        decreases self,
    {
        match (self, other) {
            (Json::Null, Json::Null) => true,
            (Json::Bool(a), Json::Bool(b)) => *a == *b,
            (Json::Number(a), Json::Number(b)) => *a == *b,
            (Json::Text(a), Json::Text(b)) => *a == *b,
            (Json::Array(a), Json::Array(b)) => {
                let ghost left = json_model(*self)->Array_0;
                let ghost right = json_model(*other)->Array_0;
                if a.len() != b.len() {
                    assert(left.len() != right.len());
                    return false;
                }
                let mut i: usize = 0;
                while i < a.len()
                    invariant
                        i <= a@.len(),
                        a@.len() == b@.len(),
                        left.len() == a@.len(),
                        right.len() == b@.len(),
                        forall|k: int| 0 <= k < i ==> #[trigger] left[k] == right[k],
                        forall|k: int|
                            0 <= k < a@.len() ==> #[trigger] left[k] == json_model(a@[k]),
                        forall|k: int|
                            0 <= k < b@.len() ==> #[trigger] right[k] == json_model(b@[k]),
                        *self == Json::Array(*a),
                        json_model(*self) == JsonModel::Array(left),
                        json_model(*other) == JsonModel::Array(right),
                    decreases a.len() - i,
                {
                    let item = &a[i];
                    assert(decreases_to!(*self => self->Array_0));
                    if !item.same(&b[i]) {
                        assert(left[i as int] != right[i as int]);
                        return false;
                    }
                    i = i + 1;
                }
                assert(left =~= right);
                true
            },
            (Json::Object(a), Json::Object(b)) => {
                let ghost left = json_model(*self)->Object_0;
                let ghost right = json_model(*other)->Object_0;
                if a.len() != b.len() {
                    assert(left.len() != right.len());
                    return false;
                }
                let mut i: usize = 0;
                while i < a.len()
                    invariant
                        i <= a@.len(),
                        a@.len() == b@.len(),
                        left.len() == a@.len(),
                        right.len() == b@.len(),
                        forall|k: int| 0 <= k < i ==> #[trigger] left[k] == right[k],
                        forall|k: int|
                            0 <= k < a@.len() ==> (#[trigger] left[k]).key == a@[k].key@
                                && left[k].value == json_model(a@[k].value),
                        forall|k: int|
                            0 <= k < b@.len() ==> (#[trigger] right[k]).key == b@[k].key@
                                && right[k].value == json_model(b@[k].value),
                        *self == Json::Object(*a),
                        json_model(*self) == JsonModel::Object(left),
                        json_model(*other) == JsonModel::Object(right),
                    decreases a.len() - i,
                {
                    let member = &a[i];
                    assert(decreases_to!(*self => self->Object_0));
                    assert(decreases_to!(member => member.value));
                    if member.key != b[i].key || !member.value.same(&b[i].value) {
                        assert(left[i as int].key == a@[i as int].key@);
                        assert(right[i as int].key == b@[i as int].key@);
                        assert(left[i as int] != right[i as int]);
                        return false;
                    }
                    assert(left[i as int] == right[i as int]);
                    i = i + 1;
                }
                assert(left =~= right);
                true
            },
            _ => false,
        }
    }
}

impl Clone for Json {
    fn clone(&self) -> (r: Self)
        ensures
            r.deep_view() == self.deep_view(),
    {
        self.duplicate()
    }
}

/// The value of an object's member with the given key.
pub open spec fn member_in(members: Seq<MemberModel>, key: Seq<char>) -> Option<JsonModel>
    decreases members.len(),
{
    if members.len() == 0 {
        None
    } else if members[0].key == key {
        Some(members[0].value)
    } else {
        member_in(members.drop_first(), key)
    }
}

/// The value of a member, where the value is an object that has it.
pub open spec fn member_of(value: JsonModel, key: Seq<char>) -> Option<JsonModel> {
    match value {
        JsonModel::Object(members) => member_in(members, key),
        _ => None,
    }
}

/// The text of a member, where it is a text.
pub open spec fn text_member(value: JsonModel, key: Seq<char>) -> Option<Seq<char>> {
    match member_of(value, key) {
        Some(JsonModel::Text(text)) => Some(text),
        _ => None,
    }
}

/// A text, or null where there is none.
pub open spec fn text_or_null(text: Option<Seq<char>>) -> JsonModel {
    match text {
        Some(text) => JsonModel::Text(text),
        None => JsonModel::Null,
    }
}

/// A truth value, or null where there is none.
pub open spec fn bool_or_null(value: Option<bool>) -> JsonModel {
    match value {
        Some(value) => JsonModel::Bool(value),
        None => JsonModel::Null,
    }
}

impl Json {
    /// The value of a member, where this is an object that has it.
    pub fn get(&self, key: &str) -> (r: Option<&Json>)
        ensures
            r.deep_view() == member_of(self.deep_view(), key@),
    {
        match self {
            Json::Object(members) => {
                let ghost all = json_model(*self)->Object_0;
                let mut i: usize = 0;
                assert(all.skip(0) =~= all);
                while i < members.len()
                    invariant
                        i <= members@.len(),
                        self.deep_view() == JsonModel::Object(all),
                        all.len() == members@.len(),
                        forall|k: int|
                            0 <= k < members@.len() ==> (#[trigger] all[k]).key == members@[k].key@
                                && all[k].value == json_model(members@[k].value),
                        member_in(all, key@) == member_in(all.skip(i as int), key@),
                    decreases members.len() - i,
                {
                    let member = &members[i];
                    assert(all.skip(i as int)[0] == all[i as int]);
                    if same_text(member.key.as_str(), key) {
                        return Some(&member.value);
                    }
                    assert(all.skip(i as int).drop_first() =~= all.skip(i + 1));
                    i = i + 1;
                }
                None
            },
            _ => None,
        }
    }

    /// The text of a member, where this is an object that has it as a text.
    pub fn get_text(&self, key: &str) -> (r: Option<&String>)
        ensures
            r.deep_view() == text_member(self.deep_view(), key@),
    {
        match self.get(key) {
            Some(Json::Text(text)) => Some(text),
            _ => None,
        }
    }

    /// A text, or null where there is none.
    pub fn optional_text(text: &Option<String>) -> (r: Json)
        ensures
            r.deep_view() == text_or_null(text.deep_view()),
    {
        match text {
            Some(text) => Json::Text(text.clone()),
            None => Json::Null,
        }
    }

    /// A truth value, or null where there is none.
    pub fn optional_bool(value: Option<bool>) -> (r: Json)
        ensures
            r.deep_view() == bool_or_null(value),
    {
        match value {
            Some(value) => Json::Bool(value),
            None => Json::Null,
        }
    }
}

/// A member with a key and a value.
pub open spec fn member(key: Seq<char>, value: JsonModel) -> MemberModel {
    MemberModel { key, value }
}

/// The content of some members.
pub open spec fn members_of(members: Seq<Member>) -> Seq<MemberModel> {
    members.map_values(|m: Member| member(m.key@, json_model(m.value)))
}

/// Adds a member.
pub fn add_member(members: &mut Vec<Member>, key: &str, value: Json)
    ensures
        members_of(final(members)@) == members_of(old(members)@).push(
            member(key@, value.deep_view()),
        ),
{
    let ghost before = members@;
    members.push(Member { key: key.to_owned(), value });
    assert(members_of(members@) =~= members_of(before).push(member(key@, value.deep_view())));
}

/// The object with some members.
pub fn object_of(members: Vec<Member>) -> (r: Json)
    ensures
        r.deep_view() == JsonModel::Object(members_of(members@)),
{
    let r = Json::Object(members);
    assert(json_model(r)->Object_0 =~= members_of(members@));
    r
}

/// The array with some items.
pub fn array_of(items: Vec<Json>) -> (r: Json)
    ensures
        r.deep_view() == JsonModel::Array(items.deep_view()),
{
    let r = Json::Array(items);
    assert(json_model(r)->Array_0 =~= items.deep_view());
    r
}

/// An object with one member.
pub fn object1(a: &str, x: Json) -> (r: Json)
    ensures
        r.deep_view() == JsonModel::Object(seq![member(a@, x.deep_view())]),
{
    let mut members: Vec<Member> = Vec::new();
    add_member(&mut members, a, x);
    assert(members_of(members@) =~= seq![member(a@, x.deep_view())]);
    object_of(members)
}

/// An object with two members.
pub fn object2(a: &str, x: Json, b: &str, y: Json) -> (r: Json)
    ensures
        r.deep_view() == JsonModel::Object(
            seq![member(a@, x.deep_view()), member(b@, y.deep_view())],
        ),
{
    let mut members: Vec<Member> = Vec::new();
    add_member(&mut members, a, x);
    add_member(&mut members, b, y);
    assert(members_of(members@) =~= seq![member(a@, x.deep_view()), member(b@, y.deep_view())]);
    object_of(members)
}

/// An object with three members.
pub fn object3(a: &str, x: Json, b: &str, y: Json, c: &str, z: Json) -> (r: Json)
    ensures
        r.deep_view() == JsonModel::Object(
            seq![
                member(a@, x.deep_view()),
                member(b@, y.deep_view()),
                member(c@, z.deep_view()),
            ],
        ),
{
    let mut members: Vec<Member> = Vec::new();
    add_member(&mut members, a, x);
    add_member(&mut members, b, y);
    add_member(&mut members, c, z);
    assert(members_of(members@) =~= seq![
        member(a@, x.deep_view()),
        member(b@, y.deep_view()),
        member(c@, z.deep_view()),
    ]);
    object_of(members)
}

} // verus!
