//! JSON documents as plain data, and their mathematical model.

use vstd::prelude::*;

verus! {

/// A JSON number: a non-negative integer, a negative integer, or any other
/// number, which is kept by its text.
#[derive(Debug, PartialEq, Eq)]
pub enum JsonNumber {
    PosInt(u64),
    NegInt(i64),
    Float(String),
}

/// The model of a [`JsonNumber`].
pub enum NumberModel {
    PosInt(u64),
    NegInt(i64),
    Float(Seq<char>),
}

/// A JSON document. An object keeps its members in the order in which they
/// were written; where a key occurs more than once, the last member counts.
#[derive(Debug, PartialEq, Eq)]
pub enum Json {
    Null,
    Bool(bool),
    Number(JsonNumber),
    String(String),
    Array(Vec<Json>),
    Object(Vec<(String, Json)>),
}

/// The model of a [`Json`] document.
pub enum JsonModel {
    Null,
    Bool(bool),
    Number(NumberModel),
    String(Seq<char>),
    Array(Seq<JsonModel>),
    Object(Seq<(Seq<char>, JsonModel)>),
}

impl View for JsonNumber {
    type V = NumberModel;

    open spec fn view(&self) -> NumberModel {
        match self {
            JsonNumber::PosInt(u) => NumberModel::PosInt(*u),
            JsonNumber::NegInt(i) => NumberModel::NegInt(*i),
            JsonNumber::Float(t) => NumberModel::Float(t@),
        }
    }
}

impl Json {
    /// The model of the document: each array and each object as the sequence
    /// of what it holds.
    pub open spec fn model(self) -> JsonModel
        decreases self,
    {
        match self {
            Json::Null => JsonModel::Null,
            Json::Bool(b) => JsonModel::Bool(b),
            Json::Number(n) => JsonModel::Number(n@),
            Json::String(s) => JsonModel::String(s@),
            Json::Array(items) => JsonModel::Array(
                Seq::new(
                    items@.len(),
                    |i: int|
                        if 0 <= i < items@.len() {
                            items@[i].model()
                        } else {
                            JsonModel::Null
                        },
                ),
            ),
            Json::Object(members) => JsonModel::Object(
                Seq::new(
                    members@.len(),
                    |i: int|
                        if 0 <= i < members@.len() {
                            (members@[i].0@, members@[i].1.model())
                        } else {
                            (Seq::empty(), JsonModel::Null)
                        },
                ),
            ),
        }
    }
}

impl View for Json {
    type V = JsonModel;

    open spec fn view(&self) -> JsonModel {
        self.model()
    }
}

/// The value that an object's members give to `key`: that of the last member
/// with this key.
pub open spec fn member_value(members: Seq<(Seq<char>, JsonModel)>, key: Seq<char>) -> Option<
    JsonModel,
>
    decreases members.len(),
{
    if members.len() == 0 {
        None
    } else if members.last().0 == key {
        Some(members.last().1)
    } else {
        member_value(members.drop_last(), key)
    }
}

impl Json {
    /// The member of an object with the given key, if `self` is an object
    /// that has one.
    pub fn field(&self, key: &str) -> (found: Option<&Json>)
        ensures
            match self@ {
                JsonModel::Object(members) => match found {
                    Some(value) => member_value(members, key@) == Some(value@),
                    None => member_value(members, key@).is_none(),
                },
                _ => found.is_none(),
            },
    {
        match self {
            Json::Object(members) => {
                let wanted = key.to_owned();
                let ghost all = self@->Object_0;
                let mut i: usize = members.len();
                assert(all.take(i as int) =~= all);
                while i > 0
                    invariant
                        i <= members@.len(),
                        wanted@ == key@,
                        self@ == JsonModel::Object(all),
                        all.len() == members@.len(),
                        forall|k: int|
                            0 <= k < members@.len() ==> (#[trigger] all[k]) == (
                                members@[k].0@,
                                members@[k].1@,
                            ),
                        member_value(all, key@) == member_value(all.take(i as int), key@),
                    decreases i,
                {
                    i = i - 1;
                    proof {
                        assert(all.take(i + 1).drop_last() =~= all.take(i as int));
                        assert(all.take(i + 1).last() == all[i as int]);
                    }
                    if members[i].0 == wanted {
                        return Some(&members[i].1);
                    }
                }
                None
            },
            _ => None,
        }
    }
}

/// The models of the items of an array.
pub open spec fn items_model(items: Seq<Json>) -> Seq<JsonModel> {
    Seq::new(items.len(), |i: int| items[i]@)
}

/// The models of the members of an object.
pub open spec fn members_model(members: Seq<(String, Json)>) -> Seq<(Seq<char>, JsonModel)> {
    Seq::new(members.len(), |i: int| (members[i].0@, members[i].1@))
}

/// The model of an array is the array of its items' models, that of an object
/// the object of its members' models.
pub proof fn lemma_model_of_parts(doc: Json)
    ensures
        doc matches Json::Array(items) ==> doc@ == JsonModel::Array(items_model(items@)),
        doc matches Json::Object(members) ==> doc@ == JsonModel::Object(members_model(members@)),
{
    match doc {
        Json::Array(items) => {
            assert(doc@->Array_0 =~= items_model(items@));
        },
        Json::Object(members) => {
            assert(doc@->Object_0 =~= members_model(members@));
        },
        _ => {},
    }
}

/// The text that the members give to `key`, if its value is a string.
pub open spec fn text_member(members: Seq<(Seq<char>, JsonModel)>, key: Seq<char>) -> Option<
    Seq<char>,
> {
    match member_value(members, key) {
        Some(JsonModel::String(text)) => Some(text),
        _ => None,
    }
}

/// The truth value that the members give to `key`, if its value is one.
pub open spec fn bool_member(members: Seq<(Seq<char>, JsonModel)>, key: Seq<char>) -> Option<
    bool,
> {
    match member_value(members, key) {
        Some(JsonModel::Bool(b)) => Some(b),
        _ => None,
    }
}

/// A key that has a value among the members is the key of one of them.
pub proof fn lemma_member_value_occurs(members: Seq<(Seq<char>, JsonModel)>, key: Seq<char>)
    requires
        member_value(members, key).is_some(),
    ensures
        exists|i: int|
            0 <= i < members.len() && #[trigger] members[i] == (
                key,
                member_value(members, key).unwrap(),
            ),
    decreases members.len(),
{
    if members.last().0 == key {
        assert(members[members.len() - 1] == (key, member_value(members, key).unwrap()));
    } else {
        lemma_member_value_occurs(members.drop_last(), key);
        let i = choose|i: int|
            0 <= i < members.drop_last().len() && #[trigger] members.drop_last()[i] == (
                key,
                member_value(members, key).unwrap(),
            );
        assert(members[i] == members.drop_last()[i]);
    }
}

impl Json {
    /// The text of the member with the given key, if `self` is an object in
    /// which that member is a string.
    pub fn text_field(&self, key: &str) -> (found: Option<&String>)
        ensures
            match self@ {
                JsonModel::Object(members) => match found {
                    Some(text) => text_member(members, key@) == Some(text@),
                    None => text_member(members, key@).is_none(),
                },
                _ => found.is_none(),
            },
    {
        match self.field(key) {
            Some(Json::String(text)) => Some(text),
            _ => None,
        }
    }

    /// The truth value of the member with the given key, if `self` is an
    /// object in which that member is `true` or `false`.
    pub fn bool_field(&self, key: &str) -> (found: Option<bool>)
        ensures
            match self@ {
                JsonModel::Object(members) => found == bool_member(members, key@),
                _ => found.is_none(),
            },
    {
        match self.field(key) {
            Some(Json::Bool(b)) => Some(*b),
            _ => None,
        }
    }
}

impl Clone for JsonNumber {
    fn clone(&self) -> (copy: Self)
        ensures
            copy@ == self@,
    {
        match self {
            JsonNumber::PosInt(u) => JsonNumber::PosInt(*u),
            JsonNumber::NegInt(i) => JsonNumber::NegInt(*i),
            JsonNumber::Float(t) => JsonNumber::Float(t.clone()),
        }
    }
}

impl Clone for Json {
    fn clone(&self) -> (copy: Self)
        ensures
            copy@ == self@,
        decreases self,
    {
        match self {
            Json::Null => Json::Null,
            Json::Bool(b) => Json::Bool(*b),
            Json::Number(n) => Json::Number(n.clone()),
            Json::String(s) => Json::String(s.clone()),
            Json::Array(items) => {
                let mut copies: Vec<Json> = Vec::new();
                let mut i: usize = 0;
                while i < items.len()
                    invariant
                        i <= items@.len(),
                        copies@.len() == i,
                        *self == Json::Array(*items),
                        forall|k: int| 0 <= k < i ==> (#[trigger] copies@[k])@ == items@[k]@,
                    decreases items@.len() - i,
                {
                    assert(decreases_to!(*self => self->Array_0));
                    assert(decreases_to!(*items => items@[i as int]));
                    copies.push(items[i].clone());
                    i = i + 1;
                }
                let copy = Json::Array(copies);
                assert(copy@->Array_0 =~= self@->Array_0);
                copy
            },
            Json::Object(members) => {
                let mut copies: Vec<(String, Json)> = Vec::new();
                let mut i: usize = 0;
                while i < members.len()
                    invariant
                        i <= members@.len(),
                        copies@.len() == i,
                        *self == Json::Object(*members),
                        forall|k: int|
                            0 <= k < i ==> (#[trigger] copies@[k]).0@ == members@[k].0@
                                && copies@[k].1@ == members@[k].1@,
                    decreases members@.len() - i,
                {
                    assert(decreases_to!(*self => self->Object_0));
                    assert(decreases_to!(*members => members@[i as int]));
                    assert(decreases_to!(members@[i as int] => members@[i as int].1));
                    copies.push((members[i].0.clone(), members[i].1.clone()));
                    i = i + 1;
                }
                let copy = Json::Object(copies);
                assert(copy@->Object_0 =~= self@->Object_0);
                copy
            },
        }
    }
}

} // verus!
