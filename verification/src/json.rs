//! The library's own picture of a parsed JSON document: what the logic
//! reads of one (object members, array elements, strings, booleans), a
//! mathematical model of it, and the trusted parse that fills it.

use vstd::prelude::*;
use crate::strops::str_eq;

verus! {

/// A parsed JSON document, as far as this library reads one. Numbers are
/// kept as a bare marker: no consumer reads a numeric value.
pub enum Json {
    Null,
    Bool(bool),
    Num,
    Text(String),
    Arr(Vec<Json>),
    Obj(Vec<(String, Json)>),
}

/// The mathematical model of a parsed document.
pub enum JsonModel {
    Null,
    Bool(bool),
    Num,
    Text(Seq<char>),
    Arr(Seq<JsonModel>),
    Obj(Seq<(Seq<char>, JsonModel)>),
}

/// The model of one document.
pub open spec fn json_model(j: Json) -> JsonModel
    decreases j,
{
    match j {
        Json::Null => JsonModel::Null,
        Json::Bool(b) => JsonModel::Bool(b),
        Json::Num => JsonModel::Num,
        Json::Text(s) => JsonModel::Text(s@),
        Json::Arr(v) => JsonModel::Arr(arr_model(v@)),
        Json::Obj(ms) => JsonModel::Obj(members_model(ms@)),
    }
}

/// The models of the elements of an array, in order.
pub open spec fn arr_model(v: Seq<Json>) -> Seq<JsonModel>
    decreases v,
{
    if v.len() == 0 {
        Seq::empty()
    } else {
        seq![json_model(v[0])] + arr_model(v.drop_first())
    }
}

/// The models of the members of an object, in order.
pub open spec fn members_model(ms: Seq<(String, Json)>) -> Seq<(Seq<char>, JsonModel)>
    decreases ms,
{
    if ms.len() == 0 {
        Seq::empty()
    } else {
        seq![(ms[0].0@, json_model(ms[0].1))] + members_model(ms.drop_first())
    }
}

/// An array's model has one element per array element, in order.
pub proof fn lemma_arr_model_index(v: Seq<Json>)
    ensures
        arr_model(v).len() == v.len(),
        forall|i: int| 0 <= i < v.len() ==> #[trigger] arr_model(v)[i] == json_model(v[i]),
    decreases v.len(),
{
    if v.len() > 0 {
        lemma_arr_model_index(v.drop_first());
        assert forall|i: int| 0 <= i < v.len() implies #[trigger] arr_model(v)[i] == json_model(
            v[i],
        ) by {
            if i > 0 {
                assert(arr_model(v)[i] == arr_model(v.drop_first())[i - 1]);
                assert(v.drop_first()[i - 1] == v[i]);
            }
        }
    }
}

/// An object's model has one member per member, in order, with the key's
/// characters and the value's model.
pub proof fn lemma_members_model_index(ms: Seq<(String, Json)>)
    ensures
        members_model(ms).len() == ms.len(),
        forall|i: int|
            0 <= i < ms.len() ==> #[trigger] members_model(ms)[i] == (
                ms[i].0@,
                json_model(ms[i].1),
            ),
    decreases ms.len(),
{
    if ms.len() > 0 {
        lemma_members_model_index(ms.drop_first());
        assert forall|i: int|
            0 <= i < ms.len() implies #[trigger] members_model(ms)[i] == (
            ms[i].0@,
            json_model(ms[i].1),
        ) by {
            if i > 0 {
                assert(members_model(ms)[i] == members_model(ms.drop_first())[i - 1]);
                assert(ms.drop_first()[i - 1] == ms[i]);
            }
        }
    }
}

/// The first member with the given key, if any.
pub open spec fn members_lookup(ms: Seq<(Seq<char>, JsonModel)>, key: Seq<char>) -> Option<
    JsonModel,
>
    decreases ms.len(),
{
    if ms.len() == 0 {
        None
    } else if ms[0].0 == key {
        Some(ms[0].1)
    } else {
        members_lookup(ms.drop_first(), key)
    }
}

/// The named member of a document, when the document is an object that has
/// one.
pub open spec fn obj_lookup(m: JsonModel, key: Seq<char>) -> Option<JsonModel> {
    match m {
        JsonModel::Obj(ms) => members_lookup(ms, key),
        _ => None,
    }
}

impl Json {
    /// Looks up the named member when this document is an object: the first
    /// member with that key, or nothing when there is none or the document
    /// is not an object.
    pub fn get<'a>(&'a self, key: &str) -> (r: Option<&'a Json>)
        ensures
            match r {
                Some(j) => obj_lookup(json_model(*self), key@) == Some(json_model(*j)),
                None => obj_lookup(json_model(*self), key@) is None,
            },
    {
        match self {
            Json::Obj(members) => {
                proof {
                    lemma_members_model_index(members@);
                    assert(members_model(members@).skip(0) =~= members_model(members@));
                }
                let ghost model_ms = members_model(members@);
                let mut i: usize = 0;
                while i < members.len()
                    invariant
                        0 <= i <= members@.len(),
                        model_ms == members_model(members@),
                        model_ms.len() == members@.len(),
                        forall|k: int|
                            0 <= k < members@.len() ==> #[trigger] model_ms[k] == (
                                members@[k].0@,
                                json_model(members@[k].1),
                            ),
                        members_lookup(model_ms.skip(i as int), key@) == members_lookup(
                            model_ms,
                            key@,
                        ),
                        json_model(*self) == JsonModel::Obj(model_ms),
                    decreases members@.len() - i,
                {
                    if str_eq(members[i].0.as_str(), key) {
                        assert(model_ms.skip(i as int)[0] == model_ms[i as int]);
                        return Some(&members[i].1);
                    }
                    assert(model_ms.skip(i as int).drop_first() =~= model_ms.skip(i as int + 1));
                    i = i + 1;
                }
                assert(model_ms.skip(i as int).len() == 0);
                None
            },
            _ => None,
        }
    }
}

} // verus!
