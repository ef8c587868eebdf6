//! Structured data of arbitrary shape: the payloads that records carry and the
//! documents that are built from them.

use crate::number::Number;
use crate::views::{distinct_names, option_view, views};
use vstd::prelude::*;

verus! {

/// A value of structured data. An object keeps its fields in the order in
/// which they were written; a field is looked up by its first occurrence.
#[derive(Debug, PartialEq)]
pub enum Json {
    Null,
    Bool(bool),
    Number(Number),
    Text(String),
    List(Vec<Json>),
    Object(Vec<(String, Json)>),
}

/// The mathematical value of a [`Json`].
pub enum JsonModel {
    Null,
    Bool(bool),
    Number(Number),
    Text(Seq<char>),
    List(Seq<JsonModel>),
    Object(Seq<(Seq<char>, JsonModel)>),
}

/// The value of the first field called `name` among `fields`.
pub open spec fn first_field(fields: Seq<(Seq<char>, JsonModel)>, name: Seq<char>) -> Option<
    JsonModel,
>
    decreases fields.len(),
{
    if fields.len() == 0 {
        None
    } else if fields[0].0 == name {
        Some(fields[0].1)
    } else {
        first_field(fields.drop_first(), name)
    }
}

/// A field that no earlier field shares its name with is the one that a
/// lookup of its name finds.
pub proof fn lemma_first_field_at(fields: Seq<(Seq<char>, JsonModel)>, at: int)
    requires
        0 <= at < fields.len(),
        forall|earlier: int| 0 <= earlier < at ==> (#[trigger] fields[earlier]).0 != fields[at].0,
    ensures
        first_field(fields, fields[at].0) == Some(fields[at].1),
    decreases at,
{
    if at > 0 {
        let rest = fields.drop_first();
        assert(rest[at - 1] == fields[at]);
        assert forall|earlier: int| 0 <= earlier < at - 1 implies (#[trigger] rest[earlier]).0
            != rest[at - 1].0 by {
            assert(rest[earlier] == fields[earlier + 1]);
        }
        lemma_first_field_at(rest, at - 1);
    }
}

impl JsonModel {
    /// The value of the first field called `name`, if this is an object that
    /// has one.
    pub open spec fn field(self, name: Seq<char>) -> Option<JsonModel> {
        match self {
            JsonModel::Object(fields) => first_field(fields, name),
            _ => None,
        }
    }
}

impl JsonModel {
    /// The part of a value that holds the parts of something: the field
    /// called `name` if the value is an object, and the item at `place` if it
    /// is a list.
    pub open spec fn part(self, name: Seq<char>, place: nat) -> Option<JsonModel> {
        match self {
            JsonModel::Object(fields) => first_field(fields, name),
            JsonModel::List(items) => if place < items.len() {
                Some(items[place as int])
            } else {
                None
            },
            _ => None,
        }
    }
}

impl JsonModel {
    /// Whether every object in the value, at any depth, has no name twice.
    /// What is read from a map of names to values is so, and the order of an
    /// object's fields then has no part in what a lookup finds.
    pub open spec fn well_formed(self) -> bool
        decreases self,
    {
        match self {
            JsonModel::List(items) => forall|i: int|
                0 <= i < items.len() ==> (#[trigger] items[i]).well_formed(),
            JsonModel::Object(fields) => distinct_names(fields) && forall|i: int|
                0 <= i < fields.len() ==> (#[trigger] fields[i]).1.well_formed(),
            _ => true,
        }
    }
}

/// In an object without a name twice, every field is the one that a lookup of
/// its name finds, wherever it stands.
pub proof fn lemma_field_of_distinct_names(fields: Seq<(Seq<char>, JsonModel)>, at: int)
    requires
        distinct_names(fields),
        0 <= at < fields.len(),
    ensures
        first_field(fields, fields[at].0) == Some(fields[at].1),
{
    lemma_first_field_at(fields, at);
}

/// What a lookup finds in a well-formed value is well formed.
pub proof fn lemma_part_is_well_formed(json: JsonModel, name: Seq<char>, place: nat)
    requires
        json.well_formed(),
        json.part(name, place) is Some,
    ensures
        json.part(name, place)->0.well_formed(),
{
    if json is Object {
        lemma_found_is_among(json->Object_0, name);
    }
}

/// What a lookup finds is the value of one of the fields.
pub proof fn lemma_found_is_among(fields: Seq<(Seq<char>, JsonModel)>, name: Seq<char>)
    requires
        first_field(fields, name) is Some,
    ensures
        exists|at: int|
            0 <= at < fields.len() && (#[trigger] fields[at]).0 == name && fields[at].1
                == first_field(fields, name)->0,
    decreases fields.len(),
{
    if fields[0].0 == name {
        assert(fields[0].1 == first_field(fields, name)->0);
    } else {
        let rest = fields.drop_first();
        lemma_found_is_among(rest, name);
        let at = choose|at: int|
            0 <= at < rest.len() && (#[trigger] rest[at]).0 == name && rest[at].1 == first_field(
                rest,
                name,
            )->0;
        assert(fields[at + 1] == rest[at]);
    }
}

impl View for Json {
    type V = JsonModel;

    open spec fn view(&self) -> JsonModel
        decreases self,
    {
        match self {
            Json::Null => JsonModel::Null,
            Json::Bool(value) => JsonModel::Bool(*value),
            Json::Number(value) => JsonModel::Number(*value),
            Json::Text(value) => JsonModel::Text(value@),
            Json::List(items) => JsonModel::List(
                Seq::new(
                    items.len() as nat,
                    |i: int|
                        if 0 <= i < items.len() {
                            items[i]@
                        } else {
                            JsonModel::Null
                        },
                ),
            ),
            Json::Object(fields) => JsonModel::Object(
                Seq::new(
                    fields.len() as nat,
                    |i: int|
                        if 0 <= i < fields.len() {
                            (fields[i].0@, fields[i].1@)
                        } else {
                            (Seq::empty(), JsonModel::Null)
                        },
                ),
            ),
        }
    }
}

/// What an object is, field by field.
pub proof fn lemma_object_view(fields: Vec<(String, Json)>)
    ensures
        Json::Object(fields)@ is Object,
        Json::Object(fields)@->Object_0.len() == fields.len(),
        forall|k: int|
            0 <= k < fields.len() ==> (#[trigger] Json::Object(fields)@->Object_0[k]) == (
                fields[k].0@,
                fields[k].1@,
            ),
{
    reveal_with_fuel(<Json as View>::view, 2);
}

/// What a list is, item by item.
pub proof fn lemma_list_view(items: Vec<Json>)
    ensures
        Json::List(items)@ is List,
        Json::List(items)@->List_0.len() == items.len(),
        forall|k: int|
            0 <= k < items.len() ==> (#[trigger] Json::List(items)@->List_0[k]) == items[k]@,
{
    reveal_with_fuel(<Json as View>::view, 2);
}

impl Clone for Json {
    #[verifier::loop_isolation(false)]
    fn clone(&self) -> (copy: Json)
        ensures
            copy@ == self@,
        decreases self,
    {
        match self {
            Json::Null => Json::Null,
            Json::Bool(value) => Json::Bool(*value),
            Json::Number(value) => Json::Number(*value),
            Json::Text(value) => Json::Text(value.clone()),
            Json::List(items) => {
                let mut copies: Vec<Json> = Vec::new();
                let mut i: usize = 0;
                while i < items.len()
                    invariant
                        i <= items.len(),
                        copies.len() == i,
                        forall|k: int| 0 <= k < i ==> copies[k]@ == items[k]@,
                    decreases items.len() - i,
                {
                    let item = items[i].clone();
                    copies.push(item);
                    i += 1;
                }
                let copy = Json::List(copies);
                assert(copy@->List_0 =~= self@->List_0);
                copy
            },
            Json::Object(fields) => {
                let mut copies: Vec<(String, Json)> = Vec::new();
                let mut i: usize = 0;
                while i < fields.len()
                    invariant
                        i <= fields.len(),
                        copies.len() == i,
                        forall|k: int|
                            0 <= k < i ==> copies[k].0@ == fields[k].0@ && copies[k].1@
                                == fields[k].1@,
                    decreases fields.len() - i,
                {
                    let value = fields[i].1.clone();
                    copies.push((fields[i].0.clone(), value));
                    i += 1;
                }
                let copy = Json::Object(copies);
                assert(copy@->Object_0 =~= self@->Object_0);
                copy
            },
        }
    }
}

/// The fields of an object, each by its name and value.
pub open spec fn entries(fields: Seq<(String, Json)>) -> Seq<(Seq<char>, JsonModel)> {
    fields.map_values(|field: (String, Json)| (field.0@, field.1@))
}

impl Json {
    /// An object of the given fields, in their order.
    pub fn object(fields: Vec<(String, Json)>) -> (json: Json)
        ensures
            json@ == JsonModel::Object(entries(fields@)),
    {
        proof {
            lemma_object_view(fields);
        }
        let json = Json::Object(fields);
        assert(json@->Object_0 =~= entries(fields@));
        json
    }

    /// A list of the given items, in their order.
    pub fn list(items: Vec<Json>) -> (json: Json)
        ensures
            json@ == JsonModel::List(views(items@)),
    {
        proof {
            lemma_list_view(items);
        }
        let json = Json::List(items);
        assert(json@->List_0 =~= views(items@));
        json
    }

    /// The part of a value that holds the parts of something: the field
    /// called `name` if the value is an object, and the item at `place` if it
    /// is a list.
    pub fn part(&self, name: &str, place: usize) -> (value: Option<&Json>)
        ensures
            option_view(value) == self@.part(name@, place as nat),
    {
        match self {
            Json::List(items) => {
                proof {
                    lemma_list_view(*items);
                }
                if place < items.len() {
                    Some(&items[place])
                } else {
                    None
                }
            },
            _ => self.get(name),
        }
    }

    /// The value of the first field called `name`, if this is an object that
    /// has one.
    pub fn get(&self, name: &str) -> (value: Option<&Json>)
        ensures
            option_view(value) == self@.field(name@),
    {
        match self {
            Json::Object(fields) => {
                let wanted = String::from_str(name);
                let mut i: usize = 0;
                proof {
                    lemma_object_view(*fields);
                    assert(self@->Object_0.skip(0) =~= self@->Object_0);
                }
                while i < fields.len()
                    invariant
                        i <= fields.len(),
                        wanted@ == name@,
                        self@ is Object,
                        self@->Object_0.len() == fields.len(),
                        forall|k: int|
                            0 <= k < fields.len() ==> self@->Object_0[k] == (
                                fields[k].0@,
                                fields[k].1@,
                            ),
                        first_field(self@->Object_0, name@) == first_field(
                            self@->Object_0.skip(i as int),
                            name@,
                        ),
                    decreases fields.len() - i,
                {
                    let ghost rest = self@->Object_0.skip(i as int);
                    assert(rest[0] == self@->Object_0[i as int]);
                    if fields[i].0 == wanted {
                        return Some(&fields[i].1);
                    }
                    assert(rest.drop_first() =~= self@->Object_0.skip(i + 1));
                    i += 1;
                }
                None
            },
            _ => None,
        }
    }
}

/// A field that holds a copy of a text.
pub fn text_field(name: &str, text: &String) -> (field: (String, Json))
    ensures
        field.0@ == name@,
        field.1@ == JsonModel::Text(text@),
{
    (String::from_str(name), Json::Text(text.clone()))
}

/// A field that holds a count.
pub fn count_field(name: &str, count: usize) -> (field: (String, Json))
    ensures
        field.0@ == name@,
        field.1@ == JsonModel::Number(Number::Unsigned(count as u64)),
{
    (String::from_str(name), Json::Number(Number::Unsigned(count as u64)))
}

/// A field that holds a value.
pub fn field_of(name: &str, value: Json) -> (field: (String, Json))
    ensures
        field.0@ == name@,
        field.1@ == value@,
{
    (String::from_str(name), value)
}

} // verus!
