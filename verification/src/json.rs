//! JSON documents as plain values.
//!
//! [`JsonValue`] is the tree that the rest of the crate computes on. Its view
//! [`Json`] is the mathematical document. Text comes from and goes to
//! `serde_json`: its `Value` is taken apart and put together one level at a
//! time, and the copying between it and [`JsonValue`] is verified.

use vstd::prelude::*;
use crate::text::decimal;

verus! {

#[verifier::external_type_specification]
#[verifier::external_body]
pub struct ExNumber(serde_json::Number);

#[verifier::external_type_specification]
#[verifier::external_body]
pub struct ExValue(serde_json::Value);

/// What the contracts read of a JSON number: its text, and its value where it
/// is a non-negative integer that fits 64 bits.
pub struct Num {
    pub text: Seq<char>,
    pub as_u64: Option<u64>,
}

impl Num {
    /// The number that stands for the unsigned integer `n`.
    pub open spec fn of_u64(n: u64) -> Num {
        Num { text: decimal(n as nat), as_u64: Some(n) }
    }
}

/// Mathematical model of a JSON document. An object keeps its fields in the
/// order in which they were written.
pub enum Json {
    Null,
    Bool(bool),
    Number(Num),
    String(Seq<char>),
    Array(Seq<Json>),
    Object(Seq<(Seq<char>, Json)>),
}

/// The text that `serde_json` prints for a number.
pub uninterp spec fn number_text(n: serde_json::Number) -> Seq<char>;

/// What `serde_json::Number::as_u64` gives for a number.
pub uninterp spec fn number_u64(n: serde_json::Number) -> Option<u64>;

/// The document that a `serde_json::Value` holds: null, a boolean or a string
/// as it is, a number by its text and its `u64` value, an array item by item,
/// an object as its entries in the order in which the map hands them out.
pub uninterp spec fn value_json(v: serde_json::Value) -> Json;

/// The compact text that `serde_json::to_string` prints for a document.
pub uninterp spec fn json_text(j: Json) -> Seq<char>;

/// The document that `serde_json::from_str` reads from a text, `None` where it
/// reports an error.
pub uninterp spec fn json_parse(text: Seq<char>) -> Option<Json>;

/// The model of a number.
pub open spec fn num_of(n: serde_json::Number) -> Num {
    Num { text: number_text(n), as_u64: number_u64(n) }
}

/// One field of a JSON object.
#[derive(Debug, PartialEq)]
pub struct JsonField {
    pub name: String,
    pub value: JsonValue,
}

/// A JSON document.
#[derive(Debug, PartialEq)]
pub enum JsonValue {
    Null,
    Bool(bool),
    Number(serde_json::Number),
    String(String),
    Array(Vec<JsonValue>),
    Object(Vec<JsonField>),
}

/// The document that a value stands for.
pub open spec fn json_of(v: JsonValue) -> Json
    decreases v, 0nat,
{
    match v {
        JsonValue::Null => Json::Null,
        JsonValue::Bool(b) => Json::Bool(b),
        JsonValue::Number(n) => Json::Number(num_of(n)),
        JsonValue::String(s) => Json::String(s@),
        JsonValue::Array(items) => Json::Array(json_of_items(items@)),
        JsonValue::Object(fields) => Json::Object(json_of_fields(fields@)),
    }
}

/// The documents of a list of values, in order.
pub open spec fn json_of_items(items: Seq<JsonValue>) -> Seq<Json>
    decreases items, 1nat,
{
    if items.len() == 0 {
        Seq::empty()
    } else {
        json_of_items(items.drop_last()).push(json_of(items.last()))
    }
}

/// The names and documents of a list of fields, in order.
pub open spec fn json_of_fields(fields: Seq<JsonField>) -> Seq<(Seq<char>, Json)>
    decreases fields, 1nat,
{
    if fields.len() == 0 {
        Seq::empty()
    } else {
        json_of_fields(fields.drop_last()).push(
            (fields.last().name@, json_of(fields.last().value)),
        )
    }
}

impl View for JsonValue {
    type V = Json;

    open spec fn view(&self) -> Json {
        json_of(*self)
    }
}

impl View for JsonField {
    type V = (Seq<char>, Json);

    open spec fn view(&self) -> (Seq<char>, Json) {
        (self.name@, self.value@)
    }
}

/// `json_of_items` works item by item.
pub proof fn lemma_json_of_items(items: Seq<JsonValue>)
    ensures
        json_of_items(items).len() == items.len(),
        forall|k: int| 0 <= k < items.len() ==> #[trigger] json_of_items(items)[k] == items[k]@,
    decreases items.len(),
{
    if items.len() > 0 {
        let front = items.drop_last();
        lemma_json_of_items(front);
        assert forall|k: int| 0 <= k < items.len() implies #[trigger] json_of_items(items)[k]
            == items[k]@ by {
            if k < front.len() {
                assert(json_of_items(front)[k] == front[k]@);
            }
        }
    }
}

/// `json_of_fields` works field by field.
pub proof fn lemma_json_of_fields(fields: Seq<JsonField>)
    ensures
        json_of_fields(fields).len() == fields.len(),
        forall|k: int| 0 <= k < fields.len() ==> #[trigger] json_of_fields(fields)[k] == fields[k]@,
    decreases fields.len(),
{
    if fields.len() > 0 {
        let front = fields.drop_last();
        lemma_json_of_fields(front);
        assert forall|k: int| 0 <= k < fields.len() implies #[trigger] json_of_fields(fields)[k]
            == fields[k]@ by {
            if k < front.len() {
                assert(json_of_fields(front)[k] == front[k]@);
            }
        }
    }
}

/// Position of the first field called `name`; the number of fields where there
/// is none.
pub open spec fn field_index(fields: Seq<(Seq<char>, Json)>, name: Seq<char>) -> int
    decreases fields.len(),
{
    if fields.len() == 0 {
        0
    } else if fields[0].0 == name {
        0
    } else {
        1 + field_index(fields.drop_first(), name)
    }
}

/// The value of the first field called `name`.
pub open spec fn lookup(fields: Seq<(Seq<char>, Json)>, name: Seq<char>) -> Option<Json> {
    let i = field_index(fields, name);
    if i < fields.len() {
        Some(fields[i].1)
    } else {
        None
    }
}

/// `field_index` finds the first field of that name, and only that.
pub proof fn lemma_field_index(fields: Seq<(Seq<char>, Json)>, name: Seq<char>)
    ensures
        0 <= field_index(fields, name) <= fields.len(),
        field_index(fields, name) < fields.len() ==> fields[field_index(fields, name)].0 == name,
        forall|k: int| 0 <= k < field_index(fields, name) ==> (#[trigger] fields[k]).0 != name,
    decreases fields.len(),
{
    if fields.len() > 0 && fields[0].0 != name {
        let rest = fields.drop_first();
        lemma_field_index(rest, name);
        assert forall|k: int| 0 <= k < field_index(fields, name) implies (#[trigger] fields[k]).0
            != name by {
            if k > 0 {
                assert(rest[k - 1] == fields[k]);
            }
        }
    }
}

/// Puts a field into an object as an insertion-ordered map does: a name that
/// is present keeps its place and takes the new value, a new name goes last.
pub open spec fn insert_field(
    fields: Seq<(Seq<char>, Json)>,
    name: Seq<char>,
    value: Json,
) -> Seq<(Seq<char>, Json)> {
    let i = field_index(fields, name);
    if i < fields.len() {
        fields.update(i, (name, value))
    } else {
        fields.push((name, value))
    }
}

/// The fields of an object as an insertion-ordered map holds them after they
/// were put in one after the other: of fields that share a name the first
/// keeps the place and the last gives the value.
pub open spec fn merged(fields: Seq<(Seq<char>, Json)>) -> Seq<(Seq<char>, Json)>
    decreases fields.len(),
{
    if fields.len() == 0 {
        Seq::empty()
    } else {
        insert_field(merged(fields.drop_last()), fields.last().0, fields.last().1)
    }
}

/// The document with every object read as an insertion-ordered map, at every
/// depth.
pub open spec fn keyed(j: Json) -> Json
    decreases j, 0nat,
{
    match j {
        Json::Array(items) => Json::Array(keyed_items(items)),
        Json::Object(fields) => Json::Object(merged(keyed_fields(fields))),
        _ => j,
    }
}

/// The items of an array, each read as [`keyed`] says.
pub open spec fn keyed_items(items: Seq<Json>) -> Seq<Json>
    decreases items, 1nat,
{
    if items.len() == 0 {
        Seq::empty()
    } else {
        keyed_items(items.drop_last()).push(keyed(items.last()))
    }
}

/// The fields of an object, each value read as [`keyed`] says.
pub open spec fn keyed_fields(fields: Seq<(Seq<char>, Json)>) -> Seq<(Seq<char>, Json)>
    decreases fields, 1nat,
{
    if fields.len() == 0 {
        Seq::empty()
    } else {
        keyed_fields(fields.drop_last()).push((fields.last().0, keyed(fields.last().1)))
    }
}

/// `keyed_items` works item by item.
pub proof fn lemma_keyed_items(items: Seq<Json>)
    ensures
        keyed_items(items).len() == items.len(),
        forall|k: int| 0 <= k < items.len() ==> #[trigger] keyed_items(items)[k] == keyed(items[k]),
    decreases items.len(),
{
    if items.len() > 0 {
        let front = items.drop_last();
        lemma_keyed_items(front);
        assert forall|k: int| 0 <= k < items.len() implies #[trigger] keyed_items(items)[k]
            == keyed(items[k]) by {
            if k < front.len() {
                assert(keyed_items(front)[k] == keyed(front[k]));
            }
        }
    }
}

/// `Clone` of `serde_json::Number`: the copy is the same number.
pub assume_specification[ <serde_json::Number as Clone>::clone ](
    n: &serde_json::Number,
) -> (r: serde_json::Number)
    ensures
        r == *n,
;

/// `serde_json::Number::from` on a `u64`: the number prints as the decimal
/// text of `n` and reads back as `n`.
#[verifier::external_body]
pub(crate) fn number_from_u64(n: u64) -> (r: serde_json::Number)
    ensures
        num_of(r) == Num::of_u64(n),
{
    serde_json::Number::from(n)
}

/// `serde_json::Number::as_u64`: the value of a non-negative integer, `None`
/// for a negative or fractional number.
#[verifier::external_body]
pub(crate) fn number_as_u64(n: &serde_json::Number) -> (r: Option<u64>)
    ensures
        r == number_u64(*n),
{
    n.as_u64()
}

/// `Display` of `serde_json::Number`: the text of the number.
#[verifier::external_body]
pub(crate) fn number_to_text(n: &serde_json::Number) -> (s: String)
    ensures
        s@ == number_text(*n),
{
    n.to_string()
}

/// One level of a `serde_json::Value`, borrowed from it.
pub enum ValueLevel<'a> {
    Null,
    Bool(bool),
    Number(&'a serde_json::Number),
    String(&'a String),
    Array(&'a Vec<serde_json::Value>),
    Object(Vec<(&'a String, &'a serde_json::Value)>),
}

impl ValueLevel<'_> {
    /// The document of the level: what it holds itself, and below it the
    /// documents of the values that it refers to.
    pub open spec fn json(self) -> Json {
        match self {
            ValueLevel::Null => Json::Null,
            ValueLevel::Bool(b) => Json::Bool(b),
            ValueLevel::Number(n) => Json::Number(num_of(*n)),
            ValueLevel::String(s) => Json::String(s@),
            ValueLevel::Array(items) => Json::Array(
                Seq::new(items@.len(), |i: int| value_json(items@[i])),
            ),
            ValueLevel::Object(entries) => Json::Object(
                Seq::new(entries@.len(), |i: int| (entries@[i].0@, value_json(*entries@[i].1))),
            ),
        }
    }
}

/// The parts of which a `serde_json::Value` is made, one level deep.
pub enum ValueParts {
    Null,
    Bool(bool),
    Number(serde_json::Number),
    String(String),
    Array(Vec<serde_json::Value>),
    Object(Vec<(String, serde_json::Value)>),
}

impl ValueParts {
    /// The document of the value that is made of the parts. The entries of an
    /// object go into a map one after the other.
    pub open spec fn json(self) -> Json {
        match self {
            ValueParts::Null => Json::Null,
            ValueParts::Bool(b) => Json::Bool(b),
            ValueParts::Number(n) => Json::Number(num_of(n)),
            ValueParts::String(s) => Json::String(s@),
            ValueParts::Array(items) => Json::Array(
                Seq::new(items@.len(), |i: int| value_json(items@[i])),
            ),
            ValueParts::Object(entries) => Json::Object(
                merged(Seq::new(entries@.len(), |i: int| (entries@[i].0@, value_json(entries@[i].1)))),
            ),
        }
    }
}

/// Takes a `serde_json::Value` apart by one level, variant by variant. The
/// entries of an object come in the order in which `serde_json::Map::iter`
/// hands them out.
#[verifier::external_body]
pub(crate) fn value_level(v: &serde_json::Value) -> (r: ValueLevel<'_>)
    ensures
        r.json() == value_json(*v),
{
    match v {
        serde_json::Value::Null => ValueLevel::Null,
        serde_json::Value::Bool(b) => ValueLevel::Bool(*b),
        serde_json::Value::Number(n) => ValueLevel::Number(n),
        serde_json::Value::String(s) => ValueLevel::String(s),
        serde_json::Value::Array(a) => ValueLevel::Array(a),
        serde_json::Value::Object(m) => ValueLevel::Object(m.iter().collect()),
    }
}

/// Makes a `serde_json::Value` of its parts, variant by variant. The entries
/// of an object are collected into a `serde_json::Map`, which puts them in one
/// after the other.
#[verifier::external_body]
pub(crate) fn value_of_parts(parts: ValueParts) -> (r: serde_json::Value)
    ensures
        value_json(r) == parts.json(),
{
    match parts {
        ValueParts::Null => serde_json::Value::Null,
        ValueParts::Bool(b) => serde_json::Value::Bool(b),
        ValueParts::Number(n) => serde_json::Value::Number(n),
        ValueParts::String(s) => serde_json::Value::String(s),
        ValueParts::Array(items) => serde_json::Value::Array(items),
        ValueParts::Object(entries) => serde_json::Value::Object(entries.into_iter().collect()),
    }
}

/// Copies a `serde_json::Value` into a [`JsonValue`].
pub(crate) fn value_from_outside(v: &serde_json::Value) -> (r: JsonValue)
    ensures
        r@ == value_json(*v),
    decreases value_json(*v),
{
    match value_level(v) {
        ValueLevel::Null => JsonValue::Null,
        ValueLevel::Bool(b) => JsonValue::Bool(b),
        ValueLevel::Number(n) => JsonValue::Number(n.clone()),
        ValueLevel::String(s) => JsonValue::String(s.clone()),
        ValueLevel::Array(items) => {
            let ghost docs = value_json(*v)->Array_0;
            let mut out: Vec<JsonValue> = Vec::new();
            let mut i: usize = 0;
            while i < items.len()
                invariant
                    i <= items.len(),
                    value_json(*v) == Json::Array(docs),
                    docs.len() == items@.len(),
                    forall|k: int| 0 <= k < docs.len() ==> #[trigger] docs[k] == value_json(items@[k]),
                    out@.len() == i,
                    forall|k: int| 0 <= k < i ==> (#[trigger] out@[k])@ == docs[k],
                decreases items.len() - i,
            {
                proof {
                    assert(docs[i as int] == value_json(items@[i as int]));
                    assert(decreases_to!(value_json(*v) => value_json(*v)->Array_0));
                    assert(decreases_to!(value_json(*v)->Array_0 => value_json(*v)->Array_0[i as int]));
                }
                out.push(value_from_outside(&items[i]));
                i += 1;
            }
            proof {
                lemma_json_of_items(out@);
                assert(json_of_items(out@) =~= docs);
            }
            JsonValue::Array(out)
        },
        ValueLevel::Object(entries) => {
            let ghost docs = value_json(*v)->Object_0;
            let mut out: Vec<JsonField> = Vec::new();
            let mut i: usize = 0;
            while i < entries.len()
                invariant
                    i <= entries.len(),
                    value_json(*v) == Json::Object(docs),
                    docs.len() == entries@.len(),
                    forall|k: int|
                        0 <= k < docs.len() ==> #[trigger] docs[k] == (
                            entries@[k].0@,
                            value_json(*entries@[k].1),
                        ),
                    out@.len() == i,
                    forall|k: int| 0 <= k < i ==> (#[trigger] out@[k])@ == docs[k],
                decreases entries.len() - i,
            {
                proof {
                    assert(docs[i as int] == (entries@[i as int].0@, value_json(*entries@[i as int].1)));
                    assert(decreases_to!(value_json(*v) => value_json(*v)->Object_0));
                    assert(decreases_to!(value_json(*v)->Object_0 => value_json(*v)->Object_0[i as int]));
                    assert(decreases_to!(value_json(*v)->Object_0[i as int] => value_json(
                        *v,
                    )->Object_0[i as int].1));
                }
                let value = value_from_outside(entries[i].1);
                out.push(JsonField { name: entries[i].0.clone(), value });
                i += 1;
            }
            proof {
                lemma_json_of_fields(out@);
                assert(json_of_fields(out@) =~= docs);
            }
            JsonValue::Object(out)
        },
    }
}

/// Copies a [`JsonValue`] into a `serde_json::Value`. Fields that share a name
/// are merged as [`keyed`] says.
pub(crate) fn value_to_outside(v: &JsonValue) -> (r: serde_json::Value)
    ensures
        value_json(r) == keyed(v@),
    decreases v,
{
    match v {
        JsonValue::Null => value_of_parts(ValueParts::Null),
        JsonValue::Bool(b) => value_of_parts(ValueParts::Bool(*b)),
        JsonValue::Number(n) => value_of_parts(ValueParts::Number(n.clone())),
        JsonValue::String(s) => value_of_parts(ValueParts::String(s.clone())),
        JsonValue::Array(items) => {
            let ghost docs = json_of_items(items@);
            proof {
                lemma_json_of_items(items@);
                lemma_keyed_items(docs);
            }
            let mut out: Vec<serde_json::Value> = Vec::new();
            let mut i: usize = 0;
            while i < items.len()
                invariant
                    i <= items.len(),
                    *v == JsonValue::Array(*items),
                    docs.len() == items@.len(),
                    forall|k: int| 0 <= k < docs.len() ==> #[trigger] docs[k] == items@[k]@,
                    out@.len() == i,
                    forall|k: int| 0 <= k < i ==> value_json(#[trigger] out@[k]) == keyed(docs[k]),
                decreases items.len() - i,
            {
                proof {
                    assert(decreases_to!(*v => v->Array_0));
                    assert(decreases_to!(v->Array_0 => v->Array_0@));
                    assert(decreases_to!(v->Array_0@ => v->Array_0@[i as int]));
                }
                out.push(value_to_outside(&items[i]));
                i += 1;
            }
            let parts = ValueParts::Array(out);
            proof {
                assert(parts.json()->Array_0 =~= keyed_items(docs));
            }
            value_of_parts(parts)
        },
        JsonValue::Object(fields) => {
            let ghost docs = json_of_fields(fields@);
            proof {
                lemma_json_of_fields(fields@);
                assert(docs.take(0) =~= Seq::<(Seq<char>, Json)>::empty());
            }
            let mut out: Vec<(String, serde_json::Value)> = Vec::new();
            let mut i: usize = 0;
            while i < fields.len()
                invariant
                    i <= fields.len(),
                    *v == JsonValue::Object(*fields),
                    docs.len() == fields@.len(),
                    forall|k: int| 0 <= k < docs.len() ==> #[trigger] docs[k] == fields@[k]@,
                    out@.len() == i,
                    Seq::new(i as nat, |k: int| (out@[k].0@, value_json(out@[k].1))) == keyed_fields(
                        docs.take(i as int),
                    ),
                decreases fields.len() - i,
            {
                proof {
                    assert(decreases_to!(*v => v->Object_0));
                    assert(decreases_to!(v->Object_0 => v->Object_0@));
                    assert(decreases_to!(v->Object_0@ => v->Object_0@[i as int]));
                    assert(decreases_to!(v->Object_0@[i as int] => v->Object_0@[i as int].value));
                    assert(docs.take(i + 1).drop_last() =~= docs.take(i as int));
                    assert(docs.take(i + 1).last() == docs[i as int]);
                }
                let ghost before = Seq::new(i as nat, |k: int| (out@[k].0@, value_json(out@[k].1)));
                let value = value_to_outside(&fields[i].value);
                out.push((fields[i].name.clone(), value));
                proof {
                    assert(Seq::new((i + 1) as nat, |k: int| (out@[k].0@, value_json(out@[k].1)))
                        =~= before.push((docs[i as int].0, keyed(docs[i as int].1))));
                }
                i += 1;
            }
            let parts = ValueParts::Object(out);
            proof {
                assert(docs.take(i as int) =~= docs);
            }
            value_of_parts(parts)
        },
    }
}

/// `serde_json::to_string` on a `Value`: the compact text of the document. For
/// a `Value` it reports no error.
#[verifier::external_body]
pub(crate) fn outside_to_string(v: &serde_json::Value) -> (s: String)
    ensures
        s@ == json_text(value_json(*v)),
{
    serde_json::to_string(v).unwrap_or_default()
}

/// `serde_json::from_str` into a `Value`: the document of a text, `None` where
/// the text is not one JSON document.
#[verifier::external_body]
pub(crate) fn outside_from_str(text: &str) -> (r: Option<serde_json::Value>)
    ensures
        match r {
            Some(v) => json_parse(text@) == Some(value_json(v)),
            None => json_parse(text@) is None,
        },
{
    serde_json::from_str::<serde_json::Value>(text).ok()
}

impl JsonValue {
    /// The number `n`.
    pub fn from_u64(n: u64) -> (v: JsonValue)
        ensures
            v@ == Json::Number(Num::of_u64(n)),
    {
        JsonValue::Number(number_from_u64(n))
    }

    /// The string `s`.
    pub fn from_str(s: &str) -> (v: JsonValue)
        ensures
            v@ == Json::String(s@),
    {
        JsonValue::String(String::from_str(s))
    }

    /// The compact JSON text of the document, with fields that share a name
    /// merged.
    pub fn to_text(&self) -> (s: String)
        ensures
            s@ == json_text(keyed(self@)),
    {
        let outside = value_to_outside(self);
        outside_to_string(&outside)
    }

    /// Reads one JSON document from `text`; `None` where `text` is not one.
    pub fn parse(text: &str) -> (r: Option<JsonValue>)
        ensures
            match r {
                Some(v) => json_parse(text@) == Some(v@),
                None => json_parse(text@) is None,
            },
    {
        match outside_from_str(text) {
            Some(outside) => Some(value_from_outside(&outside)),
            None => None,
        }
    }
}

/// The first field called `name`, if there is one.
pub fn find_field<'a>(fields: &'a Vec<JsonField>, name: &str) -> (r: Option<&'a JsonValue>)
    ensures
        match r {
            Some(v) => lookup(json_of_fields(fields@), name@) == Some(v@),
            None => lookup(json_of_fields(fields@), name@) is None,
        },
{
    let ghost all = json_of_fields(fields@);
    proof {
        lemma_json_of_fields(fields@);
        assert(all.skip(0) =~= all);
    }
    let mut i: usize = 0;
    while i < fields.len()
        invariant
            i <= fields.len(),
            all == json_of_fields(fields@),
            all.len() == fields@.len(),
            forall|k: int| 0 <= k < all.len() ==> #[trigger] all[k] == fields@[k]@,
            field_index(all, name@) == i + field_index(all.skip(i as int), name@),
        decreases fields.len() - i,
    {
        let ghost rest = all.skip(i as int);
        proof {
            assert(rest.len() > 0);
            assert(rest[0] == all[i as int]);
            assert(rest.drop_first() =~= all.skip(i + 1));
        }
        if crate::text::str_eq(fields[i].name.as_str(), name) {
            return Some(&fields[i].value);
        }
        i += 1;
    }
    proof {
        assert(all.skip(i as int).len() == 0);
    }
    None
}

impl JsonValue {
    /// A copy of the document.
    pub fn copy(&self) -> (r: JsonValue)
        ensures
            r@ == self@,
        decreases self,
    {
        match self {
            JsonValue::Null => JsonValue::Null,
            JsonValue::Bool(b) => JsonValue::Bool(*b),
            JsonValue::Number(n) => JsonValue::Number(n.clone()),
            JsonValue::String(s) => JsonValue::String(s.clone()),
            JsonValue::Array(items) => {
                let mut out: Vec<JsonValue> = Vec::new();
                let mut i: usize = 0;
                while i < items.len()
                    invariant
                        i <= items.len(),
                        *self == JsonValue::Array(*items),
                        out@.len() == i,
                        forall|k: int| 0 <= k < i ==> (#[trigger] out@[k])@ == items@[k]@,
                    decreases items.len() - i,
                {
                    proof {
                        assert(decreases_to!(*self => self->Array_0));
                        assert(decreases_to!(self->Array_0 => self->Array_0@));
                        assert(decreases_to!(self->Array_0@ => self->Array_0@[i as int]));
                    }
                    out.push(items[i].copy());
                    i += 1;
                }
                proof {
                    lemma_json_of_items(out@);
                    lemma_json_of_items(items@);
                    assert(json_of_items(out@) =~= json_of_items(items@));
                }
                JsonValue::Array(out)
            },
            JsonValue::Object(fields) => {
                let mut out: Vec<JsonField> = Vec::new();
                let mut i: usize = 0;
                while i < fields.len()
                    invariant
                        i <= fields.len(),
                        *self == JsonValue::Object(*fields),
                        out@.len() == i,
                        forall|k: int| 0 <= k < i ==> (#[trigger] out@[k])@ == fields@[k]@,
                    decreases fields.len() - i,
                {
                    proof {
                        assert(decreases_to!(*self => self->Object_0));
                        assert(decreases_to!(self->Object_0 => self->Object_0@));
                        assert(decreases_to!(self->Object_0@ => self->Object_0@[i as int]));
                        assert(decreases_to!(self->Object_0@[i as int] => self->Object_0@[i as int].value));
                    }
                    let value = fields[i].value.copy();
                    out.push(JsonField { name: fields[i].name.clone(), value });
                    i += 1;
                }
                proof {
                    lemma_json_of_fields(out@);
                    lemma_json_of_fields(fields@);
                    assert(json_of_fields(out@) =~= json_of_fields(fields@));
                }
                JsonValue::Object(out)
            },
        }
    }
}

impl Clone for JsonValue {
    fn clone(&self) -> (r: Self)
        ensures
            r@ == self@,
    {
        self.copy()
    }
}

impl Clone for JsonField {
    fn clone(&self) -> (r: Self)
        ensures
            r@ == self@,
    {
        JsonField { name: self.name.clone(), value: self.value.copy() }
    }
}

} // verus!
