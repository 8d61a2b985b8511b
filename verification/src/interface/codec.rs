//! How the records of the service are written as JSON and read back.
//!
//! Every record states its wire form as a spec function ([`ToJson::json`]) and
//! which documents it accepts ([`FromJson::decoded`]); the executable
//! converters are proved against both.

use vstd::prelude::*;
use crate::json::{
    field_index, find_field, json_of_fields, json_of_items, lemma_json_of_items, lookup, num_of,
    number_as_u64, Json, JsonField, JsonValue, Num,
};

verus! {

/// A record that can be written as a JSON document.
pub trait ToJson {
    /// The document that stands for the record on the wire.
    spec fn json(&self) -> Json;

    fn to_json(&self) -> (v: JsonValue)
        ensures
            v@ == self.json(),
    ;
}

/// A record that is written as a JSON object.
pub trait JsonObject {
    /// The fields of the object, in declaration order.
    spec fn json_fields(&self) -> Seq<(Seq<char>, Json)>;

    /// Appends the record's fields to `out`.
    fn push_fields(&self, out: &mut Vec<JsonField>)
        ensures
            json_of_fields(final(out)@) == json_of_fields(old(out)@) + self.json_fields(),
    ;
}

/// A record that can be read from a JSON document.
pub trait FromJson: ToJson + Sized {
    /// The wire form of the record that a document is read as, `None` where
    /// the document is refused. Unknown fields of an object are dropped.
    spec fn decoded(j: Json) -> Option<Json>;

    /// What a field of this type reads as where the object has no such
    /// field; `None` where the field must be there.
    spec fn absent() -> Option<Json>;

    fn from_json(v: &JsonValue) -> (r: Option<Self>)
        ensures
            match r {
                Some(x) => Self::decoded(v@) == Some(x.json()),
                None => Self::decoded(v@) is None,
            },
    ;

    /// Reads a field of this type that the object does not have.
    fn from_absent() -> (r: Option<Self>)
        ensures
            match r {
                Some(x) => Self::absent() == Some(x.json()),
                None => Self::absent() is None,
            },
    ;
}

/// What the field `name` of an object is read as, as a `T`: the first field
/// of that name where there is one, else what `T` says of an absent field.
pub open spec fn field_decoded<T: FromJson>(fields: Seq<(Seq<char>, Json)>, name: Seq<char>) -> Option<
    Json,
> {
    match lookup(fields, name) {
        Some(j) => T::decoded(j),
        None => T::absent(),
    }
}

/// Appends one field to a list of fields.
pub fn push_field(out: &mut Vec<JsonField>, name: &str, value: JsonValue)
    ensures
        json_of_fields(final(out)@) == json_of_fields(old(out)@).push((name@, value@)),
{
    out.push(JsonField { name: String::from_str(name), value });
    proof {
        assert(out@.drop_last() =~= old(out)@);
    }
}

/// Reads the field `name` of an object as a `T`.
pub fn decode_field<T: FromJson>(fields: &Vec<JsonField>, name: &str) -> (r: Option<T>)
    ensures
        match r {
            Some(x) => field_decoded::<T>(json_of_fields(fields@), name@) == Some(x.json()),
            None => field_decoded::<T>(json_of_fields(fields@), name@) is None,
        },
{
    match find_field(fields, name) {
        Some(v) => T::from_json(v),
        None => T::from_absent(),
    }
}

impl ToJson for JsonValue {
    open spec fn json(&self) -> Json {
        self@
    }

    fn to_json(&self) -> (v: JsonValue) {
        self.copy()
    }
}

impl FromJson for JsonValue {
    open spec fn absent() -> Option<Json> {
        None
    }

    fn from_absent() -> (r: Option<Self>) {
        None
    }

    open spec fn decoded(j: Json) -> Option<Json> {
        Some(j)
    }

    fn from_json(v: &JsonValue) -> (r: Option<Self>) {
        Some(v.copy())
    }
}

impl ToJson for () {
    open spec fn json(&self) -> Json {
        Json::Null
    }

    fn to_json(&self) -> (v: JsonValue) {
        JsonValue::Null
    }
}

impl FromJson for () {
    open spec fn absent() -> Option<Json> {
        None
    }

    fn from_absent() -> (r: Option<Self>) {
        None
    }

    open spec fn decoded(j: Json) -> Option<Json> {
        match j {
            Json::Null => Some(Json::Null),
            _ => None,
        }
    }

    fn from_json(v: &JsonValue) -> (r: Option<Self>) {
        match v {
            JsonValue::Null => Some(()),
            _ => None,
        }
    }
}

impl ToJson for bool {
    open spec fn json(&self) -> Json {
        Json::Bool(*self)
    }

    fn to_json(&self) -> (v: JsonValue) {
        JsonValue::Bool(*self)
    }
}

impl FromJson for bool {
    open spec fn absent() -> Option<Json> {
        None
    }

    fn from_absent() -> (r: Option<Self>) {
        None
    }

    open spec fn decoded(j: Json) -> Option<Json> {
        match j {
            Json::Bool(_) => Some(j),
            _ => None,
        }
    }

    fn from_json(v: &JsonValue) -> (r: Option<Self>) {
        match v {
            JsonValue::Bool(b) => Some(*b),
            _ => None,
        }
    }
}

/// A document read as an unsigned integer of at most `max`: a number that is a
/// non-negative integer within the bound.
pub open spec fn decoded_unsigned(j: Json, max: u64) -> Option<Json> {
    match j {
        Json::Number(n) => match n.as_u64 {
            Some(u) => if u <= max {
                Some(Json::Number(Num::of_u64(u)))
            } else {
                None
            },
            None => None,
        },
        _ => None,
    }
}

fn unsigned_from_json(v: &JsonValue, max: u64) -> (r: Option<u64>)
    ensures
        match r {
            Some(u) => u <= max && decoded_unsigned(v@, max) == Some(Json::Number(Num::of_u64(u))),
            None => decoded_unsigned(v@, max) is None,
        },
{
    match v {
        JsonValue::Number(n) => match number_as_u64(n) {
            Some(u) => if u <= max {
                Some(u)
            } else {
                None
            },
            None => None,
        },
        _ => None,
    }
}

impl ToJson for u64 {
    open spec fn json(&self) -> Json {
        Json::Number(Num::of_u64(*self))
    }

    fn to_json(&self) -> (v: JsonValue) {
        JsonValue::from_u64(*self)
    }
}

impl FromJson for u64 {
    open spec fn absent() -> Option<Json> {
        None
    }

    fn from_absent() -> (r: Option<Self>) {
        None
    }

    open spec fn decoded(j: Json) -> Option<Json> {
        decoded_unsigned(j, u64::MAX)
    }

    fn from_json(v: &JsonValue) -> (r: Option<Self>) {
        unsigned_from_json(v, u64::MAX)
    }
}

impl ToJson for u32 {
    open spec fn json(&self) -> Json {
        Json::Number(Num::of_u64(*self as u64))
    }

    fn to_json(&self) -> (v: JsonValue) {
        JsonValue::from_u64(*self as u64)
    }
}

impl FromJson for u32 {
    open spec fn absent() -> Option<Json> {
        None
    }

    fn from_absent() -> (r: Option<Self>) {
        None
    }

    open spec fn decoded(j: Json) -> Option<Json> {
        decoded_unsigned(j, u32::MAX as u64)
    }

    fn from_json(v: &JsonValue) -> (r: Option<Self>) {
        match unsigned_from_json(v, u32::MAX as u64) {
            Some(u) => Some(u as u32),
            None => None,
        }
    }
}

impl ToJson for u8 {
    open spec fn json(&self) -> Json {
        Json::Number(Num::of_u64(*self as u64))
    }

    fn to_json(&self) -> (v: JsonValue) {
        JsonValue::from_u64(*self as u64)
    }
}

impl FromJson for u8 {
    open spec fn absent() -> Option<Json> {
        None
    }

    fn from_absent() -> (r: Option<Self>) {
        None
    }

    open spec fn decoded(j: Json) -> Option<Json> {
        decoded_unsigned(j, u8::MAX as u64)
    }

    fn from_json(v: &JsonValue) -> (r: Option<Self>) {
        match unsigned_from_json(v, u8::MAX as u64) {
            Some(u) => Some(u as u8),
            None => None,
        }
    }
}

impl ToJson for serde_json::Number {
    open spec fn json(&self) -> Json {
        Json::Number(num_of(*self))
    }

    fn to_json(&self) -> (v: JsonValue) {
        JsonValue::Number(self.clone())
    }
}

impl FromJson for serde_json::Number {
    open spec fn absent() -> Option<Json> {
        None
    }

    fn from_absent() -> (r: Option<Self>) {
        None
    }

    open spec fn decoded(j: Json) -> Option<Json> {
        match j {
            Json::Number(_) => Some(j),
            _ => None,
        }
    }

    fn from_json(v: &JsonValue) -> (r: Option<Self>) {
        match v {
            JsonValue::Number(n) => Some(n.clone()),
            _ => None,
        }
    }
}

impl ToJson for String {
    open spec fn json(&self) -> Json {
        Json::String(self@)
    }

    fn to_json(&self) -> (v: JsonValue) {
        JsonValue::String(self.clone())
    }
}

impl FromJson for String {
    open spec fn absent() -> Option<Json> {
        None
    }

    fn from_absent() -> (r: Option<Self>) {
        None
    }

    open spec fn decoded(j: Json) -> Option<Json> {
        match j {
            Json::String(_) => Some(j),
            _ => None,
        }
    }

    fn from_json(v: &JsonValue) -> (r: Option<Self>) {
        match v {
            JsonValue::String(s) => Some(s.clone()),
            _ => None,
        }
    }
}

impl<T: ToJson> ToJson for Option<T> {
    open spec fn json(&self) -> Json {
        match self {
            Some(x) => x.json(),
            None => Json::Null,
        }
    }

    fn to_json(&self) -> (v: JsonValue) {
        match self {
            Some(x) => x.to_json(),
            None => JsonValue::Null,
        }
    }
}

impl<T: FromJson> FromJson for Option<T> {
    open spec fn absent() -> Option<Json> {
        Some(Json::Null)
    }

    fn from_absent() -> (r: Option<Self>) {
        Some(None)
    }

    open spec fn decoded(j: Json) -> Option<Json> {
        match j {
            Json::Null => Some(Json::Null),
            _ => T::decoded(j),
        }
    }

    fn from_json(v: &JsonValue) -> (r: Option<Self>) {
        match v {
            JsonValue::Null => Some(None),
            _ => match T::from_json(v) {
                Some(x) => Some(Some(x)),
                None => None,
            },
        }
    }
}

/// The wire forms of a list of records, in order.
pub open spec fn items_json<T: ToJson>(items: Seq<T>) -> Seq<Json> {
    Seq::new(items.len(), |i: int| items[i].json())
}

/// A list of documents read item by item as `T`: `None` where one item is
/// refused.
pub open spec fn decoded_items<T: FromJson>(items: Seq<Json>) -> Option<Seq<Json>> {
    if forall|i: int| 0 <= i < items.len() ==> (#[trigger] T::decoded(items[i])) is Some {
        Some(Seq::new(items.len(), |i: int| T::decoded(items[i])->0))
    } else {
        None
    }
}

impl<T: ToJson> ToJson for Vec<T> {
    open spec fn json(&self) -> Json {
        Json::Array(items_json(self@))
    }

    fn to_json(&self) -> (v: JsonValue) {
        let mut out: Vec<JsonValue> = Vec::new();
        let mut i: usize = 0;
        while i < self.len()
            invariant
                i <= self.len(),
                out@.len() == i,
                forall|k: int| 0 <= k < i ==> (#[trigger] out@[k])@ == self@[k].json(),
            decreases self.len() - i,
        {
            out.push(self[i].to_json());
            i += 1;
        }
        proof {
            lemma_json_of_items(out@);
            assert(json_of_items(out@) =~= items_json(self@));
        }
        JsonValue::Array(out)
    }
}

impl<T: FromJson> FromJson for Vec<T> {
    open spec fn absent() -> Option<Json> {
        None
    }

    fn from_absent() -> (r: Option<Self>) {
        None
    }

    open spec fn decoded(j: Json) -> Option<Json> {
        match j {
            Json::Array(items) => match decoded_items::<T>(items) {
                Some(read) => Some(Json::Array(read)),
                None => None,
            },
            _ => None,
        }
    }

    fn from_json(v: &JsonValue) -> (r: Option<Self>) {
        match v {
            JsonValue::Array(items) => {
                let ghost docs = json_of_items(items@);
                proof {
                    lemma_json_of_items(items@);
                }
                let mut out: Vec<T> = Vec::new();
                let mut i: usize = 0;
                while i < items.len()
                    invariant
                        i <= items.len(),
                        out@.len() == i,
                        v@ == Json::Array(docs),
                        docs.len() == items@.len(),
                        forall|k: int| 0 <= k < docs.len() ==> #[trigger] docs[k] == items@[k]@,
                        forall|k: int|
                            0 <= k < i ==> T::decoded(docs[k]) == Some((#[trigger] out@[k]).json()),
                    decreases items.len() - i,
                {
                    match T::from_json(&items[i]) {
                        Some(x) => {
                            out.push(x);
                        },
                        None => {
                            assert(T::decoded(docs[i as int]) is None);
                            return None;
                        },
                    }
                    i += 1;
                }
                proof {
                    assert forall|k: int| 0 <= k < docs.len() implies (#[trigger] T::decoded(
                        docs[k],
                    )) is Some by {
                        assert(T::decoded(docs[k]) == Some(out@[k].json()));
                    }
                    assert(decoded_items::<T>(docs)->0 =~= items_json(out@));
                }
                Some(out)
            },
            _ => None,
        }
    }
}

/// A record that reads back from its own wire form as itself.
pub trait RoundTrip: FromJson {
    proof fn lemma_round_trip(&self)
        ensures
            Self::decoded(self.json()) == Some(self.json()),
    ;
}

/// The character of a name at a position, a blank where the name ends before.
pub open spec fn name_char(name: Seq<char>, at: int) -> char {
    if 0 <= at < name.len() {
        name[at]
    } else {
        ' '
    }
}

/// The length of a name and its characters at three positions: enough to tell
/// the names of a record apart.
pub open spec fn name_key(name: Seq<char>, a: int, b: int, c: int) -> (nat, char, char, char) {
    (name.len(), name_char(name, a), name_char(name, b), name_char(name, c))
}

/// Whether no two fields share a name.
pub open spec fn names_distinct(fields: Seq<(Seq<char>, Json)>) -> bool {
    forall|i: int, j: int| 0 <= i < j < fields.len() ==> fields[i].0 != fields[j].0
}

/// In an object without repeated names every field is found by its name.
pub proof fn lemma_fields_found(fields: Seq<(Seq<char>, Json)>)
    requires
        names_distinct(fields),
    ensures
        forall|i: int|
            0 <= i < fields.len() ==> lookup(fields, (#[trigger] fields[i]).0) == Some(fields[i].1),
    decreases fields.len(),
{
    if fields.len() > 0 {
        let rest = fields.drop_first();
        assert(names_distinct(rest)) by {
            assert forall|i: int, j: int| 0 <= i < j < rest.len() implies rest[i].0 != rest[j].0 by {
                assert(rest[i] == fields[i + 1]);
                assert(rest[j] == fields[j + 1]);
            }
        }
        lemma_fields_found(rest);
        assert forall|i: int| 0 <= i < fields.len() implies lookup(fields, (#[trigger] fields[i]).0)
            == Some(fields[i].1) by {
            if i > 0 {
                assert(rest[i - 1] == fields[i]);
                assert(fields[0].0 != fields[i].0);
                assert(field_index(fields, fields[i].0) == 1 + field_index(rest, fields[i].0));
                crate::json::lemma_field_index(rest, fields[i].0);
                assert(lookup(rest, rest[i - 1].0) == Some(rest[i - 1].1));
                if field_index(rest, fields[i].0) < rest.len() {
                    assert(fields[1 + field_index(rest, fields[i].0)] == rest[field_index(
                        rest,
                        fields[i].0,
                    )]);
                }
            }
        }
    }
}

impl RoundTrip for JsonValue {
    proof fn lemma_round_trip(&self) {
    }
}

impl RoundTrip for () {
    proof fn lemma_round_trip(&self) {
    }
}

impl RoundTrip for bool {
    proof fn lemma_round_trip(&self) {
    }
}

impl RoundTrip for u64 {
    proof fn lemma_round_trip(&self) {
    }
}

impl RoundTrip for u32 {
    proof fn lemma_round_trip(&self) {
    }
}

impl RoundTrip for u8 {
    proof fn lemma_round_trip(&self) {
    }
}

impl RoundTrip for serde_json::Number {
    proof fn lemma_round_trip(&self) {
    }
}

impl RoundTrip for String {
    proof fn lemma_round_trip(&self) {
    }
}

impl<T: RoundTrip> RoundTrip for Option<T> {
    proof fn lemma_round_trip(&self) {
        match self {
            Some(x) => {
                x.lemma_round_trip();
            },
            None => {},
        }
    }
}

impl<T: RoundTrip> RoundTrip for Vec<T> {
    proof fn lemma_round_trip(&self) {
        let docs = items_json(self@);
        assert forall|i: int| 0 <= i < docs.len() implies (#[trigger] T::decoded(docs[i]))
            == Some(docs[i]) by {
            self@[i].lemma_round_trip();
        }
        assert(decoded_items::<T>(docs)->0 =~= docs);
    }
}

} // verus!
