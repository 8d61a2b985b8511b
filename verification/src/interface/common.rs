//! Records shared by every part of the interface: paging, object ids, signatures.

use vstd::prelude::*;
use crate::interface::codec::{
    FromJson, JsonObject, RoundTrip, ToJson, decode_field, field_decoded, lemma_fields_found,
    name_key, push_field,
};
use crate::json::{Json, json_of_fields, JsonField, JsonValue};

verus! {

/// The parameters of an operation that takes none.
#[derive(Clone, Debug, PartialEq)]
pub struct EmptyParams;

impl ToJson for EmptyParams {
    open spec fn json(&self) -> Json {
        Json::Null
    }

    fn to_json(&self) -> (v: JsonValue) {
        JsonValue::Null
    }
}

/// One page of a result: the items of the page and the number of items that the
/// result has in all.
#[derive(Clone, Debug, PartialEq)]
pub struct PaginationResult<T> {
    pub data: T,
    pub total: u64,
}

impl<T: ToJson> ToJson for PaginationResult<T> {
    open spec fn json(&self) -> Json {
        Json::Object(
            seq![
                ("data"@, self.data.json()),
                ("total"@, self.total.json()),
            ],
        )
    }

    fn to_json(&self) -> (v: JsonValue) {
        let mut fields: Vec<JsonField> = Vec::new();
        push_field(&mut fields, "data", self.data.to_json());
        push_field(&mut fields, "total", self.total.to_json());
        proof {
            assert(json_of_fields(fields@) =~= self.json()->Object_0);
        }
        JsonValue::Object(fields)
    }
}

impl<T: FromJson> FromJson for PaginationResult<T> {
    open spec fn absent() -> Option<Json> {
        None
    }

    fn from_absent() -> (r: Option<Self>) {
        None
    }

    open spec fn decoded(j: Json) -> Option<Json> {
        match j {
            Json::Object(fields) => {
                let data = field_decoded::<T>(fields, "data"@);
                let total = field_decoded::<u64>(fields, "total"@);
                if data is Some
                    && total is Some {
                    Some(
                        Json::Object(
                            seq![
                                ("data"@, data->0),
                                ("total"@, total->0),
                            ],
                        ),
                    )
                } else {
                    None
                }
            },
            _ => None,
        }
    }

    fn from_json(v: &JsonValue) -> (r: Option<Self>) {
        match v {
            JsonValue::Object(fields) => {
                let data: T = decode_field(fields, "data")?;
                let total: u64 = decode_field(fields, "total")?;
                Some(PaginationResult { data, total })
            },
            _ => None,
        }
    }
}

impl<T: RoundTrip> RoundTrip for PaginationResult<T> {
    proof fn lemma_round_trip(&self) {
        reveal_strlit("data");
        reveal_strlit("total");
        let fields = self.json()->Object_0;
        assert(name_key(fields[0].0, 0, 0, 0) == (4nat, 'd', 'd', 'd'));
        assert(name_key(fields[1].0, 0, 0, 0) == (5nat, 't', 't', 't'));
        assert forall|i: int, j: int| 0 <= i < j < fields.len() implies fields[i].0
            != fields[j].0 by {
            assert(name_key(fields[i].0, 0, 0, 0) != name_key(fields[j].0, 0, 0, 0));
        }
        lemma_fields_found(fields);
        self.data.lemma_round_trip();
        self.total.lemma_round_trip();
    }
}

/// The id of a stored record, written as `{"$oid": ..}`.
#[derive(Clone, Debug, PartialEq)]
pub struct ObjectId {
    pub oid: String,
}

impl ToJson for ObjectId {
    open spec fn json(&self) -> Json {
        Json::Object(
            seq![
                ("$oid"@, self.oid.json()),
            ],
        )
    }

    fn to_json(&self) -> (v: JsonValue) {
        let mut fields: Vec<JsonField> = Vec::new();
        push_field(&mut fields, "$oid", self.oid.to_json());
        proof {
            assert(json_of_fields(fields@) =~= self.json()->Object_0);
        }
        JsonValue::Object(fields)
    }
}

impl FromJson for ObjectId {
    open spec fn absent() -> Option<Json> {
        None
    }

    fn from_absent() -> (r: Option<Self>) {
        None
    }

    open spec fn decoded(j: Json) -> Option<Json> {
        match j {
            Json::Object(fields) => {
                let oid = field_decoded::<String>(fields, "$oid"@);
                if oid is Some {
                    Some(
                        Json::Object(
                            seq![
                                ("$oid"@, oid->0),
                            ],
                        ),
                    )
                } else {
                    None
                }
            },
            _ => None,
        }
    }

    fn from_json(v: &JsonValue) -> (r: Option<Self>) {
        match v {
            JsonValue::Object(fields) => {
                let oid: String = decode_field(fields, "$oid")?;
                Some(ObjectId { oid })
            },
            _ => None,
        }
    }
}

impl RoundTrip for ObjectId {
    proof fn lemma_round_trip(&self) {
        reveal_strlit("$oid");
        let fields = self.json()->Object_0;
        assert(name_key(fields[0].0, 0, 0, 0) == (4nat, '$', '$', '$'));
        assert forall|i: int, j: int| 0 <= i < j < fields.len() implies fields[i].0
            != fields[j].0 by {
            assert(name_key(fields[i].0, 0, 0, 0) != name_key(fields[j].0, 0, 0, 0));
        }
        lemma_fields_found(fields);
        self.oid.lemma_round_trip();
    }
}

/// Paging of a query.
#[derive(Clone, Debug, PartialEq)]
pub struct PaginationParams {
    pub total: Option<u64>,
    pub start: Option<u64>,
}

impl ToJson for PaginationParams {
    open spec fn json(&self) -> Json {
        Json::Object(self.json_fields())
    }

    fn to_json(&self) -> (v: JsonValue) {
        let mut fields: Vec<JsonField> = Vec::new();
        self.push_fields(&mut fields);
        proof {
            assert(json_of_fields(fields@) =~= self.json_fields());
        }
        JsonValue::Object(fields)
    }
}

impl JsonObject for PaginationParams {
    open spec fn json_fields(&self) -> Seq<(Seq<char>, Json)> {
        seq![
            ("total"@, self.total.json()),
            ("start"@, self.start.json()),
        ]
    }

    fn push_fields(&self, out: &mut Vec<JsonField>) {
        push_field(out, "total", self.total.to_json());
        push_field(out, "start", self.start.to_json());
        proof {
            assert(json_of_fields(out@) =~= json_of_fields(old(out)@) + self.json_fields());
        }
    }
}

/// A query with paging. Both are written into one object, the query first.
#[derive(Clone, Debug, PartialEq)]
pub struct PaginatedQuery<T> {
    pub query: T,
    pub pagination: PaginationParams,
}

impl<T: JsonObject> ToJson for PaginatedQuery<T> {
    open spec fn json(&self) -> Json {
        Json::Object(self.json_fields())
    }

    fn to_json(&self) -> (v: JsonValue) {
        let mut fields: Vec<JsonField> = Vec::new();
        self.push_fields(&mut fields);
        proof {
            assert(json_of_fields(fields@) =~= self.json_fields());
        }
        JsonValue::Object(fields)
    }
}

impl<T: JsonObject> JsonObject for PaginatedQuery<T> {
    open spec fn json_fields(&self) -> Seq<(Seq<char>, Json)> {
        self.query.json_fields()
        + self.pagination.json_fields()
    }

    fn push_fields(&self, out: &mut Vec<JsonField>) {
        self.query.push_fields(out);
        self.pagination.push_fields(out);
        proof {
            assert(json_of_fields(out@) =~= json_of_fields(old(out)@) + self.json_fields());
        }
    }
}

/// A signature that travels inside a payload.
#[derive(Clone, Debug, PartialEq)]
pub struct WithSignature {
    pub signature: String,
}

impl ToJson for WithSignature {
    open spec fn json(&self) -> Json {
        Json::Object(self.json_fields())
    }

    fn to_json(&self) -> (v: JsonValue) {
        let mut fields: Vec<JsonField> = Vec::new();
        self.push_fields(&mut fields);
        proof {
            assert(json_of_fields(fields@) =~= self.json_fields());
        }
        JsonValue::Object(fields)
    }
}

impl JsonObject for WithSignature {
    open spec fn json_fields(&self) -> Seq<(Seq<char>, Json)> {
        seq![
            ("signature"@, self.signature.json()),
        ]
    }

    fn push_fields(&self, out: &mut Vec<JsonField>) {
        push_field(out, "signature", self.signature.to_json());
        proof {
            assert(json_of_fields(out@) =~= json_of_fields(old(out)@) + self.json_fields());
        }
    }
}

/// No signature.
#[derive(Clone, Debug, PartialEq)]
pub struct WithoutSignature;

impl ToJson for WithoutSignature {
    open spec fn json(&self) -> Json {
        Json::Null
    }

    fn to_json(&self) -> (v: JsonValue) {
        JsonValue::Null
    }
}

impl JsonObject for WithoutSignature {
    open spec fn json_fields(&self) -> Seq<(Seq<char>, Json)> {
        Seq::empty()
    }

    fn push_fields(&self, out: &mut Vec<JsonField>) {
        proof {
            assert(json_of_fields(out@) =~= json_of_fields(old(out)@) + self.json_fields());
        }
    }
}

/// The signature of a payload, if it has one. It is written as the field of the
/// signature, or as nothing.
#[derive(Clone, Debug, PartialEq)]
pub enum Signature {
    With(WithSignature),
    Without(WithoutSignature),
}

impl ToJson for Signature {
    open spec fn json(&self) -> Json {
        match self {
            Signature::With(x) => x.json(),
            Signature::Without(x) => x.json(),
        }
    }

    fn to_json(&self) -> (v: JsonValue) {
        match self {
            Signature::With(x) => x.to_json(),
            Signature::Without(x) => x.to_json(),
        }
    }
}

impl JsonObject for Signature {
    open spec fn json_fields(&self) -> Seq<(Seq<char>, Json)> {
        match self {
            Signature::With(x) => x.json_fields(),
            Signature::Without(x) => x.json_fields(),
        }
    }

    fn push_fields(&self, out: &mut Vec<JsonField>) {
        match self {
            Signature::With(x) => {
                x.push_fields(out);
            },
            Signature::Without(x) => {
                x.push_fields(out);
            },
        }
    }
}

/// A payload with its signature: the fields of the payload, then the signature.
#[derive(Clone, Debug, PartialEq)]
pub struct SignaturedRequest<T> {
    pub base: T,
    pub signature: Signature,
}

impl<T: JsonObject> ToJson for SignaturedRequest<T> {
    open spec fn json(&self) -> Json {
        Json::Object(self.json_fields())
    }

    fn to_json(&self) -> (v: JsonValue) {
        let mut fields: Vec<JsonField> = Vec::new();
        self.push_fields(&mut fields);
        proof {
            assert(json_of_fields(fields@) =~= self.json_fields());
        }
        JsonValue::Object(fields)
    }
}

impl<T: JsonObject> JsonObject for SignaturedRequest<T> {
    open spec fn json_fields(&self) -> Seq<(Seq<char>, Json)> {
        self.base.json_fields()
        + self.signature.json_fields()
    }

    fn push_fields(&self, out: &mut Vec<JsonField>) {
        self.base.push_fields(out);
        self.signature.push_fields(out);
        proof {
            assert(json_of_fields(out@) =~= json_of_fields(old(out)@) + self.json_fields());
        }
    }
}

/// The task that a payload started.
#[derive(Clone, Debug, PartialEq)]
pub struct AddTaskResult {
    pub md5: String,
    pub id: String,
}

impl ToJson for AddTaskResult {
    open spec fn json(&self) -> Json {
        Json::Object(
            seq![
                ("md5"@, self.md5.json()),
                ("id"@, self.id.json()),
            ],
        )
    }

    fn to_json(&self) -> (v: JsonValue) {
        let mut fields: Vec<JsonField> = Vec::new();
        push_field(&mut fields, "md5", self.md5.to_json());
        push_field(&mut fields, "id", self.id.to_json());
        proof {
            assert(json_of_fields(fields@) =~= self.json()->Object_0);
        }
        JsonValue::Object(fields)
    }
}

impl FromJson for AddTaskResult {
    open spec fn absent() -> Option<Json> {
        None
    }

    fn from_absent() -> (r: Option<Self>) {
        None
    }

    open spec fn decoded(j: Json) -> Option<Json> {
        match j {
            Json::Object(fields) => {
                let md5 = field_decoded::<String>(fields, "md5"@);
                let id = field_decoded::<String>(fields, "id"@);
                if md5 is Some
                    && id is Some {
                    Some(
                        Json::Object(
                            seq![
                                ("md5"@, md5->0),
                                ("id"@, id->0),
                            ],
                        ),
                    )
                } else {
                    None
                }
            },
            _ => None,
        }
    }

    fn from_json(v: &JsonValue) -> (r: Option<Self>) {
        match v {
            JsonValue::Object(fields) => {
                let md5: String = decode_field(fields, "md5")?;
                let id: String = decode_field(fields, "id")?;
                Some(AddTaskResult { md5, id })
            },
            _ => None,
        }
    }
}

impl RoundTrip for AddTaskResult {
    proof fn lemma_round_trip(&self) {
        reveal_strlit("md5");
        reveal_strlit("id");
        let fields = self.json()->Object_0;
        assert(name_key(fields[0].0, 0, 0, 0) == (3nat, 'm', 'm', 'm'));
        assert(name_key(fields[1].0, 0, 0, 0) == (2nat, 'i', 'i', 'i'));
        assert forall|i: int, j: int| 0 <= i < j < fields.len() implies fields[i].0
            != fields[j].0 by {
            assert(name_key(fields[i].0, 0, 0, 0) != name_key(fields[j].0, 0, 0, 0));
        }
        lemma_fields_found(fields);
        self.md5.lemma_round_trip();
        self.id.lemma_round_trip();
    }
}

} // verus!
