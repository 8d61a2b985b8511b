//! Multipart forms: the body of most requests that change something.

use vstd::prelude::*;
use crate::error::ApiError;
use crate::helper::util::{bool_text, scalar_text, SerializationAttributes};
use crate::interface::{
    AddImageParams, CustomContext, DeployParams, InitialContext, ProvingParams, ResetContext,
    ResetImageParams, SubscriptionRequest, ForceDryrunFailsToReprocessParams, ForceUnprovableToReprocessParams,
    ModifyImageParams, PaymentParams, SetMaintenanceModeParams, ToJson,
};
use crate::json::{
    json_of_fields, json_of_items, lemma_json_of_fields, lemma_json_of_items, number_as_u64,
    number_to_text, Json, JsonValue,
};
use crate::text::{contains_name, names_contain, names_view};

verus! {

/// The content of one part of a form.
#[derive(Clone, Debug, PartialEq)]
pub enum Part {
    Text(String),
    Bytes(Vec<u8>),
}

/// The mathematical content of a [`Part`].
pub enum PartContent {
    Text(Seq<char>),
    Bytes(Seq<u8>),
}

impl View for Part {
    type V = PartContent;

    open spec fn view(&self) -> PartContent {
        match self {
            Part::Text(s) => PartContent::Text(s@),
            Part::Bytes(b) => PartContent::Bytes(b@),
        }
    }
}

impl Part {
    /// A copy of the part.
    pub fn copy(&self) -> (r: Part)
        ensures
            r@ == self@,
    {
        match self {
            Part::Text(s) => Part::Text(s.clone()),
            Part::Bytes(b) => {
                let mut bytes: Vec<u8> = Vec::new();
                let mut i: usize = 0;
                while i < b.len()
                    invariant
                        i <= b.len(),
                        bytes@ == b@.take(i as int),
                    decreases b.len() - i,
                {
                    bytes.push(b[i]);
                    assert(bytes@ =~= b@.take(i + 1));
                    i += 1;
                }
                assert(bytes@ =~= b@);
                Part::Bytes(bytes)
            },
        }
    }
}

/// One named part of a form.
#[derive(Clone, Debug, PartialEq)]
pub struct FormPart {
    pub name: String,
    pub part: Part,
}

impl View for FormPart {
    type V = (Seq<char>, PartContent);

    open spec fn view(&self) -> (Seq<char>, PartContent) {
        (self.name@, self.part@)
    }
}

/// A multipart form: named parts in the order in which they are sent.
#[derive(Clone, Debug, PartialEq)]
pub struct MultipartForm {
    pub parts: Vec<FormPart>,
}

impl View for MultipartForm {
    type V = Seq<(Seq<char>, PartContent)>;

    open spec fn view(&self) -> Seq<(Seq<char>, PartContent)> {
        Seq::new(self.parts@.len(), |i: int| self.parts@[i]@)
    }
}

/// The byte that a document stands for in a bytes field: a number that is an
/// integer between 0 and 255.
pub open spec fn byte_of(j: Json) -> Option<u8> {
    match j {
        Json::Number(n) => match n.as_u64 {
            Some(u) => if u <= 255 {
                Some(u as u8)
            } else {
                None
            },
            None => None,
        },
        _ => None,
    }
}

/// The parts that one field of a payload gives: none for null, one text part
/// for a scalar, for an array one part of bytes where the field is a bytes
/// field and else one text part for each item.
pub open spec fn field_parts(name: Seq<char>, j: Json, bytes_fields: Seq<Seq<char>>) -> Result<
    Seq<PartContent>,
    ApiError,
> {
    match j {
        Json::Null => Ok(Seq::empty()),
        Json::Object(_) => Err(ApiError::UnsupportedNesting),
        Json::Array(items) => if names_contain(bytes_fields, name) {
            if forall|i: int| 0 <= i < items.len() ==> (#[trigger] byte_of(items[i])) is Some {
                Ok(seq![PartContent::Bytes(Seq::new(items.len(), |i: int| byte_of(items[i])->0))])
            } else {
                Err(ApiError::InvalidByteValue)
            }
        } else {
            if forall|i: int| 0 <= i < items.len() ==> (#[trigger] scalar_text(items[i])) is Some {
                Ok(Seq::new(items.len(), |i: int| PartContent::Text(scalar_text(items[i])->0)))
            } else {
                Err(ApiError::UnsupportedNesting)
            }
        },
        _ => Ok(seq![PartContent::Text(scalar_text(j)->0)]),
    }
}

/// The parts that a list of fields gives, field after field, each part under
/// the name of its field. The first field that has no parts decides the error.
pub open spec fn fields_parts(fields: Seq<(Seq<char>, Json)>, bytes_fields: Seq<Seq<char>>) -> Result<
    Seq<(Seq<char>, PartContent)>,
    ApiError,
>
    decreases fields.len(),
{
    if fields.len() == 0 {
        Ok(Seq::empty())
    } else {
        match fields_parts(fields.drop_last(), bytes_fields) {
            Err(e) => Err(e),
            Ok(front) => match field_parts(fields.last().0, fields.last().1, bytes_fields) {
                Err(e) => Err(e),
                Ok(parts) => Ok(front + Seq::new(parts.len(), |i: int| (fields.last().0, parts[i]))),
            },
        }
    }
}

/// The form of a payload: the parts of its fields where it is an object.
pub open spec fn form_of(j: Json, bytes_fields: Seq<Seq<char>>) -> Result<
    Seq<(Seq<char>, PartContent)>,
    ApiError,
> {
    match j {
        Json::Object(fields) => fields_parts(fields, bytes_fields),
        _ => Err(ApiError::NotAnObject),
    }
}

/// The text of a scalar, `None` for null, arrays and objects.
fn scalar_to_text(v: &JsonValue) -> (r: Option<String>)
    ensures
        match r {
            Some(s) => scalar_text(v@) == Some(s@),
            None => scalar_text(v@) is None,
        },
{
    match v {
        JsonValue::Bool(b) => {
            proof {
                reveal_strlit("true");
                reveal_strlit("false");
            }
            let s = if *b {
                String::from_str("true")
            } else {
                String::from_str("false")
            };
            assert(s@ =~= bool_text(*b));
            Some(s)
        },
        JsonValue::Number(n) => Some(number_to_text(n)),
        JsonValue::String(s) => Some(s.clone()),
        _ => None,
    }
}

/// Converts payloads into multipart forms.
pub struct IntoMultipartForm;

impl IntoMultipartForm {
    /// The text part of a scalar.
    pub fn into_part(obj: &JsonValue) -> (r: Result<Part, ApiError>)
        ensures
            match r {
                Ok(p) => scalar_text(obj@) == Some(p@->Text_0) && p@ is Text,
                Err(e) => scalar_text(obj@) is None && e == ApiError::UnsupportedNesting,
            },
    {
        match scalar_to_text(obj) {
            Some(s) => Ok(Part::Text(s)),
            None => Err(ApiError::UnsupportedNesting),
        }
    }

    /// The parts of the field `name` with value `obj`.
    pub fn create_parts(name: &str, obj: &JsonValue, bytes_fields: &Vec<String>) -> (r: Result<
        Vec<Part>,
        ApiError,
    >)
        ensures
            match r {
                Ok(parts) => field_parts(name@, obj@, names_view(bytes_fields@)) == Ok::<
                    Seq<PartContent>,
                    ApiError,
                >(Seq::new(parts@.len(), |i: int| parts@[i]@)),
                Err(e) => field_parts(name@, obj@, names_view(bytes_fields@)) == Err::<
                    Seq<PartContent>,
                    ApiError,
                >(e),
            },
    {
        let mut parts: Vec<Part> = Vec::new();
        match obj {
            JsonValue::Null => {
                assert(Seq::new(parts@.len(), |i: int| parts@[i]@) =~= Seq::<PartContent>::empty());
                Ok(parts)
            },
            JsonValue::Object(_) => Err(ApiError::UnsupportedNesting),
            JsonValue::Array(items) => {
                let ghost docs = json_of_items(items@);
                proof {
                    lemma_json_of_items(items@);
                }
                if contains_name(bytes_fields, name) {
                    let mut bytes: Vec<u8> = Vec::new();
                    let mut i: usize = 0;
                    while i < items.len()
                        invariant
                            i <= items.len(),
                            bytes@.len() == i,
                            obj@ == Json::Array(docs),
                            names_contain(names_view(bytes_fields@), name@),
                            docs.len() == items@.len(),
                            forall|k: int| 0 <= k < docs.len() ==> #[trigger] docs[k] == items@[k]@,
                            forall|k: int| 0 <= k < i ==> byte_of(docs[k]) == Some(#[trigger] bytes@[k]),
                        decreases items.len() - i,
                    {
                        let byte: Option<u8> = match &items[i] {
                            JsonValue::Number(n) => match number_as_u64(n) {
                                Some(u) => if u <= 255 {
                                    Some(u as u8)
                                } else {
                                    None
                                },
                                None => None,
                            },
                            _ => None,
                        };
                        match byte {
                            Some(b) => {
                                bytes.push(b);
                            },
                            None => {
                                assert(byte_of(docs[i as int]) is None);
                                return Err(ApiError::InvalidByteValue);
                            },
                        }
                        i += 1;
                    }
                    proof {
                        assert forall|k: int| 0 <= k < docs.len() implies (#[trigger] byte_of(
                            docs[k],
                        )) is Some by {
                            assert(byte_of(docs[k]) == Some(bytes@[k]));
                        }
                        assert(bytes@ =~= Seq::new(docs.len(), |k: int| byte_of(docs[k])->0));
                    }
                    parts.push(Part::Bytes(bytes));
                    proof {
                        assert(Seq::new(parts@.len(), |i: int| parts@[i]@) =~= seq![
                            PartContent::Bytes(bytes@),
                        ]);
                    }
                    Ok(parts)
                } else {
                    let mut i: usize = 0;
                    while i < items.len()
                        invariant
                            i <= items.len(),
                            parts@.len() == i,
                            obj@ == Json::Array(docs),
                            !names_contain(names_view(bytes_fields@), name@),
                            docs.len() == items@.len(),
                            forall|k: int| 0 <= k < docs.len() ==> #[trigger] docs[k] == items@[k]@,
                            forall|k: int|
                                0 <= k < i ==> scalar_text(docs[k]) is Some && (#[trigger] parts@[k])@
                                    == PartContent::Text(scalar_text(docs[k])->0),
                        decreases items.len() - i,
                    {
                        match Self::into_part(&items[i]) {
                            Ok(p) => {
                                parts.push(p);
                            },
                            Err(e) => {
                                assert(scalar_text(docs[i as int]) is None);
                                return Err(e);
                            },
                        }
                        i += 1;
                    }
                    proof {
                        assert forall|k: int| 0 <= k < docs.len() implies (#[trigger] scalar_text(
                            docs[k],
                        )) is Some by {
                            assert(parts@[k]@ == PartContent::Text(scalar_text(docs[k])->0));
                        }
                        assert(Seq::new(parts@.len(), |i: int| parts@[i]@) =~= Seq::new(
                            docs.len(),
                            |i: int| PartContent::Text(scalar_text(docs[i])->0),
                        ));
                    }
                    Ok(parts)
                }
            },
            _ => {
                match Self::into_part(obj) {
                    Ok(p) => {
                        parts.push(p);
                        proof {
                            assert(Seq::new(parts@.len(), |i: int| parts@[i]@) =~= seq![
                                PartContent::Text(scalar_text(obj@)->0),
                            ]);
                        }
                        Ok(parts)
                    },
                    Err(e) => {
                        proof {
                            assert(false);
                        }
                        Err(e)
                    },
                }
            },
        }
    }

    /// The form of a document under a list of bytes fields.
    pub fn form_from_json(obj: &JsonValue, bytes_fields: &Vec<String>) -> (r: Result<
        MultipartForm,
        ApiError,
    >)
        ensures
            match r {
                Ok(form) => form_of(obj@, names_view(bytes_fields@)) == Ok::<
                    Seq<(Seq<char>, PartContent)>,
                    ApiError,
                >(form@),
                Err(e) => form_of(obj@, names_view(bytes_fields@)) == Err::<
                    Seq<(Seq<char>, PartContent)>,
                    ApiError,
                >(e),
            },
    {
        match obj {
            JsonValue::Object(fields) => {
                let ghost docs = json_of_fields(fields@);
                let ghost bytes = names_view(bytes_fields@);
                proof {
                    lemma_json_of_fields(fields@);
                    assert(docs.take(0) =~= Seq::<(Seq<char>, Json)>::empty());
                }
                let mut form = MultipartForm { parts: Vec::new() };
                assert(form@ =~= Seq::<(Seq<char>, PartContent)>::empty());
                let mut i: usize = 0;
                while i < fields.len()
                    invariant
                        i <= fields.len(),
                        obj@ == Json::Object(docs),
                        bytes == names_view(bytes_fields@),
                        docs.len() == fields@.len(),
                        forall|k: int| 0 <= k < docs.len() ==> #[trigger] docs[k] == fields@[k]@,
                        fields_parts(docs.take(i as int), bytes) == Ok::<
                            Seq<(Seq<char>, PartContent)>,
                            ApiError,
                        >(form@),
                    decreases fields.len() - i,
                {
                    proof {
                        assert(docs.take(i + 1).drop_last() =~= docs.take(i as int));
                        assert(docs.take(i + 1).last() == docs[i as int]);
                    }
                    let ghost before = form@;
                    match Self::create_parts(fields[i].name.as_str(), &fields[i].value, bytes_fields) {
                        Ok(parts) => {
                            let ghost made = Seq::new(parts@.len(), |k: int| parts@[k]@);
                            let mut j: usize = 0;
                            while j < parts.len()
                                invariant
                                    j <= parts.len(),
                                    i < fields.len(),
                                    made == Seq::new(parts@.len(), |k: int| parts@[k]@),
                                    form@ == before + Seq::new(
                                        j as nat,
                                        |k: int| (fields@[i as int].name@, made[k]),
                                    ),
                                decreases parts.len() - j,
                            {
                                let ghost prev = form@;
                                let part = parts[j].copy();
                                let name = fields[i].name.clone();
                                form.parts.push(FormPart { name, part });
                                proof {
                                    assert(made[j as int] == parts@[j as int]@);
                                    assert(form@ =~= prev.push((fields@[i as int].name@, made[j as int])));
                                    assert(form@ =~= before + Seq::new(
                                        (j + 1) as nat,
                                        |k: int| (fields@[i as int].name@, made[k]),
                                    ));
                                }
                                j += 1;
                            }
                            proof {
                                assert(form@ =~= before + Seq::new(
                                    made.len(),
                                    |k: int| (docs[i as int].0, made[k]),
                                ));
                            }
                        },
                        Err(e) => {
                            proof {
                                assert(docs.take(docs.len() as int) =~= docs);
                                lemma_fields_parts_error(docs, bytes, i + 1);
                            }
                            return Err(e);
                        },
                    }
                    i += 1;
                }
                proof {
                    assert(docs.take(i as int) =~= docs);
                }
                Ok(form)
            },
            _ => Err(ApiError::NotAnObject),
        }
    }

    /// Converts a payload into a multipart form. The payload is written as
    /// JSON; each of its fields gives the parts that [`field_parts`] states.
    pub fn into_multipart_form<T: ToJson + SerializationAttributes>(params: &T) -> (r: Result<
        MultipartForm,
        ApiError,
    >)
        ensures
            match r {
                Ok(form) => form_of(params.json(), T::policy().bytes_fields) == Ok::<
                    Seq<(Seq<char>, PartContent)>,
                    ApiError,
                >(form@),
                Err(e) => form_of(params.json(), T::policy().bytes_fields) == Err::<
                    Seq<(Seq<char>, PartContent)>,
                    ApiError,
                >(e),
            },
    {
        let obj = params.to_json();
        let bytes_fields = T::fields_which_are_bytes();
        Self::form_from_json(&obj, &bytes_fields)
    }
}

/// An error among the first `n` fields is the error of the whole list.
pub proof fn lemma_fields_parts_error(
    fields: Seq<(Seq<char>, Json)>,
    bytes_fields: Seq<Seq<char>>,
    n: int,
)
    requires
        0 <= n <= fields.len(),
        fields_parts(fields.take(n), bytes_fields) is Err,
    ensures
        fields_parts(fields, bytes_fields) == fields_parts(fields.take(n), bytes_fields),
    decreases fields.len() - n,
{
    if n < fields.len() {
        assert(fields.take(n + 1).drop_last() =~= fields.take(n));
        lemma_fields_parts_error(fields, bytes_fields, n + 1);
    } else {
        assert(fields.take(n) =~= fields);
    }
}

/// Whether `part` is one of the parts that the field at `j` gives.
pub open spec fn part_of_field(
    fields: Seq<(Seq<char>, Json)>,
    bytes_fields: Seq<Seq<char>>,
    j: int,
    part: (Seq<char>, PartContent),
) -> bool {
    &&& 0 <= j < fields.len()
    &&& part.0 == fields[j].0
    &&& field_parts(fields[j].0, fields[j].1, bytes_fields) is Ok
    &&& field_parts(fields[j].0, fields[j].1, bytes_fields)->Ok_0.contains(part.1)
}

/// Whether `part` is one of the parts that some field gives.
pub open spec fn part_of_fields(
    fields: Seq<(Seq<char>, Json)>,
    bytes_fields: Seq<Seq<char>>,
    part: (Seq<char>, PartContent),
) -> bool {
    exists|j: int| part_of_field(fields, bytes_fields, j, part)
}

/// A form holds the parts of each of its fields, and no other part.
pub proof fn lemma_form_parts(
    fields: Seq<(Seq<char>, Json)>,
    bytes_fields: Seq<Seq<char>>,
)
    requires
        fields_parts(fields, bytes_fields) is Ok,
    ensures
        forall|j: int|
            0 <= j < fields.len() ==> (#[trigger] field_parts(
                fields[j].0,
                fields[j].1,
                bytes_fields,
            )) is Ok,
        forall|j: int, part: PartContent|
            0 <= j < fields.len() && (#[trigger] field_parts(
                fields[j].0,
                fields[j].1,
                bytes_fields,
            ))->Ok_0.contains(part) ==> #[trigger] fields_parts(
                fields,
                bytes_fields,
            )->Ok_0.contains((fields[j].0, part)),
        forall|k: int|
            0 <= k < fields_parts(fields, bytes_fields)->Ok_0.len() ==> part_of_fields(
                fields,
                bytes_fields,
                #[trigger] fields_parts(fields, bytes_fields)->Ok_0[k],
            ),
    decreases fields.len(),
{
    if fields.len() > 0 {
        let front = fields.drop_last();
        let last = fields.last();
        lemma_form_parts(front, bytes_fields);
        let head = fields_parts(front, bytes_fields)->Ok_0;
        let made = field_parts(last.0, last.1, bytes_fields)->Ok_0;
        let tail = Seq::new(made.len(), |i: int| (last.0, made[i]));
        let form = fields_parts(fields, bytes_fields)->Ok_0;
        assert(form == head + tail);
        assert forall|j: int| 0 <= j < fields.len() implies (#[trigger] field_parts(
            fields[j].0,
            fields[j].1,
            bytes_fields,
        )) is Ok by {
            if j < front.len() {
                assert(fields[j] == front[j]);
            }
        }
        assert forall|j: int, part: PartContent|
            0 <= j < fields.len() && (#[trigger] field_parts(
                fields[j].0,
                fields[j].1,
                bytes_fields,
            ))->Ok_0.contains(part) implies #[trigger] fields_parts(
            fields,
            bytes_fields,
        )->Ok_0.contains((fields[j].0, part)) by {
            if j < front.len() {
                assert(fields[j] == front[j]);
                assert(head.contains((front[j].0, part)));
                let k = choose|k: int| 0 <= k < head.len() && head[k] == (front[j].0, part);
                assert(form[k] == (fields[j].0, part));
            } else {
                let k = choose|k: int| 0 <= k < made.len() && made[k] == part;
                assert(tail[k] == (last.0, part));
                assert(form[head.len() + k] == (fields[j].0, part));
            }
        }
        assert forall|k: int| 0 <= k < form.len() implies part_of_fields(
            fields,
            bytes_fields,
            #[trigger] form[k],
        ) by {
            if k < head.len() {
                assert(form[k] == head[k]);
                assert(part_of_fields(front, bytes_fields, head[k]));
                let j = choose|j: int| part_of_field(front, bytes_fields, j, head[k]);
                assert(fields[j] == front[j]);
                assert(part_of_field(fields, bytes_fields, j, form[k]));
            } else {
                assert(form[k] == tail[k - head.len()]);
                assert(made[k - head.len()] == form[k].1);
                assert(part_of_field(fields, bytes_fields, fields.len() - 1, form[k]));
            }
        }
    } else {
        assert(fields_parts(fields, bytes_fields)->Ok_0.len() == 0);
    }
}

/// Reading a form back gives every scalar field of the payload its text: the
/// form holds a text part of the field's name with the field's text, and where
/// no other field has that name, every part of that name is that text part.
pub proof fn lemma_form_keeps_scalar_fields(
    fields: Seq<(Seq<char>, Json)>,
    bytes_fields: Seq<Seq<char>>,
    i: int,
)
    requires
        0 <= i < fields.len(),
        scalar_text(fields[i].1) is Some,
        form_of(Json::Object(fields), bytes_fields) is Ok,
    ensures
        form_of(Json::Object(fields), bytes_fields)->Ok_0.contains(
            (fields[i].0, PartContent::Text(scalar_text(fields[i].1)->0)),
        ),
        (forall|j: int| 0 <= j < fields.len() && j != i ==> fields[j].0 != fields[i].0) ==> forall|
            k: int,
        |
            0 <= k < form_of(Json::Object(fields), bytes_fields)->Ok_0.len() && (#[trigger] form_of(
                Json::Object(fields),
                bytes_fields,
            )->Ok_0[k]).0 == fields[i].0 ==> form_of(Json::Object(fields), bytes_fields)->Ok_0[k].1
                == PartContent::Text(scalar_text(fields[i].1)->0),
{
    let form = fields_parts(fields, bytes_fields)->Ok_0;
    let text = PartContent::Text(scalar_text(fields[i].1)->0);
    lemma_form_parts(fields, bytes_fields);
    let own = field_parts(fields[i].0, fields[i].1, bytes_fields)->Ok_0;
    assert(own == seq![text]);
    assert(own[0] == text);
    assert(own.contains(text));
    if forall|j: int| 0 <= j < fields.len() && j != i ==> fields[j].0 != fields[i].0 {
        assert forall|k: int| 0 <= k < form.len() && (#[trigger] form[k]).0 == fields[i].0 implies form[k].1
            == text by {
            assert(part_of_fields(fields, bytes_fields, form[k]));
            let j = choose|j: int| part_of_field(fields, bytes_fields, j, form[k]);
            assert(j == i);
            let m = choose|m: int| 0 <= m < own.len() && own[m] == form[k].1;
            assert(own[m] == text);
        }
    }
}

/// Fields that each give parts give a form.
pub proof fn lemma_fields_give_form(fields: Seq<(Seq<char>, Json)>, bytes_fields: Seq<Seq<char>>)
    requires
        forall|i: int|
            0 <= i < fields.len() ==> field_parts(
                (#[trigger] fields[i]).0,
                fields[i].1,
                bytes_fields,
            ) is Ok,
    ensures
        fields_parts(fields, bytes_fields) is Ok,
    decreases fields.len(),
{
    if fields.len() > 0 {
        let front = fields.drop_last();
        assert forall|i: int| 0 <= i < front.len() implies field_parts(
            (#[trigger] front[i]).0,
            front[i].1,
            bytes_fields,
        ) is Ok by {
            assert(front[i] == fields[i]);
        }
        lemma_fields_give_form(front, bytes_fields);
        assert(fields.last() == fields[fields.len() - 1]);
    }
}

/// A list of bytes gives parts under every name: one part of bytes where the
/// name is a bytes field, else one text part for each byte.
pub proof fn lemma_bytes_give_parts(bytes: Vec<u8>, name: Seq<char>, bytes_fields: Seq<Seq<char>>)
    ensures
        field_parts(name, bytes.json(), bytes_fields) is Ok,
{
    let items = bytes.json()->Array_0;
    assert forall|i: int| 0 <= i < items.len() implies (#[trigger] byte_of(items[i])) is Some by {
        assert(items[i] == bytes@[i].json());
    }
    assert forall|i: int| 0 <= i < items.len() implies (#[trigger] scalar_text(items[i])) is Some by {
        assert(items[i] == bytes@[i].json());
    }
}

/// A list of numbers gives one text part for each number under a name that is
/// no bytes field.
pub proof fn lemma_numbers_give_parts(numbers: Vec<u32>, name: Seq<char>, bytes_fields: Seq<Seq<char>>)
    requires
        !names_contain(bytes_fields, name),
    ensures
        field_parts(name, numbers.json(), bytes_fields) is Ok,
{
    let items = numbers.json()->Array_0;
    assert forall|i: int| 0 <= i < items.len() implies (#[trigger] scalar_text(items[i])) is Some by {
        assert(items[i] == numbers@[i].json());
    }
}

/// A list of strings gives one text part for each string under a name that is
/// no bytes field.
pub proof fn lemma_strings_give_parts(strings: Vec<String>, name: Seq<char>, bytes_fields: Seq<Seq<char>>)
    requires
        !names_contain(bytes_fields, name),
    ensures
        field_parts(name, strings.json(), bytes_fields) is Ok,
{
    let items = strings.json()->Array_0;
    assert forall|i: int| 0 <= i < items.len() implies (#[trigger] scalar_text(items[i])) is Some by {
        assert(items[i] == strings@[i].json());
    }
}

/// A payload type whose values always give a multipart form.
pub trait FormPayload: ToJson + SerializationAttributes {
    proof fn lemma_form_builds(&self)
        ensures
            form_of(self.json(), Self::policy().bytes_fields) is Ok,
    ;
}

impl FormPayload for DeployParams {
    proof fn lemma_form_builds(&self) {
        lemma_fields_give_form(self.json()->Object_0, Self::policy().bytes_fields);
    }
}

impl FormPayload for ModifyImageParams {
    proof fn lemma_form_builds(&self) {
        lemma_fields_give_form(self.json()->Object_0, Self::policy().bytes_fields);
    }
}

impl FormPayload for PaymentParams {
    proof fn lemma_form_builds(&self) {
        lemma_fields_give_form(self.json()->Object_0, Self::policy().bytes_fields);
    }
}

impl FormPayload for SetMaintenanceModeParams {
    proof fn lemma_form_builds(&self) {
        lemma_fields_give_form(self.json()->Object_0, Self::policy().bytes_fields);
    }
}

impl FormPayload for ForceUnprovableToReprocessParams {
    proof fn lemma_form_builds(&self) {
        let bytes_fields = Self::policy().bytes_fields;
        lemma_strings_give_parts(self.task_ids, "task_ids"@, bytes_fields);
        lemma_fields_give_form(self.json()->Object_0, bytes_fields);
    }
}

impl FormPayload for ForceDryrunFailsToReprocessParams {
    proof fn lemma_form_builds(&self) {
        let bytes_fields = Self::policy().bytes_fields;
        lemma_strings_give_parts(self.task_ids, "task_ids"@, bytes_fields);
        lemma_fields_give_form(self.json()->Object_0, bytes_fields);
    }
}

impl FormPayload for AddImageParams {
    proof fn lemma_form_builds(&self) {
        reveal_strlit("image");
        reveal_strlit("auto_submit_network_ids");
        reveal_strlit("initial_context");
        let bytes_fields = Self::policy().bytes_fields;
        assert(!names_contain(bytes_fields, "auto_submit_network_ids"@)) by {
            assert(bytes_fields.len() == 1);
            assert(bytes_fields[0].len() == 5);
            assert("auto_submit_network_ids"@.len() == 23);
        }
        lemma_bytes_give_parts(self.base.image, "image"@, bytes_fields);
        lemma_numbers_give_parts(
            self.base.auto_submit_network_ids,
            "auto_submit_network_ids"@,
            bytes_fields,
        );
        match self.context {
            InitialContext::With(context) => {
                lemma_bytes_give_parts(context.initial_context, "initial_context"@, bytes_fields);
            },
            InitialContext::Without => {},
        }
        lemma_fields_give_form(self.json()->Object_0, bytes_fields);
    }
}

impl FormPayload for ResetImageParams {
    proof fn lemma_form_builds(&self) {
        let bytes_fields = Self::policy().bytes_fields;
        lemma_numbers_give_parts(
            self.base.auto_submit_network_ids,
            "auto_submit_network_ids"@,
            bytes_fields,
        );
        match self.context {
            ResetContext::With(context) => {
                lemma_bytes_give_parts(context.reset_context, "reset_context"@, bytes_fields);
            },
            ResetContext::Without => {},
        }
        lemma_fields_give_form(self.json()->Object_0, bytes_fields);
    }
}

/// A proving payload gives a multipart form, but for one whose context is a
/// free JSON document that is an object or holds something other than
/// scalars.
pub proof fn lemma_proving_form_builds(params: ProvingParams)
    requires
        params.context matches CustomContext::WithNonCustom(context) ==> field_parts(
            "input_context_type"@,
            context.input_context_type.json(),
            Seq::empty(),
        ) is Ok,
    ensures
        form_of(params.json(), ProvingParams::policy().bytes_fields) is Ok,
{
    let bytes_fields = ProvingParams::policy().bytes_fields;
    lemma_strings_give_parts(params.base.public_inputs, "public_inputs"@, bytes_fields);
    lemma_strings_give_parts(params.base.private_inputs, "private_inputs"@, bytes_fields);
    match params.context {
        CustomContext::With(context) => {
            lemma_bytes_give_parts(context.input_context, "input_context"@, bytes_fields);
        },
        CustomContext::WithNonCustom(context) => {},
        CustomContext::Without => {},
    }
    lemma_fields_give_form(params.json()->Object_0, bytes_fields);
}

/// A subscription request gives no multipart form: its duration is an object.
pub proof fn lemma_subscription_form_fails(params: SubscriptionRequest)
    ensures
        form_of(params.json(), SubscriptionRequest::policy().bytes_fields) == Err::<
            Seq<(Seq<char>, PartContent)>,
            ApiError,
        >(ApiError::UnsupportedNesting),
{
    let fields = params.json()->Object_0;
    let bytes_fields = SubscriptionRequest::policy().bytes_fields;
    assert(fields.take(3) =~= seq![fields[0], fields[1], fields[2]]);
    assert(fields.take(3).drop_last() =~= seq![fields[0], fields[1]]);
    assert(fields.take(3).drop_last().drop_last() =~= seq![fields[0]]);
    assert(fields.take(3).drop_last().drop_last().drop_last() =~= Seq::<(Seq<char>, Json)>::empty());
    reveal_with_fuel(fields_parts, 4);
    assert(fields_parts(fields.take(3), bytes_fields) is Err);
    lemma_fields_parts_error(fields, bytes_fields, 3);
}

} // verus!
