//! Signing messages and request bodies: how a payload becomes the text that
//! is signed, and how it becomes a multipart form.

use vstd::prelude::*;
use crate::error::ApiError;
use crate::helper::signer::{sign_message, signature_signer, signed, wallet_address};
use crate::interface::{
    AddImageParams, BaseAddImageParams, BaseProvingParams, CustomContext, DeployParams,
    ForceDryrunFailsToReprocessParams, ForceUnprovableToReprocessParams, InitialContext, LogQuery,
    ModifyImageParams, PaymentParams, ProverNodeTimeRangeStatsParams, ProvingParams,
    ResetImageParams, SetMaintenanceModeParams, SubscriptionRequest, ToJson, WithCustomInputContext,
    WithInitialContext,
};
use crate::json::{
    json_of_fields, json_of_items, json_text, keyed, lemma_json_of_fields, lemma_json_of_items,
    number_to_text, Json, JsonValue,
};
use crate::text::{contains_name, names_contain, names_view};

verus! {

/// The text of a boolean: `true` or `false`.
pub open spec fn bool_text(b: bool) -> Seq<char> {
    if b {
        seq!['t', 'r', 'u', 'e']
    } else {
        seq!['f', 'a', 'l', 's', 'e']
    }
}

/// The text of a scalar: a boolean as a word, a number as its digits, a string
/// as it is. Null, arrays and objects have none.
pub open spec fn scalar_text(j: Json) -> Option<Seq<char>> {
    match j {
        Json::Bool(b) => Some(bool_text(b)),
        Json::Number(n) => Some(n.text),
        Json::String(s) => Some(s),
        _ => None,
    }
}

/// The canonical message of a document: the texts of its scalars, in order,
/// with nothing between them. Null gives nothing; an array gives its items,
/// one after the other; an object gives the values of its fields in the order
/// in which they are written, without their names, and without the fields
/// whose name is in `ignored`, at whatever depth they stand.
pub open spec fn flat_message(j: Json, ignored: Seq<Seq<char>>) -> Seq<char>
    decreases j, 0nat,
{
    match j {
        Json::Null => Seq::empty(),
        Json::Bool(b) => bool_text(b),
        Json::Number(n) => n.text,
        Json::String(s) => s,
        Json::Array(items) => flat_items(items, ignored),
        Json::Object(fields) => flat_fields(fields, ignored),
    }
}

/// The canonical messages of a list of documents, one after the other.
pub open spec fn flat_items(items: Seq<Json>, ignored: Seq<Seq<char>>) -> Seq<char>
    decreases items, 1nat,
{
    if items.len() == 0 {
        Seq::empty()
    } else {
        flat_items(items.drop_last(), ignored) + flat_message(items.last(), ignored)
    }
}

/// The canonical messages of the values of a list of fields, one after the
/// other, without the fields whose name is in `ignored`.
pub open spec fn flat_fields(fields: Seq<(Seq<char>, Json)>, ignored: Seq<Seq<char>>) -> Seq<char>
    decreases fields, 1nat,
{
    if fields.len() == 0 {
        Seq::empty()
    } else if names_contain(ignored, fields.last().0) {
        flat_fields(fields.drop_last(), ignored)
    } else {
        flat_fields(fields.drop_last(), ignored) + flat_message(fields.last().1, ignored)
    }
}

/// Appends the text of a boolean.
fn push_bool_text(b: bool, out: &mut String)
    ensures
        final(out)@ == old(out)@ + bool_text(b),
{
    proof {
        reveal_strlit("true");
        reveal_strlit("false");
    }
    if b {
        out.append("true");
        assert(out@ =~= old(out)@ + bool_text(b));
    } else {
        out.append("false");
        assert(out@ =~= old(out)@ + bool_text(b));
    }
}

/// Appends the canonical message of `v` to `out`.
pub fn push_flat_message(v: &JsonValue, ignored: &Vec<String>, out: &mut String)
    ensures
        final(out)@ == old(out)@ + flat_message(v@, names_view(ignored@)),
    decreases v,
{
    let ghost skip = names_view(ignored@);
    match v {
        JsonValue::Null => {
            assert(out@ =~= old(out)@ + flat_message(v@, skip));
        },
        JsonValue::Bool(b) => {
            push_bool_text(*b, out);
        },
        JsonValue::Number(n) => {
            let text = number_to_text(n);
            out.append(text.as_str());
        },
        JsonValue::String(s) => {
            out.append(s.as_str());
        },
        JsonValue::Array(items) => {
            let ghost docs = json_of_items(items@);
            proof {
                lemma_json_of_items(items@);
                assert(docs.take(0) =~= Seq::<Json>::empty());
                assert(out@ =~= old(out)@ + flat_items(docs.take(0), skip));
            }
            let mut i: usize = 0;
            while i < items.len()
                invariant
                    i <= items.len(),
                    *v == JsonValue::Array(*items),
                    skip == names_view(ignored@),
                    docs.len() == items@.len(),
                    forall|k: int| 0 <= k < docs.len() ==> #[trigger] docs[k] == items@[k]@,
                    out@ == old(out)@ + flat_items(docs.take(i as int), skip),
                decreases items.len() - i,
            {
                proof {
                    assert(decreases_to!(*v => v->Array_0));
                    assert(decreases_to!(v->Array_0 => v->Array_0@));
                    assert(decreases_to!(v->Array_0@ => v->Array_0@[i as int]));
                }
                let ghost before = out@;
                push_flat_message(&items[i], ignored, out);
                proof {
                    assert(docs.take(i + 1).drop_last() =~= docs.take(i as int));
                    assert(docs.take(i + 1).last() == docs[i as int]);
                    assert(out@ =~= old(out)@ + flat_items(docs.take(i + 1), skip));
                }
                i += 1;
            }
            proof {
                assert(docs.take(i as int) =~= docs);
            }
        },
        JsonValue::Object(fields) => {
            let ghost docs = json_of_fields(fields@);
            proof {
                lemma_json_of_fields(fields@);
                assert(docs.take(0) =~= Seq::<(Seq<char>, Json)>::empty());
                assert(out@ =~= old(out)@ + flat_fields(docs.take(0), skip));
            }
            let mut i: usize = 0;
            while i < fields.len()
                invariant
                    i <= fields.len(),
                    *v == JsonValue::Object(*fields),
                    skip == names_view(ignored@),
                    docs.len() == fields@.len(),
                    forall|k: int| 0 <= k < docs.len() ==> #[trigger] docs[k] == fields@[k]@,
                    out@ == old(out)@ + flat_fields(docs.take(i as int), skip),
                decreases fields.len() - i,
            {
                proof {
                    assert(decreases_to!(*v => v->Object_0));
                    assert(decreases_to!(v->Object_0 => v->Object_0@));
                    assert(decreases_to!(v->Object_0@ => v->Object_0@[i as int]));
                    assert(decreases_to!(v->Object_0@[i as int] => v->Object_0@[i as int].value));
                    assert(docs.take(i + 1).drop_last() =~= docs.take(i as int));
                    assert(docs.take(i + 1).last() == docs[i as int]);
                }
                if !contains_name(ignored, fields[i].name.as_str()) {
                    push_flat_message(&fields[i].value, ignored, out);
                    proof {
                        assert(out@ =~= old(out)@ + flat_fields(docs.take(i + 1), skip));
                    }
                }
                i += 1;
            }
            proof {
                assert(docs.take(i as int) =~= docs);
            }
        },
    }
}

/// The canonical message does not change when the value of an ignored field
/// of an object changes and everything else stays as it is.
pub proof fn lemma_ignored_field_is_not_signed(
    fields: Seq<(Seq<char>, Json)>,
    ignored: Seq<Seq<char>>,
    i: int,
    value: Json,
)
    requires
        0 <= i < fields.len(),
        names_contain(ignored, fields[i].0),
    ensures
        flat_message(Json::Object(fields.update(i, (fields[i].0, value))), ignored)
            == flat_message(Json::Object(fields), ignored),
    decreases fields.len(),
{
    let changed = fields.update(i, (fields[i].0, value));
    if i == fields.len() - 1 {
        assert(changed.drop_last() =~= fields.drop_last());
    } else {
        lemma_ignored_field_is_not_signed(fields.drop_last(), ignored, i, value);
        assert(changed.drop_last() =~= fields.drop_last().update(i, (fields[i].0, value)));
        assert(changed.last() == fields.last());
    }
}

/// What a payload type states about how it is signed and sent.
#[derive(Clone, Debug, PartialEq)]
pub struct SerializationPolicy {
    /// Array fields that a multipart form carries as one part of raw bytes.
    pub bytes_fields: Vec<String>,
    /// Fields that the canonical message leaves out.
    pub ignored_fields: Vec<String>,
    /// Whether the signed message is the payload's JSON text in place of the
    /// canonical message.
    pub json_message: bool,
    /// Whether the payload is sent as a JSON body in place of a multipart form.
    pub json_body: bool,
}

/// The mathematical content of a [`SerializationPolicy`].
pub struct Policy {
    pub bytes_fields: Seq<Seq<char>>,
    pub ignored_fields: Seq<Seq<char>>,
    pub json_message: bool,
    pub json_body: bool,
}

impl View for SerializationPolicy {
    type V = Policy;

    open spec fn view(&self) -> Policy {
        Policy {
            bytes_fields: names_view(self.bytes_fields@),
            ignored_fields: names_view(self.ignored_fields@),
            json_message: self.json_message,
            json_body: self.json_body,
        }
    }
}

impl Policy {
    /// The policy of a payload type that states nothing: no bytes field, no
    /// ignored field, the canonical message, a multipart form.
    pub open spec fn plain() -> Policy {
        Policy {
            bytes_fields: Seq::empty(),
            ignored_fields: Seq::empty(),
            json_message: false,
            json_body: false,
        }
    }
}

/// The text that is signed for a document under a policy: the JSON text of
/// the document where the policy asks for it, else the canonical message.
pub open spec fn message_of(j: Json, policy: Policy) -> Seq<char> {
    if policy.json_message {
        json_text(keyed(j))
    } else {
        flat_message(j, policy.ignored_fields)
    }
}

/// The hooks by which a payload type controls how it is signed and sent. A
/// type states its policy once; the four questions are answered from it.
pub trait SerializationAttributes {
    /// The policy of the payload type.
    spec fn policy() -> Policy;

    fn attributes() -> (p: SerializationPolicy)
        ensures
            p@ == Self::policy(),
    ;

    #[must_use]
    fn fields_which_are_bytes() -> (r: Vec<String>)
        ensures
            names_view(r@) == Self::policy().bytes_fields,
    {
        Self::attributes().bytes_fields
    }

    #[must_use]
    fn fields_to_ignore() -> (r: Vec<String>)
        ensures
            names_view(r@) == Self::policy().ignored_fields,
    {
        Self::attributes().ignored_fields
    }

    /// The text that is signed for `obj`.
    fn create_message(obj: &JsonValue) -> (r: String)
        ensures
            r@ == message_of(obj@, Self::policy()),
    {
        let policy = Self::attributes();
        if policy.json_message {
            obj.to_text()
        } else {
            let mut message = String::new();
            push_flat_message(obj, &policy.ignored_fields, &mut message);
            assert(message@ =~= flat_message(obj@, names_view(policy.ignored_fields@)));
            message
        }
    }

    fn requires_json_body() -> (r: bool)
        ensures
            r == Self::policy().json_body,
    {
        Self::attributes().json_body
    }
}

/// Writes a payload as its signing message and signs it with a private key
/// in hex.
///
/// The message is what the payload's type states ([`message_of`]). The result
/// is `Err(InvalidKey)` exactly where the key is refused and `Err(SignError)`
/// exactly where it is accepted and signing fails; a signature that is handed
/// out recovers to the address of the key.
pub fn sign_object<T: ToJson + SerializationAttributes>(obj: &T, private_key: String) -> (r: Result<
    String,
    ApiError,
>)
    ensures
        match r {
            Ok(signature) => signed(private_key@, message_of(obj.json(), T::policy())) == Ok::<
                Seq<char>,
                ApiError,
            >(signature@) && signature_signer(signature@, message_of(obj.json(), T::policy()))
                == wallet_address(private_key@),
            Err(e) => signed(private_key@, message_of(obj.json(), T::policy())) == Err::<
                Seq<char>,
                ApiError,
            >(e),
        },
{
    let message = T::create_message(&obj.to_json());
    sign_message(message.as_str(), private_key.as_str())
}

/// The signing message of a proving payload does not change with its input
/// context.
pub proof fn lemma_proving_message_ignores_input_context(
    base: BaseProvingParams,
    context: WithCustomInputContext,
    input_context: Vec<u8>,
)
    ensures
        message_of(
            (ProvingParams {
                base,
                context: CustomContext::With(WithCustomInputContext { input_context, ..context }),
            }).json(),
            ProvingParams::policy(),
        ) == message_of(
            (ProvingParams { base, context: CustomContext::With(context) }).json(),
            ProvingParams::policy(),
        ),
{
    let before = (ProvingParams { base, context: CustomContext::With(context) }).json()->Object_0;
    let after = (ProvingParams {
        base,
        context: CustomContext::With(WithCustomInputContext { input_context, ..context }),
    }).json()->Object_0;
    let ignored = ProvingParams::policy().ignored_fields;
    assert(before[6].0 == "input_context"@);
    assert(ignored[0] == "input_context"@);
    assert(after =~= before.update(6, (before[6].0, input_context.json())));
    lemma_ignored_field_is_not_signed(before, ignored, 6, input_context.json());
}

/// The signing message of a payload that adds an image does not change with
/// the image.
pub proof fn lemma_image_message_ignores_image(
    base: BaseAddImageParams,
    context: InitialContext,
    image: Vec<u8>,
)
    ensures
        message_of(
            (AddImageParams { base: BaseAddImageParams { image, ..base }, context }).json(),
            AddImageParams::policy(),
        ) == message_of((AddImageParams { base, context }).json(), AddImageParams::policy()),
{
    let before = (AddImageParams { base, context }).json()->Object_0;
    let after = (AddImageParams { base: BaseAddImageParams { image, ..base }, context }).json()->Object_0;
    let ignored = AddImageParams::policy().ignored_fields;
    assert(before[2].0 == "image"@);
    assert(ignored[0] == "image"@);
    assert(after =~= before.update(2, (before[2].0, image.json())));
    lemma_ignored_field_is_not_signed(before, ignored, 2, image.json());
}

/// The signing message of a payload that adds an image does not change with
/// the initial context.
pub proof fn lemma_image_message_ignores_initial_context(
    base: BaseAddImageParams,
    context: WithInitialContext,
    initial_context: Vec<u8>,
)
    ensures
        message_of(
            (AddImageParams {
                base,
                context: InitialContext::With(WithInitialContext { initial_context, ..context }),
            }).json(),
            AddImageParams::policy(),
        ) == message_of(
            (AddImageParams { base, context: InitialContext::With(context) }).json(),
            AddImageParams::policy(),
        ),
{
    let before = (AddImageParams { base, context: InitialContext::With(context) }).json()->Object_0;
    let after = (AddImageParams {
        base,
        context: InitialContext::With(WithInitialContext { initial_context, ..context }),
    }).json()->Object_0;
    let ignored = AddImageParams::policy().ignored_fields;
    let at = before.len() - 1;
    assert(before[at].0 == "initial_context"@);
    assert(ignored[1] == "initial_context"@);
    assert(after =~= before.update(at, (before[at].0, initial_context.json())));
    lemma_ignored_field_is_not_signed(before, ignored, at, initial_context.json());
}

/// The list that holds one name.
fn one_name(a: &str) -> (r: Vec<String>)
    ensures
        names_view(r@) == seq![a@],
{
    let mut r: Vec<String> = Vec::new();
    r.push(String::from_str(a));
    assert(names_view(r@) =~= seq![a@]);
    r
}

/// The list that holds two names.
fn two_names(a: &str, b: &str) -> (r: Vec<String>)
    ensures
        names_view(r@) == seq![a@, b@],
{
    let mut r: Vec<String> = Vec::new();
    r.push(String::from_str(a));
    r.push(String::from_str(b));
    assert(names_view(r@) =~= seq![a@, b@]);
    r
}

/// The policy that states nothing.
fn plain_policy() -> (p: SerializationPolicy)
    ensures
        p@ == Policy::plain(),
{
    let p = SerializationPolicy {
        bytes_fields: Vec::new(),
        ignored_fields: Vec::new(),
        json_message: false,
        json_body: false,
    };
    assert(p@.bytes_fields =~= Seq::<Seq<char>>::empty());
    assert(p@.ignored_fields =~= Seq::<Seq<char>>::empty());
    p
}

impl SerializationAttributes for ProvingParams {
    open spec fn policy() -> Policy {
        Policy { ignored_fields: seq!["input_context"@], ..Policy::plain() }
    }

    fn attributes() -> (p: SerializationPolicy) {
        let mut p = plain_policy();
        p.ignored_fields = one_name("input_context");
        p
    }
}

impl SerializationAttributes for DeployParams {
    open spec fn policy() -> Policy {
        Policy::plain()
    }

    fn attributes() -> (p: SerializationPolicy) {
        plain_policy()
    }
}

impl SerializationAttributes for ResetImageParams {
    open spec fn policy() -> Policy {
        Policy::plain()
    }

    fn attributes() -> (p: SerializationPolicy) {
        plain_policy()
    }
}

impl SerializationAttributes for ModifyImageParams {
    open spec fn policy() -> Policy {
        Policy { json_message: true, ..Policy::plain() }
    }

    fn attributes() -> (p: SerializationPolicy) {
        let mut p = plain_policy();
        p.json_message = true;
        p
    }
}

impl SerializationAttributes for SetMaintenanceModeParams {
    open spec fn policy() -> Policy {
        Policy::plain()
    }

    fn attributes() -> (p: SerializationPolicy) {
        plain_policy()
    }
}

impl SerializationAttributes for ForceUnprovableToReprocessParams {
    open spec fn policy() -> Policy {
        Policy::plain()
    }

    fn attributes() -> (p: SerializationPolicy) {
        plain_policy()
    }
}

impl SerializationAttributes for ForceDryrunFailsToReprocessParams {
    open spec fn policy() -> Policy {
        Policy::plain()
    }

    fn attributes() -> (p: SerializationPolicy) {
        plain_policy()
    }
}

impl SerializationAttributes for SubscriptionRequest {
    open spec fn policy() -> Policy {
        Policy::plain()
    }

    fn attributes() -> (p: SerializationPolicy) {
        plain_policy()
    }
}

impl SerializationAttributes for PaymentParams {
    open spec fn policy() -> Policy {
        Policy::plain()
    }

    fn attributes() -> (p: SerializationPolicy) {
        plain_policy()
    }
}

impl SerializationAttributes for LogQuery {
    open spec fn policy() -> Policy {
        Policy { json_message: true, json_body: true, ..Policy::plain() }
    }

    fn attributes() -> (p: SerializationPolicy) {
        let mut p = plain_policy();
        p.json_message = true;
        p.json_body = true;
        p
    }
}

impl SerializationAttributes for ProverNodeTimeRangeStatsParams {
    open spec fn policy() -> Policy {
        Policy { json_message: true, json_body: true, ..Policy::plain() }
    }

    fn attributes() -> (p: SerializationPolicy) {
        let mut p = plain_policy();
        p.json_message = true;
        p.json_body = true;
        p
    }
}

impl SerializationAttributes for AddImageParams {
    open spec fn policy() -> Policy {
        Policy {
            bytes_fields: seq!["image"@],
            ignored_fields: seq!["image"@, "initial_context"@],
            ..Policy::plain()
        }
    }

    fn attributes() -> (p: SerializationPolicy) {
        let mut p = plain_policy();
        p.bytes_fields = one_name("image");
        p.ignored_fields = two_names("image", "initial_context");
        p
    }
}

} // verus!
