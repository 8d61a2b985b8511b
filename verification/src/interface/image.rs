//! Records about images and the payloads that set up, prove, reset and modify them.

use vstd::prelude::*;
use crate::interface::codec::{
    FromJson, JsonObject, RoundTrip, ToJson, decode_field, field_decoded, lemma_fields_found,
    name_key, push_field,
};
use crate::interface::task::{InputContextType, ProofSubmitMode};
use crate::json::{Json, json_of_fields, JsonField, JsonValue};
use crate::text::str_eq;

verus! {

/// The state of an image.
#[derive(Clone, Debug, PartialEq)]
pub enum ImageStatus {
    Received,
    Initialized,
    Verified,
}

impl ImageStatus {
    /// The name of the variant, which is its wire form.
    pub open spec fn name(&self) -> Seq<char> {
        match self {
            ImageStatus::Received => "Received"@,
            ImageStatus::Initialized => "Initialized"@,
            ImageStatus::Verified => "Verified"@,
        }
    }

    pub fn as_str(&self) -> (s: &'static str)
        ensures
            s@ == self.name(),
    {
        match self {
            ImageStatus::Received => "Received",
            ImageStatus::Initialized => "Initialized",
            ImageStatus::Verified => "Verified",
        }
    }
}

impl ToJson for ImageStatus {
    open spec fn json(&self) -> Json {
        Json::String(self.name())
    }

    fn to_json(&self) -> (v: JsonValue) {
        JsonValue::from_str(self.as_str())
    }
}

/// Who pays for the proofs of an image.
#[derive(Clone, Debug, PartialEq)]
pub enum ProvePaymentSrc {
    Default,
    CreatorPay,
}

impl ProvePaymentSrc {
    /// The name of the variant, which is its wire form.
    pub open spec fn name(&self) -> Seq<char> {
        match self {
            ProvePaymentSrc::Default => "Default"@,
            ProvePaymentSrc::CreatorPay => "CreatorPay"@,
        }
    }

    pub fn as_str(&self) -> (s: &'static str)
        ensures
            s@ == self.name(),
    {
        match self {
            ProvePaymentSrc::Default => "Default",
            ProvePaymentSrc::CreatorPay => "CreatorPay",
        }
    }
}

impl ToJson for ProvePaymentSrc {
    open spec fn json(&self) -> Json {
        Json::String(self.name())
    }

    fn to_json(&self) -> (v: JsonValue) {
        JsonValue::from_str(self.as_str())
    }
}

impl FromJson for ProvePaymentSrc {
    open spec fn absent() -> Option<Json> {
        None
    }

    fn from_absent() -> (r: Option<Self>) {
        None
    }

    open spec fn decoded(j: Json) -> Option<Json> {
        match j {
            Json::String(s) => if s == "Default"@ || s == "CreatorPay"@ {
                Some(j)
            } else {
                None
            },
            _ => None,
        }
    }

    fn from_json(v: &JsonValue) -> (r: Option<Self>) {
        match v {
            JsonValue::String(s) => {
                if str_eq(s.as_str(), "Default") {
                    Some(ProvePaymentSrc::Default)
                } else if str_eq(s.as_str(), "CreatorPay") {
                    Some(ProvePaymentSrc::CreatorPay)
                } else {
                    None
                }
            },
            _ => None,
        }
    }
}

impl RoundTrip for ProvePaymentSrc {
    proof fn lemma_round_trip(&self) {
    }
}

/// Who may ask for proofs of an image.
#[derive(Clone, Debug, PartialEq)]
pub enum AddProveTaskRestrictions {
    Anyone,
    CreatorOnly,
}

impl AddProveTaskRestrictions {
    /// The name of the variant, which is its wire form.
    pub open spec fn name(&self) -> Seq<char> {
        match self {
            AddProveTaskRestrictions::Anyone => "Anyone"@,
            AddProveTaskRestrictions::CreatorOnly => "CreatorOnly"@,
        }
    }

    pub fn as_str(&self) -> (s: &'static str)
        ensures
            s@ == self.name(),
    {
        match self {
            AddProveTaskRestrictions::Anyone => "Anyone",
            AddProveTaskRestrictions::CreatorOnly => "CreatorOnly",
        }
    }
}

impl ToJson for AddProveTaskRestrictions {
    open spec fn json(&self) -> Json {
        Json::String(self.name())
    }

    fn to_json(&self) -> (v: JsonValue) {
        JsonValue::from_str(self.as_str())
    }
}

impl FromJson for AddProveTaskRestrictions {
    open spec fn absent() -> Option<Json> {
        None
    }

    fn from_absent() -> (r: Option<Self>) {
        None
    }

    open spec fn decoded(j: Json) -> Option<Json> {
        match j {
            Json::String(s) => if s == "Anyone"@ || s == "CreatorOnly"@ {
                Some(j)
            } else {
                None
            },
            _ => None,
        }
    }

    fn from_json(v: &JsonValue) -> (r: Option<Self>) {
        match v {
            JsonValue::String(s) => {
                if str_eq(s.as_str(), "Anyone") {
                    Some(AddProveTaskRestrictions::Anyone)
                } else if str_eq(s.as_str(), "CreatorOnly") {
                    Some(AddProveTaskRestrictions::CreatorOnly)
                } else {
                    None
                }
            },
            _ => None,
        }
    }
}

impl RoundTrip for AddProveTaskRestrictions {
    proof fn lemma_round_trip(&self) {
    }
}

/// Asks for an image by its MD5.
#[derive(Clone, Debug, PartialEq)]
pub struct QueryImageParams {
    pub md5: String,
}

impl ToJson for QueryImageParams {
    open spec fn json(&self) -> Json {
        Json::Object(
            seq![
                ("md5"@, self.md5.json()),
            ],
        )
    }

    fn to_json(&self) -> (v: JsonValue) {
        let mut fields: Vec<JsonField> = Vec::new();
        push_field(&mut fields, "md5", self.md5.to_json());
        proof {
            assert(json_of_fields(fields@) =~= self.json()->Object_0);
        }
        JsonValue::Object(fields)
    }
}

/// What every payload that adds an image holds. The two optional fields are left
/// out where they are not set.
#[derive(Clone, Debug, PartialEq)]
pub struct BaseAddImageParams {
    pub name: String,
    pub image_md5: String,
    pub image: Vec<u8>,
    pub user_address: String,
    pub description_url: String,
    pub avator_url: String,
    pub circuit_size: u32,
    pub prove_payment_src: ProvePaymentSrc,
    pub auto_submit_network_ids: Vec<u32>,
    pub add_prove_task_restrictions: Option<AddProveTaskRestrictions>,
    pub inherited_merkle_data_md5: Option<String>,
}

impl ToJson for BaseAddImageParams {
    open spec fn json(&self) -> Json {
        Json::Object(self.json_fields())
    }

    fn to_json(&self) -> (v: JsonValue) {
        let mut fields: Vec<JsonField> = Vec::new();
        self.push_fields(&mut fields);
        proof {
            assert(json_of_fields(fields@) =~= self.json_fields());
        }
        JsonValue::Object(fields)
    }
}

impl JsonObject for BaseAddImageParams {
    open spec fn json_fields(&self) -> Seq<(Seq<char>, Json)> {
        seq![
            ("name"@, self.name.json()),
            ("image_md5"@, self.image_md5.json()),
            ("image"@, self.image.json()),
            ("user_address"@, self.user_address.json()),
            ("description_url"@, self.description_url.json()),
            ("avator_url"@, self.avator_url.json()),
            ("circuit_size"@, self.circuit_size.json()),
            ("prove_payment_src"@, self.prove_payment_src.json()),
            ("auto_submit_network_ids"@, self.auto_submit_network_ids.json()),
        ]
        + (if self.add_prove_task_restrictions is Some {
            seq![("add_prove_task_restrictions"@, self.add_prove_task_restrictions.json())]
        } else {
            Seq::empty()
        })
        + (if self.inherited_merkle_data_md5 is Some {
            seq![("inherited_merkle_data_md5"@, self.inherited_merkle_data_md5.json())]
        } else {
            Seq::empty()
        })
    }

    fn push_fields(&self, out: &mut Vec<JsonField>) {
        push_field(out, "name", self.name.to_json());
        push_field(out, "image_md5", self.image_md5.to_json());
        push_field(out, "image", self.image.to_json());
        push_field(out, "user_address", self.user_address.to_json());
        push_field(out, "description_url", self.description_url.to_json());
        push_field(out, "avator_url", self.avator_url.to_json());
        push_field(out, "circuit_size", self.circuit_size.to_json());
        push_field(out, "prove_payment_src", self.prove_payment_src.to_json());
        push_field(out, "auto_submit_network_ids", self.auto_submit_network_ids.to_json());
        if self.add_prove_task_restrictions.is_some() {
            push_field(out, "add_prove_task_restrictions", self.add_prove_task_restrictions.to_json());
        }
        if self.inherited_merkle_data_md5.is_some() {
            push_field(out, "inherited_merkle_data_md5", self.inherited_merkle_data_md5.to_json());
        }
        proof {
            assert(json_of_fields(out@) =~= json_of_fields(old(out)@) + self.json_fields());
        }
    }
}

/// The initial context of a new image.
#[derive(Clone, Debug, PartialEq)]
pub struct WithInitialContext {
    pub initial_context_md5: String,
    pub initial_context: Vec<u8>,
}

impl ToJson for WithInitialContext {
    open spec fn json(&self) -> Json {
        Json::Object(self.json_fields())
    }

    fn to_json(&self) -> (v: JsonValue) {
        let mut fields: Vec<JsonField> = Vec::new();
        self.push_fields(&mut fields);
        proof {
            assert(json_of_fields(fields@) =~= self.json_fields());
        }
        JsonValue::Object(fields)
    }
}

impl JsonObject for WithInitialContext {
    open spec fn json_fields(&self) -> Seq<(Seq<char>, Json)> {
        seq![
            ("initial_context_md5"@, self.initial_context_md5.json()),
            ("initial_context"@, self.initial_context.json()),
        ]
    }

    fn push_fields(&self, out: &mut Vec<JsonField>) {
        push_field(out, "initial_context_md5", self.initial_context_md5.to_json());
        push_field(out, "initial_context", self.initial_context.to_json());
        proof {
            assert(json_of_fields(out@) =~= json_of_fields(old(out)@) + self.json_fields());
        }
    }
}

/// The initial context of a new image, if it has one. It is written as the fields
/// of the context, or as nothing.
#[derive(Clone, Debug, PartialEq)]
pub enum InitialContext {
    With(WithInitialContext),
    Without,
}

impl ToJson for InitialContext {
    open spec fn json(&self) -> Json {
        match self {
            InitialContext::With(x) => x.json(),
            InitialContext::Without => Json::Null,
        }
    }

    fn to_json(&self) -> (v: JsonValue) {
        match self {
            InitialContext::With(x) => x.to_json(),
            InitialContext::Without => JsonValue::Null,
        }
    }
}

impl JsonObject for InitialContext {
    open spec fn json_fields(&self) -> Seq<(Seq<char>, Json)> {
        match self {
            InitialContext::With(x) => x.json_fields(),
            InitialContext::Without => Seq::empty(),
        }
    }

    fn push_fields(&self, out: &mut Vec<JsonField>) {
        match self {
            InitialContext::With(x) => {
                x.push_fields(out);
            },
            InitialContext::Without => {
                proof {
                    assert(json_of_fields(out@) =~= json_of_fields(old(out)@) + self.json_fields());
                }
            },
        }
    }
}

/// The payload that adds an image: the base fields, then those of the context.
#[derive(Clone, Debug, PartialEq)]
pub struct AddImageParams {
    pub base: BaseAddImageParams,
    pub context: InitialContext,
}

impl ToJson for AddImageParams {
    open spec fn json(&self) -> Json {
        Json::Object(self.json_fields())
    }

    fn to_json(&self) -> (v: JsonValue) {
        let mut fields: Vec<JsonField> = Vec::new();
        self.push_fields(&mut fields);
        proof {
            assert(json_of_fields(fields@) =~= self.json_fields());
        }
        JsonValue::Object(fields)
    }
}

impl JsonObject for AddImageParams {
    open spec fn json_fields(&self) -> Seq<(Seq<char>, Json)> {
        self.base.json_fields()
        + self.context.json_fields()
    }

    fn push_fields(&self, out: &mut Vec<JsonField>) {
        self.base.push_fields(out);
        self.context.push_fields(out);
        proof {
            assert(json_of_fields(out@) =~= json_of_fields(old(out)@) + self.json_fields());
        }
    }
}

/// What every payload that asks for a proof holds.
#[derive(Clone, Debug, PartialEq)]
pub struct BaseProvingParams {
    pub user_address: String,
    pub md5: String,
    pub public_inputs: Vec<String>,
    pub private_inputs: Vec<String>,
    pub proof_submit_mode: ProofSubmitMode,
}

impl ToJson for BaseProvingParams {
    open spec fn json(&self) -> Json {
        Json::Object(self.json_fields())
    }

    fn to_json(&self) -> (v: JsonValue) {
        let mut fields: Vec<JsonField> = Vec::new();
        self.push_fields(&mut fields);
        proof {
            assert(json_of_fields(fields@) =~= self.json_fields());
        }
        JsonValue::Object(fields)
    }
}

impl JsonObject for BaseProvingParams {
    open spec fn json_fields(&self) -> Seq<(Seq<char>, Json)> {
        seq![
            ("user_address"@, self.user_address.json()),
            ("md5"@, self.md5.json()),
            ("public_inputs"@, self.public_inputs.json()),
            ("private_inputs"@, self.private_inputs.json()),
            ("proof_submit_mode"@, self.proof_submit_mode.json()),
        ]
    }

    fn push_fields(&self, out: &mut Vec<JsonField>) {
        push_field(out, "user_address", self.user_address.to_json());
        push_field(out, "md5", self.md5.to_json());
        push_field(out, "public_inputs", self.public_inputs.to_json());
        push_field(out, "private_inputs", self.private_inputs.to_json());
        push_field(out, "proof_submit_mode", self.proof_submit_mode.to_json());
        proof {
            assert(json_of_fields(out@) =~= json_of_fields(old(out)@) + self.json_fields());
        }
    }
}

/// An input context that the caller supplies.
#[derive(Clone, Debug, PartialEq)]
pub struct WithCustomInputContext {
    pub input_context_type: InputContextType,
    pub input_context: Vec<u8>,
    pub input_context_md5: String,
}

impl ToJson for WithCustomInputContext {
    open spec fn json(&self) -> Json {
        Json::Object(self.json_fields())
    }

    fn to_json(&self) -> (v: JsonValue) {
        let mut fields: Vec<JsonField> = Vec::new();
        self.push_fields(&mut fields);
        proof {
            assert(json_of_fields(fields@) =~= self.json_fields());
        }
        JsonValue::Object(fields)
    }
}

impl JsonObject for WithCustomInputContext {
    open spec fn json_fields(&self) -> Seq<(Seq<char>, Json)> {
        seq![
            ("input_context_type"@, self.input_context_type.json()),
            ("input_context"@, self.input_context.json()),
            ("input_context_md5"@, self.input_context_md5.json()),
        ]
    }

    fn push_fields(&self, out: &mut Vec<JsonField>) {
        push_field(out, "input_context_type", self.input_context_type.to_json());
        push_field(out, "input_context", self.input_context.to_json());
        push_field(out, "input_context_md5", self.input_context_md5.to_json());
        proof {
            assert(json_of_fields(out@) =~= json_of_fields(old(out)@) + self.json_fields());
        }
    }
}

/// An input context that the image supplies.
#[derive(Clone, Debug, PartialEq)]
pub struct WithNonCustomInputContext {
    pub input_context_type: Option<JsonValue>,
}

impl ToJson for WithNonCustomInputContext {
    open spec fn json(&self) -> Json {
        Json::Object(self.json_fields())
    }

    fn to_json(&self) -> (v: JsonValue) {
        let mut fields: Vec<JsonField> = Vec::new();
        self.push_fields(&mut fields);
        proof {
            assert(json_of_fields(fields@) =~= self.json_fields());
        }
        JsonValue::Object(fields)
    }
}

impl JsonObject for WithNonCustomInputContext {
    open spec fn json_fields(&self) -> Seq<(Seq<char>, Json)> {
        seq![
            ("input_context_type"@, self.input_context_type.json()),
        ]
    }

    fn push_fields(&self, out: &mut Vec<JsonField>) {
        push_field(out, "input_context_type", self.input_context_type.to_json());
        proof {
            assert(json_of_fields(out@) =~= json_of_fields(old(out)@) + self.json_fields());
        }
    }
}

/// The input context of a proof, if it has one. It is written as the fields of the
/// context, or as nothing.
#[derive(Clone, Debug, PartialEq)]
pub enum CustomContext {
    With(WithCustomInputContext),
    WithNonCustom(WithNonCustomInputContext),
    Without,
}

impl ToJson for CustomContext {
    open spec fn json(&self) -> Json {
        match self {
            CustomContext::With(x) => x.json(),
            CustomContext::WithNonCustom(x) => x.json(),
            CustomContext::Without => Json::Null,
        }
    }

    fn to_json(&self) -> (v: JsonValue) {
        match self {
            CustomContext::With(x) => x.to_json(),
            CustomContext::WithNonCustom(x) => x.to_json(),
            CustomContext::Without => JsonValue::Null,
        }
    }
}

impl JsonObject for CustomContext {
    open spec fn json_fields(&self) -> Seq<(Seq<char>, Json)> {
        match self {
            CustomContext::With(x) => x.json_fields(),
            CustomContext::WithNonCustom(x) => x.json_fields(),
            CustomContext::Without => Seq::empty(),
        }
    }

    fn push_fields(&self, out: &mut Vec<JsonField>) {
        match self {
            CustomContext::With(x) => {
                x.push_fields(out);
            },
            CustomContext::WithNonCustom(x) => {
                x.push_fields(out);
            },
            CustomContext::Without => {
                proof {
                    assert(json_of_fields(out@) =~= json_of_fields(old(out)@) + self.json_fields());
                }
            },
        }
    }
}

/// The payload that asks for a proof: the base fields, then those of the context.
#[derive(Clone, Debug, PartialEq)]
pub struct ProvingParams {
    pub base: BaseProvingParams,
    pub context: CustomContext,
}

impl ToJson for ProvingParams {
    open spec fn json(&self) -> Json {
        Json::Object(self.json_fields())
    }

    fn to_json(&self) -> (v: JsonValue) {
        let mut fields: Vec<JsonField> = Vec::new();
        self.push_fields(&mut fields);
        proof {
            assert(json_of_fields(fields@) =~= self.json_fields());
        }
        JsonValue::Object(fields)
    }
}

impl JsonObject for ProvingParams {
    open spec fn json_fields(&self) -> Seq<(Seq<char>, Json)> {
        self.base.json_fields()
        + self.context.json_fields()
    }

    fn push_fields(&self, out: &mut Vec<JsonField>) {
        self.base.push_fields(out);
        self.context.push_fields(out);
        proof {
            assert(json_of_fields(out@) =~= json_of_fields(old(out)@) + self.json_fields());
        }
    }
}

/// The payload that asks for the deployment of an image on a chain.
#[derive(Clone, Debug, PartialEq)]
pub struct DeployParams {
    pub user_address: String,
    pub md5: String,
    pub chain_id: u32,
}

impl ToJson for DeployParams {
    open spec fn json(&self) -> Json {
        Json::Object(
            seq![
                ("user_address"@, self.user_address.json()),
                ("md5"@, self.md5.json()),
                ("chain_id"@, self.chain_id.json()),
            ],
        )
    }

    fn to_json(&self) -> (v: JsonValue) {
        let mut fields: Vec<JsonField> = Vec::new();
        push_field(&mut fields, "user_address", self.user_address.to_json());
        push_field(&mut fields, "md5", self.md5.to_json());
        push_field(&mut fields, "chain_id", self.chain_id.to_json());
        proof {
            assert(json_of_fields(fields@) =~= self.json()->Object_0);
        }
        JsonValue::Object(fields)
    }
}

/// What every payload that resets an image holds. The optional field is left out
/// where it is not set.
#[derive(Clone, Debug, PartialEq)]
pub struct BaseResetImageParams {
    pub md5: String,
    pub circuit_size: u32,
    pub user_address: String,
    pub prove_payment_src: ProvePaymentSrc,
    pub auto_submit_network_ids: Vec<u32>,
    pub add_prove_task_restrictions: Option<AddProveTaskRestrictions>,
}

impl ToJson for BaseResetImageParams {
    open spec fn json(&self) -> Json {
        Json::Object(self.json_fields())
    }

    fn to_json(&self) -> (v: JsonValue) {
        let mut fields: Vec<JsonField> = Vec::new();
        self.push_fields(&mut fields);
        proof {
            assert(json_of_fields(fields@) =~= self.json_fields());
        }
        JsonValue::Object(fields)
    }
}

impl JsonObject for BaseResetImageParams {
    open spec fn json_fields(&self) -> Seq<(Seq<char>, Json)> {
        seq![
            ("md5"@, self.md5.json()),
            ("circuit_size"@, self.circuit_size.json()),
            ("user_address"@, self.user_address.json()),
            ("prove_payment_src"@, self.prove_payment_src.json()),
            ("auto_submit_network_ids"@, self.auto_submit_network_ids.json()),
        ]
        + (if self.add_prove_task_restrictions is Some {
            seq![("add_prove_task_restrictions"@, self.add_prove_task_restrictions.json())]
        } else {
            Seq::empty()
        })
    }

    fn push_fields(&self, out: &mut Vec<JsonField>) {
        push_field(out, "md5", self.md5.to_json());
        push_field(out, "circuit_size", self.circuit_size.to_json());
        push_field(out, "user_address", self.user_address.to_json());
        push_field(out, "prove_payment_src", self.prove_payment_src.to_json());
        push_field(out, "auto_submit_network_ids", self.auto_submit_network_ids.to_json());
        if self.add_prove_task_restrictions.is_some() {
            push_field(out, "add_prove_task_restrictions", self.add_prove_task_restrictions.to_json());
        }
        proof {
            assert(json_of_fields(out@) =~= json_of_fields(old(out)@) + self.json_fields());
        }
    }
}

/// The context that an image is reset to.
#[derive(Clone, Debug, PartialEq)]
pub struct WithResetContext {
    pub reset_context: Vec<u8>,
    pub reset_context_md5: String,
}

impl ToJson for WithResetContext {
    open spec fn json(&self) -> Json {
        Json::Object(self.json_fields())
    }

    fn to_json(&self) -> (v: JsonValue) {
        let mut fields: Vec<JsonField> = Vec::new();
        self.push_fields(&mut fields);
        proof {
            assert(json_of_fields(fields@) =~= self.json_fields());
        }
        JsonValue::Object(fields)
    }
}

impl JsonObject for WithResetContext {
    open spec fn json_fields(&self) -> Seq<(Seq<char>, Json)> {
        seq![
            ("reset_context"@, self.reset_context.json()),
            ("reset_context_md5"@, self.reset_context_md5.json()),
        ]
    }

    fn push_fields(&self, out: &mut Vec<JsonField>) {
        push_field(out, "reset_context", self.reset_context.to_json());
        push_field(out, "reset_context_md5", self.reset_context_md5.to_json());
        proof {
            assert(json_of_fields(out@) =~= json_of_fields(old(out)@) + self.json_fields());
        }
    }
}

/// The context of a reset, if it has one. It is written as the fields of the
/// context, or as nothing.
#[derive(Clone, Debug, PartialEq)]
pub enum ResetContext {
    With(WithResetContext),
    Without,
}

impl ToJson for ResetContext {
    open spec fn json(&self) -> Json {
        match self {
            ResetContext::With(x) => x.json(),
            ResetContext::Without => Json::Null,
        }
    }

    fn to_json(&self) -> (v: JsonValue) {
        match self {
            ResetContext::With(x) => x.to_json(),
            ResetContext::Without => JsonValue::Null,
        }
    }
}

impl JsonObject for ResetContext {
    open spec fn json_fields(&self) -> Seq<(Seq<char>, Json)> {
        match self {
            ResetContext::With(x) => x.json_fields(),
            ResetContext::Without => Seq::empty(),
        }
    }

    fn push_fields(&self, out: &mut Vec<JsonField>) {
        match self {
            ResetContext::With(x) => {
                x.push_fields(out);
            },
            ResetContext::Without => {
                proof {
                    assert(json_of_fields(out@) =~= json_of_fields(old(out)@) + self.json_fields());
                }
            },
        }
    }
}

/// The payload that resets an image: the base fields, then those of the context.
#[derive(Clone, Debug, PartialEq)]
pub struct ResetImageParams {
    pub base: BaseResetImageParams,
    pub context: ResetContext,
}

impl ToJson for ResetImageParams {
    open spec fn json(&self) -> Json {
        Json::Object(self.json_fields())
    }

    fn to_json(&self) -> (v: JsonValue) {
        let mut fields: Vec<JsonField> = Vec::new();
        self.push_fields(&mut fields);
        proof {
            assert(json_of_fields(fields@) =~= self.json_fields());
        }
        JsonValue::Object(fields)
    }
}

impl JsonObject for ResetImageParams {
    open spec fn json_fields(&self) -> Seq<(Seq<char>, Json)> {
        self.base.json_fields()
        + self.context.json_fields()
    }

    fn push_fields(&self, out: &mut Vec<JsonField>) {
        self.base.push_fields(out);
        self.context.push_fields(out);
        proof {
            assert(json_of_fields(out@) =~= json_of_fields(old(out)@) + self.json_fields());
        }
    }
}

/// The payload that changes the description of an image.
#[derive(Clone, Debug, PartialEq)]
pub struct ModifyImageParams {
    pub md5: String,
    pub user_address: String,
    pub description_url: String,
    pub avator_url: String,
}

impl ToJson for ModifyImageParams {
    open spec fn json(&self) -> Json {
        Json::Object(
            seq![
                ("md5"@, self.md5.json()),
                ("user_address"@, self.user_address.json()),
                ("description_url"@, self.description_url.json()),
                ("avator_url"@, self.avator_url.json()),
            ],
        )
    }

    fn to_json(&self) -> (v: JsonValue) {
        let mut fields: Vec<JsonField> = Vec::new();
        push_field(&mut fields, "md5", self.md5.to_json());
        push_field(&mut fields, "user_address", self.user_address.to_json());
        push_field(&mut fields, "description_url", self.description_url.to_json());
        push_field(&mut fields, "avator_url", self.avator_url.to_json());
        proof {
            assert(json_of_fields(fields@) =~= self.json()->Object_0);
        }
        JsonValue::Object(fields)
    }
}

/// Where an image is deployed on one chain.
#[derive(Clone, Debug, PartialEq)]
pub struct DeploymentInfo {
    pub chain_id: u32,
    pub address: String,
}

impl ToJson for DeploymentInfo {
    open spec fn json(&self) -> Json {
        Json::Object(
            seq![
                ("chain_id"@, self.chain_id.json()),
                ("address"@, self.address.json()),
            ],
        )
    }

    fn to_json(&self) -> (v: JsonValue) {
        let mut fields: Vec<JsonField> = Vec::new();
        push_field(&mut fields, "chain_id", self.chain_id.to_json());
        push_field(&mut fields, "address", self.address.to_json());
        proof {
            assert(json_of_fields(fields@) =~= self.json()->Object_0);
        }
        JsonValue::Object(fields)
    }
}

impl FromJson for DeploymentInfo {
    open spec fn absent() -> Option<Json> {
        None
    }

    fn from_absent() -> (r: Option<Self>) {
        None
    }

    open spec fn decoded(j: Json) -> Option<Json> {
        match j {
            Json::Object(fields) => {
                let chain_id = field_decoded::<u32>(fields, "chain_id"@);
                let address = field_decoded::<String>(fields, "address"@);
                if chain_id is Some
                    && address is Some {
                    Some(
                        Json::Object(
                            seq![
                                ("chain_id"@, chain_id->0),
                                ("address"@, address->0),
                            ],
                        ),
                    )
                } else {
                    None
                }
            },
            _ => None,
        }
    }

    fn from_json(v: &JsonValue) -> (r: Option<Self>) {
        match v {
            JsonValue::Object(fields) => {
                let chain_id: u32 = decode_field(fields, "chain_id")?;
                let address: String = decode_field(fields, "address")?;
                Some(DeploymentInfo { chain_id, address })
            },
            _ => None,
        }
    }
}

impl RoundTrip for DeploymentInfo {
    proof fn lemma_round_trip(&self) {
        reveal_strlit("chain_id");
        reveal_strlit("address");
        let fields = self.json()->Object_0;
        assert(name_key(fields[0].0, 0, 0, 0) == (8nat, 'c', 'c', 'c'));
        assert(name_key(fields[1].0, 0, 0, 0) == (7nat, 'a', 'a', 'a'));
        assert forall|i: int, j: int| 0 <= i < j < fields.len() implies fields[i].0
            != fields[j].0 by {
            assert(name_key(fields[i].0, 0, 0, 0) != name_key(fields[j].0, 0, 0, 0));
        }
        lemma_fields_found(fields);
        self.chain_id.lemma_round_trip();
        self.address.lemma_round_trip();
    }
}

/// The image whose merkle data an image inherits.
#[derive(Clone, Debug, PartialEq)]
pub struct InheritedMerkleDataInfo {
    pub md5: String,
}

impl ToJson for InheritedMerkleDataInfo {
    open spec fn json(&self) -> Json {
        Json::Object(
            seq![
                ("md5"@, self.md5.json()),
            ],
        )
    }

    fn to_json(&self) -> (v: JsonValue) {
        let mut fields: Vec<JsonField> = Vec::new();
        push_field(&mut fields, "md5", self.md5.to_json());
        proof {
            assert(json_of_fields(fields@) =~= self.json()->Object_0);
        }
        JsonValue::Object(fields)
    }
}

impl FromJson for InheritedMerkleDataInfo {
    open spec fn absent() -> Option<Json> {
        None
    }

    fn from_absent() -> (r: Option<Self>) {
        None
    }

    open spec fn decoded(j: Json) -> Option<Json> {
        match j {
            Json::Object(fields) => {
                let md5 = field_decoded::<String>(fields, "md5"@);
                if md5 is Some {
                    Some(
                        Json::Object(
                            seq![
                                ("md5"@, md5->0),
                            ],
                        ),
                    )
                } else {
                    None
                }
            },
            _ => None,
        }
    }

    fn from_json(v: &JsonValue) -> (r: Option<Self>) {
        match v {
            JsonValue::Object(fields) => {
                let md5: String = decode_field(fields, "md5")?;
                Some(InheritedMerkleDataInfo { md5 })
            },
            _ => None,
        }
    }
}

impl RoundTrip for InheritedMerkleDataInfo {
    proof fn lemma_round_trip(&self) {
        reveal_strlit("md5");
        let fields = self.json()->Object_0;
        assert(name_key(fields[0].0, 0, 0, 0) == (3nat, 'm', 'm', 'm'));
        assert forall|i: int, j: int| 0 <= i < j < fields.len() implies fields[i].0
            != fields[j].0 by {
            assert(name_key(fields[i].0, 0, 0, 0) != name_key(fields[j].0, 0, 0, 0));
        }
        lemma_fields_found(fields);
        self.md5.lemma_round_trip();
    }
}

/// The checksum of an image.
#[derive(Clone, Debug, PartialEq)]
pub struct ImageChecksum {
    pub x: Vec<u8>,
    pub y: Vec<u8>,
}

impl ToJson for ImageChecksum {
    open spec fn json(&self) -> Json {
        Json::Object(
            seq![
                ("x"@, self.x.json()),
                ("y"@, self.y.json()),
            ],
        )
    }

    fn to_json(&self) -> (v: JsonValue) {
        let mut fields: Vec<JsonField> = Vec::new();
        push_field(&mut fields, "x", self.x.to_json());
        push_field(&mut fields, "y", self.y.to_json());
        proof {
            assert(json_of_fields(fields@) =~= self.json()->Object_0);
        }
        JsonValue::Object(fields)
    }
}

impl FromJson for ImageChecksum {
    open spec fn absent() -> Option<Json> {
        None
    }

    fn from_absent() -> (r: Option<Self>) {
        None
    }

    open spec fn decoded(j: Json) -> Option<Json> {
        match j {
            Json::Object(fields) => {
                let x = field_decoded::<Vec<u8>>(fields, "x"@);
                let y = field_decoded::<Vec<u8>>(fields, "y"@);
                if x is Some
                    && y is Some {
                    Some(
                        Json::Object(
                            seq![
                                ("x"@, x->0),
                                ("y"@, y->0),
                            ],
                        ),
                    )
                } else {
                    None
                }
            },
            _ => None,
        }
    }

    fn from_json(v: &JsonValue) -> (r: Option<Self>) {
        match v {
            JsonValue::Object(fields) => {
                let x: Vec<u8> = decode_field(fields, "x")?;
                let y: Vec<u8> = decode_field(fields, "y")?;
                Some(ImageChecksum { x, y })
            },
            _ => None,
        }
    }
}

impl RoundTrip for ImageChecksum {
    proof fn lemma_round_trip(&self) {
        reveal_strlit("x");
        reveal_strlit("y");
        let fields = self.json()->Object_0;
        assert(name_key(fields[0].0, 0, 0, 0) == (1nat, 'x', 'x', 'x'));
        assert(name_key(fields[1].0, 0, 0, 0) == (1nat, 'y', 'y', 'y'));
        assert forall|i: int, j: int| 0 <= i < j < fields.len() implies fields[i].0
            != fields[j].0 by {
            assert(name_key(fields[i].0, 0, 0, 0) != name_key(fields[j].0, 0, 0, 0));
        }
        lemma_fields_found(fields);
        self.x.lemma_round_trip();
        self.y.lemma_round_trip();
    }
}

/// An image with everything the service keeps of it.
#[derive(Clone, Debug, PartialEq)]
pub struct Image {
    pub user_address: String,
    pub md5: String,
    pub deployment: Vec<DeploymentInfo>,
    pub description_url: String,
    pub avator_url: String,
    pub circuit_size: u32,
    pub context: Option<Vec<u8>>,
    pub initial_context: Option<Vec<u8>>,
    pub status: String,
    pub checksum: Option<ImageChecksum>,
    pub prove_payment_src: ProvePaymentSrc,
    pub auto_submit_network_ids: Vec<u32>,
    pub inherited_merkle_data_info: Option<InheritedMerkleDataInfo>,
    pub add_prove_task_restrictions: AddProveTaskRestrictions,
}

impl ToJson for Image {
    open spec fn json(&self) -> Json {
        Json::Object(
            seq![
                ("user_address"@, self.user_address.json()),
                ("md5"@, self.md5.json()),
                ("deployment"@, self.deployment.json()),
                ("description_url"@, self.description_url.json()),
                ("avator_url"@, self.avator_url.json()),
                ("circuit_size"@, self.circuit_size.json()),
                ("context"@, self.context.json()),
                ("initial_context"@, self.initial_context.json()),
                ("status"@, self.status.json()),
                ("checksum"@, self.checksum.json()),
                ("prove_payment_src"@, self.prove_payment_src.json()),
                ("auto_submit_network_ids"@, self.auto_submit_network_ids.json()),
                ("inherited_merkle_data_info"@, self.inherited_merkle_data_info.json()),
                ("add_prove_task_restrictions"@, self.add_prove_task_restrictions.json()),
            ],
        )
    }

    fn to_json(&self) -> (v: JsonValue) {
        let mut fields: Vec<JsonField> = Vec::new();
        push_field(&mut fields, "user_address", self.user_address.to_json());
        push_field(&mut fields, "md5", self.md5.to_json());
        push_field(&mut fields, "deployment", self.deployment.to_json());
        push_field(&mut fields, "description_url", self.description_url.to_json());
        push_field(&mut fields, "avator_url", self.avator_url.to_json());
        push_field(&mut fields, "circuit_size", self.circuit_size.to_json());
        push_field(&mut fields, "context", self.context.to_json());
        push_field(&mut fields, "initial_context", self.initial_context.to_json());
        push_field(&mut fields, "status", self.status.to_json());
        push_field(&mut fields, "checksum", self.checksum.to_json());
        push_field(&mut fields, "prove_payment_src", self.prove_payment_src.to_json());
        push_field(&mut fields, "auto_submit_network_ids", self.auto_submit_network_ids.to_json());
        push_field(
            &mut fields,
            "inherited_merkle_data_info",
            self.inherited_merkle_data_info.to_json(),
        );
        push_field(
            &mut fields,
            "add_prove_task_restrictions",
            self.add_prove_task_restrictions.to_json(),
        );
        proof {
            assert(json_of_fields(fields@) =~= self.json()->Object_0);
        }
        JsonValue::Object(fields)
    }
}

impl FromJson for Image {
    open spec fn absent() -> Option<Json> {
        None
    }

    fn from_absent() -> (r: Option<Self>) {
        None
    }

    open spec fn decoded(j: Json) -> Option<Json> {
        match j {
            Json::Object(fields) => {
                let user_address = field_decoded::<String>(fields, "user_address"@);
                let md5 = field_decoded::<String>(fields, "md5"@);
                let deployment = field_decoded::<Vec<DeploymentInfo>>(fields, "deployment"@);
                let description_url = field_decoded::<String>(fields, "description_url"@);
                let avator_url = field_decoded::<String>(fields, "avator_url"@);
                let circuit_size = field_decoded::<u32>(fields, "circuit_size"@);
                let context = field_decoded::<Option<Vec<u8>>>(fields, "context"@);
                let initial_context = field_decoded::<Option<Vec<u8>>>(fields, "initial_context"@);
                let status = field_decoded::<String>(fields, "status"@);
                let checksum = field_decoded::<Option<ImageChecksum>>(fields, "checksum"@);
                let prove_payment_src = field_decoded::<ProvePaymentSrc>(
                    fields,
                    "prove_payment_src"@,
                );
                let auto_submit_network_ids = field_decoded::<Vec<u32>>(
                    fields,
                    "auto_submit_network_ids"@,
                );
                let inherited_merkle_data_info = field_decoded::<Option<InheritedMerkleDataInfo>>(
                    fields,
                    "inherited_merkle_data_info"@,
                );
                let add_prove_task_restrictions = field_decoded::<AddProveTaskRestrictions>(
                    fields,
                    "add_prove_task_restrictions"@,
                );
                if user_address is Some
                    && md5 is Some
                    && deployment is Some
                    && description_url is Some
                    && avator_url is Some
                    && circuit_size is Some
                    && context is Some
                    && initial_context is Some
                    && status is Some
                    && checksum is Some
                    && prove_payment_src is Some
                    && auto_submit_network_ids is Some
                    && inherited_merkle_data_info is Some
                    && add_prove_task_restrictions is Some {
                    Some(
                        Json::Object(
                            seq![
                                ("user_address"@, user_address->0),
                                ("md5"@, md5->0),
                                ("deployment"@, deployment->0),
                                ("description_url"@, description_url->0),
                                ("avator_url"@, avator_url->0),
                                ("circuit_size"@, circuit_size->0),
                                ("context"@, context->0),
                                ("initial_context"@, initial_context->0),
                                ("status"@, status->0),
                                ("checksum"@, checksum->0),
                                ("prove_payment_src"@, prove_payment_src->0),
                                ("auto_submit_network_ids"@, auto_submit_network_ids->0),
                                ("inherited_merkle_data_info"@, inherited_merkle_data_info->0),
                                ("add_prove_task_restrictions"@, add_prove_task_restrictions->0),
                            ],
                        ),
                    )
                } else {
                    None
                }
            },
            _ => None,
        }
    }

    fn from_json(v: &JsonValue) -> (r: Option<Self>) {
        match v {
            JsonValue::Object(fields) => {
                let user_address: String = decode_field(fields, "user_address")?;
                let md5: String = decode_field(fields, "md5")?;
                let deployment: Vec<DeploymentInfo> = decode_field(fields, "deployment")?;
                let description_url: String = decode_field(fields, "description_url")?;
                let avator_url: String = decode_field(fields, "avator_url")?;
                let circuit_size: u32 = decode_field(fields, "circuit_size")?;
                let context: Option<Vec<u8>> = decode_field(fields, "context")?;
                let initial_context: Option<Vec<u8>> = decode_field(fields, "initial_context")?;
                let status: String = decode_field(fields, "status")?;
                let checksum: Option<ImageChecksum> = decode_field(fields, "checksum")?;
                let prove_payment_src: ProvePaymentSrc = decode_field(fields, "prove_payment_src")?;
                let auto_submit_network_ids: Vec<u32> = decode_field(
                    fields,
                    "auto_submit_network_ids",
                )?;
                let inherited_merkle_data_info: Option<InheritedMerkleDataInfo> = decode_field(
                    fields,
                    "inherited_merkle_data_info",
                )?;
                let add_prove_task_restrictions: AddProveTaskRestrictions = decode_field(
                    fields,
                    "add_prove_task_restrictions",
                )?;
                Some(
                    Image {
                        user_address,
                        md5,
                        deployment,
                        description_url,
                        avator_url,
                        circuit_size,
                        context,
                        initial_context,
                        status,
                        checksum,
                        prove_payment_src,
                        auto_submit_network_ids,
                        inherited_merkle_data_info,
                        add_prove_task_restrictions,
                    },
                )
            },
            _ => None,
        }
    }
}

impl RoundTrip for Image {
    #[verifier::rlimit(50)]
    proof fn lemma_round_trip(&self) {
        reveal_strlit("user_address");
        reveal_strlit("md5");
        reveal_strlit("deployment");
        reveal_strlit("description_url");
        reveal_strlit("avator_url");
        reveal_strlit("circuit_size");
        reveal_strlit("context");
        reveal_strlit("initial_context");
        reveal_strlit("status");
        reveal_strlit("checksum");
        reveal_strlit("prove_payment_src");
        reveal_strlit("auto_submit_network_ids");
        reveal_strlit("inherited_merkle_data_info");
        reveal_strlit("add_prove_task_restrictions");
        let fields = self.json()->Object_0;
        assert(name_key(fields[0].0, 0, 0, 0) == (12nat, 'u', 'u', 'u'));
        assert(name_key(fields[1].0, 0, 0, 0) == (3nat, 'm', 'm', 'm'));
        assert(name_key(fields[2].0, 0, 0, 0) == (10nat, 'd', 'd', 'd'));
        assert(name_key(fields[3].0, 0, 0, 0) == (15nat, 'd', 'd', 'd'));
        assert(name_key(fields[4].0, 0, 0, 0) == (10nat, 'a', 'a', 'a'));
        assert(name_key(fields[5].0, 0, 0, 0) == (12nat, 'c', 'c', 'c'));
        assert(name_key(fields[6].0, 0, 0, 0) == (7nat, 'c', 'c', 'c'));
        assert(name_key(fields[7].0, 0, 0, 0) == (15nat, 'i', 'i', 'i'));
        assert(name_key(fields[8].0, 0, 0, 0) == (6nat, 's', 's', 's'));
        assert(name_key(fields[9].0, 0, 0, 0) == (8nat, 'c', 'c', 'c'));
        assert(name_key(fields[10].0, 0, 0, 0) == (17nat, 'p', 'p', 'p'));
        assert(name_key(fields[11].0, 0, 0, 0) == (23nat, 'a', 'a', 'a'));
        assert(name_key(fields[12].0, 0, 0, 0) == (26nat, 'i', 'i', 'i'));
        assert(name_key(fields[13].0, 0, 0, 0) == (27nat, 'a', 'a', 'a'));
        assert forall|i: int, j: int| 0 <= i < j < fields.len() implies fields[i].0
            != fields[j].0 by {
            assert(name_key(fields[i].0, 0, 0, 0) != name_key(fields[j].0, 0, 0, 0));
        }
        lemma_fields_found(fields);
        self.user_address.lemma_round_trip();
        self.md5.lemma_round_trip();
        self.deployment.lemma_round_trip();
        self.description_url.lemma_round_trip();
        self.avator_url.lemma_round_trip();
        self.circuit_size.lemma_round_trip();
        self.context.lemma_round_trip();
        self.initial_context.lemma_round_trip();
        self.status.lemma_round_trip();
        self.checksum.lemma_round_trip();
        self.prove_payment_src.lemma_round_trip();
        self.auto_submit_network_ids.lemma_round_trip();
        self.inherited_merkle_data_info.lemma_round_trip();
        self.add_prove_task_restrictions.lemma_round_trip();
    }
}

/// The contracts deployed for an image on one chain.
#[derive(Clone, Debug, PartialEq)]
pub struct ContractDeployments {
    pub chain_id: u32,
    pub circuit_size: u32,
    pub aggregator_lib_address: String,
    pub aggregator_config_address: String,
    pub aggregator_verifier_steps: Vec<String>,
    pub aggregator_verifier: String,
    pub batch_verifier: String,
    pub static_file_checksum: Vec<u8>,
}

impl ToJson for ContractDeployments {
    open spec fn json(&self) -> Json {
        Json::Object(
            seq![
                ("chain_id"@, self.chain_id.json()),
                ("circuit_size"@, self.circuit_size.json()),
                ("aggregator_lib_address"@, self.aggregator_lib_address.json()),
                ("aggregator_config_address"@, self.aggregator_config_address.json()),
                ("aggregator_verifier_steps"@, self.aggregator_verifier_steps.json()),
                ("aggregator_verifier"@, self.aggregator_verifier.json()),
                ("batch_verifier"@, self.batch_verifier.json()),
                ("static_file_checksum"@, self.static_file_checksum.json()),
            ],
        )
    }

    fn to_json(&self) -> (v: JsonValue) {
        let mut fields: Vec<JsonField> = Vec::new();
        push_field(&mut fields, "chain_id", self.chain_id.to_json());
        push_field(&mut fields, "circuit_size", self.circuit_size.to_json());
        push_field(&mut fields, "aggregator_lib_address", self.aggregator_lib_address.to_json());
        push_field(
            &mut fields,
            "aggregator_config_address",
            self.aggregator_config_address.to_json(),
        );
        push_field(
            &mut fields,
            "aggregator_verifier_steps",
            self.aggregator_verifier_steps.to_json(),
        );
        push_field(&mut fields, "aggregator_verifier", self.aggregator_verifier.to_json());
        push_field(&mut fields, "batch_verifier", self.batch_verifier.to_json());
        push_field(&mut fields, "static_file_checksum", self.static_file_checksum.to_json());
        proof {
            assert(json_of_fields(fields@) =~= self.json()->Object_0);
        }
        JsonValue::Object(fields)
    }
}

} // verus!
