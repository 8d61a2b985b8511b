//! Records about tasks and how they are queried.

use vstd::prelude::*;
use crate::interface::codec::{
    FromJson, RoundTrip, ToJson, decode_field, field_decoded, lemma_fields_found, name_key,
    push_field,
};
use crate::interface::common::{ObjectId};
use crate::json::{Json, json_of_fields, JsonField, JsonValue};
use crate::text::str_eq;

verus! {

/// Where the input context of a proof comes from.
#[derive(Clone, Debug, PartialEq)]
pub enum InputContextType {
    Custom,
    ImageInitial,
    ImageCurrent,
}

impl InputContextType {
    /// The name of the variant, which is its wire form.
    pub open spec fn name(&self) -> Seq<char> {
        match self {
            InputContextType::Custom => "Custom"@,
            InputContextType::ImageInitial => "ImageInitial"@,
            InputContextType::ImageCurrent => "ImageCurrent"@,
        }
    }

    pub fn as_str(&self) -> (s: &'static str)
        ensures
            s@ == self.name(),
    {
        match self {
            InputContextType::Custom => "Custom",
            InputContextType::ImageInitial => "ImageInitial",
            InputContextType::ImageCurrent => "ImageCurrent",
        }
    }
}

impl ToJson for InputContextType {
    open spec fn json(&self) -> Json {
        Json::String(self.name())
    }

    fn to_json(&self) -> (v: JsonValue) {
        JsonValue::from_str(self.as_str())
    }
}

impl FromJson for InputContextType {
    open spec fn absent() -> Option<Json> {
        None
    }

    fn from_absent() -> (r: Option<Self>) {
        None
    }

    open spec fn decoded(j: Json) -> Option<Json> {
        match j {
            Json::String(s) => if s == "Custom"@
                || s == "ImageInitial"@
                || s == "ImageCurrent"@ {
                Some(j)
            } else {
                None
            },
            _ => None,
        }
    }

    fn from_json(v: &JsonValue) -> (r: Option<Self>) {
        match v {
            JsonValue::String(s) => {
                if str_eq(s.as_str(), "Custom") {
                    Some(InputContextType::Custom)
                } else if str_eq(s.as_str(), "ImageInitial") {
                    Some(InputContextType::ImageInitial)
                } else if str_eq(s.as_str(), "ImageCurrent") {
                    Some(InputContextType::ImageCurrent)
                } else {
                    None
                }
            },
            _ => None,
        }
    }
}

impl RoundTrip for InputContextType {
    proof fn lemma_round_trip(&self) {
    }
}

/// How a binary field of an answer is compressed. `Uncompressed` is written as
/// `None`.
#[derive(Clone, Debug, PartialEq)]
pub enum CompressionType {
    Uncompressed,
    GZip,
}

impl CompressionType {
    /// The name of the variant, which is its wire form.
    pub open spec fn name(&self) -> Seq<char> {
        match self {
            CompressionType::Uncompressed => "None"@,
            CompressionType::GZip => "GZip"@,
        }
    }

    pub fn as_str(&self) -> (s: &'static str)
        ensures
            s@ == self.name(),
    {
        match self {
            CompressionType::Uncompressed => "None",
            CompressionType::GZip => "GZip",
        }
    }
}

impl ToJson for CompressionType {
    open spec fn json(&self) -> Json {
        Json::String(self.name())
    }

    fn to_json(&self) -> (v: JsonValue) {
        JsonValue::from_str(self.as_str())
    }
}

impl FromJson for CompressionType {
    open spec fn absent() -> Option<Json> {
        None
    }

    fn from_absent() -> (r: Option<Self>) {
        None
    }

    open spec fn decoded(j: Json) -> Option<Json> {
        match j {
            Json::String(s) => if s == "None"@ || s == "GZip"@ {
                Some(j)
            } else {
                None
            },
            _ => None,
        }
    }

    fn from_json(v: &JsonValue) -> (r: Option<Self>) {
        match v {
            JsonValue::String(s) => {
                if str_eq(s.as_str(), "None") {
                    Some(CompressionType::Uncompressed)
                } else if str_eq(s.as_str(), "GZip") {
                    Some(CompressionType::GZip)
                } else {
                    None
                }
            },
            _ => None,
        }
    }
}

impl RoundTrip for CompressionType {
    proof fn lemma_round_trip(&self) {
    }
}

/// The state of a task.
#[derive(Clone, Debug, PartialEq)]
pub enum TaskStatus {
    Pending,
    Processing,
    DryRunSuccess,
    DryRunFailed,
    Done,
    Fail,
    Unprovable,
    Stale,
}

impl TaskStatus {
    /// The name of the variant, which is its wire form.
    pub open spec fn name(&self) -> Seq<char> {
        match self {
            TaskStatus::Pending => "Pending"@,
            TaskStatus::Processing => "Processing"@,
            TaskStatus::DryRunSuccess => "DryRunSuccess"@,
            TaskStatus::DryRunFailed => "DryRunFailed"@,
            TaskStatus::Done => "Done"@,
            TaskStatus::Fail => "Fail"@,
            TaskStatus::Unprovable => "Unprovable"@,
            TaskStatus::Stale => "Stale"@,
        }
    }

    pub fn as_str(&self) -> (s: &'static str)
        ensures
            s@ == self.name(),
    {
        match self {
            TaskStatus::Pending => "Pending",
            TaskStatus::Processing => "Processing",
            TaskStatus::DryRunSuccess => "DryRunSuccess",
            TaskStatus::DryRunFailed => "DryRunFailed",
            TaskStatus::Done => "Done",
            TaskStatus::Fail => "Fail",
            TaskStatus::Unprovable => "Unprovable",
            TaskStatus::Stale => "Stale",
        }
    }
}

impl ToJson for TaskStatus {
    open spec fn json(&self) -> Json {
        Json::String(self.name())
    }

    fn to_json(&self) -> (v: JsonValue) {
        JsonValue::from_str(self.as_str())
    }
}

impl FromJson for TaskStatus {
    open spec fn absent() -> Option<Json> {
        None
    }

    fn from_absent() -> (r: Option<Self>) {
        None
    }

    open spec fn decoded(j: Json) -> Option<Json> {
        match j {
            Json::String(s) => if s == "Pending"@
                || s == "Processing"@
                || s == "DryRunSuccess"@
                || s == "DryRunFailed"@
                || s == "Done"@
                || s == "Fail"@
                || s == "Unprovable"@
                || s == "Stale"@ {
                Some(j)
            } else {
                None
            },
            _ => None,
        }
    }

    fn from_json(v: &JsonValue) -> (r: Option<Self>) {
        match v {
            JsonValue::String(s) => {
                if str_eq(s.as_str(), "Pending") {
                    Some(TaskStatus::Pending)
                } else if str_eq(s.as_str(), "Processing") {
                    Some(TaskStatus::Processing)
                } else if str_eq(s.as_str(), "DryRunSuccess") {
                    Some(TaskStatus::DryRunSuccess)
                } else if str_eq(s.as_str(), "DryRunFailed") {
                    Some(TaskStatus::DryRunFailed)
                } else if str_eq(s.as_str(), "Done") {
                    Some(TaskStatus::Done)
                } else if str_eq(s.as_str(), "Fail") {
                    Some(TaskStatus::Fail)
                } else if str_eq(s.as_str(), "Unprovable") {
                    Some(TaskStatus::Unprovable)
                } else if str_eq(s.as_str(), "Stale") {
                    Some(TaskStatus::Stale)
                } else {
                    None
                }
            },
            _ => None,
        }
    }
}

impl RoundTrip for TaskStatus {
    proof fn lemma_round_trip(&self) {
    }
}

/// The kind of a task.
#[derive(Clone, Debug, PartialEq)]
pub enum TaskType {
    Setup,
    Prove,
    Reset,
}

impl TaskType {
    /// The name of the variant, which is its wire form.
    pub open spec fn name(&self) -> Seq<char> {
        match self {
            TaskType::Setup => "Setup"@,
            TaskType::Prove => "Prove"@,
            TaskType::Reset => "Reset"@,
        }
    }

    pub fn as_str(&self) -> (s: &'static str)
        ensures
            s@ == self.name(),
    {
        match self {
            TaskType::Setup => "Setup",
            TaskType::Prove => "Prove",
            TaskType::Reset => "Reset",
        }
    }
}

impl ToJson for TaskType {
    open spec fn json(&self) -> Json {
        Json::String(self.name())
    }

    fn to_json(&self) -> (v: JsonValue) {
        JsonValue::from_str(self.as_str())
    }
}

impl FromJson for TaskType {
    open spec fn absent() -> Option<Json> {
        None
    }

    fn from_absent() -> (r: Option<Self>) {
        None
    }

    open spec fn decoded(j: Json) -> Option<Json> {
        match j {
            Json::String(s) => if s == "Setup"@ || s == "Prove"@ || s == "Reset"@ {
                Some(j)
            } else {
                None
            },
            _ => None,
        }
    }

    fn from_json(v: &JsonValue) -> (r: Option<Self>) {
        match v {
            JsonValue::String(s) => {
                if str_eq(s.as_str(), "Setup") {
                    Some(TaskType::Setup)
                } else if str_eq(s.as_str(), "Prove") {
                    Some(TaskType::Prove)
                } else if str_eq(s.as_str(), "Reset") {
                    Some(TaskType::Reset)
                } else {
                    None
                }
            },
            _ => None,
        }
    }
}

impl RoundTrip for TaskType {
    proof fn lemma_round_trip(&self) {
    }
}

/// The verifier contracts of one chain.
#[derive(Clone, Debug, PartialEq)]
pub struct VerifierContracts {
    pub chain_id: u32,
    pub aggregator_verifier: String,
    pub batch_verifier: Option<String>,
    pub circuit_size: u32,
}

impl ToJson for VerifierContracts {
    open spec fn json(&self) -> Json {
        Json::Object(
            seq![
                ("chain_id"@, self.chain_id.json()),
                ("aggregator_verifier"@, self.aggregator_verifier.json()),
                ("batch_verifier"@, self.batch_verifier.json()),
                ("circuit_size"@, self.circuit_size.json()),
            ],
        )
    }

    fn to_json(&self) -> (v: JsonValue) {
        let mut fields: Vec<JsonField> = Vec::new();
        push_field(&mut fields, "chain_id", self.chain_id.to_json());
        push_field(&mut fields, "aggregator_verifier", self.aggregator_verifier.to_json());
        push_field(&mut fields, "batch_verifier", self.batch_verifier.to_json());
        push_field(&mut fields, "circuit_size", self.circuit_size.to_json());
        proof {
            assert(json_of_fields(fields@) =~= self.json()->Object_0);
        }
        JsonValue::Object(fields)
    }
}

impl FromJson for VerifierContracts {
    open spec fn absent() -> Option<Json> {
        None
    }

    fn from_absent() -> (r: Option<Self>) {
        None
    }

    open spec fn decoded(j: Json) -> Option<Json> {
        match j {
            Json::Object(fields) => {
                let chain_id = field_decoded::<u32>(fields, "chain_id"@);
                let aggregator_verifier = field_decoded::<String>(fields, "aggregator_verifier"@);
                let batch_verifier = field_decoded::<Option<String>>(fields, "batch_verifier"@);
                let circuit_size = field_decoded::<u32>(fields, "circuit_size"@);
                if chain_id is Some
                    && aggregator_verifier is Some
                    && batch_verifier is Some
                    && circuit_size is Some {
                    Some(
                        Json::Object(
                            seq![
                                ("chain_id"@, chain_id->0),
                                ("aggregator_verifier"@, aggregator_verifier->0),
                                ("batch_verifier"@, batch_verifier->0),
                                ("circuit_size"@, circuit_size->0),
                            ],
                        ),
                    )
                } else {
                    None
                }
            },
            _ => None,
        }
    }

    fn from_json(v: &JsonValue) -> (r: Option<Self>) {
        match v {
            JsonValue::Object(fields) => {
                let chain_id: u32 = decode_field(fields, "chain_id")?;
                let aggregator_verifier: String = decode_field(fields, "aggregator_verifier")?;
                let batch_verifier: Option<String> = decode_field(fields, "batch_verifier")?;
                let circuit_size: u32 = decode_field(fields, "circuit_size")?;
                Some(
                    VerifierContracts {
                        chain_id,
                        aggregator_verifier,
                        batch_verifier,
                        circuit_size,
                    },
                )
            },
            _ => None,
        }
    }
}

impl RoundTrip for VerifierContracts {
    proof fn lemma_round_trip(&self) {
        reveal_strlit("chain_id");
        reveal_strlit("aggregator_verifier");
        reveal_strlit("batch_verifier");
        reveal_strlit("circuit_size");
        let fields = self.json()->Object_0;
        assert(name_key(fields[0].0, 0, 0, 0) == (8nat, 'c', 'c', 'c'));
        assert(name_key(fields[1].0, 0, 0, 0) == (19nat, 'a', 'a', 'a'));
        assert(name_key(fields[2].0, 0, 0, 0) == (14nat, 'b', 'b', 'b'));
        assert(name_key(fields[3].0, 0, 0, 0) == (12nat, 'c', 'c', 'c'));
        assert forall|i: int, j: int| 0 <= i < j < fields.len() implies fields[i].0
            != fields[j].0 by {
            assert(name_key(fields[i].0, 0, 0, 0) != name_key(fields[j].0, 0, 0, 0));
        }
        lemma_fields_found(fields);
        self.chain_id.lemma_round_trip();
        self.aggregator_verifier.lemma_round_trip();
        self.batch_verifier.lemma_round_trip();
        self.circuit_size.lemma_round_trip();
    }
}

/// What is needed to verify the proof of a task.
#[derive(Clone, Debug, PartialEq)]
pub struct TaskVerificationData {
    pub static_file_checksum: Vec<u8>,
    pub verifier_contracts: Vec<VerifierContracts>,
}

impl ToJson for TaskVerificationData {
    open spec fn json(&self) -> Json {
        Json::Object(
            seq![
                ("static_file_checksum"@, self.static_file_checksum.json()),
                ("verifier_contracts"@, self.verifier_contracts.json()),
            ],
        )
    }

    fn to_json(&self) -> (v: JsonValue) {
        let mut fields: Vec<JsonField> = Vec::new();
        push_field(&mut fields, "static_file_checksum", self.static_file_checksum.to_json());
        push_field(&mut fields, "verifier_contracts", self.verifier_contracts.to_json());
        proof {
            assert(json_of_fields(fields@) =~= self.json()->Object_0);
        }
        JsonValue::Object(fields)
    }
}

impl FromJson for TaskVerificationData {
    open spec fn absent() -> Option<Json> {
        None
    }

    fn from_absent() -> (r: Option<Self>) {
        None
    }

    open spec fn decoded(j: Json) -> Option<Json> {
        match j {
            Json::Object(fields) => {
                let static_file_checksum = field_decoded::<Vec<u8>>(
                    fields,
                    "static_file_checksum"@,
                );
                let verifier_contracts = field_decoded::<Vec<VerifierContracts>>(
                    fields,
                    "verifier_contracts"@,
                );
                if static_file_checksum is Some
                    && verifier_contracts is Some {
                    Some(
                        Json::Object(
                            seq![
                                ("static_file_checksum"@, static_file_checksum->0),
                                ("verifier_contracts"@, verifier_contracts->0),
                            ],
                        ),
                    )
                } else {
                    None
                }
            },
            _ => None,
        }
    }

    fn from_json(v: &JsonValue) -> (r: Option<Self>) {
        match v {
            JsonValue::Object(fields) => {
                let static_file_checksum: Vec<u8> = decode_field(fields, "static_file_checksum")?;
                let verifier_contracts: Vec<VerifierContracts> = decode_field(
                    fields,
                    "verifier_contracts",
                )?;
                Some(TaskVerificationData { static_file_checksum, verifier_contracts })
            },
            _ => None,
        }
    }
}

impl RoundTrip for TaskVerificationData {
    proof fn lemma_round_trip(&self) {
        reveal_strlit("static_file_checksum");
        reveal_strlit("verifier_contracts");
        let fields = self.json()->Object_0;
        assert(name_key(fields[0].0, 0, 0, 0) == (20nat, 's', 's', 's'));
        assert(name_key(fields[1].0, 0, 0, 0) == (18nat, 'v', 'v', 'v'));
        assert forall|i: int, j: int| 0 <= i < j < fields.len() implies fields[i].0
            != fields[j].0 by {
            assert(name_key(fields[i].0, 0, 0, 0) != name_key(fields[j].0, 0, 0, 0));
        }
        lemma_fields_found(fields);
        self.static_file_checksum.lemma_round_trip();
        self.verifier_contracts.lemma_round_trip();
    }
}

/// Whether a proof is submitted by hand or by the service.
#[derive(Clone, Debug, PartialEq)]
pub enum ProofSubmitMode {
    Manual,
    Auto,
}

impl ProofSubmitMode {
    /// The name of the variant, which is its wire form.
    pub open spec fn name(&self) -> Seq<char> {
        match self {
            ProofSubmitMode::Manual => "Manual"@,
            ProofSubmitMode::Auto => "Auto"@,
        }
    }

    pub fn as_str(&self) -> (s: &'static str)
        ensures
            s@ == self.name(),
    {
        match self {
            ProofSubmitMode::Manual => "Manual",
            ProofSubmitMode::Auto => "Auto",
        }
    }
}

impl ToJson for ProofSubmitMode {
    open spec fn json(&self) -> Json {
        Json::String(self.name())
    }

    fn to_json(&self) -> (v: JsonValue) {
        JsonValue::from_str(self.as_str())
    }
}

impl FromJson for ProofSubmitMode {
    open spec fn absent() -> Option<Json> {
        None
    }

    fn from_absent() -> (r: Option<Self>) {
        None
    }

    open spec fn decoded(j: Json) -> Option<Json> {
        match j {
            Json::String(s) => if s == "Manual"@ || s == "Auto"@ {
                Some(j)
            } else {
                None
            },
            _ => None,
        }
    }

    fn from_json(v: &JsonValue) -> (r: Option<Self>) {
        match v {
            JsonValue::String(s) => {
                if str_eq(s.as_str(), "Manual") {
                    Some(ProofSubmitMode::Manual)
                } else if str_eq(s.as_str(), "Auto") {
                    Some(ProofSubmitMode::Auto)
                } else {
                    None
                }
            },
            _ => None,
        }
    }
}

impl RoundTrip for ProofSubmitMode {
    proof fn lemma_round_trip(&self) {
    }
}

/// A batch of automatic submission on one chain.
#[derive(Clone, Debug, PartialEq)]
pub struct AutoSubmitBatchMetadata {
    pub chain_id: u32,
    pub id: String,
}

impl ToJson for AutoSubmitBatchMetadata {
    open spec fn json(&self) -> Json {
        Json::Object(
            seq![
                ("chain_id"@, self.chain_id.json()),
                ("id"@, self.id.json()),
            ],
        )
    }

    fn to_json(&self) -> (v: JsonValue) {
        let mut fields: Vec<JsonField> = Vec::new();
        push_field(&mut fields, "chain_id", self.chain_id.to_json());
        push_field(&mut fields, "id", self.id.to_json());
        proof {
            assert(json_of_fields(fields@) =~= self.json()->Object_0);
        }
        JsonValue::Object(fields)
    }
}

impl FromJson for AutoSubmitBatchMetadata {
    open spec fn absent() -> Option<Json> {
        None
    }

    fn from_absent() -> (r: Option<Self>) {
        None
    }

    open spec fn decoded(j: Json) -> Option<Json> {
        match j {
            Json::Object(fields) => {
                let chain_id = field_decoded::<u32>(fields, "chain_id"@);
                let id = field_decoded::<String>(fields, "id"@);
                if chain_id is Some
                    && id is Some {
                    Some(
                        Json::Object(
                            seq![
                                ("chain_id"@, chain_id->0),
                                ("id"@, id->0),
                            ],
                        ),
                    )
                } else {
                    None
                }
            },
            _ => None,
        }
    }

    fn from_json(v: &JsonValue) -> (r: Option<Self>) {
        match v {
            JsonValue::Object(fields) => {
                let chain_id: u32 = decode_field(fields, "chain_id")?;
                let id: String = decode_field(fields, "id")?;
                Some(AutoSubmitBatchMetadata { chain_id, id })
            },
            _ => None,
        }
    }
}

impl RoundTrip for AutoSubmitBatchMetadata {
    proof fn lemma_round_trip(&self) {
        reveal_strlit("chain_id");
        reveal_strlit("id");
        let fields = self.json()->Object_0;
        assert(name_key(fields[0].0, 0, 0, 0) == (8nat, 'c', 'c', 'c'));
        assert(name_key(fields[1].0, 0, 0, 0) == (2nat, 'i', 'i', 'i'));
        assert forall|i: int, j: int| 0 <= i < j < fields.len() implies fields[i].0
            != fields[j].0 by {
            assert(name_key(fields[i].0, 0, 0, 0) != name_key(fields[j].0, 0, 0, 0));
        }
        lemma_fields_found(fields);
        self.chain_id.lemma_round_trip();
        self.id.lemma_round_trip();
    }
}

/// The batches that a task went into.
#[derive(Clone, Debug, PartialEq)]
pub struct BatchProofData {
    pub round_1_batch_ids: Option<Vec<AutoSubmitBatchMetadata>>,
    pub round_2_batch_ids: Option<Vec<AutoSubmitBatchMetadata>>,
    pub final_proof_batch_ids: Option<Vec<AutoSubmitBatchMetadata>>,
}

impl ToJson for BatchProofData {
    open spec fn json(&self) -> Json {
        Json::Object(
            seq![
                ("round_1_batch_ids"@, self.round_1_batch_ids.json()),
                ("round_2_batch_ids"@, self.round_2_batch_ids.json()),
                ("final_proof_batch_ids"@, self.final_proof_batch_ids.json()),
            ],
        )
    }

    fn to_json(&self) -> (v: JsonValue) {
        let mut fields: Vec<JsonField> = Vec::new();
        push_field(&mut fields, "round_1_batch_ids", self.round_1_batch_ids.to_json());
        push_field(&mut fields, "round_2_batch_ids", self.round_2_batch_ids.to_json());
        push_field(&mut fields, "final_proof_batch_ids", self.final_proof_batch_ids.to_json());
        proof {
            assert(json_of_fields(fields@) =~= self.json()->Object_0);
        }
        JsonValue::Object(fields)
    }
}

impl FromJson for BatchProofData {
    open spec fn absent() -> Option<Json> {
        None
    }

    fn from_absent() -> (r: Option<Self>) {
        None
    }

    open spec fn decoded(j: Json) -> Option<Json> {
        match j {
            Json::Object(fields) => {
                let round_1_batch_ids = field_decoded::<Option<Vec<AutoSubmitBatchMetadata>>>(
                    fields,
                    "round_1_batch_ids"@,
                );
                let round_2_batch_ids = field_decoded::<Option<Vec<AutoSubmitBatchMetadata>>>(
                    fields,
                    "round_2_batch_ids"@,
                );
                let final_proof_batch_ids = field_decoded::<Option<Vec<AutoSubmitBatchMetadata>>>(
                    fields,
                    "final_proof_batch_ids"@,
                );
                if round_1_batch_ids is Some
                    && round_2_batch_ids is Some
                    && final_proof_batch_ids is Some {
                    Some(
                        Json::Object(
                            seq![
                                ("round_1_batch_ids"@, round_1_batch_ids->0),
                                ("round_2_batch_ids"@, round_2_batch_ids->0),
                                ("final_proof_batch_ids"@, final_proof_batch_ids->0),
                            ],
                        ),
                    )
                } else {
                    None
                }
            },
            _ => None,
        }
    }

    fn from_json(v: &JsonValue) -> (r: Option<Self>) {
        match v {
            JsonValue::Object(fields) => {
                let round_1_batch_ids: Option<Vec<AutoSubmitBatchMetadata>> = decode_field(
                    fields,
                    "round_1_batch_ids",
                )?;
                let round_2_batch_ids: Option<Vec<AutoSubmitBatchMetadata>> = decode_field(
                    fields,
                    "round_2_batch_ids",
                )?;
                let final_proof_batch_ids: Option<Vec<AutoSubmitBatchMetadata>> = decode_field(
                    fields,
                    "final_proof_batch_ids",
                )?;
                Some(BatchProofData { round_1_batch_ids, round_2_batch_ids, final_proof_batch_ids })
            },
            _ => None,
        }
    }
}

impl RoundTrip for BatchProofData {
    proof fn lemma_round_trip(&self) {
        reveal_strlit("round_1_batch_ids");
        reveal_strlit("round_2_batch_ids");
        reveal_strlit("final_proof_batch_ids");
        let fields = self.json()->Object_0;
        assert(name_key(fields[0].0, 6, 6, 6) == (17nat, '1', '1', '1'));
        assert(name_key(fields[1].0, 6, 6, 6) == (17nat, '2', '2', '2'));
        assert(name_key(fields[2].0, 6, 6, 6) == (21nat, 'p', 'p', 'p'));
        assert forall|i: int, j: int| 0 <= i < j < fields.len() implies fields[i].0
            != fields[j].0 by {
            assert(name_key(fields[i].0, 6, 6, 6) != name_key(fields[j].0, 6, 6, 6));
        }
        lemma_fields_found(fields);
        self.round_1_batch_ids.lemma_round_trip();
        self.round_2_batch_ids.lemma_round_trip();
        self.final_proof_batch_ids.lemma_round_trip();
    }
}

/// How far a task is in automatic submission.
#[derive(Clone, Debug, PartialEq)]
pub enum AutoSubmitStatus {
    Round1,
    Round2,
    Batched,
    RegisteredProof,
    Failed,
}

impl AutoSubmitStatus {
    /// The name of the variant, which is its wire form.
    pub open spec fn name(&self) -> Seq<char> {
        match self {
            AutoSubmitStatus::Round1 => "Round1"@,
            AutoSubmitStatus::Round2 => "Round2"@,
            AutoSubmitStatus::Batched => "Batched"@,
            AutoSubmitStatus::RegisteredProof => "RegisteredProof"@,
            AutoSubmitStatus::Failed => "Failed"@,
        }
    }

    pub fn as_str(&self) -> (s: &'static str)
        ensures
            s@ == self.name(),
    {
        match self {
            AutoSubmitStatus::Round1 => "Round1",
            AutoSubmitStatus::Round2 => "Round2",
            AutoSubmitStatus::Batched => "Batched",
            AutoSubmitStatus::RegisteredProof => "RegisteredProof",
            AutoSubmitStatus::Failed => "Failed",
        }
    }
}

impl ToJson for AutoSubmitStatus {
    open spec fn json(&self) -> Json {
        Json::String(self.name())
    }

    fn to_json(&self) -> (v: JsonValue) {
        JsonValue::from_str(self.as_str())
    }
}

impl FromJson for AutoSubmitStatus {
    open spec fn absent() -> Option<Json> {
        None
    }

    fn from_absent() -> (r: Option<Self>) {
        None
    }

    open spec fn decoded(j: Json) -> Option<Json> {
        match j {
            Json::String(s) => if s == "Round1"@
                || s == "Round2"@
                || s == "Batched"@
                || s == "RegisteredProof"@
                || s == "Failed"@ {
                Some(j)
            } else {
                None
            },
            _ => None,
        }
    }

    fn from_json(v: &JsonValue) -> (r: Option<Self>) {
        match v {
            JsonValue::String(s) => {
                if str_eq(s.as_str(), "Round1") {
                    Some(AutoSubmitStatus::Round1)
                } else if str_eq(s.as_str(), "Round2") {
                    Some(AutoSubmitStatus::Round2)
                } else if str_eq(s.as_str(), "Batched") {
                    Some(AutoSubmitStatus::Batched)
                } else if str_eq(s.as_str(), "RegisteredProof") {
                    Some(AutoSubmitStatus::RegisteredProof)
                } else if str_eq(s.as_str(), "Failed") {
                    Some(AutoSubmitStatus::Failed)
                } else {
                    None
                }
            },
            _ => None,
        }
    }
}

impl RoundTrip for AutoSubmitStatus {
    proof fn lemma_round_trip(&self) {
    }
}

/// A task with everything the service keeps of it.
#[derive(Clone, Debug, PartialEq)]
pub struct Task {
    pub user_address: String,
    pub node_address: Option<String>,
    pub _id: ObjectId,
    pub status: TaskStatus,
    pub md5: String,
    pub task_type: TaskType,
    pub public_inputs: Vec<String>,
    pub private_inputs: Vec<String>,
    pub single_proof: Vec<u8>,
    pub proof: Vec<u8>,
    pub batch_instances: Vec<u8>,
    pub shadow_instances: Vec<u8>,
    pub instances: Vec<u8>,
    pub aux: Vec<u8>,
    pub input_context: Vec<u8>,
    pub input_context_type: Option<InputContextType>,
    pub output_context: Vec<u8>,
    pub submit_time: String,
    pub process_started: Option<String>,
    pub process_finished: Option<String>,
    pub task_fee: Option<Vec<u8>>,
    pub status_message: Option<String>,
    pub internal_message: Option<String>,
    pub guest_statics: Option<u32>,
    pub task_verification_data: TaskVerificationData,
    pub debug_logs: Option<String>,
    pub proof_submit_mode: Option<ProofSubmitMode>,
    pub batch_proof_data: Option<BatchProofData>,
    pub auto_submit_status: Option<AutoSubmitStatus>,
    pub compression: Option<CompressionType>,
}

impl ToJson for Task {
    open spec fn json(&self) -> Json {
        Json::Object(
            seq![
                ("user_address"@, self.user_address.json()),
                ("node_address"@, self.node_address.json()),
                ("_id"@, self._id.json()),
                ("status"@, self.status.json()),
                ("md5"@, self.md5.json()),
                ("task_type"@, self.task_type.json()),
                ("public_inputs"@, self.public_inputs.json()),
                ("private_inputs"@, self.private_inputs.json()),
                ("single_proof"@, self.single_proof.json()),
                ("proof"@, self.proof.json()),
                ("batch_instances"@, self.batch_instances.json()),
                ("shadow_instances"@, self.shadow_instances.json()),
                ("instances"@, self.instances.json()),
                ("aux"@, self.aux.json()),
                ("input_context"@, self.input_context.json()),
                ("input_context_type"@, self.input_context_type.json()),
                ("output_context"@, self.output_context.json()),
                ("submit_time"@, self.submit_time.json()),
                ("process_started"@, self.process_started.json()),
                ("process_finished"@, self.process_finished.json()),
                ("task_fee"@, self.task_fee.json()),
                ("status_message"@, self.status_message.json()),
                ("internal_message"@, self.internal_message.json()),
                ("guest_statics"@, self.guest_statics.json()),
                ("task_verification_data"@, self.task_verification_data.json()),
                ("debug_logs"@, self.debug_logs.json()),
                ("proof_submit_mode"@, self.proof_submit_mode.json()),
                ("batch_proof_data"@, self.batch_proof_data.json()),
                ("auto_submit_status"@, self.auto_submit_status.json()),
                ("compression"@, self.compression.json()),
            ],
        )
    }

    #[verifier::rlimit(40)]
    fn to_json(&self) -> (v: JsonValue) {
        let mut fields: Vec<JsonField> = Vec::new();
        push_field(&mut fields, "user_address", self.user_address.to_json());
        push_field(&mut fields, "node_address", self.node_address.to_json());
        push_field(&mut fields, "_id", self._id.to_json());
        push_field(&mut fields, "status", self.status.to_json());
        push_field(&mut fields, "md5", self.md5.to_json());
        push_field(&mut fields, "task_type", self.task_type.to_json());
        push_field(&mut fields, "public_inputs", self.public_inputs.to_json());
        push_field(&mut fields, "private_inputs", self.private_inputs.to_json());
        push_field(&mut fields, "single_proof", self.single_proof.to_json());
        push_field(&mut fields, "proof", self.proof.to_json());
        push_field(&mut fields, "batch_instances", self.batch_instances.to_json());
        push_field(&mut fields, "shadow_instances", self.shadow_instances.to_json());
        push_field(&mut fields, "instances", self.instances.to_json());
        push_field(&mut fields, "aux", self.aux.to_json());
        push_field(&mut fields, "input_context", self.input_context.to_json());
        push_field(&mut fields, "input_context_type", self.input_context_type.to_json());
        push_field(&mut fields, "output_context", self.output_context.to_json());
        push_field(&mut fields, "submit_time", self.submit_time.to_json());
        push_field(&mut fields, "process_started", self.process_started.to_json());
        push_field(&mut fields, "process_finished", self.process_finished.to_json());
        push_field(&mut fields, "task_fee", self.task_fee.to_json());
        push_field(&mut fields, "status_message", self.status_message.to_json());
        push_field(&mut fields, "internal_message", self.internal_message.to_json());
        push_field(&mut fields, "guest_statics", self.guest_statics.to_json());
        push_field(&mut fields, "task_verification_data", self.task_verification_data.to_json());
        push_field(&mut fields, "debug_logs", self.debug_logs.to_json());
        push_field(&mut fields, "proof_submit_mode", self.proof_submit_mode.to_json());
        push_field(&mut fields, "batch_proof_data", self.batch_proof_data.to_json());
        push_field(&mut fields, "auto_submit_status", self.auto_submit_status.to_json());
        push_field(&mut fields, "compression", self.compression.to_json());
        proof {
            assert(json_of_fields(fields@) =~= self.json()->Object_0);
        }
        JsonValue::Object(fields)
    }
}

impl FromJson for Task {
    open spec fn absent() -> Option<Json> {
        None
    }

    fn from_absent() -> (r: Option<Self>) {
        None
    }

    open spec fn decoded(j: Json) -> Option<Json> {
        match j {
            Json::Object(fields) => {
                let user_address = field_decoded::<String>(fields, "user_address"@);
                let node_address = field_decoded::<Option<String>>(fields, "node_address"@);
                let _id = field_decoded::<ObjectId>(fields, "_id"@);
                let status = field_decoded::<TaskStatus>(fields, "status"@);
                let md5 = field_decoded::<String>(fields, "md5"@);
                let task_type = field_decoded::<TaskType>(fields, "task_type"@);
                let public_inputs = field_decoded::<Vec<String>>(fields, "public_inputs"@);
                let private_inputs = field_decoded::<Vec<String>>(fields, "private_inputs"@);
                let single_proof = field_decoded::<Vec<u8>>(fields, "single_proof"@);
                let proof = field_decoded::<Vec<u8>>(fields, "proof"@);
                let batch_instances = field_decoded::<Vec<u8>>(fields, "batch_instances"@);
                let shadow_instances = field_decoded::<Vec<u8>>(fields, "shadow_instances"@);
                let instances = field_decoded::<Vec<u8>>(fields, "instances"@);
                let aux = field_decoded::<Vec<u8>>(fields, "aux"@);
                let input_context = field_decoded::<Vec<u8>>(fields, "input_context"@);
                let input_context_type = field_decoded::<Option<InputContextType>>(
                    fields,
                    "input_context_type"@,
                );
                let output_context = field_decoded::<Vec<u8>>(fields, "output_context"@);
                let submit_time = field_decoded::<String>(fields, "submit_time"@);
                let process_started = field_decoded::<Option<String>>(fields, "process_started"@);
                let process_finished = field_decoded::<Option<String>>(fields, "process_finished"@);
                let task_fee = field_decoded::<Option<Vec<u8>>>(fields, "task_fee"@);
                let status_message = field_decoded::<Option<String>>(fields, "status_message"@);
                let internal_message = field_decoded::<Option<String>>(fields, "internal_message"@);
                let guest_statics = field_decoded::<Option<u32>>(fields, "guest_statics"@);
                let task_verification_data = field_decoded::<TaskVerificationData>(
                    fields,
                    "task_verification_data"@,
                );
                let debug_logs = field_decoded::<Option<String>>(fields, "debug_logs"@);
                let proof_submit_mode = field_decoded::<Option<ProofSubmitMode>>(
                    fields,
                    "proof_submit_mode"@,
                );
                let batch_proof_data = field_decoded::<Option<BatchProofData>>(
                    fields,
                    "batch_proof_data"@,
                );
                let auto_submit_status = field_decoded::<Option<AutoSubmitStatus>>(
                    fields,
                    "auto_submit_status"@,
                );
                let compression = field_decoded::<Option<CompressionType>>(fields, "compression"@);
                if user_address is Some
                    && node_address is Some
                    && _id is Some
                    && status is Some
                    && md5 is Some
                    && task_type is Some
                    && public_inputs is Some
                    && private_inputs is Some
                    && single_proof is Some
                    && proof is Some
                    && batch_instances is Some
                    && shadow_instances is Some
                    && instances is Some
                    && aux is Some
                    && input_context is Some
                    && input_context_type is Some
                    && output_context is Some
                    && submit_time is Some
                    && process_started is Some
                    && process_finished is Some
                    && task_fee is Some
                    && status_message is Some
                    && internal_message is Some
                    && guest_statics is Some
                    && task_verification_data is Some
                    && debug_logs is Some
                    && proof_submit_mode is Some
                    && batch_proof_data is Some
                    && auto_submit_status is Some
                    && compression is Some {
                    Some(
                        Json::Object(
                            seq![
                                ("user_address"@, user_address->0),
                                ("node_address"@, node_address->0),
                                ("_id"@, _id->0),
                                ("status"@, status->0),
                                ("md5"@, md5->0),
                                ("task_type"@, task_type->0),
                                ("public_inputs"@, public_inputs->0),
                                ("private_inputs"@, private_inputs->0),
                                ("single_proof"@, single_proof->0),
                                ("proof"@, proof->0),
                                ("batch_instances"@, batch_instances->0),
                                ("shadow_instances"@, shadow_instances->0),
                                ("instances"@, instances->0),
                                ("aux"@, aux->0),
                                ("input_context"@, input_context->0),
                                ("input_context_type"@, input_context_type->0),
                                ("output_context"@, output_context->0),
                                ("submit_time"@, submit_time->0),
                                ("process_started"@, process_started->0),
                                ("process_finished"@, process_finished->0),
                                ("task_fee"@, task_fee->0),
                                ("status_message"@, status_message->0),
                                ("internal_message"@, internal_message->0),
                                ("guest_statics"@, guest_statics->0),
                                ("task_verification_data"@, task_verification_data->0),
                                ("debug_logs"@, debug_logs->0),
                                ("proof_submit_mode"@, proof_submit_mode->0),
                                ("batch_proof_data"@, batch_proof_data->0),
                                ("auto_submit_status"@, auto_submit_status->0),
                                ("compression"@, compression->0),
                            ],
                        ),
                    )
                } else {
                    None
                }
            },
            _ => None,
        }
    }

    fn from_json(v: &JsonValue) -> (r: Option<Self>) {
        match v {
            JsonValue::Object(fields) => {
                let user_address: String = decode_field(fields, "user_address")?;
                let node_address: Option<String> = decode_field(fields, "node_address")?;
                let _id: ObjectId = decode_field(fields, "_id")?;
                let status: TaskStatus = decode_field(fields, "status")?;
                let md5: String = decode_field(fields, "md5")?;
                let task_type: TaskType = decode_field(fields, "task_type")?;
                let public_inputs: Vec<String> = decode_field(fields, "public_inputs")?;
                let private_inputs: Vec<String> = decode_field(fields, "private_inputs")?;
                let single_proof: Vec<u8> = decode_field(fields, "single_proof")?;
                let proof: Vec<u8> = decode_field(fields, "proof")?;
                let batch_instances: Vec<u8> = decode_field(fields, "batch_instances")?;
                let shadow_instances: Vec<u8> = decode_field(fields, "shadow_instances")?;
                let instances: Vec<u8> = decode_field(fields, "instances")?;
                let aux: Vec<u8> = decode_field(fields, "aux")?;
                let input_context: Vec<u8> = decode_field(fields, "input_context")?;
                let input_context_type: Option<InputContextType> = decode_field(
                    fields,
                    "input_context_type",
                )?;
                let output_context: Vec<u8> = decode_field(fields, "output_context")?;
                let submit_time: String = decode_field(fields, "submit_time")?;
                let process_started: Option<String> = decode_field(fields, "process_started")?;
                let process_finished: Option<String> = decode_field(fields, "process_finished")?;
                let task_fee: Option<Vec<u8>> = decode_field(fields, "task_fee")?;
                let status_message: Option<String> = decode_field(fields, "status_message")?;
                let internal_message: Option<String> = decode_field(fields, "internal_message")?;
                let guest_statics: Option<u32> = decode_field(fields, "guest_statics")?;
                let task_verification_data: TaskVerificationData = decode_field(
                    fields,
                    "task_verification_data",
                )?;
                let debug_logs: Option<String> = decode_field(fields, "debug_logs")?;
                let proof_submit_mode: Option<ProofSubmitMode> = decode_field(
                    fields,
                    "proof_submit_mode",
                )?;
                let batch_proof_data: Option<BatchProofData> = decode_field(
                    fields,
                    "batch_proof_data",
                )?;
                let auto_submit_status: Option<AutoSubmitStatus> = decode_field(
                    fields,
                    "auto_submit_status",
                )?;
                let compression: Option<CompressionType> = decode_field(fields, "compression")?;
                Some(
                    Task {
                        user_address,
                        node_address,
                        _id,
                        status,
                        md5,
                        task_type,
                        public_inputs,
                        private_inputs,
                        single_proof,
                        proof,
                        batch_instances,
                        shadow_instances,
                        instances,
                        aux,
                        input_context,
                        input_context_type,
                        output_context,
                        submit_time,
                        process_started,
                        process_finished,
                        task_fee,
                        status_message,
                        internal_message,
                        guest_statics,
                        task_verification_data,
                        debug_logs,
                        proof_submit_mode,
                        batch_proof_data,
                        auto_submit_status,
                        compression,
                    },
                )
            },
            _ => None,
        }
    }
}

impl RoundTrip for Task {
    #[verifier::rlimit(100)]
    proof fn lemma_round_trip(&self) {
        reveal_strlit("user_address");
        reveal_strlit("node_address");
        reveal_strlit("_id");
        reveal_strlit("status");
        reveal_strlit("md5");
        reveal_strlit("task_type");
        reveal_strlit("public_inputs");
        reveal_strlit("private_inputs");
        reveal_strlit("single_proof");
        reveal_strlit("proof");
        reveal_strlit("batch_instances");
        reveal_strlit("shadow_instances");
        reveal_strlit("instances");
        reveal_strlit("aux");
        reveal_strlit("input_context");
        reveal_strlit("input_context_type");
        reveal_strlit("output_context");
        reveal_strlit("submit_time");
        reveal_strlit("process_started");
        reveal_strlit("process_finished");
        reveal_strlit("task_fee");
        reveal_strlit("status_message");
        reveal_strlit("internal_message");
        reveal_strlit("guest_statics");
        reveal_strlit("task_verification_data");
        reveal_strlit("debug_logs");
        reveal_strlit("proof_submit_mode");
        reveal_strlit("batch_proof_data");
        reveal_strlit("auto_submit_status");
        reveal_strlit("compression");
        let fields = self.json()->Object_0;
        assert(name_key(fields[0].0, 0, 0, 0) == (12nat, 'u', 'u', 'u'));
        assert(name_key(fields[1].0, 0, 0, 0) == (12nat, 'n', 'n', 'n'));
        assert(name_key(fields[2].0, 0, 0, 0) == (3nat, '_', '_', '_'));
        assert(name_key(fields[3].0, 0, 0, 0) == (6nat, 's', 's', 's'));
        assert(name_key(fields[4].0, 0, 0, 0) == (3nat, 'm', 'm', 'm'));
        assert(name_key(fields[5].0, 0, 0, 0) == (9nat, 't', 't', 't'));
        assert(name_key(fields[6].0, 0, 0, 0) == (13nat, 'p', 'p', 'p'));
        assert(name_key(fields[7].0, 0, 0, 0) == (14nat, 'p', 'p', 'p'));
        assert(name_key(fields[8].0, 0, 0, 0) == (12nat, 's', 's', 's'));
        assert(name_key(fields[9].0, 0, 0, 0) == (5nat, 'p', 'p', 'p'));
        assert(name_key(fields[10].0, 0, 0, 0) == (15nat, 'b', 'b', 'b'));
        assert(name_key(fields[11].0, 0, 0, 0) == (16nat, 's', 's', 's'));
        assert(name_key(fields[12].0, 0, 0, 0) == (9nat, 'i', 'i', 'i'));
        assert(name_key(fields[13].0, 0, 0, 0) == (3nat, 'a', 'a', 'a'));
        assert(name_key(fields[14].0, 0, 0, 0) == (13nat, 'i', 'i', 'i'));
        assert(name_key(fields[15].0, 0, 0, 0) == (18nat, 'i', 'i', 'i'));
        assert(name_key(fields[16].0, 0, 0, 0) == (14nat, 'o', 'o', 'o'));
        assert(name_key(fields[17].0, 0, 0, 0) == (11nat, 's', 's', 's'));
        assert(name_key(fields[18].0, 0, 0, 0) == (15nat, 'p', 'p', 'p'));
        assert(name_key(fields[19].0, 0, 0, 0) == (16nat, 'p', 'p', 'p'));
        assert(name_key(fields[20].0, 0, 0, 0) == (8nat, 't', 't', 't'));
        assert(name_key(fields[21].0, 0, 0, 0) == (14nat, 's', 's', 's'));
        assert(name_key(fields[22].0, 0, 0, 0) == (16nat, 'i', 'i', 'i'));
        assert(name_key(fields[23].0, 0, 0, 0) == (13nat, 'g', 'g', 'g'));
        assert(name_key(fields[24].0, 0, 0, 0) == (22nat, 't', 't', 't'));
        assert(name_key(fields[25].0, 0, 0, 0) == (10nat, 'd', 'd', 'd'));
        assert(name_key(fields[26].0, 0, 0, 0) == (17nat, 'p', 'p', 'p'));
        assert(name_key(fields[27].0, 0, 0, 0) == (16nat, 'b', 'b', 'b'));
        assert(name_key(fields[28].0, 0, 0, 0) == (18nat, 'a', 'a', 'a'));
        assert(name_key(fields[29].0, 0, 0, 0) == (11nat, 'c', 'c', 'c'));
        assert forall|i: int, j: int| 0 <= i < j < fields.len() implies fields[i].0
            != fields[j].0 by {
            assert(name_key(fields[i].0, 0, 0, 0) != name_key(fields[j].0, 0, 0, 0));
        }
        lemma_fields_found(fields);
        self.user_address.lemma_round_trip();
        self.node_address.lemma_round_trip();
        self._id.lemma_round_trip();
        self.status.lemma_round_trip();
        self.md5.lemma_round_trip();
        self.task_type.lemma_round_trip();
        self.public_inputs.lemma_round_trip();
        self.private_inputs.lemma_round_trip();
        self.single_proof.lemma_round_trip();
        self.proof.lemma_round_trip();
        self.batch_instances.lemma_round_trip();
        self.shadow_instances.lemma_round_trip();
        self.instances.lemma_round_trip();
        self.aux.lemma_round_trip();
        self.input_context.lemma_round_trip();
        self.input_context_type.lemma_round_trip();
        self.output_context.lemma_round_trip();
        self.submit_time.lemma_round_trip();
        self.process_started.lemma_round_trip();
        self.process_finished.lemma_round_trip();
        self.task_fee.lemma_round_trip();
        self.status_message.lemma_round_trip();
        self.internal_message.lemma_round_trip();
        self.guest_statics.lemma_round_trip();
        self.task_verification_data.lemma_round_trip();
        self.debug_logs.lemma_round_trip();
        self.proof_submit_mode.lemma_round_trip();
        self.batch_proof_data.lemma_round_trip();
        self.auto_submit_status.lemma_round_trip();
        self.compression.lemma_round_trip();
    }
}

/// A task in short form.
#[derive(Clone, Debug, PartialEq)]
pub struct ConciseTask {
    pub _id: ObjectId,
    pub user_address: String,
    pub md5: String,
    pub task_type: TaskType,
    pub status: TaskStatus,
    pub submit_time: String,
    pub process_started: Option<String>,
    pub process_finished: Option<String>,
    pub proof_submit_mode: Option<ProofSubmitMode>,
    pub auto_submit_status: Option<AutoSubmitStatus>,
}

impl ToJson for ConciseTask {
    open spec fn json(&self) -> Json {
        Json::Object(
            seq![
                ("_id"@, self._id.json()),
                ("user_address"@, self.user_address.json()),
                ("md5"@, self.md5.json()),
                ("task_type"@, self.task_type.json()),
                ("status"@, self.status.json()),
                ("submit_time"@, self.submit_time.json()),
                ("process_started"@, self.process_started.json()),
                ("process_finished"@, self.process_finished.json()),
                ("proof_submit_mode"@, self.proof_submit_mode.json()),
                ("auto_submit_status"@, self.auto_submit_status.json()),
            ],
        )
    }

    fn to_json(&self) -> (v: JsonValue) {
        let mut fields: Vec<JsonField> = Vec::new();
        push_field(&mut fields, "_id", self._id.to_json());
        push_field(&mut fields, "user_address", self.user_address.to_json());
        push_field(&mut fields, "md5", self.md5.to_json());
        push_field(&mut fields, "task_type", self.task_type.to_json());
        push_field(&mut fields, "status", self.status.to_json());
        push_field(&mut fields, "submit_time", self.submit_time.to_json());
        push_field(&mut fields, "process_started", self.process_started.to_json());
        push_field(&mut fields, "process_finished", self.process_finished.to_json());
        push_field(&mut fields, "proof_submit_mode", self.proof_submit_mode.to_json());
        push_field(&mut fields, "auto_submit_status", self.auto_submit_status.to_json());
        proof {
            assert(json_of_fields(fields@) =~= self.json()->Object_0);
        }
        JsonValue::Object(fields)
    }
}

impl FromJson for ConciseTask {
    open spec fn absent() -> Option<Json> {
        None
    }

    fn from_absent() -> (r: Option<Self>) {
        None
    }

    open spec fn decoded(j: Json) -> Option<Json> {
        match j {
            Json::Object(fields) => {
                let _id = field_decoded::<ObjectId>(fields, "_id"@);
                let user_address = field_decoded::<String>(fields, "user_address"@);
                let md5 = field_decoded::<String>(fields, "md5"@);
                let task_type = field_decoded::<TaskType>(fields, "task_type"@);
                let status = field_decoded::<TaskStatus>(fields, "status"@);
                let submit_time = field_decoded::<String>(fields, "submit_time"@);
                let process_started = field_decoded::<Option<String>>(fields, "process_started"@);
                let process_finished = field_decoded::<Option<String>>(fields, "process_finished"@);
                let proof_submit_mode = field_decoded::<Option<ProofSubmitMode>>(
                    fields,
                    "proof_submit_mode"@,
                );
                let auto_submit_status = field_decoded::<Option<AutoSubmitStatus>>(
                    fields,
                    "auto_submit_status"@,
                );
                if _id is Some
                    && user_address is Some
                    && md5 is Some
                    && task_type is Some
                    && status is Some
                    && submit_time is Some
                    && process_started is Some
                    && process_finished is Some
                    && proof_submit_mode is Some
                    && auto_submit_status is Some {
                    Some(
                        Json::Object(
                            seq![
                                ("_id"@, _id->0),
                                ("user_address"@, user_address->0),
                                ("md5"@, md5->0),
                                ("task_type"@, task_type->0),
                                ("status"@, status->0),
                                ("submit_time"@, submit_time->0),
                                ("process_started"@, process_started->0),
                                ("process_finished"@, process_finished->0),
                                ("proof_submit_mode"@, proof_submit_mode->0),
                                ("auto_submit_status"@, auto_submit_status->0),
                            ],
                        ),
                    )
                } else {
                    None
                }
            },
            _ => None,
        }
    }

    fn from_json(v: &JsonValue) -> (r: Option<Self>) {
        match v {
            JsonValue::Object(fields) => {
                let _id: ObjectId = decode_field(fields, "_id")?;
                let user_address: String = decode_field(fields, "user_address")?;
                let md5: String = decode_field(fields, "md5")?;
                let task_type: TaskType = decode_field(fields, "task_type")?;
                let status: TaskStatus = decode_field(fields, "status")?;
                let submit_time: String = decode_field(fields, "submit_time")?;
                let process_started: Option<String> = decode_field(fields, "process_started")?;
                let process_finished: Option<String> = decode_field(fields, "process_finished")?;
                let proof_submit_mode: Option<ProofSubmitMode> = decode_field(
                    fields,
                    "proof_submit_mode",
                )?;
                let auto_submit_status: Option<AutoSubmitStatus> = decode_field(
                    fields,
                    "auto_submit_status",
                )?;
                Some(
                    ConciseTask {
                        _id,
                        user_address,
                        md5,
                        task_type,
                        status,
                        submit_time,
                        process_started,
                        process_finished,
                        proof_submit_mode,
                        auto_submit_status,
                    },
                )
            },
            _ => None,
        }
    }
}

impl RoundTrip for ConciseTask {
    proof fn lemma_round_trip(&self) {
        reveal_strlit("_id");
        reveal_strlit("user_address");
        reveal_strlit("md5");
        reveal_strlit("task_type");
        reveal_strlit("status");
        reveal_strlit("submit_time");
        reveal_strlit("process_started");
        reveal_strlit("process_finished");
        reveal_strlit("proof_submit_mode");
        reveal_strlit("auto_submit_status");
        let fields = self.json()->Object_0;
        assert(name_key(fields[0].0, 0, 0, 0) == (3nat, '_', '_', '_'));
        assert(name_key(fields[1].0, 0, 0, 0) == (12nat, 'u', 'u', 'u'));
        assert(name_key(fields[2].0, 0, 0, 0) == (3nat, 'm', 'm', 'm'));
        assert(name_key(fields[3].0, 0, 0, 0) == (9nat, 't', 't', 't'));
        assert(name_key(fields[4].0, 0, 0, 0) == (6nat, 's', 's', 's'));
        assert(name_key(fields[5].0, 0, 0, 0) == (11nat, 's', 's', 's'));
        assert(name_key(fields[6].0, 0, 0, 0) == (15nat, 'p', 'p', 'p'));
        assert(name_key(fields[7].0, 0, 0, 0) == (16nat, 'p', 'p', 'p'));
        assert(name_key(fields[8].0, 0, 0, 0) == (17nat, 'p', 'p', 'p'));
        assert(name_key(fields[9].0, 0, 0, 0) == (18nat, 'a', 'a', 'a'));
        assert forall|i: int, j: int| 0 <= i < j < fields.len() implies fields[i].0
            != fields[j].0 by {
            assert(name_key(fields[i].0, 0, 0, 0) != name_key(fields[j].0, 0, 0, 0));
        }
        lemma_fields_found(fields);
        self._id.lemma_round_trip();
        self.user_address.lemma_round_trip();
        self.md5.lemma_round_trip();
        self.task_type.lemma_round_trip();
        self.status.lemma_round_trip();
        self.submit_time.lemma_round_trip();
        self.process_started.lemma_round_trip();
        self.process_finished.lemma_round_trip();
        self.proof_submit_mode.lemma_round_trip();
        self.auto_submit_status.lemma_round_trip();
    }
}

/// The external host table of a task.
#[derive(Clone, Debug, PartialEq)]
pub struct TaskExternalHostTable {
    pub external_host_table: Vec<u8>,
    pub compression: Option<CompressionType>,
}

impl ToJson for TaskExternalHostTable {
    open spec fn json(&self) -> Json {
        Json::Object(
            seq![
                ("external_host_table"@, self.external_host_table.json()),
                ("compression"@, self.compression.json()),
            ],
        )
    }

    fn to_json(&self) -> (v: JsonValue) {
        let mut fields: Vec<JsonField> = Vec::new();
        push_field(&mut fields, "external_host_table", self.external_host_table.to_json());
        push_field(&mut fields, "compression", self.compression.to_json());
        proof {
            assert(json_of_fields(fields@) =~= self.json()->Object_0);
        }
        JsonValue::Object(fields)
    }
}

impl FromJson for TaskExternalHostTable {
    open spec fn absent() -> Option<Json> {
        None
    }

    fn from_absent() -> (r: Option<Self>) {
        None
    }

    open spec fn decoded(j: Json) -> Option<Json> {
        match j {
            Json::Object(fields) => {
                let external_host_table = field_decoded::<Vec<u8>>(fields, "external_host_table"@);
                let compression = field_decoded::<Option<CompressionType>>(fields, "compression"@);
                if external_host_table is Some
                    && compression is Some {
                    Some(
                        Json::Object(
                            seq![
                                ("external_host_table"@, external_host_table->0),
                                ("compression"@, compression->0),
                            ],
                        ),
                    )
                } else {
                    None
                }
            },
            _ => None,
        }
    }

    fn from_json(v: &JsonValue) -> (r: Option<Self>) {
        match v {
            JsonValue::Object(fields) => {
                let external_host_table: Vec<u8> = decode_field(fields, "external_host_table")?;
                let compression: Option<CompressionType> = decode_field(fields, "compression")?;
                Some(TaskExternalHostTable { external_host_table, compression })
            },
            _ => None,
        }
    }
}

impl RoundTrip for TaskExternalHostTable {
    proof fn lemma_round_trip(&self) {
        reveal_strlit("external_host_table");
        reveal_strlit("compression");
        let fields = self.json()->Object_0;
        assert(name_key(fields[0].0, 0, 0, 0) == (19nat, 'e', 'e', 'e'));
        assert(name_key(fields[1].0, 0, 0, 0) == (11nat, 'c', 'c', 'c'));
        assert forall|i: int, j: int| 0 <= i < j < fields.len() implies fields[i].0
            != fields[j].0 by {
            assert(name_key(fields[i].0, 0, 0, 0) != name_key(fields[j].0, 0, 0, 0));
        }
        lemma_fields_found(fields);
        self.external_host_table.lemma_round_trip();
        self.compression.lemma_round_trip();
    }
}

/// Filters and paging for tasks.
#[derive(Clone, Debug, PartialEq)]
pub struct QueryParams {
    pub user_address: Option<String>,
    pub md5: Option<String>,
    pub id: Option<String>,
    pub tasktype: Option<TaskType>,
    pub taskstatus: Option<TaskStatus>,
    pub start: Option<u64>,
    pub total: Option<u64>,
}

impl ToJson for QueryParams {
    open spec fn json(&self) -> Json {
        Json::Object(
            seq![
                ("user_address"@, self.user_address.json()),
                ("md5"@, self.md5.json()),
                ("id"@, self.id.json()),
                ("tasktype"@, self.tasktype.json()),
                ("taskstatus"@, self.taskstatus.json()),
                ("start"@, self.start.json()),
                ("total"@, self.total.json()),
            ],
        )
    }

    fn to_json(&self) -> (v: JsonValue) {
        let mut fields: Vec<JsonField> = Vec::new();
        push_field(&mut fields, "user_address", self.user_address.to_json());
        push_field(&mut fields, "md5", self.md5.to_json());
        push_field(&mut fields, "id", self.id.to_json());
        push_field(&mut fields, "tasktype", self.tasktype.to_json());
        push_field(&mut fields, "taskstatus", self.taskstatus.to_json());
        push_field(&mut fields, "start", self.start.to_json());
        push_field(&mut fields, "total", self.total.to_json());
        proof {
            assert(json_of_fields(fields@) =~= self.json()->Object_0);
        }
        JsonValue::Object(fields)
    }
}

/// Asks for the external host table of a task.
#[derive(Clone, Debug, PartialEq)]
pub struct TaskExternalHostTableParams {
    pub id: String,
}

impl ToJson for TaskExternalHostTableParams {
    open spec fn json(&self) -> Json {
        Json::Object(
            seq![
                ("id"@, self.id.json()),
            ],
        )
    }

    fn to_json(&self) -> (v: JsonValue) {
        let mut fields: Vec<JsonField> = Vec::new();
        push_field(&mut fields, "id", self.id.to_json());
        proof {
            assert(json_of_fields(fields@) =~= self.json()->Object_0);
        }
        JsonValue::Object(fields)
    }
}

/// Asks for the logs of a task.
#[derive(Clone, Debug, PartialEq)]
pub struct LogQuery {
    pub id: String,
    pub user_address: String,
}

impl ToJson for LogQuery {
    open spec fn json(&self) -> Json {
        Json::Object(
            seq![
                ("id"@, self.id.json()),
                ("user_address"@, self.user_address.json()),
            ],
        )
    }

    fn to_json(&self) -> (v: JsonValue) {
        let mut fields: Vec<JsonField> = Vec::new();
        push_field(&mut fields, "id", self.id.to_json());
        push_field(&mut fields, "user_address", self.user_address.to_json());
        proof {
            assert(json_of_fields(fields@) =~= self.json()->Object_0);
        }
        JsonValue::Object(fields)
    }
}

/// The data that a verifier contract takes.
#[derive(Clone, Debug, PartialEq)]
pub struct VerifyData {
    pub proof: Vec<Vec<u8>>,
    pub target_instances: Vec<Vec<u8>>,
    pub aggregator_instances: Vec<Vec<u8>>,
    pub aux_instances: Vec<Vec<u8>>,
}

impl ToJson for VerifyData {
    open spec fn json(&self) -> Json {
        Json::Object(
            seq![
                ("proof"@, self.proof.json()),
                ("target_instances"@, self.target_instances.json()),
                ("aggregator_instances"@, self.aggregator_instances.json()),
                ("aux_instances"@, self.aux_instances.json()),
            ],
        )
    }

    fn to_json(&self) -> (v: JsonValue) {
        let mut fields: Vec<JsonField> = Vec::new();
        push_field(&mut fields, "proof", self.proof.to_json());
        push_field(&mut fields, "target_instances", self.target_instances.to_json());
        push_field(&mut fields, "aggregator_instances", self.aggregator_instances.to_json());
        push_field(&mut fields, "aux_instances", self.aux_instances.to_json());
        proof {
            assert(json_of_fields(fields@) =~= self.json()->Object_0);
        }
        JsonValue::Object(fields)
    }
}

/// The arguments of a proof verification.
#[derive(Clone, Debug, PartialEq)]
pub struct VerifyProofParams {
    pub aggregate_proof: Vec<u8>,
    pub verify_instance: Vec<u8>,
    pub aux: Vec<u8>,
    pub instances: Vec<Vec<u8>>,
}

impl ToJson for VerifyProofParams {
    open spec fn json(&self) -> Json {
        Json::Object(
            seq![
                ("aggregate_proof"@, self.aggregate_proof.json()),
                ("verify_instance"@, self.verify_instance.json()),
                ("aux"@, self.aux.json()),
                ("instances"@, self.instances.json()),
            ],
        )
    }

    fn to_json(&self) -> (v: JsonValue) {
        let mut fields: Vec<JsonField> = Vec::new();
        push_field(&mut fields, "aggregate_proof", self.aggregate_proof.to_json());
        push_field(&mut fields, "verify_instance", self.verify_instance.to_json());
        push_field(&mut fields, "aux", self.aux.to_json());
        push_field(&mut fields, "instances", self.instances.to_json());
        proof {
            assert(json_of_fields(fields@) =~= self.json()->Object_0);
        }
        JsonValue::Object(fields)
    }
}

/// The arguments of a batch proof verification.
#[derive(Clone, Debug, PartialEq)]
pub struct VerifyBatchProofParams {
    pub membership_proof_index: Vec<Vec<u8>>,
    pub verify_instance: Vec<u8>,
    pub sibling_instances: Vec<Vec<u8>>,
    pub round_1_shadow_instance: Vec<u8>,
    pub target_instances: Vec<Vec<u8>>,
}

impl ToJson for VerifyBatchProofParams {
    open spec fn json(&self) -> Json {
        Json::Object(
            seq![
                ("membership_proof_index"@, self.membership_proof_index.json()),
                ("verify_instance"@, self.verify_instance.json()),
                ("sibling_instances"@, self.sibling_instances.json()),
                ("round_1_shadow_instance"@, self.round_1_shadow_instance.json()),
                ("target_instances"@, self.target_instances.json()),
            ],
        )
    }

    fn to_json(&self) -> (v: JsonValue) {
        let mut fields: Vec<JsonField> = Vec::new();
        push_field(&mut fields, "membership_proof_index", self.membership_proof_index.to_json());
        push_field(&mut fields, "verify_instance", self.verify_instance.to_json());
        push_field(&mut fields, "sibling_instances", self.sibling_instances.to_json());
        push_field(&mut fields, "round_1_shadow_instance", self.round_1_shadow_instance.to_json());
        push_field(&mut fields, "target_instances", self.target_instances.to_json());
        proof {
            assert(json_of_fields(fields@) =~= self.json()->Object_0);
        }
        JsonValue::Object(fields)
    }
}

} // verus!
