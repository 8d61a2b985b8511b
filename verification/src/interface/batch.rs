//! Records about the rounds of automatic proof submission.

use vstd::prelude::*;
use crate::interface::codec::{
    FromJson, JsonObject, RoundTrip, ToJson, decode_field, field_decoded, lemma_fields_found,
    name_key, push_field,
};
use crate::interface::common::{ObjectId};
use crate::interface::task::{VerifierContracts};
use crate::json::{Json, json_of_fields, JsonField, JsonValue};
use crate::text::str_eq;

verus! {

/// The checksum of the static files that a proof was made with.
#[derive(Clone, Debug, PartialEq)]
pub struct StaticFileVerificationData {
    pub static_file_checksum: Vec<u8>,
}

impl ToJson for StaticFileVerificationData {
    open spec fn json(&self) -> Json {
        Json::Object(
            seq![
                ("static_file_checksum"@, self.static_file_checksum.json()),
            ],
        )
    }

    fn to_json(&self) -> (v: JsonValue) {
        let mut fields: Vec<JsonField> = Vec::new();
        push_field(&mut fields, "static_file_checksum", self.static_file_checksum.to_json());
        proof {
            assert(json_of_fields(fields@) =~= self.json()->Object_0);
        }
        JsonValue::Object(fields)
    }
}

impl FromJson for StaticFileVerificationData {
    open spec fn absent() -> Option<Json> {
        None
    }

    fn from_absent() -> (r: Option<Self>) {
        None
    }

    open spec fn decoded(j: Json) -> Option<Json> {
        match j {
            Json::Object(fields) => {
                let static_file_checksum = field_decoded::<Vec<u8>>(
                    fields,
                    "static_file_checksum"@,
                );
                if static_file_checksum is Some {
                    Some(
                        Json::Object(
                            seq![
                                ("static_file_checksum"@, static_file_checksum->0),
                            ],
                        ),
                    )
                } else {
                    None
                }
            },
            _ => None,
        }
    }

    fn from_json(v: &JsonValue) -> (r: Option<Self>) {
        match v {
            JsonValue::Object(fields) => {
                let static_file_checksum: Vec<u8> = decode_field(fields, "static_file_checksum")?;
                Some(StaticFileVerificationData { static_file_checksum })
            },
            _ => None,
        }
    }
}

impl RoundTrip for StaticFileVerificationData {
    proof fn lemma_round_trip(&self) {
        reveal_strlit("static_file_checksum");
        let fields = self.json()->Object_0;
        assert(name_key(fields[0].0, 0, 0, 0) == (20nat, 's', 's', 's'));
        assert forall|i: int, j: int| 0 <= i < j < fields.len() implies fields[i].0
            != fields[j].0 by {
            assert(name_key(fields[i].0, 0, 0, 0) != name_key(fields[j].0, 0, 0, 0));
        }
        lemma_fields_found(fields);
        self.static_file_checksum.lemma_round_trip();
    }
}

/// The state of a proof queued for automatic submission.
#[derive(Clone, Debug, PartialEq)]
pub enum AutoSubmitProofStatus {
    Pending,
    Batched,
    Failed,
}

impl AutoSubmitProofStatus {
    /// The name of the variant, which is its wire form.
    pub open spec fn name(&self) -> Seq<char> {
        match self {
            AutoSubmitProofStatus::Pending => "Pending"@,
            AutoSubmitProofStatus::Batched => "Batched"@,
            AutoSubmitProofStatus::Failed => "Failed"@,
        }
    }

    pub fn as_str(&self) -> (s: &'static str)
        ensures
            s@ == self.name(),
    {
        match self {
            AutoSubmitProofStatus::Pending => "Pending",
            AutoSubmitProofStatus::Batched => "Batched",
            AutoSubmitProofStatus::Failed => "Failed",
        }
    }
}

impl ToJson for AutoSubmitProofStatus {
    open spec fn json(&self) -> Json {
        Json::String(self.name())
    }

    fn to_json(&self) -> (v: JsonValue) {
        JsonValue::from_str(self.as_str())
    }
}

impl FromJson for AutoSubmitProofStatus {
    open spec fn absent() -> Option<Json> {
        None
    }

    fn from_absent() -> (r: Option<Self>) {
        None
    }

    open spec fn decoded(j: Json) -> Option<Json> {
        match j {
            Json::String(s) => if s == "Pending"@ || s == "Batched"@ || s == "Failed"@ {
                Some(j)
            } else {
                None
            },
            _ => None,
        }
    }

    fn from_json(v: &JsonValue) -> (r: Option<Self>) {
        match v {
            JsonValue::String(s) => {
                if str_eq(s.as_str(), "Pending") {
                    Some(AutoSubmitProofStatus::Pending)
                } else if str_eq(s.as_str(), "Batched") {
                    Some(AutoSubmitProofStatus::Batched)
                } else if str_eq(s.as_str(), "Failed") {
                    Some(AutoSubmitProofStatus::Failed)
                } else {
                    None
                }
            },
            _ => None,
        }
    }
}

impl RoundTrip for AutoSubmitProofStatus {
    proof fn lemma_round_trip(&self) {
    }
}

/// A proof queued for automatic submission.
#[derive(Clone, Debug, PartialEq)]
pub struct AutoSubmitProof {
    pub _id: Option<ObjectId>,
    pub task_id: String,
    pub base_proof_circuit_size: u32,
    pub proof: Vec<u8>,
    pub batch_instances: Vec<u8>,
    pub shadow_instances: Option<Vec<u8>>,
    pub aux: Vec<u8>,
    pub batch_started: Option<String>,
    pub batch_finished: Option<String>,
    pub internal_message: Option<String>,
    pub static_files_verification_data: StaticFileVerificationData,
    pub auto_submit_network_chain_id: u32,
    pub status: AutoSubmitProofStatus,
}

impl ToJson for AutoSubmitProof {
    open spec fn json(&self) -> Json {
        Json::Object(
            seq![
                ("_id"@, self._id.json()),
                ("task_id"@, self.task_id.json()),
                ("base_proof_circuit_size"@, self.base_proof_circuit_size.json()),
                ("proof"@, self.proof.json()),
                ("batch_instances"@, self.batch_instances.json()),
                ("shadow_instances"@, self.shadow_instances.json()),
                ("aux"@, self.aux.json()),
                ("batch_started"@, self.batch_started.json()),
                ("batch_finished"@, self.batch_finished.json()),
                ("internal_message"@, self.internal_message.json()),
                ("static_files_verification_data"@, self.static_files_verification_data.json()),
                ("auto_submit_network_chain_id"@, self.auto_submit_network_chain_id.json()),
                ("status"@, self.status.json()),
            ],
        )
    }

    fn to_json(&self) -> (v: JsonValue) {
        let mut fields: Vec<JsonField> = Vec::new();
        push_field(&mut fields, "_id", self._id.to_json());
        push_field(&mut fields, "task_id", self.task_id.to_json());
        push_field(&mut fields, "base_proof_circuit_size", self.base_proof_circuit_size.to_json());
        push_field(&mut fields, "proof", self.proof.to_json());
        push_field(&mut fields, "batch_instances", self.batch_instances.to_json());
        push_field(&mut fields, "shadow_instances", self.shadow_instances.to_json());
        push_field(&mut fields, "aux", self.aux.to_json());
        push_field(&mut fields, "batch_started", self.batch_started.to_json());
        push_field(&mut fields, "batch_finished", self.batch_finished.to_json());
        push_field(&mut fields, "internal_message", self.internal_message.to_json());
        push_field(
            &mut fields,
            "static_files_verification_data",
            self.static_files_verification_data.to_json(),
        );
        push_field(
            &mut fields,
            "auto_submit_network_chain_id",
            self.auto_submit_network_chain_id.to_json(),
        );
        push_field(&mut fields, "status", self.status.to_json());
        proof {
            assert(json_of_fields(fields@) =~= self.json()->Object_0);
        }
        JsonValue::Object(fields)
    }
}

impl FromJson for AutoSubmitProof {
    open spec fn absent() -> Option<Json> {
        None
    }

    fn from_absent() -> (r: Option<Self>) {
        None
    }

    open spec fn decoded(j: Json) -> Option<Json> {
        match j {
            Json::Object(fields) => {
                let _id = field_decoded::<Option<ObjectId>>(fields, "_id"@);
                let task_id = field_decoded::<String>(fields, "task_id"@);
                let base_proof_circuit_size = field_decoded::<u32>(
                    fields,
                    "base_proof_circuit_size"@,
                );
                let proof = field_decoded::<Vec<u8>>(fields, "proof"@);
                let batch_instances = field_decoded::<Vec<u8>>(fields, "batch_instances"@);
                let shadow_instances = field_decoded::<Option<Vec<u8>>>(
                    fields,
                    "shadow_instances"@,
                );
                let aux = field_decoded::<Vec<u8>>(fields, "aux"@);
                let batch_started = field_decoded::<Option<String>>(fields, "batch_started"@);
                let batch_finished = field_decoded::<Option<String>>(fields, "batch_finished"@);
                let internal_message = field_decoded::<Option<String>>(fields, "internal_message"@);
                let static_files_verification_data = field_decoded::<StaticFileVerificationData>(
                    fields,
                    "static_files_verification_data"@,
                );
                let auto_submit_network_chain_id = field_decoded::<u32>(
                    fields,
                    "auto_submit_network_chain_id"@,
                );
                let status = field_decoded::<AutoSubmitProofStatus>(fields, "status"@);
                if _id is Some
                    && task_id is Some
                    && base_proof_circuit_size is Some
                    && proof is Some
                    && batch_instances is Some
                    && shadow_instances is Some
                    && aux is Some
                    && batch_started is Some
                    && batch_finished is Some
                    && internal_message is Some
                    && static_files_verification_data is Some
                    && auto_submit_network_chain_id is Some
                    && status is Some {
                    Some(
                        Json::Object(
                            seq![
                                ("_id"@, _id->0),
                                ("task_id"@, task_id->0),
                                ("base_proof_circuit_size"@, base_proof_circuit_size->0),
                                ("proof"@, proof->0),
                                ("batch_instances"@, batch_instances->0),
                                ("shadow_instances"@, shadow_instances->0),
                                ("aux"@, aux->0),
                                ("batch_started"@, batch_started->0),
                                ("batch_finished"@, batch_finished->0),
                                ("internal_message"@, internal_message->0),
                                (
                                    "static_files_verification_data"@,
                                    static_files_verification_data->0,
                                ),
                                ("auto_submit_network_chain_id"@, auto_submit_network_chain_id->0),
                                ("status"@, status->0),
                            ],
                        ),
                    )
                } else {
                    None
                }
            },
            _ => None,
        }
    }

    fn from_json(v: &JsonValue) -> (r: Option<Self>) {
        match v {
            JsonValue::Object(fields) => {
                let _id: Option<ObjectId> = decode_field(fields, "_id")?;
                let task_id: String = decode_field(fields, "task_id")?;
                let base_proof_circuit_size: u32 = decode_field(fields, "base_proof_circuit_size")?;
                let proof: Vec<u8> = decode_field(fields, "proof")?;
                let batch_instances: Vec<u8> = decode_field(fields, "batch_instances")?;
                let shadow_instances: Option<Vec<u8>> = decode_field(fields, "shadow_instances")?;
                let aux: Vec<u8> = decode_field(fields, "aux")?;
                let batch_started: Option<String> = decode_field(fields, "batch_started")?;
                let batch_finished: Option<String> = decode_field(fields, "batch_finished")?;
                let internal_message: Option<String> = decode_field(fields, "internal_message")?;
                let static_files_verification_data: StaticFileVerificationData = decode_field(
                    fields,
                    "static_files_verification_data",
                )?;
                let auto_submit_network_chain_id: u32 = decode_field(
                    fields,
                    "auto_submit_network_chain_id",
                )?;
                let status: AutoSubmitProofStatus = decode_field(fields, "status")?;
                Some(
                    AutoSubmitProof {
                        _id,
                        task_id,
                        base_proof_circuit_size,
                        proof,
                        batch_instances,
                        shadow_instances,
                        aux,
                        batch_started,
                        batch_finished,
                        internal_message,
                        static_files_verification_data,
                        auto_submit_network_chain_id,
                        status,
                    },
                )
            },
            _ => None,
        }
    }
}

impl RoundTrip for AutoSubmitProof {
    #[verifier::rlimit(50)]
    proof fn lemma_round_trip(&self) {
        reveal_strlit("_id");
        reveal_strlit("task_id");
        reveal_strlit("base_proof_circuit_size");
        reveal_strlit("proof");
        reveal_strlit("batch_instances");
        reveal_strlit("shadow_instances");
        reveal_strlit("aux");
        reveal_strlit("batch_started");
        reveal_strlit("batch_finished");
        reveal_strlit("internal_message");
        reveal_strlit("static_files_verification_data");
        reveal_strlit("auto_submit_network_chain_id");
        reveal_strlit("status");
        let fields = self.json()->Object_0;
        assert(name_key(fields[0].0, 0, 0, 0) == (3nat, '_', '_', '_'));
        assert(name_key(fields[1].0, 0, 0, 0) == (7nat, 't', 't', 't'));
        assert(name_key(fields[2].0, 0, 0, 0) == (23nat, 'b', 'b', 'b'));
        assert(name_key(fields[3].0, 0, 0, 0) == (5nat, 'p', 'p', 'p'));
        assert(name_key(fields[4].0, 0, 0, 0) == (15nat, 'b', 'b', 'b'));
        assert(name_key(fields[5].0, 0, 0, 0) == (16nat, 's', 's', 's'));
        assert(name_key(fields[6].0, 0, 0, 0) == (3nat, 'a', 'a', 'a'));
        assert(name_key(fields[7].0, 0, 0, 0) == (13nat, 'b', 'b', 'b'));
        assert(name_key(fields[8].0, 0, 0, 0) == (14nat, 'b', 'b', 'b'));
        assert(name_key(fields[9].0, 0, 0, 0) == (16nat, 'i', 'i', 'i'));
        assert(name_key(fields[10].0, 0, 0, 0) == (30nat, 's', 's', 's'));
        assert(name_key(fields[11].0, 0, 0, 0) == (28nat, 'a', 'a', 'a'));
        assert(name_key(fields[12].0, 0, 0, 0) == (6nat, 's', 's', 's'));
        assert forall|i: int, j: int| 0 <= i < j < fields.len() implies fields[i].0
            != fields[j].0 by {
            assert(name_key(fields[i].0, 0, 0, 0) != name_key(fields[j].0, 0, 0, 0));
        }
        lemma_fields_found(fields);
        self._id.lemma_round_trip();
        self.task_id.lemma_round_trip();
        self.base_proof_circuit_size.lemma_round_trip();
        self.proof.lemma_round_trip();
        self.batch_instances.lemma_round_trip();
        self.shadow_instances.lemma_round_trip();
        self.aux.lemma_round_trip();
        self.batch_started.lemma_round_trip();
        self.batch_finished.lemma_round_trip();
        self.internal_message.lemma_round_trip();
        self.static_files_verification_data.lemma_round_trip();
        self.auto_submit_network_chain_id.lemma_round_trip();
        self.status.lemma_round_trip();
    }
}

/// The state of a round 1 batch.
#[derive(Clone, Debug, PartialEq)]
pub enum Round1Status {
    Pending,
    Batched,
    Failed,
}

impl Round1Status {
    /// The name of the variant, which is its wire form.
    pub open spec fn name(&self) -> Seq<char> {
        match self {
            Round1Status::Pending => "Pending"@,
            Round1Status::Batched => "Batched"@,
            Round1Status::Failed => "Failed"@,
        }
    }

    pub fn as_str(&self) -> (s: &'static str)
        ensures
            s@ == self.name(),
    {
        match self {
            Round1Status::Pending => "Pending",
            Round1Status::Batched => "Batched",
            Round1Status::Failed => "Failed",
        }
    }
}

impl ToJson for Round1Status {
    open spec fn json(&self) -> Json {
        Json::String(self.name())
    }

    fn to_json(&self) -> (v: JsonValue) {
        JsonValue::from_str(self.as_str())
    }
}

impl FromJson for Round1Status {
    open spec fn absent() -> Option<Json> {
        None
    }

    fn from_absent() -> (r: Option<Self>) {
        None
    }

    open spec fn decoded(j: Json) -> Option<Json> {
        match j {
            Json::String(s) => if s == "Pending"@ || s == "Batched"@ || s == "Failed"@ {
                Some(j)
            } else {
                None
            },
            _ => None,
        }
    }

    fn from_json(v: &JsonValue) -> (r: Option<Self>) {
        match v {
            JsonValue::String(s) => {
                if str_eq(s.as_str(), "Pending") {
                    Some(Round1Status::Pending)
                } else if str_eq(s.as_str(), "Batched") {
                    Some(Round1Status::Batched)
                } else if str_eq(s.as_str(), "Failed") {
                    Some(Round1Status::Failed)
                } else {
                    None
                }
            },
            _ => None,
        }
    }
}

impl RoundTrip for Round1Status {
    proof fn lemma_round_trip(&self) {
    }
}

/// A round 1 batch.
#[derive(Clone, Debug, PartialEq)]
pub struct Round1Info {
    pub _id: Option<ObjectId>,
    pub round_1_ids: Vec<String>,
    pub task_ids: Vec<String>,
    pub target_instances: Vec<Vec<u8>>,
    pub proof: Vec<u8>,
    pub batch_instances: Vec<u8>,
    pub shadow_instances: Option<Vec<u8>>,
    pub aux: Vec<u8>,
    pub batch_started: Option<String>,
    pub batch_finished: Option<String>,
    pub internal_message: Option<String>,
    pub auto_submit_network_chain_id: u32,
    pub verifier_contracts: VerifierContracts,
    pub static_files_verification_data: StaticFileVerificationData,
    pub status: Round1Status,
}

impl ToJson for Round1Info {
    open spec fn json(&self) -> Json {
        Json::Object(
            seq![
                ("_id"@, self._id.json()),
                ("round_1_ids"@, self.round_1_ids.json()),
                ("task_ids"@, self.task_ids.json()),
                ("target_instances"@, self.target_instances.json()),
                ("proof"@, self.proof.json()),
                ("batch_instances"@, self.batch_instances.json()),
                ("shadow_instances"@, self.shadow_instances.json()),
                ("aux"@, self.aux.json()),
                ("batch_started"@, self.batch_started.json()),
                ("batch_finished"@, self.batch_finished.json()),
                ("internal_message"@, self.internal_message.json()),
                ("auto_submit_network_chain_id"@, self.auto_submit_network_chain_id.json()),
                ("verifier_contracts"@, self.verifier_contracts.json()),
                ("static_files_verification_data"@, self.static_files_verification_data.json()),
                ("status"@, self.status.json()),
            ],
        )
    }

    fn to_json(&self) -> (v: JsonValue) {
        let mut fields: Vec<JsonField> = Vec::new();
        push_field(&mut fields, "_id", self._id.to_json());
        push_field(&mut fields, "round_1_ids", self.round_1_ids.to_json());
        push_field(&mut fields, "task_ids", self.task_ids.to_json());
        push_field(&mut fields, "target_instances", self.target_instances.to_json());
        push_field(&mut fields, "proof", self.proof.to_json());
        push_field(&mut fields, "batch_instances", self.batch_instances.to_json());
        push_field(&mut fields, "shadow_instances", self.shadow_instances.to_json());
        push_field(&mut fields, "aux", self.aux.to_json());
        push_field(&mut fields, "batch_started", self.batch_started.to_json());
        push_field(&mut fields, "batch_finished", self.batch_finished.to_json());
        push_field(&mut fields, "internal_message", self.internal_message.to_json());
        push_field(
            &mut fields,
            "auto_submit_network_chain_id",
            self.auto_submit_network_chain_id.to_json(),
        );
        push_field(&mut fields, "verifier_contracts", self.verifier_contracts.to_json());
        push_field(
            &mut fields,
            "static_files_verification_data",
            self.static_files_verification_data.to_json(),
        );
        push_field(&mut fields, "status", self.status.to_json());
        proof {
            assert(json_of_fields(fields@) =~= self.json()->Object_0);
        }
        JsonValue::Object(fields)
    }
}

impl FromJson for Round1Info {
    open spec fn absent() -> Option<Json> {
        None
    }

    fn from_absent() -> (r: Option<Self>) {
        None
    }

    open spec fn decoded(j: Json) -> Option<Json> {
        match j {
            Json::Object(fields) => {
                let _id = field_decoded::<Option<ObjectId>>(fields, "_id"@);
                let round_1_ids = field_decoded::<Vec<String>>(fields, "round_1_ids"@);
                let task_ids = field_decoded::<Vec<String>>(fields, "task_ids"@);
                let target_instances = field_decoded::<Vec<Vec<u8>>>(fields, "target_instances"@);
                let proof = field_decoded::<Vec<u8>>(fields, "proof"@);
                let batch_instances = field_decoded::<Vec<u8>>(fields, "batch_instances"@);
                let shadow_instances = field_decoded::<Option<Vec<u8>>>(
                    fields,
                    "shadow_instances"@,
                );
                let aux = field_decoded::<Vec<u8>>(fields, "aux"@);
                let batch_started = field_decoded::<Option<String>>(fields, "batch_started"@);
                let batch_finished = field_decoded::<Option<String>>(fields, "batch_finished"@);
                let internal_message = field_decoded::<Option<String>>(fields, "internal_message"@);
                let auto_submit_network_chain_id = field_decoded::<u32>(
                    fields,
                    "auto_submit_network_chain_id"@,
                );
                let verifier_contracts = field_decoded::<VerifierContracts>(
                    fields,
                    "verifier_contracts"@,
                );
                let static_files_verification_data = field_decoded::<StaticFileVerificationData>(
                    fields,
                    "static_files_verification_data"@,
                );
                let status = field_decoded::<Round1Status>(fields, "status"@);
                if _id is Some
                    && round_1_ids is Some
                    && task_ids is Some
                    && target_instances is Some
                    && proof is Some
                    && batch_instances is Some
                    && shadow_instances is Some
                    && aux is Some
                    && batch_started is Some
                    && batch_finished is Some
                    && internal_message is Some
                    && auto_submit_network_chain_id is Some
                    && verifier_contracts is Some
                    && static_files_verification_data is Some
                    && status is Some {
                    Some(
                        Json::Object(
                            seq![
                                ("_id"@, _id->0),
                                ("round_1_ids"@, round_1_ids->0),
                                ("task_ids"@, task_ids->0),
                                ("target_instances"@, target_instances->0),
                                ("proof"@, proof->0),
                                ("batch_instances"@, batch_instances->0),
                                ("shadow_instances"@, shadow_instances->0),
                                ("aux"@, aux->0),
                                ("batch_started"@, batch_started->0),
                                ("batch_finished"@, batch_finished->0),
                                ("internal_message"@, internal_message->0),
                                ("auto_submit_network_chain_id"@, auto_submit_network_chain_id->0),
                                ("verifier_contracts"@, verifier_contracts->0),
                                (
                                    "static_files_verification_data"@,
                                    static_files_verification_data->0,
                                ),
                                ("status"@, status->0),
                            ],
                        ),
                    )
                } else {
                    None
                }
            },
            _ => None,
        }
    }

    fn from_json(v: &JsonValue) -> (r: Option<Self>) {
        match v {
            JsonValue::Object(fields) => {
                let _id: Option<ObjectId> = decode_field(fields, "_id")?;
                let round_1_ids: Vec<String> = decode_field(fields, "round_1_ids")?;
                let task_ids: Vec<String> = decode_field(fields, "task_ids")?;
                let target_instances: Vec<Vec<u8>> = decode_field(fields, "target_instances")?;
                let proof: Vec<u8> = decode_field(fields, "proof")?;
                let batch_instances: Vec<u8> = decode_field(fields, "batch_instances")?;
                let shadow_instances: Option<Vec<u8>> = decode_field(fields, "shadow_instances")?;
                let aux: Vec<u8> = decode_field(fields, "aux")?;
                let batch_started: Option<String> = decode_field(fields, "batch_started")?;
                let batch_finished: Option<String> = decode_field(fields, "batch_finished")?;
                let internal_message: Option<String> = decode_field(fields, "internal_message")?;
                let auto_submit_network_chain_id: u32 = decode_field(
                    fields,
                    "auto_submit_network_chain_id",
                )?;
                let verifier_contracts: VerifierContracts = decode_field(
                    fields,
                    "verifier_contracts",
                )?;
                let static_files_verification_data: StaticFileVerificationData = decode_field(
                    fields,
                    "static_files_verification_data",
                )?;
                let status: Round1Status = decode_field(fields, "status")?;
                Some(
                    Round1Info {
                        _id,
                        round_1_ids,
                        task_ids,
                        target_instances,
                        proof,
                        batch_instances,
                        shadow_instances,
                        aux,
                        batch_started,
                        batch_finished,
                        internal_message,
                        auto_submit_network_chain_id,
                        verifier_contracts,
                        static_files_verification_data,
                        status,
                    },
                )
            },
            _ => None,
        }
    }
}

impl RoundTrip for Round1Info {
    #[verifier::rlimit(50)]
    proof fn lemma_round_trip(&self) {
        reveal_strlit("_id");
        reveal_strlit("round_1_ids");
        reveal_strlit("task_ids");
        reveal_strlit("target_instances");
        reveal_strlit("proof");
        reveal_strlit("batch_instances");
        reveal_strlit("shadow_instances");
        reveal_strlit("aux");
        reveal_strlit("batch_started");
        reveal_strlit("batch_finished");
        reveal_strlit("internal_message");
        reveal_strlit("auto_submit_network_chain_id");
        reveal_strlit("verifier_contracts");
        reveal_strlit("static_files_verification_data");
        reveal_strlit("status");
        let fields = self.json()->Object_0;
        assert(name_key(fields[0].0, 0, 0, 0) == (3nat, '_', '_', '_'));
        assert(name_key(fields[1].0, 0, 0, 0) == (11nat, 'r', 'r', 'r'));
        assert(name_key(fields[2].0, 0, 0, 0) == (8nat, 't', 't', 't'));
        assert(name_key(fields[3].0, 0, 0, 0) == (16nat, 't', 't', 't'));
        assert(name_key(fields[4].0, 0, 0, 0) == (5nat, 'p', 'p', 'p'));
        assert(name_key(fields[5].0, 0, 0, 0) == (15nat, 'b', 'b', 'b'));
        assert(name_key(fields[6].0, 0, 0, 0) == (16nat, 's', 's', 's'));
        assert(name_key(fields[7].0, 0, 0, 0) == (3nat, 'a', 'a', 'a'));
        assert(name_key(fields[8].0, 0, 0, 0) == (13nat, 'b', 'b', 'b'));
        assert(name_key(fields[9].0, 0, 0, 0) == (14nat, 'b', 'b', 'b'));
        assert(name_key(fields[10].0, 0, 0, 0) == (16nat, 'i', 'i', 'i'));
        assert(name_key(fields[11].0, 0, 0, 0) == (28nat, 'a', 'a', 'a'));
        assert(name_key(fields[12].0, 0, 0, 0) == (18nat, 'v', 'v', 'v'));
        assert(name_key(fields[13].0, 0, 0, 0) == (30nat, 's', 's', 's'));
        assert(name_key(fields[14].0, 0, 0, 0) == (6nat, 's', 's', 's'));
        assert forall|i: int, j: int| 0 <= i < j < fields.len() implies fields[i].0
            != fields[j].0 by {
            assert(name_key(fields[i].0, 0, 0, 0) != name_key(fields[j].0, 0, 0, 0));
        }
        lemma_fields_found(fields);
        self._id.lemma_round_trip();
        self.round_1_ids.lemma_round_trip();
        self.task_ids.lemma_round_trip();
        self.target_instances.lemma_round_trip();
        self.proof.lemma_round_trip();
        self.batch_instances.lemma_round_trip();
        self.shadow_instances.lemma_round_trip();
        self.aux.lemma_round_trip();
        self.batch_started.lemma_round_trip();
        self.batch_finished.lemma_round_trip();
        self.internal_message.lemma_round_trip();
        self.auto_submit_network_chain_id.lemma_round_trip();
        self.verifier_contracts.lemma_round_trip();
        self.static_files_verification_data.lemma_round_trip();
        self.status.lemma_round_trip();
    }
}

/// The state of a round 2 batch.
#[derive(Clone, Debug, PartialEq)]
pub enum Round2Status {
    ProofNotRegistered,
    ProofRegistered,
}

impl Round2Status {
    /// The name of the variant, which is its wire form.
    pub open spec fn name(&self) -> Seq<char> {
        match self {
            Round2Status::ProofNotRegistered => "ProofNotRegistered"@,
            Round2Status::ProofRegistered => "ProofRegistered"@,
        }
    }

    pub fn as_str(&self) -> (s: &'static str)
        ensures
            s@ == self.name(),
    {
        match self {
            Round2Status::ProofNotRegistered => "ProofNotRegistered",
            Round2Status::ProofRegistered => "ProofRegistered",
        }
    }
}

impl ToJson for Round2Status {
    open spec fn json(&self) -> Json {
        Json::String(self.name())
    }

    fn to_json(&self) -> (v: JsonValue) {
        JsonValue::from_str(self.as_str())
    }
}

impl FromJson for Round2Status {
    open spec fn absent() -> Option<Json> {
        None
    }

    fn from_absent() -> (r: Option<Self>) {
        None
    }

    open spec fn decoded(j: Json) -> Option<Json> {
        match j {
            Json::String(s) => if s == "ProofNotRegistered"@ || s == "ProofRegistered"@ {
                Some(j)
            } else {
                None
            },
            _ => None,
        }
    }

    fn from_json(v: &JsonValue) -> (r: Option<Self>) {
        match v {
            JsonValue::String(s) => {
                if str_eq(s.as_str(), "ProofNotRegistered") {
                    Some(Round2Status::ProofNotRegistered)
                } else if str_eq(s.as_str(), "ProofRegistered") {
                    Some(Round2Status::ProofRegistered)
                } else {
                    None
                }
            },
            _ => None,
        }
    }
}

impl RoundTrip for Round2Status {
    proof fn lemma_round_trip(&self) {
    }
}

/// A round 2 batch.
#[derive(Clone, Debug, PartialEq)]
pub struct Round2Info {
    pub _id: Option<ObjectId>,
    pub round_2_ids: Vec<String>,
    pub task_ids: Vec<String>,
    pub target_instances: Vec<Vec<u8>>,
    pub proof: Vec<u8>,
    pub batch_instances: Vec<u8>,
    pub shadow_instances: Option<Vec<u8>>,
    pub aux: Vec<u8>,
    pub batched_time: Option<String>,
    pub internal_message: Option<String>,
    pub static_files_verification_data: StaticFileVerificationData,
    pub auto_submit_network_chain_id: u32,
    pub verifier_contracts: VerifierContracts,
    pub registered_tx_hash: Option<String>,
    pub status: Round2Status,
}

impl ToJson for Round2Info {
    open spec fn json(&self) -> Json {
        Json::Object(
            seq![
                ("_id"@, self._id.json()),
                ("round_2_ids"@, self.round_2_ids.json()),
                ("task_ids"@, self.task_ids.json()),
                ("target_instances"@, self.target_instances.json()),
                ("proof"@, self.proof.json()),
                ("batch_instances"@, self.batch_instances.json()),
                ("shadow_instances"@, self.shadow_instances.json()),
                ("aux"@, self.aux.json()),
                ("batched_time"@, self.batched_time.json()),
                ("internal_message"@, self.internal_message.json()),
                ("static_files_verification_data"@, self.static_files_verification_data.json()),
                ("auto_submit_network_chain_id"@, self.auto_submit_network_chain_id.json()),
                ("verifier_contracts"@, self.verifier_contracts.json()),
                ("registered_tx_hash"@, self.registered_tx_hash.json()),
                ("status"@, self.status.json()),
            ],
        )
    }

    fn to_json(&self) -> (v: JsonValue) {
        let mut fields: Vec<JsonField> = Vec::new();
        push_field(&mut fields, "_id", self._id.to_json());
        push_field(&mut fields, "round_2_ids", self.round_2_ids.to_json());
        push_field(&mut fields, "task_ids", self.task_ids.to_json());
        push_field(&mut fields, "target_instances", self.target_instances.to_json());
        push_field(&mut fields, "proof", self.proof.to_json());
        push_field(&mut fields, "batch_instances", self.batch_instances.to_json());
        push_field(&mut fields, "shadow_instances", self.shadow_instances.to_json());
        push_field(&mut fields, "aux", self.aux.to_json());
        push_field(&mut fields, "batched_time", self.batched_time.to_json());
        push_field(&mut fields, "internal_message", self.internal_message.to_json());
        push_field(
            &mut fields,
            "static_files_verification_data",
            self.static_files_verification_data.to_json(),
        );
        push_field(
            &mut fields,
            "auto_submit_network_chain_id",
            self.auto_submit_network_chain_id.to_json(),
        );
        push_field(&mut fields, "verifier_contracts", self.verifier_contracts.to_json());
        push_field(&mut fields, "registered_tx_hash", self.registered_tx_hash.to_json());
        push_field(&mut fields, "status", self.status.to_json());
        proof {
            assert(json_of_fields(fields@) =~= self.json()->Object_0);
        }
        JsonValue::Object(fields)
    }
}

impl FromJson for Round2Info {
    open spec fn absent() -> Option<Json> {
        None
    }

    fn from_absent() -> (r: Option<Self>) {
        None
    }

    open spec fn decoded(j: Json) -> Option<Json> {
        match j {
            Json::Object(fields) => {
                let _id = field_decoded::<Option<ObjectId>>(fields, "_id"@);
                let round_2_ids = field_decoded::<Vec<String>>(fields, "round_2_ids"@);
                let task_ids = field_decoded::<Vec<String>>(fields, "task_ids"@);
                let target_instances = field_decoded::<Vec<Vec<u8>>>(fields, "target_instances"@);
                let proof = field_decoded::<Vec<u8>>(fields, "proof"@);
                let batch_instances = field_decoded::<Vec<u8>>(fields, "batch_instances"@);
                let shadow_instances = field_decoded::<Option<Vec<u8>>>(
                    fields,
                    "shadow_instances"@,
                );
                let aux = field_decoded::<Vec<u8>>(fields, "aux"@);
                let batched_time = field_decoded::<Option<String>>(fields, "batched_time"@);
                let internal_message = field_decoded::<Option<String>>(fields, "internal_message"@);
                let static_files_verification_data = field_decoded::<StaticFileVerificationData>(
                    fields,
                    "static_files_verification_data"@,
                );
                let auto_submit_network_chain_id = field_decoded::<u32>(
                    fields,
                    "auto_submit_network_chain_id"@,
                );
                let verifier_contracts = field_decoded::<VerifierContracts>(
                    fields,
                    "verifier_contracts"@,
                );
                let registered_tx_hash = field_decoded::<Option<String>>(
                    fields,
                    "registered_tx_hash"@,
                );
                let status = field_decoded::<Round2Status>(fields, "status"@);
                if _id is Some
                    && round_2_ids is Some
                    && task_ids is Some
                    && target_instances is Some
                    && proof is Some
                    && batch_instances is Some
                    && shadow_instances is Some
                    && aux is Some
                    && batched_time is Some
                    && internal_message is Some
                    && static_files_verification_data is Some
                    && auto_submit_network_chain_id is Some
                    && verifier_contracts is Some
                    && registered_tx_hash is Some
                    && status is Some {
                    Some(
                        Json::Object(
                            seq![
                                ("_id"@, _id->0),
                                ("round_2_ids"@, round_2_ids->0),
                                ("task_ids"@, task_ids->0),
                                ("target_instances"@, target_instances->0),
                                ("proof"@, proof->0),
                                ("batch_instances"@, batch_instances->0),
                                ("shadow_instances"@, shadow_instances->0),
                                ("aux"@, aux->0),
                                ("batched_time"@, batched_time->0),
                                ("internal_message"@, internal_message->0),
                                (
                                    "static_files_verification_data"@,
                                    static_files_verification_data->0,
                                ),
                                ("auto_submit_network_chain_id"@, auto_submit_network_chain_id->0),
                                ("verifier_contracts"@, verifier_contracts->0),
                                ("registered_tx_hash"@, registered_tx_hash->0),
                                ("status"@, status->0),
                            ],
                        ),
                    )
                } else {
                    None
                }
            },
            _ => None,
        }
    }

    fn from_json(v: &JsonValue) -> (r: Option<Self>) {
        match v {
            JsonValue::Object(fields) => {
                let _id: Option<ObjectId> = decode_field(fields, "_id")?;
                let round_2_ids: Vec<String> = decode_field(fields, "round_2_ids")?;
                let task_ids: Vec<String> = decode_field(fields, "task_ids")?;
                let target_instances: Vec<Vec<u8>> = decode_field(fields, "target_instances")?;
                let proof: Vec<u8> = decode_field(fields, "proof")?;
                let batch_instances: Vec<u8> = decode_field(fields, "batch_instances")?;
                let shadow_instances: Option<Vec<u8>> = decode_field(fields, "shadow_instances")?;
                let aux: Vec<u8> = decode_field(fields, "aux")?;
                let batched_time: Option<String> = decode_field(fields, "batched_time")?;
                let internal_message: Option<String> = decode_field(fields, "internal_message")?;
                let static_files_verification_data: StaticFileVerificationData = decode_field(
                    fields,
                    "static_files_verification_data",
                )?;
                let auto_submit_network_chain_id: u32 = decode_field(
                    fields,
                    "auto_submit_network_chain_id",
                )?;
                let verifier_contracts: VerifierContracts = decode_field(
                    fields,
                    "verifier_contracts",
                )?;
                let registered_tx_hash: Option<String> = decode_field(
                    fields,
                    "registered_tx_hash",
                )?;
                let status: Round2Status = decode_field(fields, "status")?;
                Some(
                    Round2Info {
                        _id,
                        round_2_ids,
                        task_ids,
                        target_instances,
                        proof,
                        batch_instances,
                        shadow_instances,
                        aux,
                        batched_time,
                        internal_message,
                        static_files_verification_data,
                        auto_submit_network_chain_id,
                        verifier_contracts,
                        registered_tx_hash,
                        status,
                    },
                )
            },
            _ => None,
        }
    }
}

impl RoundTrip for Round2Info {
    #[verifier::rlimit(50)]
    proof fn lemma_round_trip(&self) {
        reveal_strlit("_id");
        reveal_strlit("round_2_ids");
        reveal_strlit("task_ids");
        reveal_strlit("target_instances");
        reveal_strlit("proof");
        reveal_strlit("batch_instances");
        reveal_strlit("shadow_instances");
        reveal_strlit("aux");
        reveal_strlit("batched_time");
        reveal_strlit("internal_message");
        reveal_strlit("static_files_verification_data");
        reveal_strlit("auto_submit_network_chain_id");
        reveal_strlit("verifier_contracts");
        reveal_strlit("registered_tx_hash");
        reveal_strlit("status");
        let fields = self.json()->Object_0;
        assert(name_key(fields[0].0, 0, 0, 0) == (3nat, '_', '_', '_'));
        assert(name_key(fields[1].0, 0, 0, 0) == (11nat, 'r', 'r', 'r'));
        assert(name_key(fields[2].0, 0, 0, 0) == (8nat, 't', 't', 't'));
        assert(name_key(fields[3].0, 0, 0, 0) == (16nat, 't', 't', 't'));
        assert(name_key(fields[4].0, 0, 0, 0) == (5nat, 'p', 'p', 'p'));
        assert(name_key(fields[5].0, 0, 0, 0) == (15nat, 'b', 'b', 'b'));
        assert(name_key(fields[6].0, 0, 0, 0) == (16nat, 's', 's', 's'));
        assert(name_key(fields[7].0, 0, 0, 0) == (3nat, 'a', 'a', 'a'));
        assert(name_key(fields[8].0, 0, 0, 0) == (12nat, 'b', 'b', 'b'));
        assert(name_key(fields[9].0, 0, 0, 0) == (16nat, 'i', 'i', 'i'));
        assert(name_key(fields[10].0, 0, 0, 0) == (30nat, 's', 's', 's'));
        assert(name_key(fields[11].0, 0, 0, 0) == (28nat, 'a', 'a', 'a'));
        assert(name_key(fields[12].0, 0, 0, 0) == (18nat, 'v', 'v', 'v'));
        assert(name_key(fields[13].0, 0, 0, 0) == (18nat, 'r', 'r', 'r'));
        assert(name_key(fields[14].0, 0, 0, 0) == (6nat, 's', 's', 's'));
        assert forall|i: int, j: int| 0 <= i < j < fields.len() implies fields[i].0
            != fields[j].0 by {
            assert(name_key(fields[i].0, 0, 0, 0) != name_key(fields[j].0, 0, 0, 0));
        }
        lemma_fields_found(fields);
        self._id.lemma_round_trip();
        self.round_2_ids.lemma_round_trip();
        self.task_ids.lemma_round_trip();
        self.target_instances.lemma_round_trip();
        self.proof.lemma_round_trip();
        self.batch_instances.lemma_round_trip();
        self.shadow_instances.lemma_round_trip();
        self.aux.lemma_round_trip();
        self.batched_time.lemma_round_trip();
        self.internal_message.lemma_round_trip();
        self.static_files_verification_data.lemma_round_trip();
        self.auto_submit_network_chain_id.lemma_round_trip();
        self.verifier_contracts.lemma_round_trip();
        self.registered_tx_hash.lemma_round_trip();
        self.status.lemma_round_trip();
    }
}

/// Filters for proofs queued for automatic submission.
#[derive(Clone, Debug, PartialEq)]
pub struct AutoSubmitProofQuery {
    pub id: Option<String>,
    pub task_id: Option<String>,
    pub status: Option<AutoSubmitProofStatus>,
    pub circuit_size: Option<u32>,
    pub chain_id: Option<u32>,
}

impl ToJson for AutoSubmitProofQuery {
    open spec fn json(&self) -> Json {
        Json::Object(self.json_fields())
    }

    fn to_json(&self) -> (v: JsonValue) {
        let mut fields: Vec<JsonField> = Vec::new();
        self.push_fields(&mut fields);
        proof {
            assert(json_of_fields(fields@) =~= self.json_fields());
        }
        JsonValue::Object(fields)
    }
}

impl JsonObject for AutoSubmitProofQuery {
    open spec fn json_fields(&self) -> Seq<(Seq<char>, Json)> {
        seq![
            ("id"@, self.id.json()),
            ("task_id"@, self.task_id.json()),
            ("status"@, self.status.json()),
            ("circuit_size"@, self.circuit_size.json()),
            ("chain_id"@, self.chain_id.json()),
        ]
    }

    fn push_fields(&self, out: &mut Vec<JsonField>) {
        push_field(out, "id", self.id.to_json());
        push_field(out, "task_id", self.task_id.to_json());
        push_field(out, "status", self.status.to_json());
        push_field(out, "circuit_size", self.circuit_size.to_json());
        push_field(out, "chain_id", self.chain_id.to_json());
        proof {
            assert(json_of_fields(out@) =~= json_of_fields(old(out)@) + self.json_fields());
        }
    }
}

/// Filters for round 1 batches.
#[derive(Clone, Debug, PartialEq)]
pub struct Round1InfoQuery {
    pub id: Option<String>,
    pub round_1_id: Option<String>,
    pub task_id: Option<String>,
    pub status: Option<Round1Status>,
    pub circuit_size: Option<u32>,
    pub chain_id: Option<u32>,
}

impl ToJson for Round1InfoQuery {
    open spec fn json(&self) -> Json {
        Json::Object(self.json_fields())
    }

    fn to_json(&self) -> (v: JsonValue) {
        let mut fields: Vec<JsonField> = Vec::new();
        self.push_fields(&mut fields);
        proof {
            assert(json_of_fields(fields@) =~= self.json_fields());
        }
        JsonValue::Object(fields)
    }
}

impl JsonObject for Round1InfoQuery {
    open spec fn json_fields(&self) -> Seq<(Seq<char>, Json)> {
        seq![
            ("id"@, self.id.json()),
            ("round_1_id"@, self.round_1_id.json()),
            ("task_id"@, self.task_id.json()),
            ("status"@, self.status.json()),
            ("circuit_size"@, self.circuit_size.json()),
            ("chain_id"@, self.chain_id.json()),
        ]
    }

    fn push_fields(&self, out: &mut Vec<JsonField>) {
        push_field(out, "id", self.id.to_json());
        push_field(out, "round_1_id", self.round_1_id.to_json());
        push_field(out, "task_id", self.task_id.to_json());
        push_field(out, "status", self.status.to_json());
        push_field(out, "circuit_size", self.circuit_size.to_json());
        push_field(out, "chain_id", self.chain_id.to_json());
        proof {
            assert(json_of_fields(out@) =~= json_of_fields(old(out)@) + self.json_fields());
        }
    }
}

/// Filters for round 2 batches.
#[derive(Clone, Debug, PartialEq)]
pub struct Round2InfoQuery {
    pub id: Option<String>,
    pub round_2_id: Option<String>,
    pub task_id: Option<String>,
    pub status: Option<Round2Status>,
    pub chain_id: Option<u32>,
}

impl ToJson for Round2InfoQuery {
    open spec fn json(&self) -> Json {
        Json::Object(self.json_fields())
    }

    fn to_json(&self) -> (v: JsonValue) {
        let mut fields: Vec<JsonField> = Vec::new();
        self.push_fields(&mut fields);
        proof {
            assert(json_of_fields(fields@) =~= self.json_fields());
        }
        JsonValue::Object(fields)
    }
}

impl JsonObject for Round2InfoQuery {
    open spec fn json_fields(&self) -> Seq<(Seq<char>, Json)> {
        seq![
            ("id"@, self.id.json()),
            ("round_2_id"@, self.round_2_id.json()),
            ("task_id"@, self.task_id.json()),
            ("status"@, self.status.json()),
            ("chain_id"@, self.chain_id.json()),
        ]
    }

    fn push_fields(&self, out: &mut Vec<JsonField>) {
        push_field(out, "id", self.id.to_json());
        push_field(out, "round_2_id", self.round_2_id.to_json());
        push_field(out, "task_id", self.task_id.to_json());
        push_field(out, "status", self.status.to_json());
        push_field(out, "chain_id", self.chain_id.to_json());
        proof {
            assert(json_of_fields(out@) =~= json_of_fields(old(out)@) + self.json_fields());
        }
    }
}

} // verus!
