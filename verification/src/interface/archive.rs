//! Records of the archive server.

use vstd::prelude::*;
use crate::interface::codec::{
    FromJson, RoundTrip, ToJson, decode_field, field_decoded, lemma_fields_found, name_key,
    push_field,
};
use crate::interface::account::{NativeCurrency};
use crate::interface::batch::{Round2Status, StaticFileVerificationData};
use crate::interface::common::{ObjectId, PaginationResult};
use crate::interface::task::{ConciseTask, VerifierContracts};
use crate::json::{Json, json_of_fields, JsonField, JsonValue};

verus! {

/// The records that a volume of the archive holds.
#[derive(Clone, Debug, PartialEq)]
pub struct VolumeRange {
    pub n_records: u64,
    pub fst: ObjectId,
    pub lst: ObjectId,
    pub fst_ts: String,
    pub lst_ts: String,
}

impl ToJson for VolumeRange {
    open spec fn json(&self) -> Json {
        Json::Object(
            seq![
                ("n_records"@, self.n_records.json()),
                ("fst"@, self.fst.json()),
                ("lst"@, self.lst.json()),
                ("fst_ts"@, self.fst_ts.json()),
                ("lst_ts"@, self.lst_ts.json()),
            ],
        )
    }

    fn to_json(&self) -> (v: JsonValue) {
        let mut fields: Vec<JsonField> = Vec::new();
        push_field(&mut fields, "n_records", self.n_records.to_json());
        push_field(&mut fields, "fst", self.fst.to_json());
        push_field(&mut fields, "lst", self.lst.to_json());
        push_field(&mut fields, "fst_ts", self.fst_ts.to_json());
        push_field(&mut fields, "lst_ts", self.lst_ts.to_json());
        proof {
            assert(json_of_fields(fields@) =~= self.json()->Object_0);
        }
        JsonValue::Object(fields)
    }
}

impl FromJson for VolumeRange {
    open spec fn absent() -> Option<Json> {
        None
    }

    fn from_absent() -> (r: Option<Self>) {
        None
    }

    open spec fn decoded(j: Json) -> Option<Json> {
        match j {
            Json::Object(fields) => {
                let n_records = field_decoded::<u64>(fields, "n_records"@);
                let fst = field_decoded::<ObjectId>(fields, "fst"@);
                let lst = field_decoded::<ObjectId>(fields, "lst"@);
                let fst_ts = field_decoded::<String>(fields, "fst_ts"@);
                let lst_ts = field_decoded::<String>(fields, "lst_ts"@);
                if n_records is Some
                    && fst is Some
                    && lst is Some
                    && fst_ts is Some
                    && lst_ts is Some {
                    Some(
                        Json::Object(
                            seq![
                                ("n_records"@, n_records->0),
                                ("fst"@, fst->0),
                                ("lst"@, lst->0),
                                ("fst_ts"@, fst_ts->0),
                                ("lst_ts"@, lst_ts->0),
                            ],
                        ),
                    )
                } else {
                    None
                }
            },
            _ => None,
        }
    }

    fn from_json(v: &JsonValue) -> (r: Option<Self>) {
        match v {
            JsonValue::Object(fields) => {
                let n_records: u64 = decode_field(fields, "n_records")?;
                let fst: ObjectId = decode_field(fields, "fst")?;
                let lst: ObjectId = decode_field(fields, "lst")?;
                let fst_ts: String = decode_field(fields, "fst_ts")?;
                let lst_ts: String = decode_field(fields, "lst_ts")?;
                Some(VolumeRange { n_records, fst, lst, fst_ts, lst_ts })
            },
            _ => None,
        }
    }
}

impl RoundTrip for VolumeRange {
    proof fn lemma_round_trip(&self) {
        reveal_strlit("n_records");
        reveal_strlit("fst");
        reveal_strlit("lst");
        reveal_strlit("fst_ts");
        reveal_strlit("lst_ts");
        let fields = self.json()->Object_0;
        assert(name_key(fields[0].0, 0, 0, 0) == (9nat, 'n', 'n', 'n'));
        assert(name_key(fields[1].0, 0, 0, 0) == (3nat, 'f', 'f', 'f'));
        assert(name_key(fields[2].0, 0, 0, 0) == (3nat, 'l', 'l', 'l'));
        assert(name_key(fields[3].0, 0, 0, 0) == (6nat, 'f', 'f', 'f'));
        assert(name_key(fields[4].0, 0, 0, 0) == (6nat, 'l', 'l', 'l'));
        assert forall|i: int, j: int| 0 <= i < j < fields.len() implies fields[i].0
            != fields[j].0 by {
            assert(name_key(fields[i].0, 0, 0, 0) != name_key(fields[j].0, 0, 0, 0));
        }
        lemma_fields_found(fields);
        self.n_records.lemma_round_trip();
        self.fst.lemma_round_trip();
        self.lst.lemma_round_trip();
        self.fst_ts.lemma_round_trip();
        self.lst_ts.lemma_round_trip();
    }
}

/// A volume of the archive.
#[derive(Clone, Debug, PartialEq)]
pub struct ArchiveVolumeMetadata {
    pub version: String,
    pub volume_name: String,
    pub original_coll_name: String,
    pub range: Option<VolumeRange>,
    pub _id: ObjectId,
    pub prev_last_ts: String,
    pub image_md5s: Option<Vec<String>>,
}

impl ToJson for ArchiveVolumeMetadata {
    open spec fn json(&self) -> Json {
        Json::Object(
            seq![
                ("version"@, self.version.json()),
                ("volume_name"@, self.volume_name.json()),
                ("original_coll_name"@, self.original_coll_name.json()),
                ("range"@, self.range.json()),
                ("_id"@, self._id.json()),
                ("prev_last_ts"@, self.prev_last_ts.json()),
                ("image_md5s"@, self.image_md5s.json()),
            ],
        )
    }

    fn to_json(&self) -> (v: JsonValue) {
        let mut fields: Vec<JsonField> = Vec::new();
        push_field(&mut fields, "version", self.version.to_json());
        push_field(&mut fields, "volume_name", self.volume_name.to_json());
        push_field(&mut fields, "original_coll_name", self.original_coll_name.to_json());
        push_field(&mut fields, "range", self.range.to_json());
        push_field(&mut fields, "_id", self._id.to_json());
        push_field(&mut fields, "prev_last_ts", self.prev_last_ts.to_json());
        push_field(&mut fields, "image_md5s", self.image_md5s.to_json());
        proof {
            assert(json_of_fields(fields@) =~= self.json()->Object_0);
        }
        JsonValue::Object(fields)
    }
}

impl FromJson for ArchiveVolumeMetadata {
    open spec fn absent() -> Option<Json> {
        None
    }

    fn from_absent() -> (r: Option<Self>) {
        None
    }

    open spec fn decoded(j: Json) -> Option<Json> {
        match j {
            Json::Object(fields) => {
                let version = field_decoded::<String>(fields, "version"@);
                let volume_name = field_decoded::<String>(fields, "volume_name"@);
                let original_coll_name = field_decoded::<String>(fields, "original_coll_name"@);
                let range = field_decoded::<Option<VolumeRange>>(fields, "range"@);
                let _id = field_decoded::<ObjectId>(fields, "_id"@);
                let prev_last_ts = field_decoded::<String>(fields, "prev_last_ts"@);
                let image_md5s = field_decoded::<Option<Vec<String>>>(fields, "image_md5s"@);
                if version is Some
                    && volume_name is Some
                    && original_coll_name is Some
                    && range is Some
                    && _id is Some
                    && prev_last_ts is Some
                    && image_md5s is Some {
                    Some(
                        Json::Object(
                            seq![
                                ("version"@, version->0),
                                ("volume_name"@, volume_name->0),
                                ("original_coll_name"@, original_coll_name->0),
                                ("range"@, range->0),
                                ("_id"@, _id->0),
                                ("prev_last_ts"@, prev_last_ts->0),
                                ("image_md5s"@, image_md5s->0),
                            ],
                        ),
                    )
                } else {
                    None
                }
            },
            _ => None,
        }
    }

    fn from_json(v: &JsonValue) -> (r: Option<Self>) {
        match v {
            JsonValue::Object(fields) => {
                let version: String = decode_field(fields, "version")?;
                let volume_name: String = decode_field(fields, "volume_name")?;
                let original_coll_name: String = decode_field(fields, "original_coll_name")?;
                let range: Option<VolumeRange> = decode_field(fields, "range")?;
                let _id: ObjectId = decode_field(fields, "_id")?;
                let prev_last_ts: String = decode_field(fields, "prev_last_ts")?;
                let image_md5s: Option<Vec<String>> = decode_field(fields, "image_md5s")?;
                Some(
                    ArchiveVolumeMetadata {
                        version,
                        volume_name,
                        original_coll_name,
                        range,
                        _id,
                        prev_last_ts,
                        image_md5s,
                    },
                )
            },
            _ => None,
        }
    }
}

impl RoundTrip for ArchiveVolumeMetadata {
    proof fn lemma_round_trip(&self) {
        reveal_strlit("version");
        reveal_strlit("volume_name");
        reveal_strlit("original_coll_name");
        reveal_strlit("range");
        reveal_strlit("_id");
        reveal_strlit("prev_last_ts");
        reveal_strlit("image_md5s");
        let fields = self.json()->Object_0;
        assert(name_key(fields[0].0, 0, 0, 0) == (7nat, 'v', 'v', 'v'));
        assert(name_key(fields[1].0, 0, 0, 0) == (11nat, 'v', 'v', 'v'));
        assert(name_key(fields[2].0, 0, 0, 0) == (18nat, 'o', 'o', 'o'));
        assert(name_key(fields[3].0, 0, 0, 0) == (5nat, 'r', 'r', 'r'));
        assert(name_key(fields[4].0, 0, 0, 0) == (3nat, '_', '_', '_'));
        assert(name_key(fields[5].0, 0, 0, 0) == (12nat, 'p', 'p', 'p'));
        assert(name_key(fields[6].0, 0, 0, 0) == (10nat, 'i', 'i', 'i'));
        assert forall|i: int, j: int| 0 <= i < j < fields.len() implies fields[i].0
            != fields[j].0 by {
            assert(name_key(fields[i].0, 0, 0, 0) != name_key(fields[j].0, 0, 0, 0));
        }
        lemma_fields_found(fields);
        self.version.lemma_round_trip();
        self.volume_name.lemma_round_trip();
        self.original_coll_name.lemma_round_trip();
        self.range.lemma_round_trip();
        self._id.lemma_round_trip();
        self.prev_last_ts.lemma_round_trip();
        self.image_md5s.lemma_round_trip();
    }
}

/// Paging for the volumes of the archive.
#[derive(Clone, Debug, PartialEq)]
pub struct VolumeListQuery {
    pub start: Option<u64>,
    pub limit: Option<u64>,
}

impl ToJson for VolumeListQuery {
    open spec fn json(&self) -> Json {
        Json::Object(
            seq![
                ("start"@, self.start.json()),
                ("limit"@, self.limit.json()),
            ],
        )
    }

    fn to_json(&self) -> (v: JsonValue) {
        let mut fields: Vec<JsonField> = Vec::new();
        push_field(&mut fields, "start", self.start.to_json());
        push_field(&mut fields, "limit", self.limit.to_json());
        proof {
            assert(json_of_fields(fields@) =~= self.json()->Object_0);
        }
        JsonValue::Object(fields)
    }
}

/// Paging for the tasks of one volume.
#[derive(Clone, Debug, PartialEq)]
pub struct VolumeDetailQuery {
    pub tasks_start: Option<u64>,
    pub tasks_limit: Option<u64>,
}

impl ToJson for VolumeDetailQuery {
    open spec fn json(&self) -> Json {
        Json::Object(
            seq![
                ("tasks_start"@, self.tasks_start.json()),
                ("tasks_limit"@, self.tasks_limit.json()),
            ],
        )
    }

    fn to_json(&self) -> (v: JsonValue) {
        let mut fields: Vec<JsonField> = Vec::new();
        push_field(&mut fields, "tasks_start", self.tasks_start.to_json());
        push_field(&mut fields, "tasks_limit", self.tasks_limit.to_json());
        proof {
            assert(json_of_fields(fields@) =~= self.json()->Object_0);
        }
        JsonValue::Object(fields)
    }
}

/// A volume of the archive with a page of its tasks.
#[derive(Clone, Debug, PartialEq)]
pub struct VolumeDetailResponse {
    pub volume: ArchiveVolumeMetadata,
    pub tasks: PaginationResult<ConciseTask>,
}

impl ToJson for VolumeDetailResponse {
    open spec fn json(&self) -> Json {
        Json::Object(
            seq![
                ("volume"@, self.volume.json()),
                ("tasks"@, self.tasks.json()),
            ],
        )
    }

    fn to_json(&self) -> (v: JsonValue) {
        let mut fields: Vec<JsonField> = Vec::new();
        push_field(&mut fields, "volume", self.volume.to_json());
        push_field(&mut fields, "tasks", self.tasks.to_json());
        proof {
            assert(json_of_fields(fields@) =~= self.json()->Object_0);
        }
        JsonValue::Object(fields)
    }
}

impl FromJson for VolumeDetailResponse {
    open spec fn absent() -> Option<Json> {
        None
    }

    fn from_absent() -> (r: Option<Self>) {
        None
    }

    open spec fn decoded(j: Json) -> Option<Json> {
        match j {
            Json::Object(fields) => {
                let volume = field_decoded::<ArchiveVolumeMetadata>(fields, "volume"@);
                let tasks = field_decoded::<PaginationResult<ConciseTask>>(fields, "tasks"@);
                if volume is Some
                    && tasks is Some {
                    Some(
                        Json::Object(
                            seq![
                                ("volume"@, volume->0),
                                ("tasks"@, tasks->0),
                            ],
                        ),
                    )
                } else {
                    None
                }
            },
            _ => None,
        }
    }

    fn from_json(v: &JsonValue) -> (r: Option<Self>) {
        match v {
            JsonValue::Object(fields) => {
                let volume: ArchiveVolumeMetadata = decode_field(fields, "volume")?;
                let tasks: PaginationResult<ConciseTask> = decode_field(fields, "tasks")?;
                Some(VolumeDetailResponse { volume, tasks })
            },
            _ => None,
        }
    }
}

impl RoundTrip for VolumeDetailResponse {
    proof fn lemma_round_trip(&self) {
        reveal_strlit("volume");
        reveal_strlit("tasks");
        let fields = self.json()->Object_0;
        assert(name_key(fields[0].0, 0, 0, 0) == (6nat, 'v', 'v', 'v'));
        assert(name_key(fields[1].0, 0, 0, 0) == (5nat, 't', 't', 't'));
        assert forall|i: int, j: int| 0 <= i < j < fields.len() implies fields[i].0
            != fields[j].0 by {
            assert(name_key(fields[i].0, 0, 0, 0) != name_key(fields[j].0, 0, 0, 0));
        }
        lemma_fields_found(fields);
        self.volume.lemma_round_trip();
        self.tasks.lemma_round_trip();
    }
}

/// Filters and paging for archived tasks.
#[derive(Clone, Debug, PartialEq)]
pub struct ArchiveQuery {
    pub task_id: Option<String>,
    pub md5: Option<String>,
    pub start_timestamp: Option<String>,
    pub end_timestamp: Option<String>,
    pub start: Option<u64>,
    pub limit: Option<u64>,
}

impl ToJson for ArchiveQuery {
    open spec fn json(&self) -> Json {
        Json::Object(
            seq![
                ("task_id"@, self.task_id.json()),
                ("md5"@, self.md5.json()),
                ("start_timestamp"@, self.start_timestamp.json()),
                ("end_timestamp"@, self.end_timestamp.json()),
                ("start"@, self.start.json()),
                ("limit"@, self.limit.json()),
            ],
        )
    }

    fn to_json(&self) -> (v: JsonValue) {
        let mut fields: Vec<JsonField> = Vec::new();
        push_field(&mut fields, "task_id", self.task_id.to_json());
        push_field(&mut fields, "md5", self.md5.to_json());
        push_field(&mut fields, "start_timestamp", self.start_timestamp.to_json());
        push_field(&mut fields, "end_timestamp", self.end_timestamp.to_json());
        push_field(&mut fields, "start", self.start.to_json());
        push_field(&mut fields, "limit", self.limit.to_json());
        proof {
            assert(json_of_fields(fields@) =~= self.json()->Object_0);
        }
        JsonValue::Object(fields)
    }
}

/// The first and the last volume of the archive.
#[derive(Clone, Debug, PartialEq)]
pub struct ArchiveMetadataOverview {
    pub first: Option<ArchiveVolumeMetadata>,
    pub last: Option<ArchiveVolumeMetadata>,
}

impl ToJson for ArchiveMetadataOverview {
    open spec fn json(&self) -> Json {
        Json::Object(
            seq![
                ("first"@, self.first.json()),
                ("last"@, self.last.json()),
            ],
        )
    }

    fn to_json(&self) -> (v: JsonValue) {
        let mut fields: Vec<JsonField> = Vec::new();
        push_field(&mut fields, "first", self.first.to_json());
        push_field(&mut fields, "last", self.last.to_json());
        proof {
            assert(json_of_fields(fields@) =~= self.json()->Object_0);
        }
        JsonValue::Object(fields)
    }
}

impl FromJson for ArchiveMetadataOverview {
    open spec fn absent() -> Option<Json> {
        None
    }

    fn from_absent() -> (r: Option<Self>) {
        None
    }

    open spec fn decoded(j: Json) -> Option<Json> {
        match j {
            Json::Object(fields) => {
                let first = field_decoded::<Option<ArchiveVolumeMetadata>>(fields, "first"@);
                let last = field_decoded::<Option<ArchiveVolumeMetadata>>(fields, "last"@);
                if first is Some
                    && last is Some {
                    Some(
                        Json::Object(
                            seq![
                                ("first"@, first->0),
                                ("last"@, last->0),
                            ],
                        ),
                    )
                } else {
                    None
                }
            },
            _ => None,
        }
    }

    fn from_json(v: &JsonValue) -> (r: Option<Self>) {
        match v {
            JsonValue::Object(fields) => {
                let first: Option<ArchiveVolumeMetadata> = decode_field(fields, "first")?;
                let last: Option<ArchiveVolumeMetadata> = decode_field(fields, "last")?;
                Some(ArchiveMetadataOverview { first, last })
            },
            _ => None,
        }
    }
}

impl RoundTrip for ArchiveMetadataOverview {
    proof fn lemma_round_trip(&self) {
        reveal_strlit("first");
        reveal_strlit("last");
        let fields = self.json()->Object_0;
        assert(name_key(fields[0].0, 0, 0, 0) == (5nat, 'f', 'f', 'f'));
        assert(name_key(fields[1].0, 0, 0, 0) == (4nat, 'l', 'l', 'l'));
        assert forall|i: int, j: int| 0 <= i < j < fields.len() implies fields[i].0
            != fields[j].0 by {
            assert(name_key(fields[i].0, 0, 0, 0) != name_key(fields[j].0, 0, 0, 0));
        }
        lemma_fields_found(fields);
        self.first.lemma_round_trip();
        self.last.lemma_round_trip();
    }
}

/// A network on which an archived task was submitted.
#[derive(Clone, Debug, PartialEq)]
pub struct ArchivedFinalProofNetworkInfo {
    pub verifier_contracts: VerifierContracts,
}

impl ToJson for ArchivedFinalProofNetworkInfo {
    open spec fn json(&self) -> Json {
        Json::Object(
            seq![
                ("verifier_contracts"@, self.verifier_contracts.json()),
            ],
        )
    }

    fn to_json(&self) -> (v: JsonValue) {
        let mut fields: Vec<JsonField> = Vec::new();
        push_field(&mut fields, "verifier_contracts", self.verifier_contracts.to_json());
        proof {
            assert(json_of_fields(fields@) =~= self.json()->Object_0);
        }
        JsonValue::Object(fields)
    }
}

impl FromJson for ArchivedFinalProofNetworkInfo {
    open spec fn absent() -> Option<Json> {
        None
    }

    fn from_absent() -> (r: Option<Self>) {
        None
    }

    open spec fn decoded(j: Json) -> Option<Json> {
        match j {
            Json::Object(fields) => {
                let verifier_contracts = field_decoded::<VerifierContracts>(
                    fields,
                    "verifier_contracts"@,
                );
                if verifier_contracts is Some {
                    Some(
                        Json::Object(
                            seq![
                                ("verifier_contracts"@, verifier_contracts->0),
                            ],
                        ),
                    )
                } else {
                    None
                }
            },
            _ => None,
        }
    }

    fn from_json(v: &JsonValue) -> (r: Option<Self>) {
        match v {
            JsonValue::Object(fields) => {
                let verifier_contracts: VerifierContracts = decode_field(
                    fields,
                    "verifier_contracts",
                )?;
                Some(ArchivedFinalProofNetworkInfo { verifier_contracts })
            },
            _ => None,
        }
    }
}

impl RoundTrip for ArchivedFinalProofNetworkInfo {
    proof fn lemma_round_trip(&self) {
        reveal_strlit("verifier_contracts");
        let fields = self.json()->Object_0;
        assert(name_key(fields[0].0, 0, 0, 0) == (18nat, 'v', 'v', 'v'));
        assert forall|i: int, j: int| 0 <= i < j < fields.len() implies fields[i].0
            != fields[j].0 by {
            assert(name_key(fields[i].0, 0, 0, 0) != name_key(fields[j].0, 0, 0, 0));
        }
        lemma_fields_found(fields);
        self.verifier_contracts.lemma_round_trip();
    }
}

/// An archived final batch proof.
#[derive(Clone, Debug, PartialEq)]
pub struct ArchivedFinalBatchProof {
    pub _id: ObjectId,
    pub original_final_proof_id: String,
    pub included_md5s: Vec<String>,
    pub round_2_ids: Vec<String>,
    pub round_1_ids: Vec<String>,
    pub task_ids: Vec<String>,
    pub target_instances: Vec<Vec<u8>>,
    pub proof: Vec<u8>,
    pub batch_instances: Vec<u8>,
    pub shadow_instances: Vec<u8>,
    pub aux: Vec<u8>,
    pub round_1_proof: Vec<Vec<u8>>,
    pub round_1_batch_instances: Vec<Vec<u8>>,
    pub round_1_shadow_instances: Vec<Vec<u8>>,
    pub round_1_aux: Vec<Vec<u8>>,
    pub round_1_target_instances: Vec<Vec<u8>>,
    pub batched_time: String,
    pub internal_message: Option<String>,
    pub static_files_verification_data: Option<StaticFileVerificationData>,
    pub auto_submit_network_chain_id: u32,
    pub verifier_contracts: VerifierContracts,
    pub registered_tx_hash: String,
    pub status: Round2Status,
}

impl ToJson for ArchivedFinalBatchProof {
    open spec fn json(&self) -> Json {
        Json::Object(
            seq![
                ("_id"@, self._id.json()),
                ("original_final_proof_id"@, self.original_final_proof_id.json()),
                ("included_md5s"@, self.included_md5s.json()),
                ("round_2_ids"@, self.round_2_ids.json()),
                ("round_1_ids"@, self.round_1_ids.json()),
                ("task_ids"@, self.task_ids.json()),
                ("target_instances"@, self.target_instances.json()),
                ("proof"@, self.proof.json()),
                ("batch_instances"@, self.batch_instances.json()),
                ("shadow_instances"@, self.shadow_instances.json()),
                ("aux"@, self.aux.json()),
                ("round_1_proof"@, self.round_1_proof.json()),
                ("round_1_batch_instances"@, self.round_1_batch_instances.json()),
                ("round_1_shadow_instances"@, self.round_1_shadow_instances.json()),
                ("round_1_aux"@, self.round_1_aux.json()),
                ("round_1_target_instances"@, self.round_1_target_instances.json()),
                ("batched_time"@, self.batched_time.json()),
                ("internal_message"@, self.internal_message.json()),
                ("static_files_verification_data"@, self.static_files_verification_data.json()),
                ("auto_submit_network_chain_id"@, self.auto_submit_network_chain_id.json()),
                ("verifier_contracts"@, self.verifier_contracts.json()),
                ("registered_tx_hash"@, self.registered_tx_hash.json()),
                ("status"@, self.status.json()),
            ],
        )
    }

    fn to_json(&self) -> (v: JsonValue) {
        let mut fields: Vec<JsonField> = Vec::new();
        push_field(&mut fields, "_id", self._id.to_json());
        push_field(&mut fields, "original_final_proof_id", self.original_final_proof_id.to_json());
        push_field(&mut fields, "included_md5s", self.included_md5s.to_json());
        push_field(&mut fields, "round_2_ids", self.round_2_ids.to_json());
        push_field(&mut fields, "round_1_ids", self.round_1_ids.to_json());
        push_field(&mut fields, "task_ids", self.task_ids.to_json());
        push_field(&mut fields, "target_instances", self.target_instances.to_json());
        push_field(&mut fields, "proof", self.proof.to_json());
        push_field(&mut fields, "batch_instances", self.batch_instances.to_json());
        push_field(&mut fields, "shadow_instances", self.shadow_instances.to_json());
        push_field(&mut fields, "aux", self.aux.to_json());
        push_field(&mut fields, "round_1_proof", self.round_1_proof.to_json());
        push_field(&mut fields, "round_1_batch_instances", self.round_1_batch_instances.to_json());
        push_field(
            &mut fields,
            "round_1_shadow_instances",
            self.round_1_shadow_instances.to_json(),
        );
        push_field(&mut fields, "round_1_aux", self.round_1_aux.to_json());
        push_field(
            &mut fields,
            "round_1_target_instances",
            self.round_1_target_instances.to_json(),
        );
        push_field(&mut fields, "batched_time", self.batched_time.to_json());
        push_field(&mut fields, "internal_message", self.internal_message.to_json());
        push_field(
            &mut fields,
            "static_files_verification_data",
            self.static_files_verification_data.to_json(),
        );
        push_field(
            &mut fields,
            "auto_submit_network_chain_id",
            self.auto_submit_network_chain_id.to_json(),
        );
        push_field(&mut fields, "verifier_contracts", self.verifier_contracts.to_json());
        push_field(&mut fields, "registered_tx_hash", self.registered_tx_hash.to_json());
        push_field(&mut fields, "status", self.status.to_json());
        proof {
            assert(json_of_fields(fields@) =~= self.json()->Object_0);
        }
        JsonValue::Object(fields)
    }
}

impl FromJson for ArchivedFinalBatchProof {
    open spec fn absent() -> Option<Json> {
        None
    }

    fn from_absent() -> (r: Option<Self>) {
        None
    }

    open spec fn decoded(j: Json) -> Option<Json> {
        match j {
            Json::Object(fields) => {
                let _id = field_decoded::<ObjectId>(fields, "_id"@);
                let original_final_proof_id = field_decoded::<String>(
                    fields,
                    "original_final_proof_id"@,
                );
                let included_md5s = field_decoded::<Vec<String>>(fields, "included_md5s"@);
                let round_2_ids = field_decoded::<Vec<String>>(fields, "round_2_ids"@);
                let round_1_ids = field_decoded::<Vec<String>>(fields, "round_1_ids"@);
                let task_ids = field_decoded::<Vec<String>>(fields, "task_ids"@);
                let target_instances = field_decoded::<Vec<Vec<u8>>>(fields, "target_instances"@);
                let proof = field_decoded::<Vec<u8>>(fields, "proof"@);
                let batch_instances = field_decoded::<Vec<u8>>(fields, "batch_instances"@);
                let shadow_instances = field_decoded::<Vec<u8>>(fields, "shadow_instances"@);
                let aux = field_decoded::<Vec<u8>>(fields, "aux"@);
                let round_1_proof = field_decoded::<Vec<Vec<u8>>>(fields, "round_1_proof"@);
                let round_1_batch_instances = field_decoded::<Vec<Vec<u8>>>(
                    fields,
                    "round_1_batch_instances"@,
                );
                let round_1_shadow_instances = field_decoded::<Vec<Vec<u8>>>(
                    fields,
                    "round_1_shadow_instances"@,
                );
                let round_1_aux = field_decoded::<Vec<Vec<u8>>>(fields, "round_1_aux"@);
                let round_1_target_instances = field_decoded::<Vec<Vec<u8>>>(
                    fields,
                    "round_1_target_instances"@,
                );
                let batched_time = field_decoded::<String>(fields, "batched_time"@);
                let internal_message = field_decoded::<Option<String>>(fields, "internal_message"@);
                let static_files_verification_data = field_decoded::<Option<StaticFileVerificationData>>(
                    fields,
                    "static_files_verification_data"@,
                );
                let auto_submit_network_chain_id = field_decoded::<u32>(
                    fields,
                    "auto_submit_network_chain_id"@,
                );
                let verifier_contracts = field_decoded::<VerifierContracts>(
                    fields,
                    "verifier_contracts"@,
                );
                let registered_tx_hash = field_decoded::<String>(fields, "registered_tx_hash"@);
                let status = field_decoded::<Round2Status>(fields, "status"@);
                if _id is Some
                    && original_final_proof_id is Some
                    && included_md5s is Some
                    && round_2_ids is Some
                    && round_1_ids is Some
                    && task_ids is Some
                    && target_instances is Some
                    && proof is Some
                    && batch_instances is Some
                    && shadow_instances is Some
                    && aux is Some
                    && round_1_proof is Some
                    && round_1_batch_instances is Some
                    && round_1_shadow_instances is Some
                    && round_1_aux is Some
                    && round_1_target_instances is Some
                    && batched_time is Some
                    && internal_message is Some
                    && static_files_verification_data is Some
                    && auto_submit_network_chain_id is Some
                    && verifier_contracts is Some
                    && registered_tx_hash is Some
                    && status is Some {
                    Some(
                        Json::Object(
                            seq![
                                ("_id"@, _id->0),
                                ("original_final_proof_id"@, original_final_proof_id->0),
                                ("included_md5s"@, included_md5s->0),
                                ("round_2_ids"@, round_2_ids->0),
                                ("round_1_ids"@, round_1_ids->0),
                                ("task_ids"@, task_ids->0),
                                ("target_instances"@, target_instances->0),
                                ("proof"@, proof->0),
                                ("batch_instances"@, batch_instances->0),
                                ("shadow_instances"@, shadow_instances->0),
                                ("aux"@, aux->0),
                                ("round_1_proof"@, round_1_proof->0),
                                ("round_1_batch_instances"@, round_1_batch_instances->0),
                                ("round_1_shadow_instances"@, round_1_shadow_instances->0),
                                ("round_1_aux"@, round_1_aux->0),
                                ("round_1_target_instances"@, round_1_target_instances->0),
                                ("batched_time"@, batched_time->0),
                                ("internal_message"@, internal_message->0),
                                (
                                    "static_files_verification_data"@,
                                    static_files_verification_data->0,
                                ),
                                ("auto_submit_network_chain_id"@, auto_submit_network_chain_id->0),
                                ("verifier_contracts"@, verifier_contracts->0),
                                ("registered_tx_hash"@, registered_tx_hash->0),
                                ("status"@, status->0),
                            ],
                        ),
                    )
                } else {
                    None
                }
            },
            _ => None,
        }
    }

    fn from_json(v: &JsonValue) -> (r: Option<Self>) {
        match v {
            JsonValue::Object(fields) => {
                let _id: ObjectId = decode_field(fields, "_id")?;
                let original_final_proof_id: String = decode_field(
                    fields,
                    "original_final_proof_id",
                )?;
                let included_md5s: Vec<String> = decode_field(fields, "included_md5s")?;
                let round_2_ids: Vec<String> = decode_field(fields, "round_2_ids")?;
                let round_1_ids: Vec<String> = decode_field(fields, "round_1_ids")?;
                let task_ids: Vec<String> = decode_field(fields, "task_ids")?;
                let target_instances: Vec<Vec<u8>> = decode_field(fields, "target_instances")?;
                let proof: Vec<u8> = decode_field(fields, "proof")?;
                let batch_instances: Vec<u8> = decode_field(fields, "batch_instances")?;
                let shadow_instances: Vec<u8> = decode_field(fields, "shadow_instances")?;
                let aux: Vec<u8> = decode_field(fields, "aux")?;
                let round_1_proof: Vec<Vec<u8>> = decode_field(fields, "round_1_proof")?;
                let round_1_batch_instances: Vec<Vec<u8>> = decode_field(
                    fields,
                    "round_1_batch_instances",
                )?;
                let round_1_shadow_instances: Vec<Vec<u8>> = decode_field(
                    fields,
                    "round_1_shadow_instances",
                )?;
                let round_1_aux: Vec<Vec<u8>> = decode_field(fields, "round_1_aux")?;
                let round_1_target_instances: Vec<Vec<u8>> = decode_field(
                    fields,
                    "round_1_target_instances",
                )?;
                let batched_time: String = decode_field(fields, "batched_time")?;
                let internal_message: Option<String> = decode_field(fields, "internal_message")?;
                let static_files_verification_data: Option<StaticFileVerificationData> = decode_field(
                    fields,
                    "static_files_verification_data",
                )?;
                let auto_submit_network_chain_id: u32 = decode_field(
                    fields,
                    "auto_submit_network_chain_id",
                )?;
                let verifier_contracts: VerifierContracts = decode_field(
                    fields,
                    "verifier_contracts",
                )?;
                let registered_tx_hash: String = decode_field(fields, "registered_tx_hash")?;
                let status: Round2Status = decode_field(fields, "status")?;
                Some(
                    ArchivedFinalBatchProof {
                        _id,
                        original_final_proof_id,
                        included_md5s,
                        round_2_ids,
                        round_1_ids,
                        task_ids,
                        target_instances,
                        proof,
                        batch_instances,
                        shadow_instances,
                        aux,
                        round_1_proof,
                        round_1_batch_instances,
                        round_1_shadow_instances,
                        round_1_aux,
                        round_1_target_instances,
                        batched_time,
                        internal_message,
                        static_files_verification_data,
                        auto_submit_network_chain_id,
                        verifier_contracts,
                        registered_tx_hash,
                        status,
                    },
                )
            },
            _ => None,
        }
    }
}

impl RoundTrip for ArchivedFinalBatchProof {
    #[verifier::rlimit(100)]
    proof fn lemma_round_trip(&self) {
        reveal_strlit("_id");
        reveal_strlit("original_final_proof_id");
        reveal_strlit("included_md5s");
        reveal_strlit("round_2_ids");
        reveal_strlit("round_1_ids");
        reveal_strlit("task_ids");
        reveal_strlit("target_instances");
        reveal_strlit("proof");
        reveal_strlit("batch_instances");
        reveal_strlit("shadow_instances");
        reveal_strlit("aux");
        reveal_strlit("round_1_proof");
        reveal_strlit("round_1_batch_instances");
        reveal_strlit("round_1_shadow_instances");
        reveal_strlit("round_1_aux");
        reveal_strlit("round_1_target_instances");
        reveal_strlit("batched_time");
        reveal_strlit("internal_message");
        reveal_strlit("static_files_verification_data");
        reveal_strlit("auto_submit_network_chain_id");
        reveal_strlit("verifier_contracts");
        reveal_strlit("registered_tx_hash");
        reveal_strlit("status");
        let fields = self.json()->Object_0;
        assert(name_key(fields[0].0, 0, 6, 8) == (3nat, '_', ' ', ' '));
        assert(name_key(fields[1].0, 0, 6, 8) == (23nat, 'o', 'a', '_'));
        assert(name_key(fields[2].0, 0, 6, 8) == (13nat, 'i', 'e', '_'));
        assert(name_key(fields[3].0, 0, 6, 8) == (11nat, 'r', '2', 'i'));
        assert(name_key(fields[4].0, 0, 6, 8) == (11nat, 'r', '1', 'i'));
        assert(name_key(fields[5].0, 0, 6, 8) == (8nat, 't', 'd', ' '));
        assert(name_key(fields[6].0, 0, 6, 8) == (16nat, 't', '_', 'n'));
        assert(name_key(fields[7].0, 0, 6, 8) == (5nat, 'p', ' ', ' '));
        assert(name_key(fields[8].0, 0, 6, 8) == (15nat, 'b', 'i', 's'));
        assert(name_key(fields[9].0, 0, 6, 8) == (16nat, 's', '_', 'n'));
        assert(name_key(fields[10].0, 0, 6, 8) == (3nat, 'a', ' ', ' '));
        assert(name_key(fields[11].0, 0, 6, 8) == (13nat, 'r', '1', 'p'));
        assert(name_key(fields[12].0, 0, 6, 8) == (23nat, 'r', '1', 'b'));
        assert(name_key(fields[13].0, 0, 6, 8) == (24nat, 'r', '1', 's'));
        assert(name_key(fields[14].0, 0, 6, 8) == (11nat, 'r', '1', 'a'));
        assert(name_key(fields[15].0, 0, 6, 8) == (24nat, 'r', '1', 't'));
        assert(name_key(fields[16].0, 0, 6, 8) == (12nat, 'b', 'd', 't'));
        assert(name_key(fields[17].0, 0, 6, 8) == (16nat, 'i', 'a', '_'));
        assert(name_key(fields[18].0, 0, 6, 8) == (30nat, 's', '_', 'i'));
        assert(name_key(fields[19].0, 0, 6, 8) == (28nat, 'a', 'u', 'm'));
        assert(name_key(fields[20].0, 0, 6, 8) == (18nat, 'v', 'e', '_'));
        assert(name_key(fields[21].0, 0, 6, 8) == (18nat, 'r', 'e', 'e'));
        assert(name_key(fields[22].0, 0, 6, 8) == (6nat, 's', ' ', ' '));
        assert forall|i: int, j: int| 0 <= i < j < fields.len() implies fields[i].0
            != fields[j].0 by {
            assert(name_key(fields[i].0, 0, 6, 8) != name_key(fields[j].0, 0, 6, 8));
        }
        lemma_fields_found(fields);
        self._id.lemma_round_trip();
        self.original_final_proof_id.lemma_round_trip();
        self.included_md5s.lemma_round_trip();
        self.round_2_ids.lemma_round_trip();
        self.round_1_ids.lemma_round_trip();
        self.task_ids.lemma_round_trip();
        self.target_instances.lemma_round_trip();
        self.proof.lemma_round_trip();
        self.batch_instances.lemma_round_trip();
        self.shadow_instances.lemma_round_trip();
        self.aux.lemma_round_trip();
        self.round_1_proof.lemma_round_trip();
        self.round_1_batch_instances.lemma_round_trip();
        self.round_1_shadow_instances.lemma_round_trip();
        self.round_1_aux.lemma_round_trip();
        self.round_1_target_instances.lemma_round_trip();
        self.batched_time.lemma_round_trip();
        self.internal_message.lemma_round_trip();
        self.static_files_verification_data.lemma_round_trip();
        self.auto_submit_network_chain_id.lemma_round_trip();
        self.verifier_contracts.lemma_round_trip();
        self.registered_tx_hash.lemma_round_trip();
        self.status.lemma_round_trip();
    }
}

/// A chain as the archive server is configured for it.
#[derive(Clone, Debug, PartialEq)]
pub struct ChainConfig {
    pub chain_id: u32,
    pub chain_name: String,
    pub deploy_strategy: Option<String>,
    pub block_explorer_url: String,
    pub rpc_url: String,
    pub native_currency: NativeCurrency,
    pub deploy_fee: String,
}

impl ToJson for ChainConfig {
    open spec fn json(&self) -> Json {
        Json::Object(
            seq![
                ("chain_id"@, self.chain_id.json()),
                ("chain_name"@, self.chain_name.json()),
                ("deploy_strategy"@, self.deploy_strategy.json()),
                ("block_explorer_url"@, self.block_explorer_url.json()),
                ("rpc_url"@, self.rpc_url.json()),
                ("native_currency"@, self.native_currency.json()),
                ("deploy_fee"@, self.deploy_fee.json()),
            ],
        )
    }

    fn to_json(&self) -> (v: JsonValue) {
        let mut fields: Vec<JsonField> = Vec::new();
        push_field(&mut fields, "chain_id", self.chain_id.to_json());
        push_field(&mut fields, "chain_name", self.chain_name.to_json());
        push_field(&mut fields, "deploy_strategy", self.deploy_strategy.to_json());
        push_field(&mut fields, "block_explorer_url", self.block_explorer_url.to_json());
        push_field(&mut fields, "rpc_url", self.rpc_url.to_json());
        push_field(&mut fields, "native_currency", self.native_currency.to_json());
        push_field(&mut fields, "deploy_fee", self.deploy_fee.to_json());
        proof {
            assert(json_of_fields(fields@) =~= self.json()->Object_0);
        }
        JsonValue::Object(fields)
    }
}

impl FromJson for ChainConfig {
    open spec fn absent() -> Option<Json> {
        None
    }

    fn from_absent() -> (r: Option<Self>) {
        None
    }

    open spec fn decoded(j: Json) -> Option<Json> {
        match j {
            Json::Object(fields) => {
                let chain_id = field_decoded::<u32>(fields, "chain_id"@);
                let chain_name = field_decoded::<String>(fields, "chain_name"@);
                let deploy_strategy = field_decoded::<Option<String>>(fields, "deploy_strategy"@);
                let block_explorer_url = field_decoded::<String>(fields, "block_explorer_url"@);
                let rpc_url = field_decoded::<String>(fields, "rpc_url"@);
                let native_currency = field_decoded::<NativeCurrency>(fields, "native_currency"@);
                let deploy_fee = field_decoded::<String>(fields, "deploy_fee"@);
                if chain_id is Some
                    && chain_name is Some
                    && deploy_strategy is Some
                    && block_explorer_url is Some
                    && rpc_url is Some
                    && native_currency is Some
                    && deploy_fee is Some {
                    Some(
                        Json::Object(
                            seq![
                                ("chain_id"@, chain_id->0),
                                ("chain_name"@, chain_name->0),
                                ("deploy_strategy"@, deploy_strategy->0),
                                ("block_explorer_url"@, block_explorer_url->0),
                                ("rpc_url"@, rpc_url->0),
                                ("native_currency"@, native_currency->0),
                                ("deploy_fee"@, deploy_fee->0),
                            ],
                        ),
                    )
                } else {
                    None
                }
            },
            _ => None,
        }
    }

    fn from_json(v: &JsonValue) -> (r: Option<Self>) {
        match v {
            JsonValue::Object(fields) => {
                let chain_id: u32 = decode_field(fields, "chain_id")?;
                let chain_name: String = decode_field(fields, "chain_name")?;
                let deploy_strategy: Option<String> = decode_field(fields, "deploy_strategy")?;
                let block_explorer_url: String = decode_field(fields, "block_explorer_url")?;
                let rpc_url: String = decode_field(fields, "rpc_url")?;
                let native_currency: NativeCurrency = decode_field(fields, "native_currency")?;
                let deploy_fee: String = decode_field(fields, "deploy_fee")?;
                Some(
                    ChainConfig {
                        chain_id,
                        chain_name,
                        deploy_strategy,
                        block_explorer_url,
                        rpc_url,
                        native_currency,
                        deploy_fee,
                    },
                )
            },
            _ => None,
        }
    }
}

impl RoundTrip for ChainConfig {
    proof fn lemma_round_trip(&self) {
        reveal_strlit("chain_id");
        reveal_strlit("chain_name");
        reveal_strlit("deploy_strategy");
        reveal_strlit("block_explorer_url");
        reveal_strlit("rpc_url");
        reveal_strlit("native_currency");
        reveal_strlit("deploy_fee");
        let fields = self.json()->Object_0;
        assert(name_key(fields[0].0, 0, 0, 0) == (8nat, 'c', 'c', 'c'));
        assert(name_key(fields[1].0, 0, 0, 0) == (10nat, 'c', 'c', 'c'));
        assert(name_key(fields[2].0, 0, 0, 0) == (15nat, 'd', 'd', 'd'));
        assert(name_key(fields[3].0, 0, 0, 0) == (18nat, 'b', 'b', 'b'));
        assert(name_key(fields[4].0, 0, 0, 0) == (7nat, 'r', 'r', 'r'));
        assert(name_key(fields[5].0, 0, 0, 0) == (15nat, 'n', 'n', 'n'));
        assert(name_key(fields[6].0, 0, 0, 0) == (10nat, 'd', 'd', 'd'));
        assert forall|i: int, j: int| 0 <= i < j < fields.len() implies fields[i].0
            != fields[j].0 by {
            assert(name_key(fields[i].0, 0, 0, 0) != name_key(fields[j].0, 0, 0, 0));
        }
        lemma_fields_found(fields);
        self.chain_id.lemma_round_trip();
        self.chain_name.lemma_round_trip();
        self.deploy_strategy.lemma_round_trip();
        self.block_explorer_url.lemma_round_trip();
        self.rpc_url.lemma_round_trip();
        self.native_currency.lemma_round_trip();
        self.deploy_fee.lemma_round_trip();
    }
}

/// When and how much the archive server archives.
#[derive(Clone, Debug, PartialEq)]
pub struct ArchiveConfig {
    pub processing_tasks_limit: u64,
    pub processing_time_limit_mins: u64,
    pub archive_cron_schedule: String,
    pub cleanup_cron_schedule: String,
    pub scheduled_archive_days_behind: u64,
}

impl ToJson for ArchiveConfig {
    open spec fn json(&self) -> Json {
        Json::Object(
            seq![
                ("processing_tasks_limit"@, self.processing_tasks_limit.json()),
                ("processing_time_limit_mins"@, self.processing_time_limit_mins.json()),
                ("archive_cron_schedule"@, self.archive_cron_schedule.json()),
                ("cleanup_cron_schedule"@, self.cleanup_cron_schedule.json()),
                ("scheduled_archive_days_behind"@, self.scheduled_archive_days_behind.json()),
            ],
        )
    }

    fn to_json(&self) -> (v: JsonValue) {
        let mut fields: Vec<JsonField> = Vec::new();
        push_field(&mut fields, "processing_tasks_limit", self.processing_tasks_limit.to_json());
        push_field(
            &mut fields,
            "processing_time_limit_mins",
            self.processing_time_limit_mins.to_json(),
        );
        push_field(&mut fields, "archive_cron_schedule", self.archive_cron_schedule.to_json());
        push_field(&mut fields, "cleanup_cron_schedule", self.cleanup_cron_schedule.to_json());
        push_field(
            &mut fields,
            "scheduled_archive_days_behind",
            self.scheduled_archive_days_behind.to_json(),
        );
        proof {
            assert(json_of_fields(fields@) =~= self.json()->Object_0);
        }
        JsonValue::Object(fields)
    }
}

impl FromJson for ArchiveConfig {
    open spec fn absent() -> Option<Json> {
        None
    }

    fn from_absent() -> (r: Option<Self>) {
        None
    }

    open spec fn decoded(j: Json) -> Option<Json> {
        match j {
            Json::Object(fields) => {
                let processing_tasks_limit = field_decoded::<u64>(
                    fields,
                    "processing_tasks_limit"@,
                );
                let processing_time_limit_mins = field_decoded::<u64>(
                    fields,
                    "processing_time_limit_mins"@,
                );
                let archive_cron_schedule = field_decoded::<String>(
                    fields,
                    "archive_cron_schedule"@,
                );
                let cleanup_cron_schedule = field_decoded::<String>(
                    fields,
                    "cleanup_cron_schedule"@,
                );
                let scheduled_archive_days_behind = field_decoded::<u64>(
                    fields,
                    "scheduled_archive_days_behind"@,
                );
                if processing_tasks_limit is Some
                    && processing_time_limit_mins is Some
                    && archive_cron_schedule is Some
                    && cleanup_cron_schedule is Some
                    && scheduled_archive_days_behind is Some {
                    Some(
                        Json::Object(
                            seq![
                                ("processing_tasks_limit"@, processing_tasks_limit->0),
                                ("processing_time_limit_mins"@, processing_time_limit_mins->0),
                                ("archive_cron_schedule"@, archive_cron_schedule->0),
                                ("cleanup_cron_schedule"@, cleanup_cron_schedule->0),
                                (
                                    "scheduled_archive_days_behind"@,
                                    scheduled_archive_days_behind->0,
                                ),
                            ],
                        ),
                    )
                } else {
                    None
                }
            },
            _ => None,
        }
    }

    fn from_json(v: &JsonValue) -> (r: Option<Self>) {
        match v {
            JsonValue::Object(fields) => {
                let processing_tasks_limit: u64 = decode_field(fields, "processing_tasks_limit")?;
                let processing_time_limit_mins: u64 = decode_field(
                    fields,
                    "processing_time_limit_mins",
                )?;
                let archive_cron_schedule: String = decode_field(fields, "archive_cron_schedule")?;
                let cleanup_cron_schedule: String = decode_field(fields, "cleanup_cron_schedule")?;
                let scheduled_archive_days_behind: u64 = decode_field(
                    fields,
                    "scheduled_archive_days_behind",
                )?;
                Some(
                    ArchiveConfig {
                        processing_tasks_limit,
                        processing_time_limit_mins,
                        archive_cron_schedule,
                        cleanup_cron_schedule,
                        scheduled_archive_days_behind,
                    },
                )
            },
            _ => None,
        }
    }
}

impl RoundTrip for ArchiveConfig {
    proof fn lemma_round_trip(&self) {
        reveal_strlit("processing_tasks_limit");
        reveal_strlit("processing_time_limit_mins");
        reveal_strlit("archive_cron_schedule");
        reveal_strlit("cleanup_cron_schedule");
        reveal_strlit("scheduled_archive_days_behind");
        let fields = self.json()->Object_0;
        assert(name_key(fields[0].0, 0, 0, 0) == (22nat, 'p', 'p', 'p'));
        assert(name_key(fields[1].0, 0, 0, 0) == (26nat, 'p', 'p', 'p'));
        assert(name_key(fields[2].0, 0, 0, 0) == (21nat, 'a', 'a', 'a'));
        assert(name_key(fields[3].0, 0, 0, 0) == (21nat, 'c', 'c', 'c'));
        assert(name_key(fields[4].0, 0, 0, 0) == (29nat, 's', 's', 's'));
        assert forall|i: int, j: int| 0 <= i < j < fields.len() implies fields[i].0
            != fields[j].0 by {
            assert(name_key(fields[i].0, 0, 0, 0) != name_key(fields[j].0, 0, 0, 0));
        }
        lemma_fields_found(fields);
        self.processing_tasks_limit.lemma_round_trip();
        self.processing_time_limit_mins.lemma_round_trip();
        self.archive_cron_schedule.lemma_round_trip();
        self.cleanup_cron_schedule.lemma_round_trip();
        self.scheduled_archive_days_behind.lemma_round_trip();
    }
}

/// The configuration of the archive server.
#[derive(Clone, Debug, PartialEq)]
pub struct ArchiveServerConfig {
    pub prod_mongodb_uri: String,
    pub archive_mongodb_uri: String,
    pub volume_dump_dir: String,
    pub network_list: Vec<ChainConfig>,
    pub archive_config: ArchiveConfig,
}

impl ToJson for ArchiveServerConfig {
    open spec fn json(&self) -> Json {
        Json::Object(
            seq![
                ("prod_mongodb_uri"@, self.prod_mongodb_uri.json()),
                ("archive_mongodb_uri"@, self.archive_mongodb_uri.json()),
                ("volume_dump_dir"@, self.volume_dump_dir.json()),
                ("network_list"@, self.network_list.json()),
                ("archive_config"@, self.archive_config.json()),
            ],
        )
    }

    fn to_json(&self) -> (v: JsonValue) {
        let mut fields: Vec<JsonField> = Vec::new();
        push_field(&mut fields, "prod_mongodb_uri", self.prod_mongodb_uri.to_json());
        push_field(&mut fields, "archive_mongodb_uri", self.archive_mongodb_uri.to_json());
        push_field(&mut fields, "volume_dump_dir", self.volume_dump_dir.to_json());
        push_field(&mut fields, "network_list", self.network_list.to_json());
        push_field(&mut fields, "archive_config", self.archive_config.to_json());
        proof {
            assert(json_of_fields(fields@) =~= self.json()->Object_0);
        }
        JsonValue::Object(fields)
    }
}

impl FromJson for ArchiveServerConfig {
    open spec fn absent() -> Option<Json> {
        None
    }

    fn from_absent() -> (r: Option<Self>) {
        None
    }

    open spec fn decoded(j: Json) -> Option<Json> {
        match j {
            Json::Object(fields) => {
                let prod_mongodb_uri = field_decoded::<String>(fields, "prod_mongodb_uri"@);
                let archive_mongodb_uri = field_decoded::<String>(fields, "archive_mongodb_uri"@);
                let volume_dump_dir = field_decoded::<String>(fields, "volume_dump_dir"@);
                let network_list = field_decoded::<Vec<ChainConfig>>(fields, "network_list"@);
                let archive_config = field_decoded::<ArchiveConfig>(fields, "archive_config"@);
                if prod_mongodb_uri is Some
                    && archive_mongodb_uri is Some
                    && volume_dump_dir is Some
                    && network_list is Some
                    && archive_config is Some {
                    Some(
                        Json::Object(
                            seq![
                                ("prod_mongodb_uri"@, prod_mongodb_uri->0),
                                ("archive_mongodb_uri"@, archive_mongodb_uri->0),
                                ("volume_dump_dir"@, volume_dump_dir->0),
                                ("network_list"@, network_list->0),
                                ("archive_config"@, archive_config->0),
                            ],
                        ),
                    )
                } else {
                    None
                }
            },
            _ => None,
        }
    }

    fn from_json(v: &JsonValue) -> (r: Option<Self>) {
        match v {
            JsonValue::Object(fields) => {
                let prod_mongodb_uri: String = decode_field(fields, "prod_mongodb_uri")?;
                let archive_mongodb_uri: String = decode_field(fields, "archive_mongodb_uri")?;
                let volume_dump_dir: String = decode_field(fields, "volume_dump_dir")?;
                let network_list: Vec<ChainConfig> = decode_field(fields, "network_list")?;
                let archive_config: ArchiveConfig = decode_field(fields, "archive_config")?;
                Some(
                    ArchiveServerConfig {
                        prod_mongodb_uri,
                        archive_mongodb_uri,
                        volume_dump_dir,
                        network_list,
                        archive_config,
                    },
                )
            },
            _ => None,
        }
    }
}

impl RoundTrip for ArchiveServerConfig {
    proof fn lemma_round_trip(&self) {
        reveal_strlit("prod_mongodb_uri");
        reveal_strlit("archive_mongodb_uri");
        reveal_strlit("volume_dump_dir");
        reveal_strlit("network_list");
        reveal_strlit("archive_config");
        let fields = self.json()->Object_0;
        assert(name_key(fields[0].0, 0, 0, 0) == (16nat, 'p', 'p', 'p'));
        assert(name_key(fields[1].0, 0, 0, 0) == (19nat, 'a', 'a', 'a'));
        assert(name_key(fields[2].0, 0, 0, 0) == (15nat, 'v', 'v', 'v'));
        assert(name_key(fields[3].0, 0, 0, 0) == (12nat, 'n', 'n', 'n'));
        assert(name_key(fields[4].0, 0, 0, 0) == (14nat, 'a', 'a', 'a'));
        assert forall|i: int, j: int| 0 <= i < j < fields.len() implies fields[i].0
            != fields[j].0 by {
            assert(name_key(fields[i].0, 0, 0, 0) != name_key(fields[j].0, 0, 0, 0));
        }
        lemma_fields_found(fields);
        self.prod_mongodb_uri.lemma_round_trip();
        self.archive_mongodb_uri.lemma_round_trip();
        self.volume_dump_dir.lemma_round_trip();
        self.network_list.lemma_round_trip();
        self.archive_config.lemma_round_trip();
    }
}

} // verus!
