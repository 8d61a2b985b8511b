//! Records about prover nodes and service statistics.

use vstd::prelude::*;
use crate::interface::codec::{
    FromJson, RoundTrip, ToJson, decode_field, field_decoded, lemma_fields_found, name_key,
    push_field,
};
use crate::interface::common::{ObjectId};
use crate::json::{Json, json_of_fields, JsonField, JsonValue};
use crate::text::str_eq;

verus! {

/// The counters of the service.
#[derive(Clone, Debug, PartialEq)]
pub struct StatisticsInfo {
    pub total_images: u64,
    pub total_proofs: u64,
    pub total_tasks: u64,
    pub total_deployed: u64,
}

impl ToJson for StatisticsInfo {
    open spec fn json(&self) -> Json {
        Json::Object(
            seq![
                ("total_images"@, self.total_images.json()),
                ("total_proofs"@, self.total_proofs.json()),
                ("total_tasks"@, self.total_tasks.json()),
                ("total_deployed"@, self.total_deployed.json()),
            ],
        )
    }

    fn to_json(&self) -> (v: JsonValue) {
        let mut fields: Vec<JsonField> = Vec::new();
        push_field(&mut fields, "total_images", self.total_images.to_json());
        push_field(&mut fields, "total_proofs", self.total_proofs.to_json());
        push_field(&mut fields, "total_tasks", self.total_tasks.to_json());
        push_field(&mut fields, "total_deployed", self.total_deployed.to_json());
        proof {
            assert(json_of_fields(fields@) =~= self.json()->Object_0);
        }
        JsonValue::Object(fields)
    }
}

impl FromJson for StatisticsInfo {
    open spec fn absent() -> Option<Json> {
        None
    }

    fn from_absent() -> (r: Option<Self>) {
        None
    }

    open spec fn decoded(j: Json) -> Option<Json> {
        match j {
            Json::Object(fields) => {
                let total_images = field_decoded::<u64>(fields, "total_images"@);
                let total_proofs = field_decoded::<u64>(fields, "total_proofs"@);
                let total_tasks = field_decoded::<u64>(fields, "total_tasks"@);
                let total_deployed = field_decoded::<u64>(fields, "total_deployed"@);
                if total_images is Some
                    && total_proofs is Some
                    && total_tasks is Some
                    && total_deployed is Some {
                    Some(
                        Json::Object(
                            seq![
                                ("total_images"@, total_images->0),
                                ("total_proofs"@, total_proofs->0),
                                ("total_tasks"@, total_tasks->0),
                                ("total_deployed"@, total_deployed->0),
                            ],
                        ),
                    )
                } else {
                    None
                }
            },
            _ => None,
        }
    }

    fn from_json(v: &JsonValue) -> (r: Option<Self>) {
        match v {
            JsonValue::Object(fields) => {
                let total_images: u64 = decode_field(fields, "total_images")?;
                let total_proofs: u64 = decode_field(fields, "total_proofs")?;
                let total_tasks: u64 = decode_field(fields, "total_tasks")?;
                let total_deployed: u64 = decode_field(fields, "total_deployed")?;
                Some(StatisticsInfo { total_images, total_proofs, total_tasks, total_deployed })
            },
            _ => None,
        }
    }
}

impl RoundTrip for StatisticsInfo {
    proof fn lemma_round_trip(&self) {
        reveal_strlit("total_images");
        reveal_strlit("total_proofs");
        reveal_strlit("total_tasks");
        reveal_strlit("total_deployed");
        let fields = self.json()->Object_0;
        assert(name_key(fields[0].0, 6, 6, 6) == (12nat, 'i', 'i', 'i'));
        assert(name_key(fields[1].0, 6, 6, 6) == (12nat, 'p', 'p', 'p'));
        assert(name_key(fields[2].0, 6, 6, 6) == (11nat, 't', 't', 't'));
        assert(name_key(fields[3].0, 6, 6, 6) == (14nat, 'd', 'd', 'd'));
        assert forall|i: int, j: int| 0 <= i < j < fields.len() implies fields[i].0
            != fields[j].0 by {
            assert(name_key(fields[i].0, 6, 6, 6) != name_key(fields[j].0, 6, 6, 6));
        }
        lemma_fields_found(fields);
        self.total_images.lemma_round_trip();
        self.total_proofs.lemma_round_trip();
        self.total_tasks.lemma_round_trip();
        self.total_deployed.lemma_round_trip();
    }
}

/// How long the last task of one kind took on a node. The duration is kept as the
/// number that the service sent.
#[derive(Clone, Debug, PartialEq)]
pub struct TimingStatistics {
    pub latest_time_taken_secs: serde_json::Number,
    pub latest_timestamp: Option<String>,
    pub latest_task_id: Option<ObjectId>,
}

impl ToJson for TimingStatistics {
    open spec fn json(&self) -> Json {
        Json::Object(
            seq![
                ("latest_time_taken_secs"@, self.latest_time_taken_secs.json()),
                ("latest_timestamp"@, self.latest_timestamp.json()),
                ("latest_task_id"@, self.latest_task_id.json()),
            ],
        )
    }

    fn to_json(&self) -> (v: JsonValue) {
        let mut fields: Vec<JsonField> = Vec::new();
        push_field(&mut fields, "latest_time_taken_secs", self.latest_time_taken_secs.to_json());
        push_field(&mut fields, "latest_timestamp", self.latest_timestamp.to_json());
        push_field(&mut fields, "latest_task_id", self.latest_task_id.to_json());
        proof {
            assert(json_of_fields(fields@) =~= self.json()->Object_0);
        }
        JsonValue::Object(fields)
    }
}

impl FromJson for TimingStatistics {
    open spec fn absent() -> Option<Json> {
        None
    }

    fn from_absent() -> (r: Option<Self>) {
        None
    }

    open spec fn decoded(j: Json) -> Option<Json> {
        match j {
            Json::Object(fields) => {
                let latest_time_taken_secs = field_decoded::<serde_json::Number>(
                    fields,
                    "latest_time_taken_secs"@,
                );
                let latest_timestamp = field_decoded::<Option<String>>(fields, "latest_timestamp"@);
                let latest_task_id = field_decoded::<Option<ObjectId>>(fields, "latest_task_id"@);
                if latest_time_taken_secs is Some
                    && latest_timestamp is Some
                    && latest_task_id is Some {
                    Some(
                        Json::Object(
                            seq![
                                ("latest_time_taken_secs"@, latest_time_taken_secs->0),
                                ("latest_timestamp"@, latest_timestamp->0),
                                ("latest_task_id"@, latest_task_id->0),
                            ],
                        ),
                    )
                } else {
                    None
                }
            },
            _ => None,
        }
    }

    fn from_json(v: &JsonValue) -> (r: Option<Self>) {
        match v {
            JsonValue::Object(fields) => {
                let latest_time_taken_secs: serde_json::Number = decode_field(
                    fields,
                    "latest_time_taken_secs",
                )?;
                let latest_timestamp: Option<String> = decode_field(fields, "latest_timestamp")?;
                let latest_task_id: Option<ObjectId> = decode_field(fields, "latest_task_id")?;
                Some(TimingStatistics { latest_time_taken_secs, latest_timestamp, latest_task_id })
            },
            _ => None,
        }
    }
}

impl RoundTrip for TimingStatistics {
    proof fn lemma_round_trip(&self) {
        reveal_strlit("latest_time_taken_secs");
        reveal_strlit("latest_timestamp");
        reveal_strlit("latest_task_id");
        let fields = self.json()->Object_0;
        assert(name_key(fields[0].0, 0, 0, 0) == (22nat, 'l', 'l', 'l'));
        assert(name_key(fields[1].0, 0, 0, 0) == (16nat, 'l', 'l', 'l'));
        assert(name_key(fields[2].0, 0, 0, 0) == (14nat, 'l', 'l', 'l'));
        assert forall|i: int, j: int| 0 <= i < j < fields.len() implies fields[i].0
            != fields[j].0 by {
            assert(name_key(fields[i].0, 0, 0, 0) != name_key(fields[j].0, 0, 0, 0));
        }
        lemma_fields_found(fields);
        self.latest_time_taken_secs.lemma_round_trip();
        self.latest_timestamp.lemma_round_trip();
        self.latest_task_id.lemma_round_trip();
    }
}

/// What a prover node has done so far.
#[derive(Clone, Debug, PartialEq)]
pub struct NodeStatistics {
    pub successful_tasks: u64,
    pub failed_tasks: u64,
    pub total_tasks: u64,
    pub timed_out_count: u64,
    pub last_timed_out: Option<String>,
    pub last_timed_out_task_id: Option<ObjectId>,
    pub last_failed_ts: Option<String>,
    pub last_failed_task_id: Option<ObjectId>,
    pub last_failed_task_log: Option<String>,
    pub setup_timing_stats: Option<TimingStatistics>,
    pub proof_timing_stats: Option<TimingStatistics>,
}

impl ToJson for NodeStatistics {
    open spec fn json(&self) -> Json {
        Json::Object(
            seq![
                ("successful_tasks"@, self.successful_tasks.json()),
                ("failed_tasks"@, self.failed_tasks.json()),
                ("total_tasks"@, self.total_tasks.json()),
                ("timed_out_count"@, self.timed_out_count.json()),
                ("last_timed_out"@, self.last_timed_out.json()),
                ("last_timed_out_task_id"@, self.last_timed_out_task_id.json()),
                ("last_failed_ts"@, self.last_failed_ts.json()),
                ("last_failed_task_id"@, self.last_failed_task_id.json()),
                ("last_failed_task_log"@, self.last_failed_task_log.json()),
                ("setup_timing_stats"@, self.setup_timing_stats.json()),
                ("proof_timing_stats"@, self.proof_timing_stats.json()),
            ],
        )
    }

    fn to_json(&self) -> (v: JsonValue) {
        let mut fields: Vec<JsonField> = Vec::new();
        push_field(&mut fields, "successful_tasks", self.successful_tasks.to_json());
        push_field(&mut fields, "failed_tasks", self.failed_tasks.to_json());
        push_field(&mut fields, "total_tasks", self.total_tasks.to_json());
        push_field(&mut fields, "timed_out_count", self.timed_out_count.to_json());
        push_field(&mut fields, "last_timed_out", self.last_timed_out.to_json());
        push_field(&mut fields, "last_timed_out_task_id", self.last_timed_out_task_id.to_json());
        push_field(&mut fields, "last_failed_ts", self.last_failed_ts.to_json());
        push_field(&mut fields, "last_failed_task_id", self.last_failed_task_id.to_json());
        push_field(&mut fields, "last_failed_task_log", self.last_failed_task_log.to_json());
        push_field(&mut fields, "setup_timing_stats", self.setup_timing_stats.to_json());
        push_field(&mut fields, "proof_timing_stats", self.proof_timing_stats.to_json());
        proof {
            assert(json_of_fields(fields@) =~= self.json()->Object_0);
        }
        JsonValue::Object(fields)
    }
}

impl FromJson for NodeStatistics {
    open spec fn absent() -> Option<Json> {
        None
    }

    fn from_absent() -> (r: Option<Self>) {
        None
    }

    open spec fn decoded(j: Json) -> Option<Json> {
        match j {
            Json::Object(fields) => {
                let successful_tasks = field_decoded::<u64>(fields, "successful_tasks"@);
                let failed_tasks = field_decoded::<u64>(fields, "failed_tasks"@);
                let total_tasks = field_decoded::<u64>(fields, "total_tasks"@);
                let timed_out_count = field_decoded::<u64>(fields, "timed_out_count"@);
                let last_timed_out = field_decoded::<Option<String>>(fields, "last_timed_out"@);
                let last_timed_out_task_id = field_decoded::<Option<ObjectId>>(
                    fields,
                    "last_timed_out_task_id"@,
                );
                let last_failed_ts = field_decoded::<Option<String>>(fields, "last_failed_ts"@);
                let last_failed_task_id = field_decoded::<Option<ObjectId>>(
                    fields,
                    "last_failed_task_id"@,
                );
                let last_failed_task_log = field_decoded::<Option<String>>(
                    fields,
                    "last_failed_task_log"@,
                );
                let setup_timing_stats = field_decoded::<Option<TimingStatistics>>(
                    fields,
                    "setup_timing_stats"@,
                );
                let proof_timing_stats = field_decoded::<Option<TimingStatistics>>(
                    fields,
                    "proof_timing_stats"@,
                );
                if successful_tasks is Some
                    && failed_tasks is Some
                    && total_tasks is Some
                    && timed_out_count is Some
                    && last_timed_out is Some
                    && last_timed_out_task_id is Some
                    && last_failed_ts is Some
                    && last_failed_task_id is Some
                    && last_failed_task_log is Some
                    && setup_timing_stats is Some
                    && proof_timing_stats is Some {
                    Some(
                        Json::Object(
                            seq![
                                ("successful_tasks"@, successful_tasks->0),
                                ("failed_tasks"@, failed_tasks->0),
                                ("total_tasks"@, total_tasks->0),
                                ("timed_out_count"@, timed_out_count->0),
                                ("last_timed_out"@, last_timed_out->0),
                                ("last_timed_out_task_id"@, last_timed_out_task_id->0),
                                ("last_failed_ts"@, last_failed_ts->0),
                                ("last_failed_task_id"@, last_failed_task_id->0),
                                ("last_failed_task_log"@, last_failed_task_log->0),
                                ("setup_timing_stats"@, setup_timing_stats->0),
                                ("proof_timing_stats"@, proof_timing_stats->0),
                            ],
                        ),
                    )
                } else {
                    None
                }
            },
            _ => None,
        }
    }

    fn from_json(v: &JsonValue) -> (r: Option<Self>) {
        match v {
            JsonValue::Object(fields) => {
                let successful_tasks: u64 = decode_field(fields, "successful_tasks")?;
                let failed_tasks: u64 = decode_field(fields, "failed_tasks")?;
                let total_tasks: u64 = decode_field(fields, "total_tasks")?;
                let timed_out_count: u64 = decode_field(fields, "timed_out_count")?;
                let last_timed_out: Option<String> = decode_field(fields, "last_timed_out")?;
                let last_timed_out_task_id: Option<ObjectId> = decode_field(
                    fields,
                    "last_timed_out_task_id",
                )?;
                let last_failed_ts: Option<String> = decode_field(fields, "last_failed_ts")?;
                let last_failed_task_id: Option<ObjectId> = decode_field(
                    fields,
                    "last_failed_task_id",
                )?;
                let last_failed_task_log: Option<String> = decode_field(
                    fields,
                    "last_failed_task_log",
                )?;
                let setup_timing_stats: Option<TimingStatistics> = decode_field(
                    fields,
                    "setup_timing_stats",
                )?;
                let proof_timing_stats: Option<TimingStatistics> = decode_field(
                    fields,
                    "proof_timing_stats",
                )?;
                Some(
                    NodeStatistics {
                        successful_tasks,
                        failed_tasks,
                        total_tasks,
                        timed_out_count,
                        last_timed_out,
                        last_timed_out_task_id,
                        last_failed_ts,
                        last_failed_task_id,
                        last_failed_task_log,
                        setup_timing_stats,
                        proof_timing_stats,
                    },
                )
            },
            _ => None,
        }
    }
}

impl RoundTrip for NodeStatistics {
    proof fn lemma_round_trip(&self) {
        reveal_strlit("successful_tasks");
        reveal_strlit("failed_tasks");
        reveal_strlit("total_tasks");
        reveal_strlit("timed_out_count");
        reveal_strlit("last_timed_out");
        reveal_strlit("last_timed_out_task_id");
        reveal_strlit("last_failed_ts");
        reveal_strlit("last_failed_task_id");
        reveal_strlit("last_failed_task_log");
        reveal_strlit("setup_timing_stats");
        reveal_strlit("proof_timing_stats");
        let fields = self.json()->Object_0;
        assert(name_key(fields[0].0, 0, 5, 5) == (16nat, 's', 's', 's'));
        assert(name_key(fields[1].0, 0, 5, 5) == (12nat, 'f', 'd', 'd'));
        assert(name_key(fields[2].0, 0, 5, 5) == (11nat, 't', '_', '_'));
        assert(name_key(fields[3].0, 0, 5, 5) == (15nat, 't', '_', '_'));
        assert(name_key(fields[4].0, 0, 5, 5) == (14nat, 'l', 't', 't'));
        assert(name_key(fields[5].0, 0, 5, 5) == (22nat, 'l', 't', 't'));
        assert(name_key(fields[6].0, 0, 5, 5) == (14nat, 'l', 'f', 'f'));
        assert(name_key(fields[7].0, 0, 5, 5) == (19nat, 'l', 'f', 'f'));
        assert(name_key(fields[8].0, 0, 5, 5) == (20nat, 'l', 'f', 'f'));
        assert(name_key(fields[9].0, 0, 5, 5) == (18nat, 's', '_', '_'));
        assert(name_key(fields[10].0, 0, 5, 5) == (18nat, 'p', '_', '_'));
        assert forall|i: int, j: int| 0 <= i < j < fields.len() implies fields[i].0
            != fields[j].0 by {
            assert(name_key(fields[i].0, 0, 5, 5) != name_key(fields[j].0, 0, 5, 5));
        }
        lemma_fields_found(fields);
        self.successful_tasks.lemma_round_trip();
        self.failed_tasks.lemma_round_trip();
        self.total_tasks.lemma_round_trip();
        self.timed_out_count.lemma_round_trip();
        self.last_timed_out.lemma_round_trip();
        self.last_timed_out_task_id.lemma_round_trip();
        self.last_failed_ts.lemma_round_trip();
        self.last_failed_task_id.lemma_round_trip();
        self.last_failed_task_log.lemma_round_trip();
        self.setup_timing_stats.lemma_round_trip();
        self.proof_timing_stats.lemma_round_trip();
    }
}

/// The version of a prover node.
#[derive(Clone, Debug, PartialEq)]
pub struct VersionInfo {
    pub version: String,
}

impl ToJson for VersionInfo {
    open spec fn json(&self) -> Json {
        Json::Object(
            seq![
                ("version"@, self.version.json()),
            ],
        )
    }

    fn to_json(&self) -> (v: JsonValue) {
        let mut fields: Vec<JsonField> = Vec::new();
        push_field(&mut fields, "version", self.version.to_json());
        proof {
            assert(json_of_fields(fields@) =~= self.json()->Object_0);
        }
        JsonValue::Object(fields)
    }
}

impl FromJson for VersionInfo {
    open spec fn absent() -> Option<Json> {
        None
    }

    fn from_absent() -> (r: Option<Self>) {
        None
    }

    open spec fn decoded(j: Json) -> Option<Json> {
        match j {
            Json::Object(fields) => {
                let version = field_decoded::<String>(fields, "version"@);
                if version is Some {
                    Some(
                        Json::Object(
                            seq![
                                ("version"@, version->0),
                            ],
                        ),
                    )
                } else {
                    None
                }
            },
            _ => None,
        }
    }

    fn from_json(v: &JsonValue) -> (r: Option<Self>) {
        match v {
            JsonValue::Object(fields) => {
                let version: String = decode_field(fields, "version")?;
                Some(VersionInfo { version })
            },
            _ => None,
        }
    }
}

impl RoundTrip for VersionInfo {
    proof fn lemma_round_trip(&self) {
        reveal_strlit("version");
        let fields = self.json()->Object_0;
        assert(name_key(fields[0].0, 0, 0, 0) == (7nat, 'v', 'v', 'v'));
        assert forall|i: int, j: int| 0 <= i < j < fields.len() implies fields[i].0
            != fields[j].0 by {
            assert(name_key(fields[i].0, 0, 0, 0) != name_key(fields[j].0, 0, 0, 0));
        }
        lemma_fields_found(fields);
        self.version.lemma_round_trip();
    }
}

/// The standing of a prover node.
#[derive(Clone, Debug, PartialEq)]
pub enum ProverLevel {
    Inactive,
    Intern,
    Active,
    Certified,
}

impl ProverLevel {
    /// The name of the variant, which is its wire form.
    pub open spec fn name(&self) -> Seq<char> {
        match self {
            ProverLevel::Inactive => "Inactive"@,
            ProverLevel::Intern => "Intern"@,
            ProverLevel::Active => "Active"@,
            ProverLevel::Certified => "Certified"@,
        }
    }

    pub fn as_str(&self) -> (s: &'static str)
        ensures
            s@ == self.name(),
    {
        match self {
            ProverLevel::Inactive => "Inactive",
            ProverLevel::Intern => "Intern",
            ProverLevel::Active => "Active",
            ProverLevel::Certified => "Certified",
        }
    }
}

impl ToJson for ProverLevel {
    open spec fn json(&self) -> Json {
        Json::String(self.name())
    }

    fn to_json(&self) -> (v: JsonValue) {
        JsonValue::from_str(self.as_str())
    }
}

impl FromJson for ProverLevel {
    open spec fn absent() -> Option<Json> {
        None
    }

    fn from_absent() -> (r: Option<Self>) {
        None
    }

    open spec fn decoded(j: Json) -> Option<Json> {
        match j {
            Json::String(s) => if s == "Inactive"@
                || s == "Intern"@
                || s == "Active"@
                || s == "Certified"@ {
                Some(j)
            } else {
                None
            },
            _ => None,
        }
    }

    fn from_json(v: &JsonValue) -> (r: Option<Self>) {
        match v {
            JsonValue::String(s) => {
                if str_eq(s.as_str(), "Inactive") {
                    Some(ProverLevel::Inactive)
                } else if str_eq(s.as_str(), "Intern") {
                    Some(ProverLevel::Intern)
                } else if str_eq(s.as_str(), "Active") {
                    Some(ProverLevel::Active)
                } else if str_eq(s.as_str(), "Certified") {
                    Some(ProverLevel::Certified)
                } else {
                    None
                }
            },
            _ => None,
        }
    }
}

impl RoundTrip for ProverLevel {
    proof fn lemma_round_trip(&self) {
    }
}

/// The task that a prover node tried last.
#[derive(Clone, Debug, PartialEq)]
pub struct LastAttemptedTask {
    pub task_id: ObjectId,
    pub timestamp: String,
}

impl ToJson for LastAttemptedTask {
    open spec fn json(&self) -> Json {
        Json::Object(
            seq![
                ("task_id"@, self.task_id.json()),
                ("timestamp"@, self.timestamp.json()),
            ],
        )
    }

    fn to_json(&self) -> (v: JsonValue) {
        let mut fields: Vec<JsonField> = Vec::new();
        push_field(&mut fields, "task_id", self.task_id.to_json());
        push_field(&mut fields, "timestamp", self.timestamp.to_json());
        proof {
            assert(json_of_fields(fields@) =~= self.json()->Object_0);
        }
        JsonValue::Object(fields)
    }
}

impl FromJson for LastAttemptedTask {
    open spec fn absent() -> Option<Json> {
        None
    }

    fn from_absent() -> (r: Option<Self>) {
        None
    }

    open spec fn decoded(j: Json) -> Option<Json> {
        match j {
            Json::Object(fields) => {
                let task_id = field_decoded::<ObjectId>(fields, "task_id"@);
                let timestamp = field_decoded::<String>(fields, "timestamp"@);
                if task_id is Some
                    && timestamp is Some {
                    Some(
                        Json::Object(
                            seq![
                                ("task_id"@, task_id->0),
                                ("timestamp"@, timestamp->0),
                            ],
                        ),
                    )
                } else {
                    None
                }
            },
            _ => None,
        }
    }

    fn from_json(v: &JsonValue) -> (r: Option<Self>) {
        match v {
            JsonValue::Object(fields) => {
                let task_id: ObjectId = decode_field(fields, "task_id")?;
                let timestamp: String = decode_field(fields, "timestamp")?;
                Some(LastAttemptedTask { task_id, timestamp })
            },
            _ => None,
        }
    }
}

impl RoundTrip for LastAttemptedTask {
    proof fn lemma_round_trip(&self) {
        reveal_strlit("task_id");
        reveal_strlit("timestamp");
        let fields = self.json()->Object_0;
        assert(name_key(fields[0].0, 0, 0, 0) == (7nat, 't', 't', 't'));
        assert(name_key(fields[1].0, 0, 0, 0) == (9nat, 't', 't', 't'));
        assert forall|i: int, j: int| 0 <= i < j < fields.len() implies fields[i].0
            != fields[j].0 by {
            assert(name_key(fields[i].0, 0, 0, 0) != name_key(fields[j].0, 0, 0, 0));
        }
        lemma_fields_found(fields);
        self.task_id.lemma_round_trip();
        self.timestamp.lemma_round_trip();
    }
}

/// A prover node as the service sees it online.
#[derive(Clone, Debug, PartialEq)]
pub struct OnlineNodeInfo {
    pub address: String,
    pub prover_level: ProverLevel,
    pub last_completed_dry_run_task_id: Option<ObjectId>,
    pub last_active_time: String,
    pub online: bool,
}

impl ToJson for OnlineNodeInfo {
    open spec fn json(&self) -> Json {
        Json::Object(
            seq![
                ("address"@, self.address.json()),
                ("prover_level"@, self.prover_level.json()),
                ("last_completed_dry_run_task_id"@, self.last_completed_dry_run_task_id.json()),
                ("last_active_time"@, self.last_active_time.json()),
                ("online"@, self.online.json()),
            ],
        )
    }

    fn to_json(&self) -> (v: JsonValue) {
        let mut fields: Vec<JsonField> = Vec::new();
        push_field(&mut fields, "address", self.address.to_json());
        push_field(&mut fields, "prover_level", self.prover_level.to_json());
        push_field(
            &mut fields,
            "last_completed_dry_run_task_id",
            self.last_completed_dry_run_task_id.to_json(),
        );
        push_field(&mut fields, "last_active_time", self.last_active_time.to_json());
        push_field(&mut fields, "online", self.online.to_json());
        proof {
            assert(json_of_fields(fields@) =~= self.json()->Object_0);
        }
        JsonValue::Object(fields)
    }
}

impl FromJson for OnlineNodeInfo {
    open spec fn absent() -> Option<Json> {
        None
    }

    fn from_absent() -> (r: Option<Self>) {
        None
    }

    open spec fn decoded(j: Json) -> Option<Json> {
        match j {
            Json::Object(fields) => {
                let address = field_decoded::<String>(fields, "address"@);
                let prover_level = field_decoded::<ProverLevel>(fields, "prover_level"@);
                let last_completed_dry_run_task_id = field_decoded::<Option<ObjectId>>(
                    fields,
                    "last_completed_dry_run_task_id"@,
                );
                let last_active_time = field_decoded::<String>(fields, "last_active_time"@);
                let online = field_decoded::<bool>(fields, "online"@);
                if address is Some
                    && prover_level is Some
                    && last_completed_dry_run_task_id is Some
                    && last_active_time is Some
                    && online is Some {
                    Some(
                        Json::Object(
                            seq![
                                ("address"@, address->0),
                                ("prover_level"@, prover_level->0),
                                (
                                    "last_completed_dry_run_task_id"@,
                                    last_completed_dry_run_task_id->0,
                                ),
                                ("last_active_time"@, last_active_time->0),
                                ("online"@, online->0),
                            ],
                        ),
                    )
                } else {
                    None
                }
            },
            _ => None,
        }
    }

    fn from_json(v: &JsonValue) -> (r: Option<Self>) {
        match v {
            JsonValue::Object(fields) => {
                let address: String = decode_field(fields, "address")?;
                let prover_level: ProverLevel = decode_field(fields, "prover_level")?;
                let last_completed_dry_run_task_id: Option<ObjectId> = decode_field(
                    fields,
                    "last_completed_dry_run_task_id",
                )?;
                let last_active_time: String = decode_field(fields, "last_active_time")?;
                let online: bool = decode_field(fields, "online")?;
                Some(
                    OnlineNodeInfo {
                        address,
                        prover_level,
                        last_completed_dry_run_task_id,
                        last_active_time,
                        online,
                    },
                )
            },
            _ => None,
        }
    }
}

impl RoundTrip for OnlineNodeInfo {
    proof fn lemma_round_trip(&self) {
        reveal_strlit("address");
        reveal_strlit("prover_level");
        reveal_strlit("last_completed_dry_run_task_id");
        reveal_strlit("last_active_time");
        reveal_strlit("online");
        let fields = self.json()->Object_0;
        assert(name_key(fields[0].0, 0, 0, 0) == (7nat, 'a', 'a', 'a'));
        assert(name_key(fields[1].0, 0, 0, 0) == (12nat, 'p', 'p', 'p'));
        assert(name_key(fields[2].0, 0, 0, 0) == (30nat, 'l', 'l', 'l'));
        assert(name_key(fields[3].0, 0, 0, 0) == (16nat, 'l', 'l', 'l'));
        assert(name_key(fields[4].0, 0, 0, 0) == (6nat, 'o', 'o', 'o'));
        assert forall|i: int, j: int| 0 <= i < j < fields.len() implies fields[i].0
            != fields[j].0 by {
            assert(name_key(fields[i].0, 0, 0, 0) != name_key(fields[j].0, 0, 0, 0));
        }
        lemma_fields_found(fields);
        self.address.lemma_round_trip();
        self.prover_level.lemma_round_trip();
        self.last_completed_dry_run_task_id.lemma_round_trip();
        self.last_active_time.lemma_round_trip();
        self.online.lemma_round_trip();
    }
}

/// A prover node with its statistics.
#[derive(Clone, Debug, PartialEq)]
pub struct ProverNode {
    pub address: String,
    pub statistics: NodeStatistics,
    pub version_info: Option<VersionInfo>,
    pub performance_track: String,
    pub prover_level: ProverLevel,
    pub last_attempted_task: Option<LastAttemptedTask>,
    pub online_activity: Option<OnlineNodeInfo>,
}

impl ToJson for ProverNode {
    open spec fn json(&self) -> Json {
        Json::Object(
            seq![
                ("address"@, self.address.json()),
                ("statistics"@, self.statistics.json()),
                ("version_info"@, self.version_info.json()),
                ("performance_track"@, self.performance_track.json()),
                ("prover_level"@, self.prover_level.json()),
                ("last_attempted_task"@, self.last_attempted_task.json()),
                ("online_activity"@, self.online_activity.json()),
            ],
        )
    }

    fn to_json(&self) -> (v: JsonValue) {
        let mut fields: Vec<JsonField> = Vec::new();
        push_field(&mut fields, "address", self.address.to_json());
        push_field(&mut fields, "statistics", self.statistics.to_json());
        push_field(&mut fields, "version_info", self.version_info.to_json());
        push_field(&mut fields, "performance_track", self.performance_track.to_json());
        push_field(&mut fields, "prover_level", self.prover_level.to_json());
        push_field(&mut fields, "last_attempted_task", self.last_attempted_task.to_json());
        push_field(&mut fields, "online_activity", self.online_activity.to_json());
        proof {
            assert(json_of_fields(fields@) =~= self.json()->Object_0);
        }
        JsonValue::Object(fields)
    }
}

impl FromJson for ProverNode {
    open spec fn absent() -> Option<Json> {
        None
    }

    fn from_absent() -> (r: Option<Self>) {
        None
    }

    open spec fn decoded(j: Json) -> Option<Json> {
        match j {
            Json::Object(fields) => {
                let address = field_decoded::<String>(fields, "address"@);
                let statistics = field_decoded::<NodeStatistics>(fields, "statistics"@);
                let version_info = field_decoded::<Option<VersionInfo>>(fields, "version_info"@);
                let performance_track = field_decoded::<String>(fields, "performance_track"@);
                let prover_level = field_decoded::<ProverLevel>(fields, "prover_level"@);
                let last_attempted_task = field_decoded::<Option<LastAttemptedTask>>(
                    fields,
                    "last_attempted_task"@,
                );
                let online_activity = field_decoded::<Option<OnlineNodeInfo>>(
                    fields,
                    "online_activity"@,
                );
                if address is Some
                    && statistics is Some
                    && version_info is Some
                    && performance_track is Some
                    && prover_level is Some
                    && last_attempted_task is Some
                    && online_activity is Some {
                    Some(
                        Json::Object(
                            seq![
                                ("address"@, address->0),
                                ("statistics"@, statistics->0),
                                ("version_info"@, version_info->0),
                                ("performance_track"@, performance_track->0),
                                ("prover_level"@, prover_level->0),
                                ("last_attempted_task"@, last_attempted_task->0),
                                ("online_activity"@, online_activity->0),
                            ],
                        ),
                    )
                } else {
                    None
                }
            },
            _ => None,
        }
    }

    fn from_json(v: &JsonValue) -> (r: Option<Self>) {
        match v {
            JsonValue::Object(fields) => {
                let address: String = decode_field(fields, "address")?;
                let statistics: NodeStatistics = decode_field(fields, "statistics")?;
                let version_info: Option<VersionInfo> = decode_field(fields, "version_info")?;
                let performance_track: String = decode_field(fields, "performance_track")?;
                let prover_level: ProverLevel = decode_field(fields, "prover_level")?;
                let last_attempted_task: Option<LastAttemptedTask> = decode_field(
                    fields,
                    "last_attempted_task",
                )?;
                let online_activity: Option<OnlineNodeInfo> = decode_field(
                    fields,
                    "online_activity",
                )?;
                Some(
                    ProverNode {
                        address,
                        statistics,
                        version_info,
                        performance_track,
                        prover_level,
                        last_attempted_task,
                        online_activity,
                    },
                )
            },
            _ => None,
        }
    }
}

impl RoundTrip for ProverNode {
    proof fn lemma_round_trip(&self) {
        reveal_strlit("address");
        reveal_strlit("statistics");
        reveal_strlit("version_info");
        reveal_strlit("performance_track");
        reveal_strlit("prover_level");
        reveal_strlit("last_attempted_task");
        reveal_strlit("online_activity");
        let fields = self.json()->Object_0;
        assert(name_key(fields[0].0, 0, 0, 0) == (7nat, 'a', 'a', 'a'));
        assert(name_key(fields[1].0, 0, 0, 0) == (10nat, 's', 's', 's'));
        assert(name_key(fields[2].0, 0, 0, 0) == (12nat, 'v', 'v', 'v'));
        assert(name_key(fields[3].0, 0, 0, 0) == (17nat, 'p', 'p', 'p'));
        assert(name_key(fields[4].0, 0, 0, 0) == (12nat, 'p', 'p', 'p'));
        assert(name_key(fields[5].0, 0, 0, 0) == (19nat, 'l', 'l', 'l'));
        assert(name_key(fields[6].0, 0, 0, 0) == (15nat, 'o', 'o', 'o'));
        assert forall|i: int, j: int| 0 <= i < j < fields.len() implies fields[i].0
            != fields[j].0 by {
            assert(name_key(fields[i].0, 0, 0, 0) != name_key(fields[j].0, 0, 0, 0));
        }
        lemma_fields_found(fields);
        self.address.lemma_round_trip();
        self.statistics.lemma_round_trip();
        self.version_info.lemma_round_trip();
        self.performance_track.lemma_round_trip();
        self.prover_level.lemma_round_trip();
        self.last_attempted_task.lemma_round_trip();
        self.online_activity.lemma_round_trip();
    }
}

/// The prover nodes that are online, by level.
#[derive(Clone, Debug, PartialEq)]
pub struct OnlineNodesSummary {
    pub certified: Vec<OnlineNodeInfo>,
    pub active: Vec<OnlineNodeInfo>,
    pub intern: Vec<OnlineNodeInfo>,
    pub inactive: Vec<OnlineNodeInfo>,
}

impl ToJson for OnlineNodesSummary {
    open spec fn json(&self) -> Json {
        Json::Object(
            seq![
                ("certified"@, self.certified.json()),
                ("active"@, self.active.json()),
                ("intern"@, self.intern.json()),
                ("inactive"@, self.inactive.json()),
            ],
        )
    }

    fn to_json(&self) -> (v: JsonValue) {
        let mut fields: Vec<JsonField> = Vec::new();
        push_field(&mut fields, "certified", self.certified.to_json());
        push_field(&mut fields, "active", self.active.to_json());
        push_field(&mut fields, "intern", self.intern.to_json());
        push_field(&mut fields, "inactive", self.inactive.to_json());
        proof {
            assert(json_of_fields(fields@) =~= self.json()->Object_0);
        }
        JsonValue::Object(fields)
    }
}

impl FromJson for OnlineNodesSummary {
    open spec fn absent() -> Option<Json> {
        None
    }

    fn from_absent() -> (r: Option<Self>) {
        None
    }

    open spec fn decoded(j: Json) -> Option<Json> {
        match j {
            Json::Object(fields) => {
                let certified = field_decoded::<Vec<OnlineNodeInfo>>(fields, "certified"@);
                let active = field_decoded::<Vec<OnlineNodeInfo>>(fields, "active"@);
                let intern = field_decoded::<Vec<OnlineNodeInfo>>(fields, "intern"@);
                let inactive = field_decoded::<Vec<OnlineNodeInfo>>(fields, "inactive"@);
                if certified is Some
                    && active is Some
                    && intern is Some
                    && inactive is Some {
                    Some(
                        Json::Object(
                            seq![
                                ("certified"@, certified->0),
                                ("active"@, active->0),
                                ("intern"@, intern->0),
                                ("inactive"@, inactive->0),
                            ],
                        ),
                    )
                } else {
                    None
                }
            },
            _ => None,
        }
    }

    fn from_json(v: &JsonValue) -> (r: Option<Self>) {
        match v {
            JsonValue::Object(fields) => {
                let certified: Vec<OnlineNodeInfo> = decode_field(fields, "certified")?;
                let active: Vec<OnlineNodeInfo> = decode_field(fields, "active")?;
                let intern: Vec<OnlineNodeInfo> = decode_field(fields, "intern")?;
                let inactive: Vec<OnlineNodeInfo> = decode_field(fields, "inactive")?;
                Some(OnlineNodesSummary { certified, active, intern, inactive })
            },
            _ => None,
        }
    }
}

impl RoundTrip for OnlineNodesSummary {
    proof fn lemma_round_trip(&self) {
        reveal_strlit("certified");
        reveal_strlit("active");
        reveal_strlit("intern");
        reveal_strlit("inactive");
        let fields = self.json()->Object_0;
        assert(name_key(fields[0].0, 0, 0, 0) == (9nat, 'c', 'c', 'c'));
        assert(name_key(fields[1].0, 0, 0, 0) == (6nat, 'a', 'a', 'a'));
        assert(name_key(fields[2].0, 0, 0, 0) == (6nat, 'i', 'i', 'i'));
        assert(name_key(fields[3].0, 0, 0, 0) == (8nat, 'i', 'i', 'i'));
        assert forall|i: int, j: int| 0 <= i < j < fields.len() implies fields[i].0
            != fields[j].0 by {
            assert(name_key(fields[i].0, 0, 0, 0) != name_key(fields[j].0, 0, 0, 0));
        }
        lemma_fields_found(fields);
        self.certified.lemma_round_trip();
        self.active.lemma_round_trip();
        self.intern.lemma_round_trip();
        self.inactive.lemma_round_trip();
    }
}

/// How many prover nodes there are of each level.
#[derive(Clone, Debug, PartialEq)]
pub struct ProverNodesSummary {
    pub certified_prover_count: u64,
    pub active_prover_count: u64,
    pub intern_prover_count: u64,
    pub inactive_prover_count: u64,
}

impl ToJson for ProverNodesSummary {
    open spec fn json(&self) -> Json {
        Json::Object(
            seq![
                ("certified_prover_count"@, self.certified_prover_count.json()),
                ("active_prover_count"@, self.active_prover_count.json()),
                ("intern_prover_count"@, self.intern_prover_count.json()),
                ("inactive_prover_count"@, self.inactive_prover_count.json()),
            ],
        )
    }

    fn to_json(&self) -> (v: JsonValue) {
        let mut fields: Vec<JsonField> = Vec::new();
        push_field(&mut fields, "certified_prover_count", self.certified_prover_count.to_json());
        push_field(&mut fields, "active_prover_count", self.active_prover_count.to_json());
        push_field(&mut fields, "intern_prover_count", self.intern_prover_count.to_json());
        push_field(&mut fields, "inactive_prover_count", self.inactive_prover_count.to_json());
        proof {
            assert(json_of_fields(fields@) =~= self.json()->Object_0);
        }
        JsonValue::Object(fields)
    }
}

impl FromJson for ProverNodesSummary {
    open spec fn absent() -> Option<Json> {
        None
    }

    fn from_absent() -> (r: Option<Self>) {
        None
    }

    open spec fn decoded(j: Json) -> Option<Json> {
        match j {
            Json::Object(fields) => {
                let certified_prover_count = field_decoded::<u64>(
                    fields,
                    "certified_prover_count"@,
                );
                let active_prover_count = field_decoded::<u64>(fields, "active_prover_count"@);
                let intern_prover_count = field_decoded::<u64>(fields, "intern_prover_count"@);
                let inactive_prover_count = field_decoded::<u64>(fields, "inactive_prover_count"@);
                if certified_prover_count is Some
                    && active_prover_count is Some
                    && intern_prover_count is Some
                    && inactive_prover_count is Some {
                    Some(
                        Json::Object(
                            seq![
                                ("certified_prover_count"@, certified_prover_count->0),
                                ("active_prover_count"@, active_prover_count->0),
                                ("intern_prover_count"@, intern_prover_count->0),
                                ("inactive_prover_count"@, inactive_prover_count->0),
                            ],
                        ),
                    )
                } else {
                    None
                }
            },
            _ => None,
        }
    }

    fn from_json(v: &JsonValue) -> (r: Option<Self>) {
        match v {
            JsonValue::Object(fields) => {
                let certified_prover_count: u64 = decode_field(fields, "certified_prover_count")?;
                let active_prover_count: u64 = decode_field(fields, "active_prover_count")?;
                let intern_prover_count: u64 = decode_field(fields, "intern_prover_count")?;
                let inactive_prover_count: u64 = decode_field(fields, "inactive_prover_count")?;
                Some(
                    ProverNodesSummary {
                        certified_prover_count,
                        active_prover_count,
                        intern_prover_count,
                        inactive_prover_count,
                    },
                )
            },
            _ => None,
        }
    }
}

impl RoundTrip for ProverNodesSummary {
    proof fn lemma_round_trip(&self) {
        reveal_strlit("certified_prover_count");
        reveal_strlit("active_prover_count");
        reveal_strlit("intern_prover_count");
        reveal_strlit("inactive_prover_count");
        let fields = self.json()->Object_0;
        assert(name_key(fields[0].0, 0, 0, 0) == (22nat, 'c', 'c', 'c'));
        assert(name_key(fields[1].0, 0, 0, 0) == (19nat, 'a', 'a', 'a'));
        assert(name_key(fields[2].0, 0, 0, 0) == (19nat, 'i', 'i', 'i'));
        assert(name_key(fields[3].0, 0, 0, 0) == (21nat, 'i', 'i', 'i'));
        assert forall|i: int, j: int| 0 <= i < j < fields.len() implies fields[i].0
            != fields[j].0 by {
            assert(name_key(fields[i].0, 0, 0, 0) != name_key(fields[j].0, 0, 0, 0));
        }
        lemma_fields_found(fields);
        self.certified_prover_count.lemma_round_trip();
        self.active_prover_count.lemma_round_trip();
        self.intern_prover_count.lemma_round_trip();
        self.inactive_prover_count.lemma_round_trip();
    }
}

/// Filters and paging for the statistics of prover nodes.
#[derive(Clone, Debug, PartialEq)]
pub struct NodeStatisticsQueryParams {
    pub address: Option<String>,
    pub start: Option<u64>,
    pub total: Option<u64>,
}

impl ToJson for NodeStatisticsQueryParams {
    open spec fn json(&self) -> Json {
        Json::Object(
            seq![
                ("address"@, self.address.json()),
                ("start"@, self.start.json()),
                ("total"@, self.total.json()),
            ],
        )
    }

    fn to_json(&self) -> (v: JsonValue) {
        let mut fields: Vec<JsonField> = Vec::new();
        push_field(&mut fields, "address", self.address.to_json());
        push_field(&mut fields, "start", self.start.to_json());
        push_field(&mut fields, "total", self.total.to_json());
        proof {
            assert(json_of_fields(fields@) =~= self.json()->Object_0);
        }
        JsonValue::Object(fields)
    }
}

/// A span of time on one prover node.
#[derive(Clone, Debug, PartialEq)]
pub struct ProverNodeTimeRange {
    pub address: String,
    pub start: String,
    pub end: String,
}

impl ToJson for ProverNodeTimeRange {
    open spec fn json(&self) -> Json {
        Json::Object(
            seq![
                ("address"@, self.address.json()),
                ("start"@, self.start.json()),
                ("end"@, self.end.json()),
            ],
        )
    }

    fn to_json(&self) -> (v: JsonValue) {
        let mut fields: Vec<JsonField> = Vec::new();
        push_field(&mut fields, "address", self.address.to_json());
        push_field(&mut fields, "start", self.start.to_json());
        push_field(&mut fields, "end", self.end.to_json());
        proof {
            assert(json_of_fields(fields@) =~= self.json()->Object_0);
        }
        JsonValue::Object(fields)
    }
}

/// Asks for the statistics of prover nodes over spans of time.
#[derive(Clone, Debug, PartialEq)]
pub struct ProverNodeTimeRangeStatsParams {
    pub ranges: Vec<ProverNodeTimeRange>,
}

impl ToJson for ProverNodeTimeRangeStatsParams {
    open spec fn json(&self) -> Json {
        Json::Object(
            seq![
                ("ranges"@, self.ranges.json()),
            ],
        )
    }

    fn to_json(&self) -> (v: JsonValue) {
        let mut fields: Vec<JsonField> = Vec::new();
        push_field(&mut fields, "ranges", self.ranges.to_json());
        proof {
            assert(json_of_fields(fields@) =~= self.json()->Object_0);
        }
        JsonValue::Object(fields)
    }
}

/// How the tasks of a span of time ended.
#[derive(Clone, Debug, PartialEq)]
pub struct RangeStats {
    pub successful: u64,
    pub failed: u64,
    pub timed_out: u64,
}

impl ToJson for RangeStats {
    open spec fn json(&self) -> Json {
        Json::Object(
            seq![
                ("successful"@, self.successful.json()),
                ("failed"@, self.failed.json()),
                ("timed_out"@, self.timed_out.json()),
            ],
        )
    }

    fn to_json(&self) -> (v: JsonValue) {
        let mut fields: Vec<JsonField> = Vec::new();
        push_field(&mut fields, "successful", self.successful.to_json());
        push_field(&mut fields, "failed", self.failed.to_json());
        push_field(&mut fields, "timed_out", self.timed_out.to_json());
        proof {
            assert(json_of_fields(fields@) =~= self.json()->Object_0);
        }
        JsonValue::Object(fields)
    }
}

impl FromJson for RangeStats {
    open spec fn absent() -> Option<Json> {
        None
    }

    fn from_absent() -> (r: Option<Self>) {
        None
    }

    open spec fn decoded(j: Json) -> Option<Json> {
        match j {
            Json::Object(fields) => {
                let successful = field_decoded::<u64>(fields, "successful"@);
                let failed = field_decoded::<u64>(fields, "failed"@);
                let timed_out = field_decoded::<u64>(fields, "timed_out"@);
                if successful is Some
                    && failed is Some
                    && timed_out is Some {
                    Some(
                        Json::Object(
                            seq![
                                ("successful"@, successful->0),
                                ("failed"@, failed->0),
                                ("timed_out"@, timed_out->0),
                            ],
                        ),
                    )
                } else {
                    None
                }
            },
            _ => None,
        }
    }

    fn from_json(v: &JsonValue) -> (r: Option<Self>) {
        match v {
            JsonValue::Object(fields) => {
                let successful: u64 = decode_field(fields, "successful")?;
                let failed: u64 = decode_field(fields, "failed")?;
                let timed_out: u64 = decode_field(fields, "timed_out")?;
                Some(RangeStats { successful, failed, timed_out })
            },
            _ => None,
        }
    }
}

impl RoundTrip for RangeStats {
    proof fn lemma_round_trip(&self) {
        reveal_strlit("successful");
        reveal_strlit("failed");
        reveal_strlit("timed_out");
        let fields = self.json()->Object_0;
        assert(name_key(fields[0].0, 0, 0, 0) == (10nat, 's', 's', 's'));
        assert(name_key(fields[1].0, 0, 0, 0) == (6nat, 'f', 'f', 'f'));
        assert(name_key(fields[2].0, 0, 0, 0) == (9nat, 't', 't', 't'));
        assert forall|i: int, j: int| 0 <= i < j < fields.len() implies fields[i].0
            != fields[j].0 by {
            assert(name_key(fields[i].0, 0, 0, 0) != name_key(fields[j].0, 0, 0, 0));
        }
        lemma_fields_found(fields);
        self.successful.lemma_round_trip();
        self.failed.lemma_round_trip();
        self.timed_out.lemma_round_trip();
    }
}

/// The statistics of one span of time.
#[derive(Clone, Debug, PartialEq)]
pub struct ProverNodeTimeRangeStats {
    pub fst_id: Option<String>,
    pub fst_ts: Option<String>,
    pub lst_id: Option<String>,
    pub lst_ts: Option<String>,
    pub stats: RangeStats,
}

impl ToJson for ProverNodeTimeRangeStats {
    open spec fn json(&self) -> Json {
        Json::Object(
            seq![
                ("fst_id"@, self.fst_id.json()),
                ("fst_ts"@, self.fst_ts.json()),
                ("lst_id"@, self.lst_id.json()),
                ("lst_ts"@, self.lst_ts.json()),
                ("stats"@, self.stats.json()),
            ],
        )
    }

    fn to_json(&self) -> (v: JsonValue) {
        let mut fields: Vec<JsonField> = Vec::new();
        push_field(&mut fields, "fst_id", self.fst_id.to_json());
        push_field(&mut fields, "fst_ts", self.fst_ts.to_json());
        push_field(&mut fields, "lst_id", self.lst_id.to_json());
        push_field(&mut fields, "lst_ts", self.lst_ts.to_json());
        push_field(&mut fields, "stats", self.stats.to_json());
        proof {
            assert(json_of_fields(fields@) =~= self.json()->Object_0);
        }
        JsonValue::Object(fields)
    }
}

impl FromJson for ProverNodeTimeRangeStats {
    open spec fn absent() -> Option<Json> {
        None
    }

    fn from_absent() -> (r: Option<Self>) {
        None
    }

    open spec fn decoded(j: Json) -> Option<Json> {
        match j {
            Json::Object(fields) => {
                let fst_id = field_decoded::<Option<String>>(fields, "fst_id"@);
                let fst_ts = field_decoded::<Option<String>>(fields, "fst_ts"@);
                let lst_id = field_decoded::<Option<String>>(fields, "lst_id"@);
                let lst_ts = field_decoded::<Option<String>>(fields, "lst_ts"@);
                let stats = field_decoded::<RangeStats>(fields, "stats"@);
                if fst_id is Some
                    && fst_ts is Some
                    && lst_id is Some
                    && lst_ts is Some
                    && stats is Some {
                    Some(
                        Json::Object(
                            seq![
                                ("fst_id"@, fst_id->0),
                                ("fst_ts"@, fst_ts->0),
                                ("lst_id"@, lst_id->0),
                                ("lst_ts"@, lst_ts->0),
                                ("stats"@, stats->0),
                            ],
                        ),
                    )
                } else {
                    None
                }
            },
            _ => None,
        }
    }

    fn from_json(v: &JsonValue) -> (r: Option<Self>) {
        match v {
            JsonValue::Object(fields) => {
                let fst_id: Option<String> = decode_field(fields, "fst_id")?;
                let fst_ts: Option<String> = decode_field(fields, "fst_ts")?;
                let lst_id: Option<String> = decode_field(fields, "lst_id")?;
                let lst_ts: Option<String> = decode_field(fields, "lst_ts")?;
                let stats: RangeStats = decode_field(fields, "stats")?;
                Some(ProverNodeTimeRangeStats { fst_id, fst_ts, lst_id, lst_ts, stats })
            },
            _ => None,
        }
    }
}

impl RoundTrip for ProverNodeTimeRangeStats {
    proof fn lemma_round_trip(&self) {
        reveal_strlit("fst_id");
        reveal_strlit("fst_ts");
        reveal_strlit("lst_id");
        reveal_strlit("lst_ts");
        reveal_strlit("stats");
        let fields = self.json()->Object_0;
        assert(name_key(fields[0].0, 0, 4, 4) == (6nat, 'f', 'i', 'i'));
        assert(name_key(fields[1].0, 0, 4, 4) == (6nat, 'f', 't', 't'));
        assert(name_key(fields[2].0, 0, 4, 4) == (6nat, 'l', 'i', 'i'));
        assert(name_key(fields[3].0, 0, 4, 4) == (6nat, 'l', 't', 't'));
        assert(name_key(fields[4].0, 0, 4, 4) == (5nat, 's', 's', 's'));
        assert forall|i: int, j: int| 0 <= i < j < fields.len() implies fields[i].0
            != fields[j].0 by {
            assert(name_key(fields[i].0, 0, 4, 4) != name_key(fields[j].0, 0, 4, 4));
        }
        lemma_fields_found(fields);
        self.fst_id.lemma_round_trip();
        self.fst_ts.lemma_round_trip();
        self.lst_id.lemma_round_trip();
        self.lst_ts.lemma_round_trip();
        self.stats.lemma_round_trip();
    }
}

} // verus!
