//! One function per operation of the service.
//!
//! Each function builds the request of its operation: the payload, signed
//! where the service asks for a signature, the URL and the body. The caller
//! sends the request and hands the answer to
//! [`decode_response`](crate::helper::endpoint::decode_response) with the type
//! that the function names.

use vstd::prelude::*;
use crate::error::ApiError;
use crate::helper::endpoint::{
    get_request, lemma_scalar_fields_give_query, post_request, Request, RequestContent, TaskEndpoint, ZkWasmServiceEndpoint,
};
use crate::helper::form::{
    lemma_proving_form_builds, lemma_subscription_form_fails, FormPayload,
};
use crate::helper::signer::signed;
use crate::helper::util::{message_of, sign_object, SerializationAttributes};
use crate::interface::{
    AddImageParams, AddProveTaskRestrictions, AdminRequestType, ArchiveQuery,
    AutoSubmitProofQuery, AutoSubmitProofStatus, BaseAddImageParams, BaseProvingParams,
    BaseResetImageParams, CustomContext, DeployParams, EmptyParams, EstimatedProofFeeParams,
    ForceDryrunFailsToReprocessParams, ForceUnprovableToReprocessParams, Image, InitialContext,
    LogQuery, MaintenanceModeType, ModifyImageParams, NodeStatisticsQueryParams, PaginatedQuery,
    PaginationParams, PaginationResult, PaymentParams, ProofSubmitMode, ProvePaymentSrc,
    ProverNodeTimeRangeStatsParams, ProvingParams, QueryImageParams, QueryParams, ResetContext,
    ResetImageParams, Round1InfoQuery, Round1Status, Round2InfoQuery, Round2Status,
    SetMaintenanceModeParams, SubscriptionDuration, SubscriptionRequest, SubscriptionType, Task,
    TaskExternalHostTableParams, TaskStatus, TaskType, ToJson, TxHistoryQueryParams,
    UserQueryParams, VolumeDetailQuery, VolumeListQuery,
};

verus! {

/// Whether a built request is the stated one, or fails as stated.
pub open spec fn request_is(
    built: Result<Request, ApiError>,
    stated: Result<RequestContent, ApiError>,
) -> bool {
    match built {
        Ok(request) => stated == Ok::<RequestContent, ApiError>(request@),
        Err(e) => stated == Err::<RequestContent, ApiError>(e),
    }
}

/// Whether signing a payload with a key succeeds.
pub open spec fn signs<U: ToJson + SerializationAttributes>(params: U, key: Seq<char>) -> bool {
    signed(key, message_of(params.json(), U::policy())) is Ok
}

/// The largest number of ids that one call of
/// [`ZkWasmServiceHelper::query_tasks_from_ids`] takes.
pub const QUERY_TASKS_FROM_IDS_MAX_SIZE_INPUT: usize = 10;

/// The operations of the service on one deployment.
pub struct ZkWasmServiceHelper {
    pub endpoint: ZkWasmServiceEndpoint,
}

impl ZkWasmServiceHelper {
    #[must_use]
    pub fn new(endpoint: String) -> (r: Self)
        ensures
            r.endpoint.endpoint@ == endpoint@,
    {
        Self { endpoint: ZkWasmServiceEndpoint::new(endpoint) }
    }

    /// The unsigned `GET` request of an operation with its parameters.
    pub open spec fn get_of<U: ToJson>(&self, path: TaskEndpoint, params: U) -> Result<
        RequestContent,
        ApiError,
    > {
        get_request(self.endpoint.url(&path), params.json(), None)
    }

    /// The `POST` request of an operation with its payload, which goes into
    /// the body as its type states.
    pub open spec fn post_with<U: ToJson + SerializationAttributes>(
        &self,
        path: TaskEndpoint,
        params: U,
        signature: Option<Seq<char>>,
    ) -> Result<RequestContent, ApiError> {
        post_request(
            self.endpoint.url(&path),
            params.json(),
            U::policy().bytes_fields,
            U::policy().json_body,
            signature,
        )
    }

    /// The unsigned `POST` request of an operation with its payload.
    pub open spec fn post_of<U: ToJson + SerializationAttributes>(
        &self,
        path: TaskEndpoint,
        params: U,
    ) -> Result<RequestContent, ApiError> {
        self.post_with(path, params, None)
    }

    /// The signed `GET` request of an operation: the parameters are signed
    /// with the key as their type states, which fails as signing fails.
    pub open spec fn signed_get_of<U: ToJson + SerializationAttributes>(
        &self,
        path: TaskEndpoint,
        params: U,
        key: Seq<char>,
    ) -> Result<RequestContent, ApiError> {
        match signed(key, message_of(params.json(), U::policy())) {
            Ok(signature) => get_request(self.endpoint.url(&path), params.json(), Some(signature)),
            Err(e) => Err(e),
        }
    }

    /// The signed `POST` request of an operation: the payload is signed with
    /// the key as its type states, which fails as signing fails.
    pub open spec fn signed_post_of<U: ToJson + SerializationAttributes>(
        &self,
        path: TaskEndpoint,
        params: U,
        key: Seq<char>,
    ) -> Result<RequestContent, ApiError> {
        match signed(key, message_of(params.json(), U::policy())) {
            Ok(signature) => self.post_with(path, params, Some(signature)),
            Err(e) => Err(e),
        }
    }

    /// The image with the MD5 `md5`.
    ///
    /// The answer carries a `Vec<Option<Image>>`.
    pub fn query_image(&self, md5: String) -> (r: Result<Request, ApiError>)
        ensures
            ({
                let params = (QueryImageParams { md5 });
                &&& r is Ok
                &&& request_is(r, self.get_of(TaskEndpoint::Image, params))
            }),
    {
        let params = QueryImageParams { md5 };
        proof {
            lemma_scalar_fields_give_query(params.json()->Object_0);
        }
        self.endpoint.get(TaskEndpoint::Image, &params, None)
    }

    /// The binary of the image with the MD5 `md5`.
    ///
    /// The answer carries a `Vec<u8>`.
    pub fn query_image_binary(&self, md5: String) -> (r: Result<Request, ApiError>)
        ensures
            ({
                let params = (QueryImageParams { md5 });
                &&& r is Ok
                &&& request_is(r, self.get_of(TaskEndpoint::ImageBinary, params))
            }),
    {
        let params = QueryImageParams { md5 };
        proof {
            lemma_scalar_fields_give_query(params.json()->Object_0);
        }
        self.endpoint.get(TaskEndpoint::ImageBinary, &params, None)
    }

    /// The user with the address `user_address`.
    ///
    /// The answer carries a `Option<User>`.
    pub fn query_user(&self, user_address: String) -> (r: Result<Request, ApiError>)
        ensures
            ({
                let params = (UserQueryParams { user_address });
                &&& r is Ok
                &&& request_is(r, self.get_of(TaskEndpoint::User, params))
            }),
    {
        let params = UserQueryParams { user_address };
        proof {
            lemma_scalar_fields_give_query(params.json()->Object_0);
        }
        self.endpoint.get(TaskEndpoint::User, &params, None)
    }

    /// The subscription of a user.
    ///
    /// The answer carries a `Option<Subscription>`.
    pub fn query_user_subscription(&self, user_address: String) -> (r: Result<Request, ApiError>)
        ensures
            ({
                let params = (UserQueryParams { user_address });
                &&& r is Ok
                &&& request_is(r, self.get_of(TaskEndpoint::UserSubscription, params))
            }),
    {
        let params = UserQueryParams { user_address };
        proof {
            lemma_scalar_fields_give_query(params.json()->Object_0);
        }
        self.endpoint.get(TaskEndpoint::UserSubscription, &params, None)
    }

    /// The transactions of a user, first page.
    ///
    /// The answer carries a `PaginationResult<Vec<TransactionInfo>>`.
    pub fn query_tx_history(&self, user_address: String) -> (r: Result<Request, ApiError>)
        ensures
            ({
                let params = (TxHistoryQueryParams { user_address, start: None, total: None });
                &&& r is Ok
                &&& request_is(r, self.get_of(TaskEndpoint::Transactions, params))
            }),
    {
        let params = TxHistoryQueryParams { user_address, start: None, total: None };
        proof {
            lemma_scalar_fields_give_query(params.json()->Object_0);
        }
        self.endpoint.get(TaskEndpoint::Transactions, &params, None)
    }

    /// The deposits of a user, first page.
    ///
    /// The answer carries a `PaginationResult<Vec<ERC20DepositInfo>>`.
    pub fn query_deposit_history(&self, user_address: String) -> (r: Result<Request, ApiError>)
        ensures
            ({
                let params = (TxHistoryQueryParams { user_address, start: None, total: None });
                &&& r is Ok
                &&& request_is(r, self.get_of(TaskEndpoint::Deposits, params))
            }),
    {
        let params = TxHistoryQueryParams { user_address, start: None, total: None };
        proof {
            lemma_scalar_fields_give_query(params.json()->Object_0);
        }
        self.endpoint.get(TaskEndpoint::Deposits, &params, None)
    }

    /// The configuration of the service.
    ///
    /// The answer carries a `AppConfig`.
    pub fn query_config(&self) -> (r: Result<Request, ApiError>)
        ensures
            ({
                let params = EmptyParams;
                &&& r is Ok
                &&& request_is(r, self.get_of(TaskEndpoint::Config, params))
            }),
    {
        let params = EmptyParams;
        self.endpoint.get(TaskEndpoint::Config, &params, None)
    }

    /// The counters of the service.
    ///
    /// The answer carries a `StatisticsInfo`.
    pub fn query_statistics(&self) -> (r: Result<Request, ApiError>)
        ensures
            ({
                let params = EmptyParams;
                &&& r is Ok
                &&& request_is(r, self.get_of(TaskEndpoint::Statistics, params))
            }),
    {
        let params = EmptyParams;
        self.endpoint.get(TaskEndpoint::Statistics, &params, None)
    }

    /// The statistics of prover nodes.
    ///
    /// The answer carries a `PaginationResult<Vec<ProverNode>>`.
    pub fn query_node_statistics(
        &self,
        address: Option<String>,
        start: Option<u64>,
        total: Option<u64>,
    ) -> (r: Result<Request, ApiError>)
        ensures
            ({
                let params = (NodeStatisticsQueryParams { address, start, total });
                &&& r is Ok
                &&& request_is(r, self.get_of(TaskEndpoint::NodeStatistics, params))
            }),
    {
        let params = NodeStatisticsQueryParams { address, start, total };
        proof {
            lemma_scalar_fields_give_query(params.json()->Object_0);
        }
        self.endpoint.get(TaskEndpoint::NodeStatistics, &params, None)
    }

    /// How many prover nodes there are of each level.
    ///
    /// The answer carries a `ProverNodesSummary`.
    pub fn query_prover_node_summary(&self) -> (r: Result<Request, ApiError>)
        ensures
            ({
                let params = EmptyParams;
                &&& r is Ok
                &&& request_is(r, self.get_of(TaskEndpoint::ProverNodeSummary, params))
            }),
    {
        let params = EmptyParams;
        self.endpoint.get(TaskEndpoint::ProverNodeSummary, &params, None)
    }

    /// The prover nodes that are online, by level.
    ///
    /// The answer carries a `OnlineNodesSummary`.
    pub fn query_online_node_summary(&self) -> (r: Result<Request, ApiError>)
        ensures
            ({
                let params = EmptyParams;
                &&& r is Ok
                &&& request_is(r, self.get_of(TaskEndpoint::OnlineNodesSummary, params))
            }),
    {
        let params = EmptyParams;
        self.endpoint.get(TaskEndpoint::OnlineNodesSummary, &params, None)
    }

    /// The logs of a task. The query is signed.
    ///
    /// The answer carries a `String`.
    pub fn query_logs(
        &self,
        id: String,
        user_address: String,
        private_key: String,
    ) -> (r: Result<Request, ApiError>)
        ensures
            ({
                let params = (LogQuery { id, user_address });
                &&& r is Ok <==> signs(params, private_key@)
                &&& request_is(r, self.signed_get_of(TaskEndpoint::Logs, params, private_key@))
            }),
    {
        let params = LogQuery { id, user_address };
        proof {
            lemma_scalar_fields_give_query(params.json()->Object_0);
        }
        let signature = match sign_object(&params, private_key) {
            Ok(signature) => signature,
            Err(e) => return Err(e),
        };
        self.endpoint.get(TaskEndpoint::Logs, &params, Some(signature))
    }

    /// The fee that a proof of an image is estimated to cost.
    ///
    /// The answer carries a `EstimatedProofFee`.
    pub fn query_estimated_proof_fee(
        &self,
        user_address: String,
        md5: String,
        proof_submit_mode: ProofSubmitMode,
    ) -> (r: Result<Request, ApiError>)
        ensures
            ({
                let params = (EstimatedProofFeeParams { user_address, md5, proof_submit_mode });
                &&& r is Ok
                &&& request_is(r, self.get_of(TaskEndpoint::EstimatedProofFee, params))
            }),
    {
        let params = EstimatedProofFeeParams { user_address, md5, proof_submit_mode };
        proof {
            lemma_scalar_fields_give_query(params.json()->Object_0);
        }
        self.endpoint.get(TaskEndpoint::EstimatedProofFee, &params, None)
    }

    /// The statistics of prover nodes over time ranges.
    ///
    /// The answer carries a `Vec<ProverNodeTimeRangeStats>`.
    pub fn query_prover_node_timerange_stats(
        &self,
        query: ProverNodeTimeRangeStatsParams,
    ) -> (r: Result<Request, ApiError>)
        ensures
            ({
                let params = query;
                &&& r is Ok
                &&& request_is(r, self.post_of(TaskEndpoint::ProverNodeTimerangeStats, params))
            }),
    {
        self.endpoint.post(TaskEndpoint::ProverNodeTimerangeStats, &query, None)
    }

    /// The tasks that match the filters.
    ///
    /// The answer carries a `PaginationResult<Vec<Task>>`.
    pub fn query_tasks(
        &self,
        user_address: Option<String>,
        md5: Option<String>,
        id: Option<String>,
        tasktype: Option<TaskType>,
        taskstatus: Option<TaskStatus>,
        start: Option<u64>,
        total: Option<u64>,
    ) -> (r: Result<Request, ApiError>)
        ensures
            ({
                let params = (QueryParams {
                    user_address,
                    md5,
                    id,
                    tasktype,
                    taskstatus,
                    start,
                    total,
                });
                &&& r is Ok
                &&& request_is(r, self.get_of(TaskEndpoint::Tasks, params))
            }),
    {
        let params = QueryParams { user_address, md5, id, tasktype, taskstatus, start, total };
        proof {
            lemma_scalar_fields_give_query(params.json()->Object_0);
        }
        self.endpoint.get(TaskEndpoint::Tasks, &params, None)
    }

    /// The tasks that match the filters, in short form.
    ///
    /// The answer carries a `PaginationResult<Vec<ConciseTask>>`.
    pub fn query_concise_tasks(
        &self,
        user_address: Option<String>,
        md5: Option<String>,
        id: Option<String>,
        tasktype: Option<TaskType>,
        taskstatus: Option<TaskStatus>,
        start: Option<u64>,
        total: Option<u64>,
    ) -> (r: Result<Request, ApiError>)
        ensures
            ({
                let params = (QueryParams {
                    user_address,
                    md5,
                    id,
                    tasktype,
                    taskstatus,
                    start,
                    total,
                });
                &&& r is Ok
                &&& request_is(r, self.get_of(TaskEndpoint::ConciseTasks, params))
            }),
    {
        let params = QueryParams { user_address, md5, id, tasktype, taskstatus, start, total };
        proof {
            lemma_scalar_fields_give_query(params.json()->Object_0);
        }
        self.endpoint.get(TaskEndpoint::ConciseTasks, &params, None)
    }

    /// The external host table of a task.
    ///
    /// The answer carries a `TaskExternalHostTable`.
    pub fn get_task_external_host_table(&self, id: String) -> (r: Result<Request, ApiError>)
        ensures
            ({
                let params = (TaskExternalHostTableParams { id });
                &&& r is Ok
                &&& request_is(r, self.get_of(TaskEndpoint::TaskExternalHostTable, params))
            }),
    {
        let params = TaskExternalHostTableParams { id };
        proof {
            lemma_scalar_fields_give_query(params.json()->Object_0);
        }
        self.endpoint.get(TaskEndpoint::TaskExternalHostTable, &params, None)
    }

    /// The proofs queued for automatic submission.
    ///
    /// The answer carries a `PaginationResult<Vec<AutoSubmitProof>>`.
    pub fn query_auto_submit_proofs(
        &self,
        id: Option<String>,
        task_id: Option<String>,
        status: Option<AutoSubmitProofStatus>,
        circuit_size: Option<u32>,
        chain_id: Option<u32>,
        start: Option<u64>,
        total: Option<u64>,
    ) -> (r: Result<Request, ApiError>)
        ensures
            ({
                let params = (PaginatedQuery {
                    query: AutoSubmitProofQuery { id, task_id, status, circuit_size, chain_id },
                    pagination: PaginationParams { total, start },
                });
                &&& r is Ok
                &&& request_is(r, self.get_of(TaskEndpoint::Round1Batch, params))
            }),
    {
        let params = PaginatedQuery {
            query: AutoSubmitProofQuery { id, task_id, status, circuit_size, chain_id },
            pagination: PaginationParams { total, start },
        };
        proof {
            lemma_scalar_fields_give_query(params.json()->Object_0);
        }
        self.endpoint.get(TaskEndpoint::Round1Batch, &params, None)
    }

    /// The round 1 batches. `auto_submit_queue_id` is sent as `round_1_id`.
    ///
    /// The answer carries a `PaginationResult<Vec<Round1Info>>`.
    pub fn query_round1_info(
        &self,
        id: Option<String>,
        auto_submit_queue_id: Option<String>,
        task_id: Option<String>,
        status: Option<Round1Status>,
        circuit_size: Option<u32>,
        chain_id: Option<u32>,
        start: Option<u64>,
        total: Option<u64>,
    ) -> (r: Result<Request, ApiError>)
        ensures
            ({
                let params = (PaginatedQuery {
                    query: Round1InfoQuery {
                        id,
                        round_1_id: auto_submit_queue_id,
                        task_id,
                        status,
                        circuit_size,
                        chain_id,
                    },
                    pagination: PaginationParams { total, start },
                });
                &&& r is Ok
                &&& request_is(r, self.get_of(TaskEndpoint::Round2Batch, params))
            }),
    {
        let params = PaginatedQuery {
            query: Round1InfoQuery {
                id,
                round_1_id: auto_submit_queue_id,
                task_id,
                status,
                circuit_size,
                chain_id,
            },
            pagination: PaginationParams { total, start },
        };
        proof {
            lemma_scalar_fields_give_query(params.json()->Object_0);
        }
        self.endpoint.get(TaskEndpoint::Round2Batch, &params, None)
    }

    /// The round 2 batches.
    ///
    /// The answer carries a `PaginationResult<Vec<Round2Info>>`.
    pub fn query_round2_info(
        &self,
        id: Option<String>,
        round_2_id: Option<String>,
        task_id: Option<String>,
        status: Option<Round2Status>,
        chain_id: Option<u32>,
        start: Option<u64>,
        total: Option<u64>,
    ) -> (r: Result<Request, ApiError>)
        ensures
            ({
                let params = (PaginatedQuery {
                    query: Round2InfoQuery { id, round_2_id, task_id, status, chain_id },
                    pagination: PaginationParams { total, start },
                });
                &&& r is Ok
                &&& request_is(r, self.get_of(TaskEndpoint::FinalBatch, params))
            }),
    {
        let params = PaginatedQuery {
            query: Round2InfoQuery { id, round_2_id, task_id, status, chain_id },
            pagination: PaginationParams { total, start },
        };
        proof {
            lemma_scalar_fields_give_query(params.json()->Object_0);
        }
        self.endpoint.get(TaskEndpoint::FinalBatch, &params, None)
    }

    /// The first and last volume of the archive.
    ///
    /// The answer carries a `ArchiveMetadataOverview`.
    pub fn query_archive_summary(&self) -> (r: Result<Request, ApiError>)
        ensures
            ({
                let params = EmptyParams;
                &&& r is Ok
                &&& request_is(r, self.get_of(TaskEndpoint::ArchiveSummary, params))
            }),
    {
        let params = EmptyParams;
        self.endpoint.get(TaskEndpoint::ArchiveSummary, &params, None)
    }

    /// The task volumes of the archive.
    ///
    /// The answer carries a `PaginationResult<Vec<ArchiveVolumeMetadata>>`.
    pub fn query_archive_task_volume_list(
        &self,
        start: Option<u64>,
        limit: Option<u64>,
    ) -> (r: Result<Request, ApiError>)
        ensures
            ({
                let params = (VolumeListQuery { start, limit });
                &&& r is Ok
                &&& request_is(r, self.get_of(TaskEndpoint::ArchiveTaskVolumeList, params))
            }),
    {
        let params = VolumeListQuery { start, limit };
        proof {
            lemma_scalar_fields_give_query(params.json()->Object_0);
        }
        self.endpoint.get(TaskEndpoint::ArchiveTaskVolumeList, &params, None)
    }

    /// The automatic-submission volumes of the archive.
    ///
    /// The answer carries a `PaginationResult<Vec<ArchiveVolumeMetadata>>`.
    pub fn query_archive_auto_submit_task_volume_list(
        &self,
        start: Option<u64>,
        limit: Option<u64>,
    ) -> (r: Result<Request, ApiError>)
        ensures
            ({
                let params = (VolumeListQuery { start, limit });
                &&& r is Ok
                &&& request_is(
                    r,
                    self.get_of(
                        TaskEndpoint::ArchiveAutoSubmitTaskVolumeList,
                        params,
                    ),
                )
            }),
    {
        let params = VolumeListQuery { start, limit };
        proof {
            lemma_scalar_fields_give_query(params.json()->Object_0);
        }
        self.endpoint.get(TaskEndpoint::ArchiveAutoSubmitTaskVolumeList, &params, None)
    }

    /// An archived task.
    ///
    /// The answer carries a `Task`.
    pub fn query_archived_task(&self, task_id: String) -> (r: Result<Request, ApiError>)
        ensures
            ({
                let params = EmptyParams;
                &&& r is Ok
                &&& request_is(r, self.get_of(TaskEndpoint::ArchiveTask(task_id), params))
            }),
    {
        let params = EmptyParams;
        self.endpoint.get(TaskEndpoint::ArchiveTask(task_id), &params, None)
    }

    /// The networks on which an archived task was submitted.
    ///
    /// The answer carries a `Vec<ArchivedFinalProofNetworkInfo>`.
    pub fn query_archived_auto_submit_networks_by_task_id(
        &self,
        task_id: String,
    ) -> (r: Result<Request, ApiError>)
        ensures
            ({
                let params = EmptyParams;
                &&& r is Ok
                &&& request_is(
                    r,
                    self.get_of(
                        TaskEndpoint::ArchiveAutoSubmitNetworks(task_id),
                        params,
                    ),
                )
            }),
    {
        let params = EmptyParams;
        self.endpoint.get(TaskEndpoint::ArchiveAutoSubmitNetworks(task_id), &params, None)
    }

    /// The final batch proof of an archived task on one chain.
    ///
    /// The answer carries a `ArchivedFinalBatchProof`.
    pub fn query_archived_auto_submit_info_by_task_id(
        &self,
        task_id: String,
        chain_id: u32,
    ) -> (r: Result<Request, ApiError>)
        ensures
            ({
                let params = EmptyParams;
                &&& r is Ok
                &&& request_is(
                    r,
                    self.get_of(
                        TaskEndpoint::ArchiveAutoSubmitInfoByTask(task_id, chain_id),
                        params,
                    ),
                )
            }),
    {
        let params = EmptyParams;
        self.endpoint.get(
            TaskEndpoint::ArchiveAutoSubmitInfoByTask(task_id, chain_id),
            &params,
            None,
        )
    }

    /// An archived final batch proof on one chain.
    ///
    /// The answer carries a `ArchivedFinalBatchProof`.
    pub fn query_archived_auto_submit_info_by_archive_id(
        &self,
        id: String,
        chain_id: u32,
    ) -> (r: Result<Request, ApiError>)
        ensures
            ({
                let params = EmptyParams;
                &&& r is Ok
                &&& request_is(
                    r,
                    self.get_of(
                        TaskEndpoint::ArchiveAutoSubmitInfo(id, chain_id),
                        params,
                    ),
                )
            }),
    {
        let params = EmptyParams;
        self.endpoint.get(TaskEndpoint::ArchiveAutoSubmitInfo(id, chain_id), &params, None)
    }

    /// The configuration of the archive server.
    ///
    /// The answer carries a `ArchiveServerConfig`.
    pub fn query_archive_server_config(&self) -> (r: Result<Request, ApiError>)
        ensures
            ({
                let params = EmptyParams;
                &&& r is Ok
                &&& request_is(r, self.get_of(TaskEndpoint::ArchiveConfig, params))
            }),
    {
        let params = EmptyParams;
        self.endpoint.get(TaskEndpoint::ArchiveConfig, &params, None)
    }

    /// One task volume of the archive with a page of its tasks.
    ///
    /// The answer carries a `VolumeDetailResponse`.
    pub fn query_archive_task_volume(
        &self,
        volume_name: String,
        tasks_start: Option<u64>,
        tasks_limit: Option<u64>,
    ) -> (r: Result<Request, ApiError>)
        ensures
            ({
                let params = (VolumeDetailQuery { tasks_start, tasks_limit });
                &&& r is Ok
                &&& request_is(r, self.get_of(TaskEndpoint::ArchiveTaskVolume(volume_name), params))
            }),
    {
        let params = VolumeDetailQuery { tasks_start, tasks_limit };
        proof {
            lemma_scalar_fields_give_query(params.json()->Object_0);
        }
        self.endpoint.get(TaskEndpoint::ArchiveTaskVolume(volume_name), &params, None)
    }

    /// One automatic-submission volume of the archive with a page of its proofs.
    ///
    /// The answer carries a `PaginationResult<Vec<ArchivedFinalBatchProof>>`.
    pub fn query_archive_auto_submit_volume(
        &self,
        volume_name: String,
        tasks_start: Option<u64>,
        tasks_limit: Option<u64>,
    ) -> (r: Result<Request, ApiError>)
        ensures
            ({
                let params = (VolumeDetailQuery { tasks_start, tasks_limit });
                &&& r is Ok
                &&& request_is(
                    r,
                    self.get_of(
                        TaskEndpoint::ArchiveAutoSubmitVolume(volume_name),
                        params,
                    ),
                )
            }),
    {
        let params = VolumeDetailQuery { tasks_start, tasks_limit };
        proof {
            lemma_scalar_fields_give_query(params.json()->Object_0);
        }
        self.endpoint.get(TaskEndpoint::ArchiveAutoSubmitVolume(volume_name), &params, None)
    }

    /// The archived tasks that match the filters.
    ///
    /// The answer carries a `PaginationResult<Vec<ConciseTask>>`.
    pub fn query_archive(
        &self,
        task_id: Option<String>,
        md5: Option<String>,
        start_timestamp: Option<String>,
        end_timestamp: Option<String>,
        start: Option<u64>,
        limit: Option<u64>,
    ) -> (r: Result<Request, ApiError>)
        ensures
            ({
                let params = (ArchiveQuery {
                    task_id,
                    md5,
                    start_timestamp,
                    end_timestamp,
                    start,
                    limit,
                });
                &&& r is Ok
                &&& request_is(r, self.get_of(TaskEndpoint::ArchiveArchiveQuery, params))
            }),
    {
        let params = ArchiveQuery { task_id, md5, start_timestamp, end_timestamp, start, limit };
        proof {
            lemma_scalar_fields_give_query(params.json()->Object_0);
        }
        self.endpoint.get(TaskEndpoint::ArchiveArchiveQuery, &params, None)
    }

    /// Registers a payment by its transaction hash.
    ///
    /// The answer carries a `ERC20DepositInfo`.
    pub fn add_payment(&self, txhash: String) -> (r: Result<Request, ApiError>)
        ensures
            ({
                let params = (PaymentParams { txhash });
                &&& r is Ok
                &&& request_is(r, self.post_of(TaskEndpoint::Pay, params))
            }),
    {
        let params = PaymentParams { txhash };
        proof {
            params.lemma_form_builds();
        }
        self.endpoint.post(TaskEndpoint::Pay, &params, None)
    }

    /// Registers a subscription. The payload holds its duration as an object, which a
    /// multipart form cannot carry: the request is refused.
    ///
    /// The answer carries a `ERC20DepositInfo`.
    pub fn add_subscription(
        &self,
        subscriber_address: String,
        subscription_type: SubscriptionType,
        duration: SubscriptionDuration,
        payment_hash: String,
    ) -> (r: Result<Request, ApiError>)
        ensures
            ({
                let params = (SubscriptionRequest {
                    subscriber_address,
                    subscription_type,
                    duration,
                    payment_hash,
                });
                &&& r == Err::<Request, ApiError>(ApiError::UnsupportedNesting)
                &&& request_is(r, self.post_of(TaskEndpoint::Subscribe, params))
            }),
    {
        let params = SubscriptionRequest {
            subscriber_address,
            subscription_type,
            duration,
            payment_hash,
        };
        proof {
            lemma_subscription_form_fails(params);
        }
        self.endpoint.post(TaskEndpoint::Subscribe, &params, None)
    }

    /// Adds an image. The payload is signed.
    ///
    /// The answer carries a `AddTaskResult`.
    pub fn setup_image(
        &self,
        name: String,
        image: Vec<u8>,
        image_md5: String,
        user_address: String,
        description_url: String,
        avator_url: String,
        circuit_size: u32,
        prove_payment_src: ProvePaymentSrc,
        auto_submit_network_ids: Vec<u32>,
        add_prove_task_restrictions: Option<AddProveTaskRestrictions>,
        inherited_merkle_data_md5: Option<String>,
        context: InitialContext,
        private_key: String,
    ) -> (r: Result<Request, ApiError>)
        ensures
            ({
                let params = (AddImageParams {
                    base: BaseAddImageParams {
                        name,
                        image_md5,
                        image,
                        user_address,
                        description_url,
                        avator_url,
                        circuit_size,
                        prove_payment_src,
                        auto_submit_network_ids,
                        add_prove_task_restrictions,
                        inherited_merkle_data_md5,
                    },
                    context,
                });
                &&& r is Ok <==> signs(params, private_key@)
                &&& request_is(r, self.signed_post_of(TaskEndpoint::Setup, params, private_key@))
            }),
    {
        let params = AddImageParams {
            base: BaseAddImageParams {
                name,
                image_md5,
                image,
                user_address,
                description_url,
                avator_url,
                circuit_size,
                prove_payment_src,
                auto_submit_network_ids,
                add_prove_task_restrictions,
                inherited_merkle_data_md5,
            },
            context,
        };
        proof {
            params.lemma_form_builds();
        }
        let signature = match sign_object(&params, private_key) {
            Ok(signature) => signature,
            Err(e) => return Err(e),
        };
        self.endpoint.post(TaskEndpoint::Setup, &params, Some(signature))
    }

    /// Asks for a proof of an image. The payload is signed.
    ///
    /// The answer carries a `AddTaskResult`.
    pub fn add_prove(
        &self,
        user_address: String,
        md5: String,
        public_inputs: Vec<String>,
        private_inputs: Vec<String>,
        proof_submit_mode: ProofSubmitMode,
        context: CustomContext,
        private_key: String,
    ) -> (r: Result<Request, ApiError>)
        ensures
            ({
                let params = (ProvingParams {
                    base: BaseProvingParams {
                        user_address,
                        md5,
                        public_inputs,
                        private_inputs,
                        proof_submit_mode,
                    },
                    context,
                });
                &&& context !is WithNonCustom ==> (r is Ok <==> signs(params, private_key@))
                &&& request_is(r, self.signed_post_of(TaskEndpoint::Prove, params, private_key@))
            }),
    {
        let params = ProvingParams {
            base: BaseProvingParams {
                user_address,
                md5,
                public_inputs,
                private_inputs,
                proof_submit_mode,
            },
            context,
        };
        proof {
            if params.context !is WithNonCustom {
                lemma_proving_form_builds(params);
            }
        }
        let signature = match sign_object(&params, private_key) {
            Ok(signature) => signature,
            Err(e) => return Err(e),
        };
        self.endpoint.post(TaskEndpoint::Prove, &params, Some(signature))
    }

    /// Asks for the deployment of an image on a chain. The payload is signed.
    ///
    /// The answer carries a `()`.
    pub fn add_deploy(
        &self,
        user_address: String,
        md5: String,
        chain_id: u32,
        private_key: String,
    ) -> (r: Result<Request, ApiError>)
        ensures
            ({
                let params = (DeployParams { user_address, md5, chain_id });
                &&& r is Ok <==> signs(params, private_key@)
                &&& request_is(r, self.signed_post_of(TaskEndpoint::Deploy, params, private_key@))
            }),
    {
        let params = DeployParams { user_address, md5, chain_id };
        proof {
            params.lemma_form_builds();
        }
        let signature = match sign_object(&params, private_key) {
            Ok(signature) => signature,
            Err(e) => return Err(e),
        };
        self.endpoint.post(TaskEndpoint::Deploy, &params, Some(signature))
    }

    /// Resets an image. The payload is signed.
    ///
    /// The answer carries a `AddTaskResult`.
    pub fn add_reset(
        &self,
        md5: String,
        circuit_size: u32,
        user_address: String,
        prove_payment_src: ProvePaymentSrc,
        auto_submit_network_ids: Vec<u32>,
        add_prove_task_restrictions: Option<AddProveTaskRestrictions>,
        context: ResetContext,
        private_key: String,
    ) -> (r: Result<Request, ApiError>)
        ensures
            ({
                let params = (ResetImageParams {
                    base: BaseResetImageParams {
                        md5,
                        circuit_size,
                        user_address,
                        prove_payment_src,
                        auto_submit_network_ids,
                        add_prove_task_restrictions,
                    },
                    context,
                });
                &&& r is Ok <==> signs(params, private_key@)
                &&& request_is(r, self.signed_post_of(TaskEndpoint::Reset, params, private_key@))
            }),
    {
        let params = ResetImageParams {
            base: BaseResetImageParams {
                md5,
                circuit_size,
                user_address,
                prove_payment_src,
                auto_submit_network_ids,
                add_prove_task_restrictions,
            },
            context,
        };
        proof {
            params.lemma_form_builds();
        }
        let signature = match sign_object(&params, private_key) {
            Ok(signature) => signature,
            Err(e) => return Err(e),
        };
        self.endpoint.post(TaskEndpoint::Reset, &params, Some(signature))
    }

    /// Changes the description of an image. The payload is signed.
    ///
    /// The answer carries a `String`.
    pub fn modify_image(
        &self,
        md5: String,
        user_address: String,
        description_url: String,
        avator_url: String,
        private_key: String,
    ) -> (r: Result<Request, ApiError>)
        ensures
            ({
                let params = (ModifyImageParams { md5, user_address, description_url, avator_url });
                &&& r is Ok <==> signs(params, private_key@)
                &&& request_is(r, self.signed_post_of(TaskEndpoint::Modify, params, private_key@))
            }),
    {
        let params = ModifyImageParams { md5, user_address, description_url, avator_url };
        proof {
            params.lemma_form_builds();
        }
        let signature = match sign_object(&params, private_key) {
            Ok(signature) => signature,
            Err(e) => return Err(e),
        };
        self.endpoint.post(TaskEndpoint::Modify, &params, Some(signature))
    }

    /// Switches the maintenance mode. The payload is signed.
    ///
    /// The answer carries a `String`.
    pub fn set_maintenance_mode(
        &self,
        mode: MaintenanceModeType,
        nonce: u64,
        request_type: AdminRequestType,
        user_address: String,
        private_key: String,
    ) -> (r: Result<Request, ApiError>)
        ensures
            ({
                let params = (SetMaintenanceModeParams { mode, nonce, request_type, user_address });
                &&& r is Ok <==> signs(params, private_key@)
                &&& request_is(
                    r,
                    self.signed_post_of(
                        TaskEndpoint::SetMaintenanceMode,
                        params,
                        private_key@,
                    ),
                )
            }),
    {
        let params = SetMaintenanceModeParams { mode, nonce, request_type, user_address };
        proof {
            params.lemma_form_builds();
        }
        let signature = match sign_object(&params, private_key) {
            Ok(signature) => signature,
            Err(e) => return Err(e),
        };
        self.endpoint.post(TaskEndpoint::SetMaintenanceMode, &params, Some(signature))
    }

    /// Sends tasks back to processing. The payload is signed, with nonce 0.
    ///
    /// The answer carries a `Vec<ObjectId>`.
    pub fn force_unprovable_to_reprocess(
        &self,
        task_ids: Vec<String>,
        user_address: String,
        private_key: String,
    ) -> (r: Result<Request, ApiError>)
        ensures
            ({
                let params = (ForceUnprovableToReprocessParams {
                    task_ids,
                    nonce: 0,
                    request_type: AdminRequestType::ForceTaskToReprocess,
                    user_address,
                });
                &&& r is Ok <==> signs(params, private_key@)
                &&& request_is(
                    r,
                    self.signed_post_of(
                        TaskEndpoint::ForceUnprovableToReprocess,
                        params,
                        private_key@,
                    ),
                )
            }),
    {
        let params = ForceUnprovableToReprocessParams {
            task_ids,
            nonce: 0,
            request_type: AdminRequestType::ForceTaskToReprocess,
            user_address,
        };
        proof {
            params.lemma_form_builds();
        }
        let signature = match sign_object(&params, private_key) {
            Ok(signature) => signature,
            Err(e) => return Err(e),
        };
        self.endpoint.post(TaskEndpoint::ForceUnprovableToReprocess, &params, Some(signature))
    }

    /// Sends tasks back to processing. The payload is signed, with nonce 0.
    ///
    /// The answer carries a `Vec<ObjectId>`.
    pub fn force_dryrun_fails_to_reprocess(
        &self,
        task_ids: Vec<String>,
        user_address: String,
        private_key: String,
    ) -> (r: Result<Request, ApiError>)
        ensures
            ({
                let params = (ForceDryrunFailsToReprocessParams {
                    task_ids,
                    nonce: 0,
                    request_type: AdminRequestType::ForceTaskToReprocess,
                    user_address,
                });
                &&& r is Ok <==> signs(params, private_key@)
                &&& request_is(
                    r,
                    self.signed_post_of(
                        TaskEndpoint::ForceDryrunFailsToReprocess,
                        params,
                        private_key@,
                    ),
                )
            }),
    {
        let params = ForceDryrunFailsToReprocessParams {
            task_ids,
            nonce: 0,
            request_type: AdminRequestType::ForceTaskToReprocess,
            user_address,
        };
        proof {
            params.lemma_form_builds();
        }
        let signature = match sign_object(&params, private_key) {
            Ok(signature) => signature,
            Err(e) => return Err(e),
        };
        self.endpoint.post(TaskEndpoint::ForceDryrunFailsToReprocess, &params, Some(signature))
    }

    /// The request that asks for the task with the id `id`: the query of
    /// [`Self::query_tasks`] for that id alone, one task at most.
    pub open spec fn task_request(&self, id: String) -> Result<RequestContent, ApiError> {
        get_request(
            self.endpoint.url(&TaskEndpoint::Tasks),
            (QueryParams {
                user_address: None,
                md5: None,
                id: Some(id),
                tasktype: None,
                taskstatus: None,
                start: None,
                total: Some(1),
            }).json(),
            None::<Seq<char>>,
        )
    }

    /// The requests that ask for the tasks with the given ids, one request for
    /// each id, in order. More than ten ids are refused.
    ///
    /// Each answer carries a `PaginationResult<Vec<Task>>`; [`first_tasks`]
    /// picks the tasks out of the answers.
    pub fn query_tasks_from_ids(&self, ids: Vec<String>) -> (r: Result<Vec<Request>, ApiError>)
        ensures
            match r {
                Ok(requests) => {
                    &&& ids.len() <= QUERY_TASKS_FROM_IDS_MAX_SIZE_INPUT
                    &&& requests.len() == ids.len()
                    &&& forall|i: int|
                        0 <= i < ids.len() ==> self.task_request(ids[i]) == Ok::<
                            RequestContent,
                            ApiError,
                        >((#[trigger] requests[i])@)
                },
                Err(e) => ids.len() > QUERY_TASKS_FROM_IDS_MAX_SIZE_INPUT && e == ApiError::TooManyIds,
            },
    {
        if ids.len() > QUERY_TASKS_FROM_IDS_MAX_SIZE_INPUT {
            return Err(ApiError::TooManyIds);
        }
        let mut requests: Vec<Request> = Vec::new();
        let mut i: usize = 0;
        while i < ids.len()
            invariant
                i <= ids.len(),
                ids.len() <= QUERY_TASKS_FROM_IDS_MAX_SIZE_INPUT,
                requests.len() == i,
                forall|k: int|
                    0 <= k < i ==> self.task_request(ids[k]) == Ok::<RequestContent, ApiError>(
                        (#[trigger] requests[k])@,
                    ),
            decreases ids.len() - i,
        {
            let id = ids[i].clone();
            match self.query_task_from_id(id) {
                Ok(request) => {
                    requests.push(request);
                },
                Err(_) => {},
            }
            i += 1;
        }
        Ok(requests)
    }

    /// The request that asks for the task with the id `id`.
    ///
    /// The answer carries a `PaginationResult<Vec<Task>>`; [`first_task`] picks
    /// the task out of it.
    pub fn query_task_from_id(&self, id: String) -> (r: Result<Request, ApiError>)
        ensures
            r is Ok,
            request_is(r, self.task_request(id)),
    {
        self.query_tasks(None, None, Some(id), None, None, None, Some(1))
    }
}

/// The image that the answer to [`ZkWasmServiceHelper::query_image`] holds:
/// the first entry of the list.
pub fn first_image(images: Vec<Option<Image>>) -> (r: Option<Image>)
    requires
        images.len() > 0,
    ensures
        r == images[0],
{
    let mut images = images;
    images.remove(0)
}

/// The first task of a page, if the page has one.
pub fn first_task(page: PaginationResult<Vec<Task>>) -> (r: Option<Task>)
    ensures
        r == if page.data.len() > 0 {
            Some(page.data[0])
        } else {
            None
        },
{
    let mut tasks = page.data;
    if tasks.len() == 0 {
        None
    } else {
        Some(tasks.remove(0))
    }
}

/// The first task of every page that has one, in the order of the pages.
pub open spec fn first_tasks_of(pages: Seq<PaginationResult<Vec<Task>>>) -> Seq<Task>
    decreases pages.len(),
{
    if pages.len() == 0 {
        Seq::empty()
    } else if pages.last().data.len() > 0 {
        first_tasks_of(pages.drop_last()).push(pages.last().data[0])
    } else {
        first_tasks_of(pages.drop_last())
    }
}

/// The tasks that the answers to [`ZkWasmServiceHelper::query_tasks_from_ids`]
/// hold: the first task of every page that has one.
pub fn first_tasks(pages: Vec<PaginationResult<Vec<Task>>>) -> (r: Vec<Task>)
    ensures
        r@ == first_tasks_of(pages@),
{
    let ghost all = pages@;
    let count = pages.len();
    let mut pages = pages;
    let mut out: Vec<Task> = Vec::new();
    assert(all.take(0) =~= Seq::<PaginationResult<Vec<Task>>>::empty());
    let mut taken: usize = 0;
    while pages.len() > 0
        invariant
            all.len() == count,
            taken + pages.len() == all.len(),
            pages@ == all.skip(taken as int),
            out@ == first_tasks_of(all.take(taken as int)),
        decreases pages.len(),
    {
        let page = pages.remove(0);
        proof {
            assert(page == all[taken as int]);
            assert(all.take(taken + 1).drop_last() =~= all.take(taken as int));
            assert(all.take(taken + 1).last() == all[taken as int]);
            assert(pages@ =~= all.skip(taken + 1));
        }
        match first_task(page) {
            Some(task) => {
                out.push(task);
            },
            None => {},
        }
        taken += 1;
    }
    proof {
        assert(all.take(taken as int) =~= all);
    }
    out
}

} // verus!
