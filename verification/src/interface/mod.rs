//! The records that the service exchanges, and their JSON form.

pub mod codec;
pub mod account;
pub mod admin;
pub mod archive;
pub mod batch;
pub mod common;
pub mod image;
pub mod node;
pub mod page;
pub mod quantity;
pub mod task;

pub use account::{
    AppConfig, BaseSubscriptionDuration, ChainDetails, ChainInfo, ERC20DepositInfo,
    EstimatedProofFee, EstimatedProofFeeParams, NativeCurrency, PaymentParams, ServerVersionInfo,
    Subscription, SubscriptionDuration, SubscriptionParams, SubscriptionRequest, SubscriptionStatus,
    SubscriptionType, TaskFeeList, TokenData, TokenParams, TransactionInfo, TxHistoryQueryParams,
    User, UserQueryParams,
};
pub use admin::{
    AdminRequestType, ForceDryrunFailsToReprocessParams, ForceUnprovableToReprocessParams,
    MaintenanceModeType, SetMaintenanceModeParams,
};
pub use archive::{
    ArchiveConfig, ArchiveMetadataOverview, ArchiveQuery, ArchiveServerConfig,
    ArchiveVolumeMetadata, ArchivedFinalBatchProof, ArchivedFinalProofNetworkInfo, ChainConfig,
    VolumeDetailQuery, VolumeDetailResponse, VolumeListQuery, VolumeRange,
};
pub use batch::{
    AutoSubmitProof, AutoSubmitProofQuery, AutoSubmitProofStatus, Round1Info, Round1InfoQuery,
    Round1Status, Round2Info, Round2InfoQuery, Round2Status, StaticFileVerificationData,
};
pub use common::{
    AddTaskResult, EmptyParams, ObjectId, PaginatedQuery, PaginationParams, PaginationResult,
    Signature, SignaturedRequest, WithSignature, WithoutSignature,
};
pub use image::{
    AddImageParams, AddProveTaskRestrictions, BaseAddImageParams, BaseProvingParams,
    BaseResetImageParams, ContractDeployments, CustomContext, DeployParams, DeploymentInfo, Image,
    ImageChecksum, ImageStatus, InheritedMerkleDataInfo, InitialContext, ModifyImageParams,
    ProvePaymentSrc, ProvingParams, QueryImageParams, ResetContext, ResetImageParams,
    WithCustomInputContext, WithInitialContext, WithNonCustomInputContext, WithResetContext,
};
pub use node::{
    LastAttemptedTask, NodeStatistics, NodeStatisticsQueryParams, OnlineNodeInfo,
    OnlineNodesSummary, ProverLevel, ProverNode, ProverNodeTimeRange, ProverNodeTimeRangeStats,
    ProverNodeTimeRangeStatsParams, ProverNodesSummary, RangeStats, StatisticsInfo,
    TimingStatistics, VersionInfo,
};
pub use task::{
    AutoSubmitBatchMetadata, AutoSubmitStatus, BatchProofData, CompressionType, ConciseTask,
    InputContextType, LogQuery, ProofSubmitMode, QueryParams, Task, TaskExternalHostTable,
    TaskExternalHostTableParams, TaskStatus, TaskType, TaskVerificationData, VerifierContracts,
    VerifyBatchProofParams, VerifyData, VerifyProofParams,
};
pub use codec::{FromJson, JsonObject, RoundTrip, ToJson};
