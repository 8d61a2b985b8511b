use zkp_service_helper::error::ApiError;
use zkp_service_helper::helper::endpoint::{
    query_pairs, request_headers, signature_header, Method, RequestBody, TaskEndpoint, ZkWasmServiceEndpoint,
};
use zkp_service_helper::helper::form::{FormPart, Part};
use zkp_service_helper::interface::{
    AutoSubmitProofQuery, AutoSubmitProofStatus, DeployParams, EmptyParams, LogQuery,
    PaginatedQuery, PaginationParams, ProverNodeTimeRange, ProverNodeTimeRangeStatsParams,
    QueryParams, TaskStatus, TaskType, ToJson,
};
use zkp_service_helper::json::JsonValue;

fn service() -> ZkWasmServiceEndpoint {
    ZkWasmServiceEndpoint::new("http://host:8080".to_string())
}

fn no_filters() -> QueryParams {
    QueryParams { user_address: None, md5: None, id: None, tasktype: None, taskstatus: None, start: None, total: None }
}

#[test]
fn two_identifiers_render_in_construction_order() {
    assert_eq!(TaskEndpoint::ArchiveAutoSubmitInfo("abc".to_string(), 7).path_params(), "/abc/7");
    assert_eq!(TaskEndpoint::ArchiveAutoSubmitInfoByTask("t".to_string(), 4294967295).path_params(), "/t/4294967295");
    assert_eq!(TaskEndpoint::ArchiveAutoSubmitInfo("".to_string(), 0).path_params(), "//0");
}

#[test]
fn one_identifier_renders_behind_a_slash() {
    assert_eq!(TaskEndpoint::ArchiveTask("id1".to_string()).path_params(), "/id1");
    assert_eq!(TaskEndpoint::ArchiveAutoSubmitNetworks("id2".to_string()).path_params(), "/id2");
    assert_eq!(TaskEndpoint::ArchiveTaskVolume("v".to_string()).path_params(), "/v");
    assert_eq!(TaskEndpoint::ArchiveAutoSubmitVolume("w".to_string()).path_params(), "/w");
}

#[test]
fn no_identifier_renders_empty() {
    assert_eq!(TaskEndpoint::Image.path_params(), "");
    assert_eq!(TaskEndpoint::ArchiveArchiveQuery.path_params(), "");
}

#[test]
fn paths_are_the_fixed_table() {
    let table: Vec<(TaskEndpoint, &str)> = vec![
        (TaskEndpoint::Image, "image"),
        (TaskEndpoint::ImageBinary, "imagebinary"),
        (TaskEndpoint::User, "user"),
        (TaskEndpoint::UserSubscription, "user_subscription"),
        (TaskEndpoint::Transactions, "transactions"),
        (TaskEndpoint::Deposits, "deposits"),
        (TaskEndpoint::Config, "config"),
        (TaskEndpoint::Statistics, "statistics"),
        (TaskEndpoint::NodeStatistics, "node_statistics"),
        (TaskEndpoint::ProverNodeSummary, "prover_node_summary"),
        (TaskEndpoint::OnlineNodesSummary, "online_nodes_summary"),
        (TaskEndpoint::Tasks, "tasks"),
        (TaskEndpoint::ConciseTasks, "tasklist"),
        (TaskEndpoint::TaskExternalHostTable, "task_external_host_table"),
        (TaskEndpoint::Round1Batch, "round1_batch_proofs"),
        (TaskEndpoint::Round2Batch, "round2_batch_proofs"),
        (TaskEndpoint::FinalBatch, "final_batch_proofs"),
        (TaskEndpoint::Logs, "logs"),
        (TaskEndpoint::ArchiveSummary, "archive/summary"),
        (TaskEndpoint::ArchiveTaskVolumeList, "archive/task_volume_list"),
        (TaskEndpoint::ArchiveAutoSubmitTaskVolumeList, "archive/auto_submit_volume_list"),
        (TaskEndpoint::ArchiveTask("x".to_string()), "archive/task"),
        (TaskEndpoint::ArchiveAutoSubmitNetworks("x".to_string()), "archive/auto_submit_networks"),
        (TaskEndpoint::ArchiveAutoSubmitInfoByTask("x".to_string(), 1), "archive/auto_submit_info_by_task"),
        (TaskEndpoint::ArchiveAutoSubmitInfo("x".to_string(), 1), "archive/auto_submit_info"),
        (TaskEndpoint::ArchiveConfig, "archive/config"),
        (TaskEndpoint::ArchiveTaskVolume("x".to_string()), "archive/task_volume"),
        (TaskEndpoint::ArchiveAutoSubmitVolume("x".to_string()), "archive/auto_submit_volume"),
        (TaskEndpoint::ArchiveArchiveQuery, "archive/archive_query"),
        (TaskEndpoint::Pay, "pay"),
        (TaskEndpoint::Subscribe, "subscribe"),
        (TaskEndpoint::Setup, "setup"),
        (TaskEndpoint::Prove, "prove"),
        (TaskEndpoint::Deploy, "deploy"),
        (TaskEndpoint::Reset, "reset"),
        (TaskEndpoint::Modify, "modify"),
        (TaskEndpoint::SetMaintenanceMode, "admin/set_maintenance_mode"),
        (TaskEndpoint::ForceUnprovableToReprocess, "admin/force_unprovable_to_reprocess"),
        (TaskEndpoint::ForceDryrunFailsToReprocess, "admin/force_dryrun_fails_to_reprocess"),
        (TaskEndpoint::EstimatedProofFee, "estimated_proof_fee"),
        (TaskEndpoint::ProverNodeTimerangeStats, "prover_node_timerange_stats"),
    ];
    for (endpoint, path) in table {
        assert_eq!(endpoint.as_path(), path);
    }
}

#[test]
fn url_is_base_path_and_identifiers() {
    assert_eq!(service().to_path(&TaskEndpoint::Tasks), "http://host:8080/tasks");
    assert_eq!(
        service().to_path(&TaskEndpoint::ArchiveAutoSubmitInfo("abc".to_string(), 7)),
        "http://host:8080/archive/auto_submit_info/abc/7"
    );
}

#[test]
fn get_with_no_filter_has_no_question_mark() {
    let request = service().get(TaskEndpoint::Tasks, &no_filters(), None).unwrap();
    assert_eq!(request.url, "http://host:8080/tasks");
    assert_eq!(request.method, Method::Get);
    assert_eq!(request.body, RequestBody::Empty);
    assert_eq!(request.headers, vec![]);
    let empty = service().get(TaskEndpoint::Config, &EmptyParams, None).unwrap();
    assert_eq!(empty.url, "http://host:8080/config");
}

#[test]
fn get_writes_the_filters_that_are_set_in_declaration_order() {
    let mut params = no_filters();
    params.total = Some(1);
    params.id = Some("a b&c".to_string());
    params.tasktype = Some(TaskType::Prove);
    params.taskstatus = Some(TaskStatus::DryRunFailed);
    let request = service().get(TaskEndpoint::Tasks, &params, Some("sig".to_string())).unwrap();
    assert_eq!(request.url, "http://host:8080/tasks?id=a+b%26c&tasktype=Prove&taskstatus=DryRunFailed&total=1");
    assert_eq!(request.headers, vec![("x-eth-signature".to_string(), "sig".to_string())]);
}

#[test]
fn flattened_queries_write_query_then_paging() {
    let params = PaginatedQuery {
        query: AutoSubmitProofQuery {
            id: None,
            task_id: Some("t".to_string()),
            status: Some(AutoSubmitProofStatus::Batched),
            circuit_size: Some(22),
            chain_id: None,
        },
        pagination: PaginationParams { total: Some(10), start: Some(0) },
    };
    let request = service().get(TaskEndpoint::Round1Batch, &params, None).unwrap();
    assert_eq!(
        request.url,
        "http://host:8080/round1_batch_proofs?task_id=t&status=Batched&circuit_size=22&total=10&start=0"
    );
}

#[test]
fn query_pairs_of_documents() {
    let v = JsonValue::parse("{\"a\":1,\"b\":null,\"c\":\"x\",\"d\":false}").unwrap();
    assert_eq!(
        query_pairs(&v),
        Ok(vec![
            ("a".to_string(), "1".to_string()),
            ("c".to_string(), "x".to_string()),
            ("d".to_string(), "false".to_string()),
        ])
    );
    assert_eq!(query_pairs(&JsonValue::Null), Ok(vec![]));
    assert_eq!(query_pairs(&JsonValue::from_u64(1)), Err(ApiError::UnsupportedQuery));
    assert_eq!(query_pairs(&JsonValue::parse("{\"a\":[1]}").unwrap()), Err(ApiError::UnsupportedQuery));
    assert_eq!(query_pairs(&JsonValue::parse("{\"a\":{}}").unwrap()), Err(ApiError::UnsupportedQuery));
}

#[test]
fn post_sends_a_multipart_form_by_default() {
    let params = DeployParams { user_address: "0x1".to_string(), md5: "AA".to_string(), chain_id: 7 };
    let request = service().post(TaskEndpoint::Deploy, &params, Some("s".to_string())).unwrap();
    assert_eq!(request.method, Method::Post);
    assert_eq!(request.url, "http://host:8080/deploy");
    assert_eq!(request.headers, vec![("x-eth-signature".to_string(), "s".to_string())]);
    match request.body {
        RequestBody::Multipart(form) => assert_eq!(
            form.parts[2],
            FormPart { name: "chain_id".to_string(), part: Part::Text("7".to_string()) }
        ),
        other => panic!("unexpected body {:?}", other),
    }
}

#[test]
fn post_sends_json_where_the_type_asks_for_it() {
    let params = ProverNodeTimeRangeStatsParams {
        ranges: vec![ProverNodeTimeRange { address: "0x1".to_string(), start: "s".to_string(), end: "e".to_string() }],
    };
    let request = service().post(TaskEndpoint::ProverNodeTimerangeStats, &params, None).unwrap();
    assert_eq!(
        request.body,
        RequestBody::Json("{\"ranges\":[{\"address\":\"0x1\",\"start\":\"s\",\"end\":\"e\"}]}".to_string())
    );
    assert_eq!(request.headers, vec![("content-type".to_string(), "application/json".to_string())]);
    assert_eq!(params.to_json().to_text(), "{\"ranges\":[{\"address\":\"0x1\",\"start\":\"s\",\"end\":\"e\"}]}");
}

#[test]
fn log_query_goes_into_the_query_string() {
    let params = LogQuery { id: "t1".to_string(), user_address: "0x1".to_string() };
    let request = service().get(TaskEndpoint::Logs, &params, Some("s".to_string())).unwrap();
    assert_eq!(request.url, "http://host:8080/logs?id=t1&user_address=0x1");
}

#[test]
fn headers_carry_content_type_and_signature() {
    assert_eq!(signature_header(), "x-eth-signature");
    assert_eq!(request_headers(None, false), vec![]);
    assert_eq!(
        request_headers(Some("ab".to_string()), true),
        vec![
            ("content-type".to_string(), "application/json".to_string()),
            ("x-eth-signature".to_string(), "ab".to_string()),
        ]
    );
}
