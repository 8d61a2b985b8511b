use zkp_service_helper::error::ApiError;
use zkp_service_helper::helper::endpoint::{Method, Request, RequestBody};
use zkp_service_helper::helper::form::Part;
use zkp_service_helper::helper::helper::{first_image, first_task, first_tasks, ZkWasmServiceHelper};
use zkp_service_helper::helper::signer::{sign_message, verify_signature};
use zkp_service_helper::interface::{
    AdminRequestType, BaseSubscriptionDuration, CustomContext, FromJson, InitialContext,
    MaintenanceModeType, PaginationResult, ProofSubmitMode, ProvePaymentSrc,
    ProverNodeTimeRangeStatsParams, ResetContext, SubscriptionDuration, SubscriptionType, Task,
    ToJson,
};
use zkp_service_helper::json::JsonValue;

const KEY: &str = "4c0883a69102937d6231471b5dbb6204fe5129617082792ae468d01a3f362318";
const ADDRESS: &str = "0x2c7536e3605d9c16a7a3d7b1898e529396a65c23";

fn signature_of(request: &Request) -> Option<String> {
    request.headers.iter().find(|h| h.0 == "x-eth-signature").map(|h| h.1.clone())
}

fn helper() -> ZkWasmServiceHelper {
    ZkWasmServiceHelper::new("https://zk.example/api".to_string())
}

fn task(id: &str) -> Task {
    let text = format!(
        "{{\"user_address\":\"0x1\",\"_id\":{{\"$oid\":\"{}\"}},\"status\":\"Done\",\"md5\":\"M\",\
         \"task_type\":\"Prove\",\"public_inputs\":[\"1:i64\"],\"private_inputs\":[],\"single_proof\":[1,2],\
         \"proof\":[],\"batch_instances\":[],\"shadow_instances\":[],\"instances\":[],\"aux\":[],\
         \"input_context\":[],\"output_context\":[],\"submit_time\":\"t\",\
         \"task_verification_data\":{{\"static_file_checksum\":[3],\"verifier_contracts\":[]}},\
         \"compression\":\"GZip\"}}",
        id
    );
    Task::from_json(&JsonValue::parse(&text).unwrap()).unwrap()
}

#[test]
fn query_image_asks_by_md5() {
    let request = helper().query_image("AB12".to_string()).unwrap();
    assert_eq!(request.method, Method::Get);
    assert_eq!(request.url, "https://zk.example/api/image?md5=AB12");
    assert_eq!(request.headers, vec![]);
    assert_eq!(request.body, RequestBody::Empty);
}

#[test]
fn unfiltered_queries_have_no_query_string() {
    assert_eq!(helper().query_config().unwrap().url, "https://zk.example/api/config");
    assert_eq!(helper().query_node_statistics(None, None, None).unwrap().url, "https://zk.example/api/node_statistics");
    assert_eq!(
        helper().query_tasks(None, None, None, None, None, None, None).unwrap().url,
        "https://zk.example/api/tasks"
    );
    assert_eq!(
        helper().query_round2_info(None, None, None, None, None, None, None).unwrap().url,
        "https://zk.example/api/final_batch_proofs"
    );
}

#[test]
fn history_queries_send_only_the_address() {
    assert_eq!(
        helper().query_tx_history("0x1".to_string()).unwrap().url,
        "https://zk.example/api/transactions?user_address=0x1"
    );
    assert_eq!(
        helper().query_deposit_history("0x1".to_string()).unwrap().url,
        "https://zk.example/api/deposits?user_address=0x1"
    );
}

#[test]
fn round1_info_sends_the_queue_id_as_round_1_id() {
    let request = helper()
        .query_round1_info(None, Some("q".to_string()), None, None, None, Some(5), Some(2), Some(3))
        .unwrap();
    assert_eq!(request.url, "https://zk.example/api/round2_batch_proofs?round_1_id=q&chain_id=5&total=3&start=2");
}

#[test]
fn archive_operations_carry_their_identifiers_in_the_path() {
    assert_eq!(
        helper().query_archived_auto_submit_info_by_archive_id("abc".to_string(), 7).unwrap().url,
        "https://zk.example/api/archive/auto_submit_info/abc/7"
    );
    assert_eq!(
        helper().query_archived_task("t9".to_string()).unwrap().url,
        "https://zk.example/api/archive/task/t9"
    );
    assert_eq!(
        helper().query_archive_task_volume("v1".to_string(), Some(0), None).unwrap().url,
        "https://zk.example/api/archive/task_volume/v1?tasks_start=0"
    );
}

#[test]
fn query_logs_is_signed_over_its_json_text() {
    let request = helper().query_logs("t1".to_string(), ADDRESS.to_string(), KEY.to_string()).unwrap();
    let message = format!("{{\"id\":\"t1\",\"user_address\":\"{}\"}}", ADDRESS);
    assert_eq!(signature_of(&request), Some(sign_message(&message, KEY).unwrap()));
    assert_eq!(request.url, format!("https://zk.example/api/logs?id=t1&user_address={}", ADDRESS));
}

#[test]
fn add_deploy_is_signed_over_the_canonical_message() {
    let request = helper().add_deploy("0x1".to_string(), "AA".to_string(), 7, KEY.to_string()).unwrap();
    let signature = signature_of(&request).unwrap();
    assert!(verify_signature(&signature, "0x1AA7", ADDRESS));
    assert_eq!(request.method, Method::Post);
    assert_eq!(request.url, "https://zk.example/api/deploy");
}

#[test]
fn setup_image_sends_the_image_as_bytes() {
    let request = helper()
        .setup_image(
            "n".to_string(),
            vec![0, 97, 115, 109],
            "MD".to_string(),
            "0x1".to_string(),
            "d".to_string(),
            String::new(),
            22,
            ProvePaymentSrc::Default,
            vec![5],
            None,
            None,
            InitialContext::Without,
            KEY.to_string(),
        )
        .unwrap();
    assert!(verify_signature(&signature_of(&request).unwrap(), "nMD0x1d22Default5", ADDRESS));
    match request.body {
        RequestBody::Multipart(form) => {
            assert_eq!(form.parts.len(), 9);
            assert_eq!(form.parts[2].name, "image");
            assert_eq!(form.parts[2].part, Part::Bytes(vec![0, 97, 115, 109]));
        },
        other => panic!("unexpected body {:?}", other),
    }
}

#[test]
fn add_prove_and_add_reset_without_context() {
    let prove = helper()
        .add_prove(
            "0x1".to_string(),
            "AA".to_string(),
            vec!["1:i64".to_string()],
            vec![],
            ProofSubmitMode::Auto,
            CustomContext::Without,
            KEY.to_string(),
        )
        .unwrap();
    assert!(verify_signature(&signature_of(&prove).unwrap(), "0x1AA1:i64Auto", ADDRESS));
    let reset = helper()
        .add_reset("AA".to_string(), 22, "0x1".to_string(), ProvePaymentSrc::Default, vec![1, 2], None, ResetContext::Without, KEY.to_string())
        .unwrap();
    assert!(verify_signature(&signature_of(&reset).unwrap(), "AA220x1Default12", ADDRESS));
    assert_eq!(reset.url, "https://zk.example/api/reset");
}

#[test]
fn admin_requests_are_signed_with_their_nonce() {
    let mode = helper()
        .set_maintenance_mode(MaintenanceModeType::Enabled, 4, AdminRequestType::MaintenanceMode, "0x1".to_string(), KEY.to_string())
        .unwrap();
    assert!(verify_signature(&signature_of(&mode).unwrap(), "Enabled4MaintenanceMode0x1", ADDRESS));
    assert_eq!(mode.url, "https://zk.example/api/admin/set_maintenance_mode");
    let force = helper()
        .force_unprovable_to_reprocess(vec!["a".to_string(), "b".to_string()], "0x1".to_string(), KEY.to_string())
        .unwrap();
    assert!(verify_signature(&signature_of(&force).unwrap(), "ab0ForceTaskToReprocess0x1", ADDRESS));
    let dry = helper()
        .force_dryrun_fails_to_reprocess(vec![], "0x1".to_string(), KEY.to_string())
        .unwrap();
    assert_eq!(dry.url, "https://zk.example/api/admin/force_dryrun_fails_to_reprocess");
}

#[test]
fn a_malformed_key_stops_a_signed_request() {
    assert_eq!(
        helper().modify_image("AA".to_string(), "0x1".to_string(), "d".to_string(), "a".to_string(), "key".to_string()),
        Err(ApiError::InvalidKey)
    );
}

#[test]
fn add_subscription_is_refused_for_its_nested_duration() {
    let request = helper().add_subscription(
        "0x1".to_string(),
        SubscriptionType::Basic,
        SubscriptionDuration { base_duration: BaseSubscriptionDuration::Year, multiplier: 2 },
        "h".to_string(),
    );
    assert_eq!(request, Err(ApiError::UnsupportedNesting));
}

#[test]
fn timerange_stats_go_as_json() {
    let query = ProverNodeTimeRangeStatsParams { ranges: vec![] };
    let request = helper().query_prover_node_timerange_stats(query).unwrap();
    assert_eq!(request.body, RequestBody::Json("{\"ranges\":[]}".to_string()));
    assert_eq!(request.url, "https://zk.example/api/prover_node_timerange_stats");
}

#[test]
fn unsigned_posts() {
    let pay = helper().add_payment("0xhash".to_string()).unwrap();
    assert_eq!(signature_of(&pay), None);
    assert_eq!(pay.url, "https://zk.example/api/pay");
}

#[test]
fn tasks_from_ids_asks_once_for_each_id() {
    let requests = helper().query_tasks_from_ids(vec!["a".to_string(), "b".to_string()]).unwrap();
    assert_eq!(requests.len(), 2);
    assert_eq!(requests[0].url, "https://zk.example/api/tasks?id=a&total=1");
    assert_eq!(requests[1].url, "https://zk.example/api/tasks?id=b&total=1");
    assert_eq!(helper().query_task_from_id("a".to_string()).unwrap(), requests[0]);
    assert_eq!(helper().query_tasks_from_ids(vec![]).unwrap().len(), 0);
}

#[test]
fn more_than_ten_ids_are_refused() {
    let ten: Vec<String> = (0..10).map(|i| i.to_string()).collect();
    assert_eq!(helper().query_tasks_from_ids(ten).unwrap().len(), 10);
    let eleven: Vec<String> = (0..11).map(|i| i.to_string()).collect();
    assert_eq!(helper().query_tasks_from_ids(eleven), Err(ApiError::TooManyIds));
}

#[test]
fn first_tasks_skips_empty_pages() {
    let pages = vec![
        PaginationResult { data: vec![task("1"), task("2")], total: 2 },
        PaginationResult { data: vec![], total: 0 },
        PaginationResult { data: vec![task("3")], total: 1 },
    ];
    assert_eq!(first_tasks(pages), vec![task("1"), task("3")]);
    assert_eq!(first_task(PaginationResult { data: vec![], total: 0 }), None);
    assert_eq!(first_task(PaginationResult { data: vec![task("4")], total: 1 }), Some(task("4")));
}

#[test]
fn a_task_reads_back_from_its_own_json() {
    let t = task("77");
    assert_eq!(Task::from_json(&t.to_json()), Some(t.clone()));
    let text = t.to_json().to_text();
    assert_eq!(Task::from_json(&JsonValue::parse(&text).unwrap()), Some(t));
}

#[test]
fn first_image_is_the_first_entry() {
    assert_eq!(first_image(vec![None]), None);
}

#[test]
fn pages_know_whether_they_fit_their_total() {
    assert!(PaginationResult { data: vec![task("1")], total: 1 }.holds_page());
    assert!(PaginationResult { data: Vec::<Task>::new(), total: 0 }.holds_page());
    assert!(!PaginationResult { data: vec![task("1"), task("2")], total: 1 }.holds_page());
}
