use zkp_service_helper::error::ApiError;
use zkp_service_helper::helper::endpoint::{decode_response, RequestResult};
use zkp_service_helper::interface::{
    AddTaskResult, EstimatedProofFee, FromJson, ObjectId, PaginationResult, StatisticsInfo,
    TaskStatus, TimingStatistics, ToJson, CompressionType,
};
use zkp_service_helper::json::JsonValue;

#[test]
fn envelope_round_trip() {
    let stats = StatisticsInfo { total_images: 5, total_proofs: 6, total_tasks: 7, total_deployed: 8 };
    let text = RequestResult { success: true, result: stats.clone() }.to_json().to_text();
    assert_eq!(
        text,
        "{\"success\":true,\"result\":{\"total_images\":5,\"total_proofs\":6,\"total_tasks\":7,\"total_deployed\":8}}"
    );
    assert_eq!(decode_response::<StatisticsInfo>(&text), Ok(stats));
}

#[test]
fn result_of_the_wrong_shape_is_a_decode_error() {
    let text = "{\"success\":true,\"result\":\"not-an-object\"}";
    assert_eq!(decode_response::<StatisticsInfo>(text), Err(ApiError::DecodeError(text.to_string())));
    assert_eq!(decode_response::<String>(text), Ok("not-an-object".to_string()));
}

#[test]
fn answers_that_are_no_envelope_are_decode_errors() {
    for text in ["", "not json", "[true, 1]", "{\"result\":1}", "{\"success\":\"yes\",\"result\":1}", "{\"success\":true}"] {
        assert_eq!(decode_response::<u64>(text), Err(ApiError::DecodeError(text.to_string())));
    }
}

#[test]
fn the_success_flag_is_not_looked_at() {
    assert_eq!(decode_response::<u64>("{\"success\":false,\"result\":3}"), Ok(3));
}

#[test]
fn a_missing_result_is_accepted_only_where_it_is_optional() {
    assert_eq!(decode_response::<Option<u64>>("{\"success\":true}"), Ok(None));
    assert_eq!(decode_response::<Option<u64>>("{\"success\":true,\"result\":null}"), Ok(None));
    assert_eq!(decode_response::<()>("{\"success\":true,\"result\":null}"), Ok(()));
    assert_eq!(
        decode_response::<()>("{\"success\":true}"),
        Err(ApiError::DecodeError("{\"success\":true}".to_string()))
    );
}

#[test]
fn optional_fields_may_be_missing_or_null_and_others_must_be_there() {
    let both = JsonValue::parse("{\"latest_time_taken_secs\":1,\"latest_timestamp\":null}").unwrap();
    assert!(TimingStatistics::from_json(&both).is_some());
    let none = JsonValue::parse("{\"latest_timestamp\":\"t\"}").unwrap();
    assert_eq!(TimingStatistics::from_json(&none), None);
    let null = JsonValue::parse("{\"md5\":null,\"id\":\"1\"}").unwrap();
    assert_eq!(AddTaskResult::from_json(&null), None);
}

#[test]
fn unknown_fields_are_dropped_and_field_order_is_free() {
    let text = "{\"extra\":1,\"result\":{\"id\":\"i\",\"x\":[],\"md5\":\"m\"},\"success\":true}";
    assert_eq!(decode_response::<AddTaskResult>(text), Ok(AddTaskResult { md5: "m".to_string(), id: "i".to_string() }));
}

#[test]
fn integers_must_fit_their_type() {
    assert_eq!(u32::from_json(&JsonValue::from_u64(4294967295)), Some(4294967295));
    assert_eq!(u32::from_json(&JsonValue::from_u64(4294967296)), None);
    assert_eq!(u8::from_json(&JsonValue::from_u64(256)), None);
    assert_eq!(u64::from_json(&JsonValue::parse("-1").unwrap()), None);
    assert_eq!(u64::from_json(&JsonValue::parse("1.0").unwrap()), None);
    assert_eq!(u64::from_json(&JsonValue::from_str("1")), None);
}

#[test]
fn enums_are_written_by_name() {
    assert_eq!(TaskStatus::DryRunSuccess.to_json(), JsonValue::from_str("DryRunSuccess"));
    assert_eq!(TaskStatus::from_json(&JsonValue::from_str("Stale")), Some(TaskStatus::Stale));
    assert_eq!(TaskStatus::from_json(&JsonValue::from_str("stale")), None);
    assert_eq!(CompressionType::Uncompressed.to_json(), JsonValue::from_str("None"));
    assert_eq!(CompressionType::from_json(&JsonValue::from_str("None")), Some(CompressionType::Uncompressed));
    assert_eq!(CompressionType::from_json(&JsonValue::from_str("GZip")), Some(CompressionType::GZip));
}

#[test]
fn object_id_uses_its_wire_name() {
    let id = ObjectId { oid: "65f0".to_string() };
    assert_eq!(id.to_json().to_text(), "{\"$oid\":\"65f0\"}");
    assert_eq!(ObjectId::from_json(&JsonValue::parse("{\"$oid\":\"65f0\"}").unwrap()), Some(id));
}

#[test]
fn pages_decode_with_their_total() {
    let text = "{\"success\":true,\"result\":{\"data\":[{\"md5\":\"m\",\"id\":\"1\"}],\"total\":9}}";
    assert_eq!(
        decode_response::<PaginationResult<Vec<AddTaskResult>>>(text),
        Ok(PaginationResult { data: vec![AddTaskResult { md5: "m".to_string(), id: "1".to_string() }], total: 9 })
    );
}

#[test]
fn fractional_numbers_keep_their_text() {
    let v = JsonValue::parse("{\"latest_time_taken_secs\":12.5,\"latest_timestamp\":null}").unwrap();
    let stats = TimingStatistics::from_json(&v).unwrap();
    assert_eq!(stats.latest_time_taken_secs.to_string(), "12.5");
    assert_eq!(stats.latest_timestamp, None);
    assert_eq!(stats.latest_task_id, None);
    assert_eq!(
        stats.to_json().to_text(),
        "{\"latest_time_taken_secs\":12.5,\"latest_timestamp\":null,\"latest_task_id\":null}"
    );
}

#[test]
fn quantities_are_hex_strings() {
    let v = JsonValue::parse("{\"min\":\"0x0a\",\"max\":null,\"msg\":\"ok\"}").unwrap();
    let fee = EstimatedProofFee::from_json(&v).unwrap();
    assert_eq!(fee.min, Some(ethers::types::U256::from(10u64)));
    assert_eq!(fee.max, None);
    assert_eq!(fee.to_json().to_text(), "{\"min\":\"0xa\",\"max\":null,\"msg\":\"ok\"}");
    let bad = JsonValue::parse("{\"min\":\"0xzz\",\"max\":null,\"msg\":\"ok\"}").unwrap();
    assert_eq!(EstimatedProofFee::from_json(&bad), None);
    let number = JsonValue::parse("{\"min\":10,\"max\":null,\"msg\":\"ok\"}").unwrap();
    assert_eq!(EstimatedProofFee::from_json(&number), None);
}

#[test]
fn error_messages() {
    assert_eq!(ApiError::TooManyIds.message(), "Cannot be larger than max 10");
    assert_eq!(ApiError::NotAnObject.message(), "Top level of json must be Object type");
    assert_eq!(ApiError::UnsupportedNesting.message(), "Nested json objects not supported");
    assert_eq!(ApiError::InvalidByteValue.message(), "Byte must be u8 type");
    assert_eq!(ApiError::TransportError("refused".to_string()).message(), "refused");
    assert_eq!(ApiError::DecodeError("{}".to_string()).message(), "Response does not decode: {}");
}
