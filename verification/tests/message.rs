use zkp_service_helper::helper::util::{push_flat_message, SerializationAttributes};
use zkp_service_helper::interface::{
    AddImageParams, BaseAddImageParams, BaseProvingParams, CustomContext, DeployParams,
    InitialContext, InputContextType, LogQuery, ModifyImageParams, ProofSubmitMode,
    ProvePaymentSrc, ProvingParams, ToJson, WithCustomInputContext, WithInitialContext,
};
use zkp_service_helper::json::{JsonField, JsonValue};

fn field(name: &str, value: JsonValue) -> JsonField {
    JsonField { name: name.to_string(), value }
}

fn flat(v: &JsonValue, ignored: &[&str]) -> String {
    let ignored: Vec<String> = ignored.iter().map(|s| s.to_string()).collect();
    let mut out = String::new();
    push_flat_message(v, &ignored, &mut out);
    out
}

#[test]
fn deploy_params_flatten_in_declaration_order() {
    let params = DeployParams { user_address: "0x1".to_string(), md5: "AA".to_string(), chain_id: 7 };
    assert_eq!(DeployParams::create_message(&params.to_json()), "0x1AA7");
}

#[test]
fn scalars_flatten_to_their_text() {
    assert_eq!(flat(&JsonValue::Null, &[]), "");
    assert_eq!(flat(&JsonValue::Bool(true), &[]), "true");
    assert_eq!(flat(&JsonValue::Bool(false), &[]), "false");
    assert_eq!(flat(&JsonValue::from_u64(18446744073709551615), &[]), "18446744073709551615");
    assert_eq!(flat(&JsonValue::from_u64(0), &[]), "0");
    assert_eq!(flat(&JsonValue::from_str("a \"b\"\n"), &[]), "a \"b\"\n");
}

#[test]
fn numbers_that_are_not_unsigned_flatten_as_serde_prints_them() {
    let v = JsonValue::parse("[-12, 1.5, 1e3]").unwrap();
    assert_eq!(flat(&v, &[]), "-121.51000.0");
}

#[test]
fn arrays_and_objects_flatten_without_separators() {
    let v = JsonValue::parse("{\"a\":[1,{\"b\":\"x\",\"c\":null},[true,\"y\"]],\"d\":2}").unwrap();
    assert_eq!(flat(&v, &[]), "1xtruey2");
}

#[test]
fn ignored_fields_are_left_out_at_every_depth() {
    let v = JsonValue::parse("{\"a\":\"1\",\"skip\":\"2\",\"b\":[{\"skip\":\"3\",\"c\":\"4\"}]}").unwrap();
    assert_eq!(flat(&v, &["skip"]), "14");
    assert_eq!(flat(&v, &[]), "1234");
}

#[test]
fn message_does_not_change_with_an_ignored_field() {
    let a = JsonValue::Object(vec![field("x", JsonValue::from_u64(1)), field("image", JsonValue::from_str("aaa"))]);
    let b = JsonValue::Object(vec![
        field("x", JsonValue::from_u64(1)),
        field("image", JsonValue::Array(vec![JsonValue::from_u64(9), JsonValue::Null])),
    ]);
    assert_eq!(flat(&a, &["image"]), flat(&b, &["image"]));
    assert_ne!(flat(&a, &[]), flat(&b, &[]));
}

fn proving(input_context: Vec<u8>) -> ProvingParams {
    ProvingParams {
        base: BaseProvingParams {
            user_address: "0xabc".to_string(),
            md5: "FF".to_string(),
            public_inputs: vec!["1:i64".to_string(), "2:i64".to_string()],
            private_inputs: vec![],
            proof_submit_mode: ProofSubmitMode::Manual,
        },
        context: CustomContext::With(WithCustomInputContext {
            input_context_type: InputContextType::Custom,
            input_context,
            input_context_md5: "CC".to_string(),
        }),
    }
}

#[test]
fn proving_message_ignores_the_input_context() {
    let a = ProvingParams::create_message(&proving(vec![1, 2, 3]).to_json());
    let b = ProvingParams::create_message(&proving(vec![]).to_json());
    assert_eq!(a, "0xabcFF1:i642:i64ManualCustomCC");
    assert_eq!(a, b);
}

fn add_image(image: Vec<u8>, initial_context: Vec<u8>) -> AddImageParams {
    AddImageParams {
        base: BaseAddImageParams {
            name: "n".to_string(),
            image_md5: "MD".to_string(),
            image,
            user_address: "0x1".to_string(),
            description_url: "d".to_string(),
            avator_url: "".to_string(),
            circuit_size: 22,
            prove_payment_src: ProvePaymentSrc::Default,
            auto_submit_network_ids: vec![5, 97],
            add_prove_task_restrictions: None,
            inherited_merkle_data_md5: None,
        },
        context: InitialContext::With(WithInitialContext {
            initial_context_md5: "IC".to_string(),
            initial_context,
        }),
    }
}

#[test]
fn add_image_message_ignores_image_and_initial_context() {
    let a = AddImageParams::create_message(&add_image(vec![0, 255], vec![7]).to_json());
    let b = AddImageParams::create_message(&add_image(vec![], vec![]).to_json());
    assert_eq!(a, "nMD0x1d22Default597IC");
    assert_eq!(a, b);
}

#[test]
fn policies_are_as_declared() {
    assert_eq!(AddImageParams::fields_which_are_bytes(), vec!["image".to_string()]);
    assert_eq!(AddImageParams::fields_to_ignore(), vec!["image".to_string(), "initial_context".to_string()]);
    assert_eq!(ProvingParams::fields_to_ignore(), vec!["input_context".to_string()]);
    assert!(ProvingParams::fields_which_are_bytes().is_empty());
    assert!(DeployParams::fields_to_ignore().is_empty());
    assert!(!DeployParams::requires_json_body());
    assert!(!ModifyImageParams::requires_json_body());
    assert!(LogQuery::requires_json_body());
}

#[test]
fn json_message_types_sign_their_json_text() {
    let params = ModifyImageParams {
        md5: "AA".to_string(),
        user_address: "0x1".to_string(),
        description_url: "say \"hi\"".to_string(),
        avator_url: "".to_string(),
    };
    assert_eq!(
        ModifyImageParams::create_message(&params.to_json()),
        "{\"md5\":\"AA\",\"user_address\":\"0x1\",\"description_url\":\"say \\\"hi\\\"\",\"avator_url\":\"\"}"
    );
    let query = LogQuery { id: "t1".to_string(), user_address: "0x1".to_string() };
    assert_eq!(LogQuery::create_message(&query.to_json()), "{\"id\":\"t1\",\"user_address\":\"0x1\"}");
}
