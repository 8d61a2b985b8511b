use zkp_service_helper::error::ApiError;
use zkp_service_helper::helper::form::{FormPart, IntoMultipartForm, MultipartForm, Part};
use zkp_service_helper::interface::{
    AddImageParams, BaseAddImageParams, DeployParams, InitialContext, ProvePaymentSrc,
    SubscriptionDuration, SubscriptionRequest, SubscriptionType, BaseSubscriptionDuration,
    WithInitialContext,
};
use zkp_service_helper::json::JsonValue;

fn text(name: &str, value: &str) -> FormPart {
    FormPart { name: name.to_string(), part: Part::Text(value.to_string()) }
}

fn names(list: &[&str]) -> Vec<String> {
    list.iter().map(|s| s.to_string()).collect()
}

fn texts_named(form: &MultipartForm, name: &str) -> Vec<String> {
    let mut out = Vec::new();
    for p in &form.parts {
        if p.name == name {
            if let Part::Text(t) = &p.part {
                out.push(t.clone());
            }
        }
    }
    out
}

#[test]
fn scalar_fields_become_one_text_part_each() {
    let params = DeployParams { user_address: "0x1".to_string(), md5: "AA".to_string(), chain_id: 7 };
    let form = IntoMultipartForm::into_multipart_form(&params).unwrap();
    assert_eq!(form.parts, vec![text("user_address", "0x1"), text("md5", "AA"), text("chain_id", "7")]);
}

#[test]
fn reading_the_form_back_recovers_every_scalar_field() {
    let params = DeployParams { user_address: "0x1".to_string(), md5: "AA".to_string(), chain_id: 7 };
    let form = IntoMultipartForm::into_multipart_form(&params).unwrap();
    assert_eq!(texts_named(&form, "user_address"), vec!["0x1".to_string()]);
    assert_eq!(texts_named(&form, "md5"), vec!["AA".to_string()]);
    assert_eq!(texts_named(&form, "chain_id"), vec!["7".to_string()]);
}

#[test]
fn bytes_field_becomes_one_binary_part_and_other_arrays_one_part_per_item() {
    let params = AddImageParams {
        base: BaseAddImageParams {
            name: "n".to_string(),
            image_md5: "MD".to_string(),
            image: vec![0, 1, 255],
            user_address: "0x1".to_string(),
            description_url: "d".to_string(),
            avator_url: "a".to_string(),
            circuit_size: 22,
            prove_payment_src: ProvePaymentSrc::CreatorPay,
            auto_submit_network_ids: vec![5, 97],
            add_prove_task_restrictions: None,
            inherited_merkle_data_md5: Some("IM".to_string()),
        },
        context: InitialContext::With(WithInitialContext {
            initial_context_md5: "IC".to_string(),
            initial_context: vec![8, 9],
        }),
    };
    let form = IntoMultipartForm::into_multipart_form(&params).unwrap();
    assert_eq!(
        form.parts,
        vec![
            text("name", "n"),
            text("image_md5", "MD"),
            FormPart { name: "image".to_string(), part: Part::Bytes(vec![0, 1, 255]) },
            text("user_address", "0x1"),
            text("description_url", "d"),
            text("avator_url", "a"),
            text("circuit_size", "22"),
            text("prove_payment_src", "CreatorPay"),
            text("auto_submit_network_ids", "5"),
            text("auto_submit_network_ids", "97"),
            text("inherited_merkle_data_md5", "IM"),
            text("initial_context_md5", "IC"),
            text("initial_context", "8"),
            text("initial_context", "9"),
        ]
    );
}

#[test]
fn null_fields_give_no_part() {
    let v = JsonValue::parse("{\"a\":null,\"b\":true,\"c\":[]}").unwrap();
    let form = IntoMultipartForm::form_from_json(&v, &names(&[])).unwrap();
    assert_eq!(form.parts, vec![text("b", "true")]);
}

#[test]
fn nested_object_is_refused() {
    let params = SubscriptionRequest {
        subscriber_address: "0x1".to_string(),
        subscription_type: SubscriptionType::Basic,
        duration: SubscriptionDuration { base_duration: BaseSubscriptionDuration::Month, multiplier: 1 },
        payment_hash: "h".to_string(),
    };
    assert_eq!(IntoMultipartForm::into_multipart_form(&params), Err(ApiError::UnsupportedNesting));
}

#[test]
fn array_items_must_be_scalars() {
    let v = JsonValue::parse("{\"a\":[1,null]}").unwrap();
    assert_eq!(IntoMultipartForm::form_from_json(&v, &names(&[])), Err(ApiError::UnsupportedNesting));
    let w = JsonValue::parse("{\"a\":[[1]]}").unwrap();
    assert_eq!(IntoMultipartForm::form_from_json(&w, &names(&[])), Err(ApiError::UnsupportedNesting));
}

#[test]
fn bytes_must_be_integers_up_to_255() {
    for bad in ["{\"b\":[1,256]}", "{\"b\":[-1]}", "{\"b\":[1.5]}", "{\"b\":[\"1\"]}", "{\"b\":[null]}"] {
        let v = JsonValue::parse(bad).unwrap();
        assert_eq!(IntoMultipartForm::form_from_json(&v, &names(&["b"])), Err(ApiError::InvalidByteValue));
    }
    let ok = JsonValue::parse("{\"b\":[0,255]}").unwrap();
    assert_eq!(
        IntoMultipartForm::form_from_json(&ok, &names(&["b"])).unwrap().parts,
        vec![FormPart { name: "b".to_string(), part: Part::Bytes(vec![0, 255]) }]
    );
}

#[test]
fn the_first_field_that_fails_decides_the_error() {
    let v = JsonValue::parse("{\"b\":[300],\"o\":{}}").unwrap();
    assert_eq!(IntoMultipartForm::form_from_json(&v, &names(&["b"])), Err(ApiError::InvalidByteValue));
    let w = JsonValue::parse("{\"o\":{},\"b\":[300]}").unwrap();
    assert_eq!(IntoMultipartForm::form_from_json(&w, &names(&["b"])), Err(ApiError::UnsupportedNesting));
}

#[test]
fn payload_must_be_an_object() {
    let v = JsonValue::parse("[1,2]").unwrap();
    assert_eq!(IntoMultipartForm::form_from_json(&v, &names(&[])), Err(ApiError::NotAnObject));
    assert_eq!(IntoMultipartForm::form_from_json(&JsonValue::Null, &names(&[])), Err(ApiError::NotAnObject));
}

#[test]
fn create_parts_and_into_part_on_single_values() {
    assert_eq!(IntoMultipartForm::into_part(&JsonValue::Bool(false)), Ok(Part::Text("false".to_string())));
    assert_eq!(IntoMultipartForm::into_part(&JsonValue::Null), Err(ApiError::UnsupportedNesting));
    let parts = IntoMultipartForm::create_parts("x", &JsonValue::from_u64(12), &names(&["x"])).unwrap();
    assert_eq!(parts, vec![Part::Text("12".to_string())]);
}
