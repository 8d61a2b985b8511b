use zkp_service_helper::error::ApiError;
use zkp_service_helper::helper::signer::{sign_message, verify_signature};
use zkp_service_helper::helper::util::sign_object;
use zkp_service_helper::interface::{DeployParams, ModifyImageParams};

const KEY: &str = "4c0883a69102937d6231471b5dbb6204fe5129617082792ae468d01a3f362318";
const ADDRESS: &str = "0x2c7536e3605d9c16a7a3d7b1898e529396a65c23";
const SIGNATURE: &str = "b91467e570a6466aa9e9876cbcd013baba02900b8979d43fe208a4a4f339f5fd6007e74cd82e037b800186422fc2da167c747ef045e5d18a5f5d4300f8e1a0291c";

#[test]
fn signs_as_wallets_sign_personal_messages() {
    assert_eq!(sign_message("Some data", KEY), Ok(SIGNATURE.to_string()));
}

#[test]
fn signing_twice_gives_signatures_that_both_verify() {
    let first = sign_message("0x1AA7", KEY).unwrap();
    let second = sign_message("0x1AA7", KEY).unwrap();
    assert!(verify_signature(&first, "0x1AA7", ADDRESS));
    assert!(verify_signature(&second, "0x1AA7", ADDRESS));
    assert_eq!(first, second);
}

#[test]
fn a_known_signature_verifies_for_its_signer() {
    assert!(verify_signature(SIGNATURE, "Some data", ADDRESS));
    let one = sign_message("m", "0000000000000000000000000000000000000000000000000000000000000001").unwrap();
    assert!(verify_signature(&one, "m", "0x7e5f4552091a69125d5dfcb7b8c2659029395bdf"));
}

#[test]
fn a_signature_does_not_verify_for_another_message_or_address() {
    let signature = sign_message("message", KEY).unwrap();
    assert!(!verify_signature(&signature, "other message", ADDRESS));
    assert!(!verify_signature(&signature, "message", "0x7e5f4552091a69125d5dfcb7b8c2659029395bdf"));
    assert!(!verify_signature("zz", "message", ADDRESS));
}

#[test]
fn malformed_keys_are_refused() {
    assert_eq!(sign_message("m", "not a key"), Err(ApiError::InvalidKey));
    assert_eq!(sign_message("m", ""), Err(ApiError::InvalidKey));
    assert_eq!(sign_message("m", "6f142508b4eea641e33cb2a0161221105086a84584c74245ca463a49effea3"), Err(ApiError::InvalidKey));
    assert_eq!(
        sign_message("m", "0000000000000000000000000000000000000000000000000000000000000000"),
        Err(ApiError::InvalidKey)
    );
}

#[test]
fn sign_object_signs_the_message_of_the_payload() {
    let params = DeployParams { user_address: "0x1".to_string(), md5: "AA".to_string(), chain_id: 7 };
    let signature = sign_object(&params, KEY.to_string()).unwrap();
    assert_eq!(Ok(signature.clone()), sign_message("0x1AA7", KEY));
    assert!(verify_signature(&signature, "0x1AA7", ADDRESS));
}

#[test]
fn sign_object_signs_json_where_the_type_asks_for_it() {
    let params = ModifyImageParams {
        md5: "AA".to_string(),
        user_address: "0x1".to_string(),
        description_url: "d".to_string(),
        avator_url: "a".to_string(),
    };
    let signature = sign_object(&params, KEY.to_string()).unwrap();
    let message = "{\"md5\":\"AA\",\"user_address\":\"0x1\",\"description_url\":\"d\",\"avator_url\":\"a\"}";
    assert_eq!(Ok(signature), sign_message(message, KEY));
}

#[test]
fn sign_object_refuses_a_malformed_key() {
    let params = DeployParams { user_address: "0x1".to_string(), md5: "AA".to_string(), chain_id: 7 };
    assert_eq!(sign_object(&params, "12".to_string()), Err(ApiError::InvalidKey));
}
