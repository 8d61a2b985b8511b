//! 256-bit quantities, which the service writes as `0x`-prefixed hex strings.

use vstd::prelude::*;
use crate::interface::codec::{FromJson, ToJson};
use crate::json::{Json, JsonValue};

verus! {

#[verifier::external_type_specification]
#[verifier::external_body]
pub struct ExU256(ethers::types::U256);

/// The text that a quantity is written as: `0x` and its hex digits without
/// leading zeros, `0x0` for zero.
pub uninterp spec fn quantity_text(q: ethers::types::U256) -> Seq<char>;

/// The text of the quantity that a string is read as, `None` where the string
/// is refused.
pub uninterp spec fn quantity_parse(text: Seq<char>) -> Option<Seq<char>>;

/// `Clone` of `U256`: the copy is the same quantity.
pub assume_specification[ <ethers::types::U256 as Clone>::clone ](
    q: &ethers::types::U256,
) -> (r: ethers::types::U256)
    ensures
        r == *q,
;

/// `Serialize` of `U256`, run by `serde_json::to_value`: the quantity as a
/// JSON string.
#[verifier::external_body]
fn quantity_to_text(q: &ethers::types::U256) -> (s: String)
    ensures
        s@ == quantity_text(*q),
{
    match serde_json::to_value(q) {
        Ok(serde_json::Value::String(s)) => s,
        _ => String::new(),
    }
}

/// `Deserialize` of `U256`, run by `serde_json::from_value` on a JSON string:
/// the quantity that the string stands for, `None` where it is refused.
#[verifier::external_body]
fn quantity_from_text(text: &str) -> (r: Option<ethers::types::U256>)
    ensures
        match r {
            Some(q) => quantity_parse(text@) == Some(quantity_text(q)),
            None => quantity_parse(text@) is None,
        },
{
    serde_json::from_value::<ethers::types::U256>(serde_json::Value::String(text.to_owned())).ok()
}

impl ToJson for ethers::types::U256 {
    open spec fn json(&self) -> Json {
        Json::String(quantity_text(*self))
    }

    fn to_json(&self) -> (v: JsonValue) {
        JsonValue::String(quantity_to_text(self))
    }
}

impl FromJson for ethers::types::U256 {
    open spec fn absent() -> Option<Json> {
        None
    }

    fn from_absent() -> (r: Option<Self>) {
        None
    }

    open spec fn decoded(j: Json) -> Option<Json> {
        match j {
            Json::String(s) => match quantity_parse(s) {
                Some(t) => Some(Json::String(t)),
                None => None,
            },
            _ => None,
        }
    }

    fn from_json(v: &JsonValue) -> (r: Option<Self>) {
        match v {
            JsonValue::String(s) => quantity_from_text(s.as_str()),
            _ => None,
        }
    }
}

} // verus!
