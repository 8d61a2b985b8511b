//! Records about users, payments, subscriptions and the service configuration.

use vstd::prelude::*;
use crate::interface::codec::{
    FromJson, RoundTrip, ToJson, decode_field, field_decoded, lemma_fields_found, name_key,
    push_field,
};
use crate::interface::task::{ProofSubmitMode};
use crate::json::{Json, json_of_fields, JsonField, JsonValue};
use crate::text::str_eq;

verus! {

/// What tasks cost.
#[derive(Clone, Debug, PartialEq)]
pub struct TaskFeeList {
    pub setup_fee: String,
    pub prove_fee: String,
    pub auto_submit_prove_fee_per_network: String,
}

impl ToJson for TaskFeeList {
    open spec fn json(&self) -> Json {
        Json::Object(
            seq![
                ("setup_fee"@, self.setup_fee.json()),
                ("prove_fee"@, self.prove_fee.json()),
                (
                    "auto_submit_prove_fee_per_network"@,
                    self.auto_submit_prove_fee_per_network.json(),
                ),
            ],
        )
    }

    fn to_json(&self) -> (v: JsonValue) {
        let mut fields: Vec<JsonField> = Vec::new();
        push_field(&mut fields, "setup_fee", self.setup_fee.to_json());
        push_field(&mut fields, "prove_fee", self.prove_fee.to_json());
        push_field(
            &mut fields,
            "auto_submit_prove_fee_per_network",
            self.auto_submit_prove_fee_per_network.to_json(),
        );
        proof {
            assert(json_of_fields(fields@) =~= self.json()->Object_0);
        }
        JsonValue::Object(fields)
    }
}

impl FromJson for TaskFeeList {
    open spec fn absent() -> Option<Json> {
        None
    }

    fn from_absent() -> (r: Option<Self>) {
        None
    }

    open spec fn decoded(j: Json) -> Option<Json> {
        match j {
            Json::Object(fields) => {
                let setup_fee = field_decoded::<String>(fields, "setup_fee"@);
                let prove_fee = field_decoded::<String>(fields, "prove_fee"@);
                let auto_submit_prove_fee_per_network = field_decoded::<String>(
                    fields,
                    "auto_submit_prove_fee_per_network"@,
                );
                if setup_fee is Some
                    && prove_fee is Some
                    && auto_submit_prove_fee_per_network is Some {
                    Some(
                        Json::Object(
                            seq![
                                ("setup_fee"@, setup_fee->0),
                                ("prove_fee"@, prove_fee->0),
                                (
                                    "auto_submit_prove_fee_per_network"@,
                                    auto_submit_prove_fee_per_network->0,
                                ),
                            ],
                        ),
                    )
                } else {
                    None
                }
            },
            _ => None,
        }
    }

    fn from_json(v: &JsonValue) -> (r: Option<Self>) {
        match v {
            JsonValue::Object(fields) => {
                let setup_fee: String = decode_field(fields, "setup_fee")?;
                let prove_fee: String = decode_field(fields, "prove_fee")?;
                let auto_submit_prove_fee_per_network: String = decode_field(
                    fields,
                    "auto_submit_prove_fee_per_network",
                )?;
                Some(TaskFeeList { setup_fee, prove_fee, auto_submit_prove_fee_per_network })
            },
            _ => None,
        }
    }
}

impl RoundTrip for TaskFeeList {
    proof fn lemma_round_trip(&self) {
        reveal_strlit("setup_fee");
        reveal_strlit("prove_fee");
        reveal_strlit("auto_submit_prove_fee_per_network");
        let fields = self.json()->Object_0;
        assert(name_key(fields[0].0, 0, 0, 0) == (9nat, 's', 's', 's'));
        assert(name_key(fields[1].0, 0, 0, 0) == (9nat, 'p', 'p', 'p'));
        assert(name_key(fields[2].0, 0, 0, 0) == (33nat, 'a', 'a', 'a'));
        assert forall|i: int, j: int| 0 <= i < j < fields.len() implies fields[i].0
            != fields[j].0 by {
            assert(name_key(fields[i].0, 0, 0, 0) != name_key(fields[j].0, 0, 0, 0));
        }
        lemma_fields_found(fields);
        self.setup_fee.lemma_round_trip();
        self.prove_fee.lemma_round_trip();
        self.auto_submit_prove_fee_per_network.lemma_round_trip();
    }
}

/// A chain that the service deploys to.
#[derive(Clone, Debug, PartialEq)]
pub struct ChainInfo {
    pub chain_id: u32,
    pub chain_name: String,
    pub block_explorer_url: String,
    pub deploy_fee: String,
}

impl ToJson for ChainInfo {
    open spec fn json(&self) -> Json {
        Json::Object(
            seq![
                ("chain_id"@, self.chain_id.json()),
                ("chain_name"@, self.chain_name.json()),
                ("block_explorer_url"@, self.block_explorer_url.json()),
                ("deploy_fee"@, self.deploy_fee.json()),
            ],
        )
    }

    fn to_json(&self) -> (v: JsonValue) {
        let mut fields: Vec<JsonField> = Vec::new();
        push_field(&mut fields, "chain_id", self.chain_id.to_json());
        push_field(&mut fields, "chain_name", self.chain_name.to_json());
        push_field(&mut fields, "block_explorer_url", self.block_explorer_url.to_json());
        push_field(&mut fields, "deploy_fee", self.deploy_fee.to_json());
        proof {
            assert(json_of_fields(fields@) =~= self.json()->Object_0);
        }
        JsonValue::Object(fields)
    }
}

impl FromJson for ChainInfo {
    open spec fn absent() -> Option<Json> {
        None
    }

    fn from_absent() -> (r: Option<Self>) {
        None
    }

    open spec fn decoded(j: Json) -> Option<Json> {
        match j {
            Json::Object(fields) => {
                let chain_id = field_decoded::<u32>(fields, "chain_id"@);
                let chain_name = field_decoded::<String>(fields, "chain_name"@);
                let block_explorer_url = field_decoded::<String>(fields, "block_explorer_url"@);
                let deploy_fee = field_decoded::<String>(fields, "deploy_fee"@);
                if chain_id is Some
                    && chain_name is Some
                    && block_explorer_url is Some
                    && deploy_fee is Some {
                    Some(
                        Json::Object(
                            seq![
                                ("chain_id"@, chain_id->0),
                                ("chain_name"@, chain_name->0),
                                ("block_explorer_url"@, block_explorer_url->0),
                                ("deploy_fee"@, deploy_fee->0),
                            ],
                        ),
                    )
                } else {
                    None
                }
            },
            _ => None,
        }
    }

    fn from_json(v: &JsonValue) -> (r: Option<Self>) {
        match v {
            JsonValue::Object(fields) => {
                let chain_id: u32 = decode_field(fields, "chain_id")?;
                let chain_name: String = decode_field(fields, "chain_name")?;
                let block_explorer_url: String = decode_field(fields, "block_explorer_url")?;
                let deploy_fee: String = decode_field(fields, "deploy_fee")?;
                Some(ChainInfo { chain_id, chain_name, block_explorer_url, deploy_fee })
            },
            _ => None,
        }
    }
}

impl RoundTrip for ChainInfo {
    proof fn lemma_round_trip(&self) {
        reveal_strlit("chain_id");
        reveal_strlit("chain_name");
        reveal_strlit("block_explorer_url");
        reveal_strlit("deploy_fee");
        let fields = self.json()->Object_0;
        assert(name_key(fields[0].0, 0, 0, 0) == (8nat, 'c', 'c', 'c'));
        assert(name_key(fields[1].0, 0, 0, 0) == (10nat, 'c', 'c', 'c'));
        assert(name_key(fields[2].0, 0, 0, 0) == (18nat, 'b', 'b', 'b'));
        assert(name_key(fields[3].0, 0, 0, 0) == (10nat, 'd', 'd', 'd'));
        assert forall|i: int, j: int| 0 <= i < j < fields.len() implies fields[i].0
            != fields[j].0 by {
            assert(name_key(fields[i].0, 0, 0, 0) != name_key(fields[j].0, 0, 0, 0));
        }
        lemma_fields_found(fields);
        self.chain_id.lemma_round_trip();
        self.chain_name.lemma_round_trip();
        self.block_explorer_url.lemma_round_trip();
        self.deploy_fee.lemma_round_trip();
    }
}

/// The token that payments are made in.
#[derive(Clone, Debug, PartialEq)]
pub struct TokenParams {
    pub token_address: String,
    pub network_id: u32,
    pub topup_conversion_rate: Option<u64>,
}

impl ToJson for TokenParams {
    open spec fn json(&self) -> Json {
        Json::Object(
            seq![
                ("token_address"@, self.token_address.json()),
                ("network_id"@, self.network_id.json()),
                ("topup_conversion_rate"@, self.topup_conversion_rate.json()),
            ],
        )
    }

    fn to_json(&self) -> (v: JsonValue) {
        let mut fields: Vec<JsonField> = Vec::new();
        push_field(&mut fields, "token_address", self.token_address.to_json());
        push_field(&mut fields, "network_id", self.network_id.to_json());
        push_field(&mut fields, "topup_conversion_rate", self.topup_conversion_rate.to_json());
        proof {
            assert(json_of_fields(fields@) =~= self.json()->Object_0);
        }
        JsonValue::Object(fields)
    }
}

impl FromJson for TokenParams {
    open spec fn absent() -> Option<Json> {
        None
    }

    fn from_absent() -> (r: Option<Self>) {
        None
    }

    open spec fn decoded(j: Json) -> Option<Json> {
        match j {
            Json::Object(fields) => {
                let token_address = field_decoded::<String>(fields, "token_address"@);
                let network_id = field_decoded::<u32>(fields, "network_id"@);
                let topup_conversion_rate = field_decoded::<Option<u64>>(
                    fields,
                    "topup_conversion_rate"@,
                );
                if token_address is Some
                    && network_id is Some
                    && topup_conversion_rate is Some {
                    Some(
                        Json::Object(
                            seq![
                                ("token_address"@, token_address->0),
                                ("network_id"@, network_id->0),
                                ("topup_conversion_rate"@, topup_conversion_rate->0),
                            ],
                        ),
                    )
                } else {
                    None
                }
            },
            _ => None,
        }
    }

    fn from_json(v: &JsonValue) -> (r: Option<Self>) {
        match v {
            JsonValue::Object(fields) => {
                let token_address: String = decode_field(fields, "token_address")?;
                let network_id: u32 = decode_field(fields, "network_id")?;
                let topup_conversion_rate: Option<u64> = decode_field(
                    fields,
                    "topup_conversion_rate",
                )?;
                Some(TokenParams { token_address, network_id, topup_conversion_rate })
            },
            _ => None,
        }
    }
}

impl RoundTrip for TokenParams {
    proof fn lemma_round_trip(&self) {
        reveal_strlit("token_address");
        reveal_strlit("network_id");
        reveal_strlit("topup_conversion_rate");
        let fields = self.json()->Object_0;
        assert(name_key(fields[0].0, 0, 0, 0) == (13nat, 't', 't', 't'));
        assert(name_key(fields[1].0, 0, 0, 0) == (10nat, 'n', 'n', 'n'));
        assert(name_key(fields[2].0, 0, 0, 0) == (21nat, 't', 't', 't'));
        assert forall|i: int, j: int| 0 <= i < j < fields.len() implies fields[i].0
            != fields[j].0 by {
            assert(name_key(fields[i].0, 0, 0, 0) != name_key(fields[j].0, 0, 0, 0));
        }
        lemma_fields_found(fields);
        self.token_address.lemma_round_trip();
        self.network_id.lemma_round_trip();
        self.topup_conversion_rate.lemma_round_trip();
    }
}

/// How a token is shown.
#[derive(Clone, Debug, PartialEq)]
pub struct TokenData {
    pub decimals: u64,
    pub symbol: String,
}

impl ToJson for TokenData {
    open spec fn json(&self) -> Json {
        Json::Object(
            seq![
                ("decimals"@, self.decimals.json()),
                ("symbol"@, self.symbol.json()),
            ],
        )
    }

    fn to_json(&self) -> (v: JsonValue) {
        let mut fields: Vec<JsonField> = Vec::new();
        push_field(&mut fields, "decimals", self.decimals.to_json());
        push_field(&mut fields, "symbol", self.symbol.to_json());
        proof {
            assert(json_of_fields(fields@) =~= self.json()->Object_0);
        }
        JsonValue::Object(fields)
    }
}

impl FromJson for TokenData {
    open spec fn absent() -> Option<Json> {
        None
    }

    fn from_absent() -> (r: Option<Self>) {
        None
    }

    open spec fn decoded(j: Json) -> Option<Json> {
        match j {
            Json::Object(fields) => {
                let decimals = field_decoded::<u64>(fields, "decimals"@);
                let symbol = field_decoded::<String>(fields, "symbol"@);
                if decimals is Some
                    && symbol is Some {
                    Some(
                        Json::Object(
                            seq![
                                ("decimals"@, decimals->0),
                                ("symbol"@, symbol->0),
                            ],
                        ),
                    )
                } else {
                    None
                }
            },
            _ => None,
        }
    }

    fn from_json(v: &JsonValue) -> (r: Option<Self>) {
        match v {
            JsonValue::Object(fields) => {
                let decimals: u64 = decode_field(fields, "decimals")?;
                let symbol: String = decode_field(fields, "symbol")?;
                Some(TokenData { decimals, symbol })
            },
            _ => None,
        }
    }
}

impl RoundTrip for TokenData {
    proof fn lemma_round_trip(&self) {
        reveal_strlit("decimals");
        reveal_strlit("symbol");
        let fields = self.json()->Object_0;
        assert(name_key(fields[0].0, 0, 0, 0) == (8nat, 'd', 'd', 'd'));
        assert(name_key(fields[1].0, 0, 0, 0) == (6nat, 's', 's', 's'));
        assert forall|i: int, j: int| 0 <= i < j < fields.len() implies fields[i].0
            != fields[j].0 by {
            assert(name_key(fields[i].0, 0, 0, 0) != name_key(fields[j].0, 0, 0, 0));
        }
        lemma_fields_found(fields);
        self.decimals.lemma_round_trip();
        self.symbol.lemma_round_trip();
    }
}

/// The plan of a subscription.
#[derive(Clone, Debug, PartialEq)]
pub enum SubscriptionType {
    Basic,
    Developer,
    Enterprise,
}

impl SubscriptionType {
    /// The name of the variant, which is its wire form.
    pub open spec fn name(&self) -> Seq<char> {
        match self {
            SubscriptionType::Basic => "Basic"@,
            SubscriptionType::Developer => "Developer"@,
            SubscriptionType::Enterprise => "Enterprise"@,
        }
    }

    pub fn as_str(&self) -> (s: &'static str)
        ensures
            s@ == self.name(),
    {
        match self {
            SubscriptionType::Basic => "Basic",
            SubscriptionType::Developer => "Developer",
            SubscriptionType::Enterprise => "Enterprise",
        }
    }
}

impl ToJson for SubscriptionType {
    open spec fn json(&self) -> Json {
        Json::String(self.name())
    }

    fn to_json(&self) -> (v: JsonValue) {
        JsonValue::from_str(self.as_str())
    }
}

impl FromJson for SubscriptionType {
    open spec fn absent() -> Option<Json> {
        None
    }

    fn from_absent() -> (r: Option<Self>) {
        None
    }

    open spec fn decoded(j: Json) -> Option<Json> {
        match j {
            Json::String(s) => if s == "Basic"@ || s == "Developer"@ || s == "Enterprise"@ {
                Some(j)
            } else {
                None
            },
            _ => None,
        }
    }

    fn from_json(v: &JsonValue) -> (r: Option<Self>) {
        match v {
            JsonValue::String(s) => {
                if str_eq(s.as_str(), "Basic") {
                    Some(SubscriptionType::Basic)
                } else if str_eq(s.as_str(), "Developer") {
                    Some(SubscriptionType::Developer)
                } else if str_eq(s.as_str(), "Enterprise") {
                    Some(SubscriptionType::Enterprise)
                } else {
                    None
                }
            },
            _ => None,
        }
    }
}

impl RoundTrip for SubscriptionType {
    proof fn lemma_round_trip(&self) {
    }
}

/// The unit in which a subscription is counted.
#[derive(Clone, Debug, PartialEq)]
pub enum BaseSubscriptionDuration {
    Month,
    Year,
}

impl BaseSubscriptionDuration {
    /// The name of the variant, which is its wire form.
    pub open spec fn name(&self) -> Seq<char> {
        match self {
            BaseSubscriptionDuration::Month => "Month"@,
            BaseSubscriptionDuration::Year => "Year"@,
        }
    }

    pub fn as_str(&self) -> (s: &'static str)
        ensures
            s@ == self.name(),
    {
        match self {
            BaseSubscriptionDuration::Month => "Month",
            BaseSubscriptionDuration::Year => "Year",
        }
    }
}

impl ToJson for BaseSubscriptionDuration {
    open spec fn json(&self) -> Json {
        Json::String(self.name())
    }

    fn to_json(&self) -> (v: JsonValue) {
        JsonValue::from_str(self.as_str())
    }
}

impl FromJson for BaseSubscriptionDuration {
    open spec fn absent() -> Option<Json> {
        None
    }

    fn from_absent() -> (r: Option<Self>) {
        None
    }

    open spec fn decoded(j: Json) -> Option<Json> {
        match j {
            Json::String(s) => if s == "Month"@ || s == "Year"@ {
                Some(j)
            } else {
                None
            },
            _ => None,
        }
    }

    fn from_json(v: &JsonValue) -> (r: Option<Self>) {
        match v {
            JsonValue::String(s) => {
                if str_eq(s.as_str(), "Month") {
                    Some(BaseSubscriptionDuration::Month)
                } else if str_eq(s.as_str(), "Year") {
                    Some(BaseSubscriptionDuration::Year)
                } else {
                    None
                }
            },
            _ => None,
        }
    }
}

impl RoundTrip for BaseSubscriptionDuration {
    proof fn lemma_round_trip(&self) {
    }
}

/// How long a subscription runs.
#[derive(Clone, Debug, PartialEq)]
pub struct SubscriptionDuration {
    pub base_duration: BaseSubscriptionDuration,
    pub multiplier: u64,
}

impl ToJson for SubscriptionDuration {
    open spec fn json(&self) -> Json {
        Json::Object(
            seq![
                ("base_duration"@, self.base_duration.json()),
                ("multiplier"@, self.multiplier.json()),
            ],
        )
    }

    fn to_json(&self) -> (v: JsonValue) {
        let mut fields: Vec<JsonField> = Vec::new();
        push_field(&mut fields, "base_duration", self.base_duration.to_json());
        push_field(&mut fields, "multiplier", self.multiplier.to_json());
        proof {
            assert(json_of_fields(fields@) =~= self.json()->Object_0);
        }
        JsonValue::Object(fields)
    }
}

impl FromJson for SubscriptionDuration {
    open spec fn absent() -> Option<Json> {
        None
    }

    fn from_absent() -> (r: Option<Self>) {
        None
    }

    open spec fn decoded(j: Json) -> Option<Json> {
        match j {
            Json::Object(fields) => {
                let base_duration = field_decoded::<BaseSubscriptionDuration>(
                    fields,
                    "base_duration"@,
                );
                let multiplier = field_decoded::<u64>(fields, "multiplier"@);
                if base_duration is Some
                    && multiplier is Some {
                    Some(
                        Json::Object(
                            seq![
                                ("base_duration"@, base_duration->0),
                                ("multiplier"@, multiplier->0),
                            ],
                        ),
                    )
                } else {
                    None
                }
            },
            _ => None,
        }
    }

    fn from_json(v: &JsonValue) -> (r: Option<Self>) {
        match v {
            JsonValue::Object(fields) => {
                let base_duration: BaseSubscriptionDuration = decode_field(
                    fields,
                    "base_duration",
                )?;
                let multiplier: u64 = decode_field(fields, "multiplier")?;
                Some(SubscriptionDuration { base_duration, multiplier })
            },
            _ => None,
        }
    }
}

impl RoundTrip for SubscriptionDuration {
    proof fn lemma_round_trip(&self) {
        reveal_strlit("base_duration");
        reveal_strlit("multiplier");
        let fields = self.json()->Object_0;
        assert(name_key(fields[0].0, 0, 0, 0) == (13nat, 'b', 'b', 'b'));
        assert(name_key(fields[1].0, 0, 0, 0) == (10nat, 'm', 'm', 'm'));
        assert forall|i: int, j: int| 0 <= i < j < fields.len() implies fields[i].0
            != fields[j].0 by {
            assert(name_key(fields[i].0, 0, 0, 0) != name_key(fields[j].0, 0, 0, 0));
        }
        lemma_fields_found(fields);
        self.base_duration.lemma_round_trip();
        self.multiplier.lemma_round_trip();
    }
}

/// The terms of a subscription.
#[derive(Clone, Debug, PartialEq)]
pub struct SubscriptionParams {
    pub subscription_type: SubscriptionType,
    pub duration: SubscriptionDuration,
    pub token_params: TokenParams,
    pub token_data: TokenData,
    pub price_per_base_duration: String,
    pub credited_amount: String,
    pub enabled: bool,
}

impl ToJson for SubscriptionParams {
    open spec fn json(&self) -> Json {
        Json::Object(
            seq![
                ("subscription_type"@, self.subscription_type.json()),
                ("duration"@, self.duration.json()),
                ("token_params"@, self.token_params.json()),
                ("token_data"@, self.token_data.json()),
                ("price_per_base_duration"@, self.price_per_base_duration.json()),
                ("credited_amount"@, self.credited_amount.json()),
                ("enabled"@, self.enabled.json()),
            ],
        )
    }

    fn to_json(&self) -> (v: JsonValue) {
        let mut fields: Vec<JsonField> = Vec::new();
        push_field(&mut fields, "subscription_type", self.subscription_type.to_json());
        push_field(&mut fields, "duration", self.duration.to_json());
        push_field(&mut fields, "token_params", self.token_params.to_json());
        push_field(&mut fields, "token_data", self.token_data.to_json());
        push_field(&mut fields, "price_per_base_duration", self.price_per_base_duration.to_json());
        push_field(&mut fields, "credited_amount", self.credited_amount.to_json());
        push_field(&mut fields, "enabled", self.enabled.to_json());
        proof {
            assert(json_of_fields(fields@) =~= self.json()->Object_0);
        }
        JsonValue::Object(fields)
    }
}

impl FromJson for SubscriptionParams {
    open spec fn absent() -> Option<Json> {
        None
    }

    fn from_absent() -> (r: Option<Self>) {
        None
    }

    open spec fn decoded(j: Json) -> Option<Json> {
        match j {
            Json::Object(fields) => {
                let subscription_type = field_decoded::<SubscriptionType>(
                    fields,
                    "subscription_type"@,
                );
                let duration = field_decoded::<SubscriptionDuration>(fields, "duration"@);
                let token_params = field_decoded::<TokenParams>(fields, "token_params"@);
                let token_data = field_decoded::<TokenData>(fields, "token_data"@);
                let price_per_base_duration = field_decoded::<String>(
                    fields,
                    "price_per_base_duration"@,
                );
                let credited_amount = field_decoded::<String>(fields, "credited_amount"@);
                let enabled = field_decoded::<bool>(fields, "enabled"@);
                if subscription_type is Some
                    && duration is Some
                    && token_params is Some
                    && token_data is Some
                    && price_per_base_duration is Some
                    && credited_amount is Some
                    && enabled is Some {
                    Some(
                        Json::Object(
                            seq![
                                ("subscription_type"@, subscription_type->0),
                                ("duration"@, duration->0),
                                ("token_params"@, token_params->0),
                                ("token_data"@, token_data->0),
                                ("price_per_base_duration"@, price_per_base_duration->0),
                                ("credited_amount"@, credited_amount->0),
                                ("enabled"@, enabled->0),
                            ],
                        ),
                    )
                } else {
                    None
                }
            },
            _ => None,
        }
    }

    fn from_json(v: &JsonValue) -> (r: Option<Self>) {
        match v {
            JsonValue::Object(fields) => {
                let subscription_type: SubscriptionType = decode_field(
                    fields,
                    "subscription_type",
                )?;
                let duration: SubscriptionDuration = decode_field(fields, "duration")?;
                let token_params: TokenParams = decode_field(fields, "token_params")?;
                let token_data: TokenData = decode_field(fields, "token_data")?;
                let price_per_base_duration: String = decode_field(
                    fields,
                    "price_per_base_duration",
                )?;
                let credited_amount: String = decode_field(fields, "credited_amount")?;
                let enabled: bool = decode_field(fields, "enabled")?;
                Some(
                    SubscriptionParams {
                        subscription_type,
                        duration,
                        token_params,
                        token_data,
                        price_per_base_duration,
                        credited_amount,
                        enabled,
                    },
                )
            },
            _ => None,
        }
    }
}

impl RoundTrip for SubscriptionParams {
    proof fn lemma_round_trip(&self) {
        reveal_strlit("subscription_type");
        reveal_strlit("duration");
        reveal_strlit("token_params");
        reveal_strlit("token_data");
        reveal_strlit("price_per_base_duration");
        reveal_strlit("credited_amount");
        reveal_strlit("enabled");
        let fields = self.json()->Object_0;
        assert(name_key(fields[0].0, 0, 0, 0) == (17nat, 's', 's', 's'));
        assert(name_key(fields[1].0, 0, 0, 0) == (8nat, 'd', 'd', 'd'));
        assert(name_key(fields[2].0, 0, 0, 0) == (12nat, 't', 't', 't'));
        assert(name_key(fields[3].0, 0, 0, 0) == (10nat, 't', 't', 't'));
        assert(name_key(fields[4].0, 0, 0, 0) == (23nat, 'p', 'p', 'p'));
        assert(name_key(fields[5].0, 0, 0, 0) == (15nat, 'c', 'c', 'c'));
        assert(name_key(fields[6].0, 0, 0, 0) == (7nat, 'e', 'e', 'e'));
        assert forall|i: int, j: int| 0 <= i < j < fields.len() implies fields[i].0
            != fields[j].0 by {
            assert(name_key(fields[i].0, 0, 0, 0) != name_key(fields[j].0, 0, 0, 0));
        }
        lemma_fields_found(fields);
        self.subscription_type.lemma_round_trip();
        self.duration.lemma_round_trip();
        self.token_params.lemma_round_trip();
        self.token_data.lemma_round_trip();
        self.price_per_base_duration.lemma_round_trip();
        self.credited_amount.lemma_round_trip();
        self.enabled.lemma_round_trip();
    }
}

/// The version of the service and the node version that it still accepts.
#[derive(Clone, Debug, PartialEq)]
pub struct ServerVersionInfo {
    pub current_version: String,
    pub minimum_supported_node_version: String,
}

impl ToJson for ServerVersionInfo {
    open spec fn json(&self) -> Json {
        Json::Object(
            seq![
                ("current_version"@, self.current_version.json()),
                ("minimum_supported_node_version"@, self.minimum_supported_node_version.json()),
            ],
        )
    }

    fn to_json(&self) -> (v: JsonValue) {
        let mut fields: Vec<JsonField> = Vec::new();
        push_field(&mut fields, "current_version", self.current_version.to_json());
        push_field(
            &mut fields,
            "minimum_supported_node_version",
            self.minimum_supported_node_version.to_json(),
        );
        proof {
            assert(json_of_fields(fields@) =~= self.json()->Object_0);
        }
        JsonValue::Object(fields)
    }
}

impl FromJson for ServerVersionInfo {
    open spec fn absent() -> Option<Json> {
        None
    }

    fn from_absent() -> (r: Option<Self>) {
        None
    }

    open spec fn decoded(j: Json) -> Option<Json> {
        match j {
            Json::Object(fields) => {
                let current_version = field_decoded::<String>(fields, "current_version"@);
                let minimum_supported_node_version = field_decoded::<String>(
                    fields,
                    "minimum_supported_node_version"@,
                );
                if current_version is Some
                    && minimum_supported_node_version is Some {
                    Some(
                        Json::Object(
                            seq![
                                ("current_version"@, current_version->0),
                                (
                                    "minimum_supported_node_version"@,
                                    minimum_supported_node_version->0,
                                ),
                            ],
                        ),
                    )
                } else {
                    None
                }
            },
            _ => None,
        }
    }

    fn from_json(v: &JsonValue) -> (r: Option<Self>) {
        match v {
            JsonValue::Object(fields) => {
                let current_version: String = decode_field(fields, "current_version")?;
                let minimum_supported_node_version: String = decode_field(
                    fields,
                    "minimum_supported_node_version",
                )?;
                Some(ServerVersionInfo { current_version, minimum_supported_node_version })
            },
            _ => None,
        }
    }
}

impl RoundTrip for ServerVersionInfo {
    proof fn lemma_round_trip(&self) {
        reveal_strlit("current_version");
        reveal_strlit("minimum_supported_node_version");
        let fields = self.json()->Object_0;
        assert(name_key(fields[0].0, 0, 0, 0) == (15nat, 'c', 'c', 'c'));
        assert(name_key(fields[1].0, 0, 0, 0) == (30nat, 'm', 'm', 'm'));
        assert forall|i: int, j: int| 0 <= i < j < fields.len() implies fields[i].0
            != fields[j].0 by {
            assert(name_key(fields[i].0, 0, 0, 0) != name_key(fields[j].0, 0, 0, 0));
        }
        lemma_fields_found(fields);
        self.current_version.lemma_round_trip();
        self.minimum_supported_node_version.lemma_round_trip();
    }
}

/// The configuration of the service.
#[derive(Clone, Debug, PartialEq)]
pub struct AppConfig {
    pub deployer_address: String,
    pub receiver_address: String,
    pub task_fee_list: TaskFeeList,
    pub chain_info_list: Vec<ChainInfo>,
    pub latest_server_checksum: Vec<u8>,
    pub topup_token_params: TokenParams,
    pub topup_token_data: TokenData,
    pub supported_auto_submit_network_ids: Vec<u32>,
    pub server_version_info: ServerVersionInfo,
}

impl ToJson for AppConfig {
    open spec fn json(&self) -> Json {
        Json::Object(
            seq![
                ("deployer_address"@, self.deployer_address.json()),
                ("receiver_address"@, self.receiver_address.json()),
                ("task_fee_list"@, self.task_fee_list.json()),
                ("chain_info_list"@, self.chain_info_list.json()),
                ("latest_server_checksum"@, self.latest_server_checksum.json()),
                ("topup_token_params"@, self.topup_token_params.json()),
                ("topup_token_data"@, self.topup_token_data.json()),
                (
                    "supported_auto_submit_network_ids"@,
                    self.supported_auto_submit_network_ids.json(),
                ),
                ("server_version_info"@, self.server_version_info.json()),
            ],
        )
    }

    fn to_json(&self) -> (v: JsonValue) {
        let mut fields: Vec<JsonField> = Vec::new();
        push_field(&mut fields, "deployer_address", self.deployer_address.to_json());
        push_field(&mut fields, "receiver_address", self.receiver_address.to_json());
        push_field(&mut fields, "task_fee_list", self.task_fee_list.to_json());
        push_field(&mut fields, "chain_info_list", self.chain_info_list.to_json());
        push_field(&mut fields, "latest_server_checksum", self.latest_server_checksum.to_json());
        push_field(&mut fields, "topup_token_params", self.topup_token_params.to_json());
        push_field(&mut fields, "topup_token_data", self.topup_token_data.to_json());
        push_field(
            &mut fields,
            "supported_auto_submit_network_ids",
            self.supported_auto_submit_network_ids.to_json(),
        );
        push_field(&mut fields, "server_version_info", self.server_version_info.to_json());
        proof {
            assert(json_of_fields(fields@) =~= self.json()->Object_0);
        }
        JsonValue::Object(fields)
    }
}

impl FromJson for AppConfig {
    open spec fn absent() -> Option<Json> {
        None
    }

    fn from_absent() -> (r: Option<Self>) {
        None
    }

    open spec fn decoded(j: Json) -> Option<Json> {
        match j {
            Json::Object(fields) => {
                let deployer_address = field_decoded::<String>(fields, "deployer_address"@);
                let receiver_address = field_decoded::<String>(fields, "receiver_address"@);
                let task_fee_list = field_decoded::<TaskFeeList>(fields, "task_fee_list"@);
                let chain_info_list = field_decoded::<Vec<ChainInfo>>(fields, "chain_info_list"@);
                let latest_server_checksum = field_decoded::<Vec<u8>>(
                    fields,
                    "latest_server_checksum"@,
                );
                let topup_token_params = field_decoded::<TokenParams>(
                    fields,
                    "topup_token_params"@,
                );
                let topup_token_data = field_decoded::<TokenData>(fields, "topup_token_data"@);
                let supported_auto_submit_network_ids = field_decoded::<Vec<u32>>(
                    fields,
                    "supported_auto_submit_network_ids"@,
                );
                let server_version_info = field_decoded::<ServerVersionInfo>(
                    fields,
                    "server_version_info"@,
                );
                if deployer_address is Some
                    && receiver_address is Some
                    && task_fee_list is Some
                    && chain_info_list is Some
                    && latest_server_checksum is Some
                    && topup_token_params is Some
                    && topup_token_data is Some
                    && supported_auto_submit_network_ids is Some
                    && server_version_info is Some {
                    Some(
                        Json::Object(
                            seq![
                                ("deployer_address"@, deployer_address->0),
                                ("receiver_address"@, receiver_address->0),
                                ("task_fee_list"@, task_fee_list->0),
                                ("chain_info_list"@, chain_info_list->0),
                                ("latest_server_checksum"@, latest_server_checksum->0),
                                ("topup_token_params"@, topup_token_params->0),
                                ("topup_token_data"@, topup_token_data->0),
                                (
                                    "supported_auto_submit_network_ids"@,
                                    supported_auto_submit_network_ids->0,
                                ),
                                ("server_version_info"@, server_version_info->0),
                            ],
                        ),
                    )
                } else {
                    None
                }
            },
            _ => None,
        }
    }

    fn from_json(v: &JsonValue) -> (r: Option<Self>) {
        match v {
            JsonValue::Object(fields) => {
                let deployer_address: String = decode_field(fields, "deployer_address")?;
                let receiver_address: String = decode_field(fields, "receiver_address")?;
                let task_fee_list: TaskFeeList = decode_field(fields, "task_fee_list")?;
                let chain_info_list: Vec<ChainInfo> = decode_field(fields, "chain_info_list")?;
                let latest_server_checksum: Vec<u8> = decode_field(
                    fields,
                    "latest_server_checksum",
                )?;
                let topup_token_params: TokenParams = decode_field(fields, "topup_token_params")?;
                let topup_token_data: TokenData = decode_field(fields, "topup_token_data")?;
                let supported_auto_submit_network_ids: Vec<u32> = decode_field(
                    fields,
                    "supported_auto_submit_network_ids",
                )?;
                let server_version_info: ServerVersionInfo = decode_field(
                    fields,
                    "server_version_info",
                )?;
                Some(
                    AppConfig {
                        deployer_address,
                        receiver_address,
                        task_fee_list,
                        chain_info_list,
                        latest_server_checksum,
                        topup_token_params,
                        topup_token_data,
                        supported_auto_submit_network_ids,
                        server_version_info,
                    },
                )
            },
            _ => None,
        }
    }
}

impl RoundTrip for AppConfig {
    proof fn lemma_round_trip(&self) {
        reveal_strlit("deployer_address");
        reveal_strlit("receiver_address");
        reveal_strlit("task_fee_list");
        reveal_strlit("chain_info_list");
        reveal_strlit("latest_server_checksum");
        reveal_strlit("topup_token_params");
        reveal_strlit("topup_token_data");
        reveal_strlit("supported_auto_submit_network_ids");
        reveal_strlit("server_version_info");
        let fields = self.json()->Object_0;
        assert(name_key(fields[0].0, 0, 0, 0) == (16nat, 'd', 'd', 'd'));
        assert(name_key(fields[1].0, 0, 0, 0) == (16nat, 'r', 'r', 'r'));
        assert(name_key(fields[2].0, 0, 0, 0) == (13nat, 't', 't', 't'));
        assert(name_key(fields[3].0, 0, 0, 0) == (15nat, 'c', 'c', 'c'));
        assert(name_key(fields[4].0, 0, 0, 0) == (22nat, 'l', 'l', 'l'));
        assert(name_key(fields[5].0, 0, 0, 0) == (18nat, 't', 't', 't'));
        assert(name_key(fields[6].0, 0, 0, 0) == (16nat, 't', 't', 't'));
        assert(name_key(fields[7].0, 0, 0, 0) == (33nat, 's', 's', 's'));
        assert(name_key(fields[8].0, 0, 0, 0) == (19nat, 's', 's', 's'));
        assert forall|i: int, j: int| 0 <= i < j < fields.len() implies fields[i].0
            != fields[j].0 by {
            assert(name_key(fields[i].0, 0, 0, 0) != name_key(fields[j].0, 0, 0, 0));
        }
        lemma_fields_found(fields);
        self.deployer_address.lemma_round_trip();
        self.receiver_address.lemma_round_trip();
        self.task_fee_list.lemma_round_trip();
        self.chain_info_list.lemma_round_trip();
        self.latest_server_checksum.lemma_round_trip();
        self.topup_token_params.lemma_round_trip();
        self.topup_token_data.lemma_round_trip();
        self.supported_auto_submit_network_ids.lemma_round_trip();
        self.server_version_info.lemma_round_trip();
    }
}

/// The currency of a chain.
#[derive(Clone, Debug, PartialEq)]
pub struct NativeCurrency {
    pub name: String,
    pub symbol: String,
    pub decimals: u64,
}

impl ToJson for NativeCurrency {
    open spec fn json(&self) -> Json {
        Json::Object(
            seq![
                ("name"@, self.name.json()),
                ("symbol"@, self.symbol.json()),
                ("decimals"@, self.decimals.json()),
            ],
        )
    }

    fn to_json(&self) -> (v: JsonValue) {
        let mut fields: Vec<JsonField> = Vec::new();
        push_field(&mut fields, "name", self.name.to_json());
        push_field(&mut fields, "symbol", self.symbol.to_json());
        push_field(&mut fields, "decimals", self.decimals.to_json());
        proof {
            assert(json_of_fields(fields@) =~= self.json()->Object_0);
        }
        JsonValue::Object(fields)
    }
}

impl FromJson for NativeCurrency {
    open spec fn absent() -> Option<Json> {
        None
    }

    fn from_absent() -> (r: Option<Self>) {
        None
    }

    open spec fn decoded(j: Json) -> Option<Json> {
        match j {
            Json::Object(fields) => {
                let name = field_decoded::<String>(fields, "name"@);
                let symbol = field_decoded::<String>(fields, "symbol"@);
                let decimals = field_decoded::<u64>(fields, "decimals"@);
                if name is Some
                    && symbol is Some
                    && decimals is Some {
                    Some(
                        Json::Object(
                            seq![
                                ("name"@, name->0),
                                ("symbol"@, symbol->0),
                                ("decimals"@, decimals->0),
                            ],
                        ),
                    )
                } else {
                    None
                }
            },
            _ => None,
        }
    }

    fn from_json(v: &JsonValue) -> (r: Option<Self>) {
        match v {
            JsonValue::Object(fields) => {
                let name: String = decode_field(fields, "name")?;
                let symbol: String = decode_field(fields, "symbol")?;
                let decimals: u64 = decode_field(fields, "decimals")?;
                Some(NativeCurrency { name, symbol, decimals })
            },
            _ => None,
        }
    }
}

impl RoundTrip for NativeCurrency {
    proof fn lemma_round_trip(&self) {
        reveal_strlit("name");
        reveal_strlit("symbol");
        reveal_strlit("decimals");
        let fields = self.json()->Object_0;
        assert(name_key(fields[0].0, 0, 0, 0) == (4nat, 'n', 'n', 'n'));
        assert(name_key(fields[1].0, 0, 0, 0) == (6nat, 's', 's', 's'));
        assert(name_key(fields[2].0, 0, 0, 0) == (8nat, 'd', 'd', 'd'));
        assert forall|i: int, j: int| 0 <= i < j < fields.len() implies fields[i].0
            != fields[j].0 by {
            assert(name_key(fields[i].0, 0, 0, 0) != name_key(fields[j].0, 0, 0, 0));
        }
        lemma_fields_found(fields);
        self.name.lemma_round_trip();
        self.symbol.lemma_round_trip();
        self.decimals.lemma_round_trip();
    }
}

/// A chain as wallets describe it.
#[allow(non_snake_case)]
#[derive(Clone, Debug, PartialEq)]
pub struct ChainDetails {
    pub chainHexId: String,
    pub chainName: String,
    pub nativeCurrency: NativeCurrency,
    pub rpcUrls: Vec<String>,
    pub blockExplorerUrls: Vec<String>,
}

impl ToJson for ChainDetails {
    open spec fn json(&self) -> Json {
        Json::Object(
            seq![
                ("chainHexId"@, self.chainHexId.json()),
                ("chainName"@, self.chainName.json()),
                ("nativeCurrency"@, self.nativeCurrency.json()),
                ("rpcUrls"@, self.rpcUrls.json()),
                ("blockExplorerUrls"@, self.blockExplorerUrls.json()),
            ],
        )
    }

    fn to_json(&self) -> (v: JsonValue) {
        let mut fields: Vec<JsonField> = Vec::new();
        push_field(&mut fields, "chainHexId", self.chainHexId.to_json());
        push_field(&mut fields, "chainName", self.chainName.to_json());
        push_field(&mut fields, "nativeCurrency", self.nativeCurrency.to_json());
        push_field(&mut fields, "rpcUrls", self.rpcUrls.to_json());
        push_field(&mut fields, "blockExplorerUrls", self.blockExplorerUrls.to_json());
        proof {
            assert(json_of_fields(fields@) =~= self.json()->Object_0);
        }
        JsonValue::Object(fields)
    }
}

/// The payload that registers a payment.
#[derive(Clone, Debug, PartialEq)]
pub struct PaymentParams {
    pub txhash: String,
}

impl ToJson for PaymentParams {
    open spec fn json(&self) -> Json {
        Json::Object(
            seq![
                ("txhash"@, self.txhash.json()),
            ],
        )
    }

    fn to_json(&self) -> (v: JsonValue) {
        let mut fields: Vec<JsonField> = Vec::new();
        push_field(&mut fields, "txhash", self.txhash.to_json());
        proof {
            assert(json_of_fields(fields@) =~= self.json()->Object_0);
        }
        JsonValue::Object(fields)
    }
}

/// The payload that registers a subscription.
#[derive(Clone, Debug, PartialEq)]
pub struct SubscriptionRequest {
    pub subscriber_address: String,
    pub subscription_type: SubscriptionType,
    pub duration: SubscriptionDuration,
    pub payment_hash: String,
}

impl ToJson for SubscriptionRequest {
    open spec fn json(&self) -> Json {
        Json::Object(
            seq![
                ("subscriber_address"@, self.subscriber_address.json()),
                ("subscription_type"@, self.subscription_type.json()),
                ("duration"@, self.duration.json()),
                ("payment_hash"@, self.payment_hash.json()),
            ],
        )
    }

    fn to_json(&self) -> (v: JsonValue) {
        let mut fields: Vec<JsonField> = Vec::new();
        push_field(&mut fields, "subscriber_address", self.subscriber_address.to_json());
        push_field(&mut fields, "subscription_type", self.subscription_type.to_json());
        push_field(&mut fields, "duration", self.duration.to_json());
        push_field(&mut fields, "payment_hash", self.payment_hash.to_json());
        proof {
            assert(json_of_fields(fields@) =~= self.json()->Object_0);
        }
        JsonValue::Object(fields)
    }
}

/// Whether a subscription runs.
#[derive(Clone, Debug, PartialEq)]
pub enum SubscriptionStatus {
    Active,
    Expired,
}

impl SubscriptionStatus {
    /// The name of the variant, which is its wire form.
    pub open spec fn name(&self) -> Seq<char> {
        match self {
            SubscriptionStatus::Active => "Active"@,
            SubscriptionStatus::Expired => "Expired"@,
        }
    }

    pub fn as_str(&self) -> (s: &'static str)
        ensures
            s@ == self.name(),
    {
        match self {
            SubscriptionStatus::Active => "Active",
            SubscriptionStatus::Expired => "Expired",
        }
    }
}

impl ToJson for SubscriptionStatus {
    open spec fn json(&self) -> Json {
        Json::String(self.name())
    }

    fn to_json(&self) -> (v: JsonValue) {
        JsonValue::from_str(self.as_str())
    }
}

impl FromJson for SubscriptionStatus {
    open spec fn absent() -> Option<Json> {
        None
    }

    fn from_absent() -> (r: Option<Self>) {
        None
    }

    open spec fn decoded(j: Json) -> Option<Json> {
        match j {
            Json::String(s) => if s == "Active"@ || s == "Expired"@ {
                Some(j)
            } else {
                None
            },
            _ => None,
        }
    }

    fn from_json(v: &JsonValue) -> (r: Option<Self>) {
        match v {
            JsonValue::String(s) => {
                if str_eq(s.as_str(), "Active") {
                    Some(SubscriptionStatus::Active)
                } else if str_eq(s.as_str(), "Expired") {
                    Some(SubscriptionStatus::Expired)
                } else {
                    None
                }
            },
            _ => None,
        }
    }
}

impl RoundTrip for SubscriptionStatus {
    proof fn lemma_round_trip(&self) {
    }
}

/// A deposit of tokens.
#[derive(Clone, Debug, PartialEq)]
pub struct ERC20DepositInfo {
    pub user_address: String,
    pub receiver_address: String,
    pub txhash: String,
    pub amount: String,
    pub token_params: TokenParams,
    pub token_data: TokenData,
}

impl ToJson for ERC20DepositInfo {
    open spec fn json(&self) -> Json {
        Json::Object(
            seq![
                ("user_address"@, self.user_address.json()),
                ("receiver_address"@, self.receiver_address.json()),
                ("txhash"@, self.txhash.json()),
                ("amount"@, self.amount.json()),
                ("token_params"@, self.token_params.json()),
                ("token_data"@, self.token_data.json()),
            ],
        )
    }

    fn to_json(&self) -> (v: JsonValue) {
        let mut fields: Vec<JsonField> = Vec::new();
        push_field(&mut fields, "user_address", self.user_address.to_json());
        push_field(&mut fields, "receiver_address", self.receiver_address.to_json());
        push_field(&mut fields, "txhash", self.txhash.to_json());
        push_field(&mut fields, "amount", self.amount.to_json());
        push_field(&mut fields, "token_params", self.token_params.to_json());
        push_field(&mut fields, "token_data", self.token_data.to_json());
        proof {
            assert(json_of_fields(fields@) =~= self.json()->Object_0);
        }
        JsonValue::Object(fields)
    }
}

impl FromJson for ERC20DepositInfo {
    open spec fn absent() -> Option<Json> {
        None
    }

    fn from_absent() -> (r: Option<Self>) {
        None
    }

    open spec fn decoded(j: Json) -> Option<Json> {
        match j {
            Json::Object(fields) => {
                let user_address = field_decoded::<String>(fields, "user_address"@);
                let receiver_address = field_decoded::<String>(fields, "receiver_address"@);
                let txhash = field_decoded::<String>(fields, "txhash"@);
                let amount = field_decoded::<String>(fields, "amount"@);
                let token_params = field_decoded::<TokenParams>(fields, "token_params"@);
                let token_data = field_decoded::<TokenData>(fields, "token_data"@);
                if user_address is Some
                    && receiver_address is Some
                    && txhash is Some
                    && amount is Some
                    && token_params is Some
                    && token_data is Some {
                    Some(
                        Json::Object(
                            seq![
                                ("user_address"@, user_address->0),
                                ("receiver_address"@, receiver_address->0),
                                ("txhash"@, txhash->0),
                                ("amount"@, amount->0),
                                ("token_params"@, token_params->0),
                                ("token_data"@, token_data->0),
                            ],
                        ),
                    )
                } else {
                    None
                }
            },
            _ => None,
        }
    }

    fn from_json(v: &JsonValue) -> (r: Option<Self>) {
        match v {
            JsonValue::Object(fields) => {
                let user_address: String = decode_field(fields, "user_address")?;
                let receiver_address: String = decode_field(fields, "receiver_address")?;
                let txhash: String = decode_field(fields, "txhash")?;
                let amount: String = decode_field(fields, "amount")?;
                let token_params: TokenParams = decode_field(fields, "token_params")?;
                let token_data: TokenData = decode_field(fields, "token_data")?;
                Some(
                    ERC20DepositInfo {
                        user_address,
                        receiver_address,
                        txhash,
                        amount,
                        token_params,
                        token_data,
                    },
                )
            },
            _ => None,
        }
    }
}

impl RoundTrip for ERC20DepositInfo {
    proof fn lemma_round_trip(&self) {
        reveal_strlit("user_address");
        reveal_strlit("receiver_address");
        reveal_strlit("txhash");
        reveal_strlit("amount");
        reveal_strlit("token_params");
        reveal_strlit("token_data");
        let fields = self.json()->Object_0;
        assert(name_key(fields[0].0, 0, 0, 0) == (12nat, 'u', 'u', 'u'));
        assert(name_key(fields[1].0, 0, 0, 0) == (16nat, 'r', 'r', 'r'));
        assert(name_key(fields[2].0, 0, 0, 0) == (6nat, 't', 't', 't'));
        assert(name_key(fields[3].0, 0, 0, 0) == (6nat, 'a', 'a', 'a'));
        assert(name_key(fields[4].0, 0, 0, 0) == (12nat, 't', 't', 't'));
        assert(name_key(fields[5].0, 0, 0, 0) == (10nat, 't', 't', 't'));
        assert forall|i: int, j: int| 0 <= i < j < fields.len() implies fields[i].0
            != fields[j].0 by {
            assert(name_key(fields[i].0, 0, 0, 0) != name_key(fields[j].0, 0, 0, 0));
        }
        lemma_fields_found(fields);
        self.user_address.lemma_round_trip();
        self.receiver_address.lemma_round_trip();
        self.txhash.lemma_round_trip();
        self.amount.lemma_round_trip();
        self.token_params.lemma_round_trip();
        self.token_data.lemma_round_trip();
    }
}

/// A subscription of a user.
#[derive(Clone, Debug, PartialEq)]
pub struct Subscription {
    pub subscriber_address: String,
    pub start_date: u64,
    pub end_date: u64,
    pub params: SubscriptionParams,
    pub status: SubscriptionStatus,
    pub payment_details: Vec<ERC20DepositInfo>,
}

impl ToJson for Subscription {
    open spec fn json(&self) -> Json {
        Json::Object(
            seq![
                ("subscriber_address"@, self.subscriber_address.json()),
                ("start_date"@, self.start_date.json()),
                ("end_date"@, self.end_date.json()),
                ("params"@, self.params.json()),
                ("status"@, self.status.json()),
                ("payment_details"@, self.payment_details.json()),
            ],
        )
    }

    fn to_json(&self) -> (v: JsonValue) {
        let mut fields: Vec<JsonField> = Vec::new();
        push_field(&mut fields, "subscriber_address", self.subscriber_address.to_json());
        push_field(&mut fields, "start_date", self.start_date.to_json());
        push_field(&mut fields, "end_date", self.end_date.to_json());
        push_field(&mut fields, "params", self.params.to_json());
        push_field(&mut fields, "status", self.status.to_json());
        push_field(&mut fields, "payment_details", self.payment_details.to_json());
        proof {
            assert(json_of_fields(fields@) =~= self.json()->Object_0);
        }
        JsonValue::Object(fields)
    }
}

impl FromJson for Subscription {
    open spec fn absent() -> Option<Json> {
        None
    }

    fn from_absent() -> (r: Option<Self>) {
        None
    }

    open spec fn decoded(j: Json) -> Option<Json> {
        match j {
            Json::Object(fields) => {
                let subscriber_address = field_decoded::<String>(fields, "subscriber_address"@);
                let start_date = field_decoded::<u64>(fields, "start_date"@);
                let end_date = field_decoded::<u64>(fields, "end_date"@);
                let params = field_decoded::<SubscriptionParams>(fields, "params"@);
                let status = field_decoded::<SubscriptionStatus>(fields, "status"@);
                let payment_details = field_decoded::<Vec<ERC20DepositInfo>>(
                    fields,
                    "payment_details"@,
                );
                if subscriber_address is Some
                    && start_date is Some
                    && end_date is Some
                    && params is Some
                    && status is Some
                    && payment_details is Some {
                    Some(
                        Json::Object(
                            seq![
                                ("subscriber_address"@, subscriber_address->0),
                                ("start_date"@, start_date->0),
                                ("end_date"@, end_date->0),
                                ("params"@, params->0),
                                ("status"@, status->0),
                                ("payment_details"@, payment_details->0),
                            ],
                        ),
                    )
                } else {
                    None
                }
            },
            _ => None,
        }
    }

    fn from_json(v: &JsonValue) -> (r: Option<Self>) {
        match v {
            JsonValue::Object(fields) => {
                let subscriber_address: String = decode_field(fields, "subscriber_address")?;
                let start_date: u64 = decode_field(fields, "start_date")?;
                let end_date: u64 = decode_field(fields, "end_date")?;
                let params: SubscriptionParams = decode_field(fields, "params")?;
                let status: SubscriptionStatus = decode_field(fields, "status")?;
                let payment_details: Vec<ERC20DepositInfo> = decode_field(
                    fields,
                    "payment_details",
                )?;
                Some(
                    Subscription {
                        subscriber_address,
                        start_date,
                        end_date,
                        params,
                        status,
                        payment_details,
                    },
                )
            },
            _ => None,
        }
    }
}

impl RoundTrip for Subscription {
    proof fn lemma_round_trip(&self) {
        reveal_strlit("subscriber_address");
        reveal_strlit("start_date");
        reveal_strlit("end_date");
        reveal_strlit("params");
        reveal_strlit("status");
        reveal_strlit("payment_details");
        let fields = self.json()->Object_0;
        assert(name_key(fields[0].0, 0, 0, 0) == (18nat, 's', 's', 's'));
        assert(name_key(fields[1].0, 0, 0, 0) == (10nat, 's', 's', 's'));
        assert(name_key(fields[2].0, 0, 0, 0) == (8nat, 'e', 'e', 'e'));
        assert(name_key(fields[3].0, 0, 0, 0) == (6nat, 'p', 'p', 'p'));
        assert(name_key(fields[4].0, 0, 0, 0) == (6nat, 's', 's', 's'));
        assert(name_key(fields[5].0, 0, 0, 0) == (15nat, 'p', 'p', 'p'));
        assert forall|i: int, j: int| 0 <= i < j < fields.len() implies fields[i].0
            != fields[j].0 by {
            assert(name_key(fields[i].0, 0, 0, 0) != name_key(fields[j].0, 0, 0, 0));
        }
        lemma_fields_found(fields);
        self.subscriber_address.lemma_round_trip();
        self.start_date.lemma_round_trip();
        self.end_date.lemma_round_trip();
        self.params.lemma_round_trip();
        self.status.lemma_round_trip();
        self.payment_details.lemma_round_trip();
    }
}

/// Asks for a user by address.
#[derive(Clone, Debug, PartialEq)]
pub struct UserQueryParams {
    pub user_address: String,
}

impl ToJson for UserQueryParams {
    open spec fn json(&self) -> Json {
        Json::Object(
            seq![
                ("user_address"@, self.user_address.json()),
            ],
        )
    }

    fn to_json(&self) -> (v: JsonValue) {
        let mut fields: Vec<JsonField> = Vec::new();
        push_field(&mut fields, "user_address", self.user_address.to_json());
        proof {
            assert(json_of_fields(fields@) =~= self.json()->Object_0);
        }
        JsonValue::Object(fields)
    }
}

/// Asks for the payments of a user, with paging.
#[derive(Clone, Debug, PartialEq)]
pub struct TxHistoryQueryParams {
    pub user_address: String,
    pub start: Option<u64>,
    pub total: Option<u64>,
}

impl ToJson for TxHistoryQueryParams {
    open spec fn json(&self) -> Json {
        Json::Object(
            seq![
                ("user_address"@, self.user_address.json()),
                ("start"@, self.start.json()),
                ("total"@, self.total.json()),
            ],
        )
    }

    fn to_json(&self) -> (v: JsonValue) {
        let mut fields: Vec<JsonField> = Vec::new();
        push_field(&mut fields, "user_address", self.user_address.to_json());
        push_field(&mut fields, "start", self.start.to_json());
        push_field(&mut fields, "total", self.total.to_json());
        proof {
            assert(json_of_fields(fields@) =~= self.json()->Object_0);
        }
        JsonValue::Object(fields)
    }
}

/// A user of the service.
#[derive(Clone, Debug, PartialEq)]
pub struct User {
    pub user_address: String,
    pub balance: Vec<u8>,
    pub credits: String,
    pub credit_deficit: String,
}

impl ToJson for User {
    open spec fn json(&self) -> Json {
        Json::Object(
            seq![
                ("user_address"@, self.user_address.json()),
                ("balance"@, self.balance.json()),
                ("credits"@, self.credits.json()),
                ("credit_deficit"@, self.credit_deficit.json()),
            ],
        )
    }

    fn to_json(&self) -> (v: JsonValue) {
        let mut fields: Vec<JsonField> = Vec::new();
        push_field(&mut fields, "user_address", self.user_address.to_json());
        push_field(&mut fields, "balance", self.balance.to_json());
        push_field(&mut fields, "credits", self.credits.to_json());
        push_field(&mut fields, "credit_deficit", self.credit_deficit.to_json());
        proof {
            assert(json_of_fields(fields@) =~= self.json()->Object_0);
        }
        JsonValue::Object(fields)
    }
}

impl FromJson for User {
    open spec fn absent() -> Option<Json> {
        None
    }

    fn from_absent() -> (r: Option<Self>) {
        None
    }

    open spec fn decoded(j: Json) -> Option<Json> {
        match j {
            Json::Object(fields) => {
                let user_address = field_decoded::<String>(fields, "user_address"@);
                let balance = field_decoded::<Vec<u8>>(fields, "balance"@);
                let credits = field_decoded::<String>(fields, "credits"@);
                let credit_deficit = field_decoded::<String>(fields, "credit_deficit"@);
                if user_address is Some
                    && balance is Some
                    && credits is Some
                    && credit_deficit is Some {
                    Some(
                        Json::Object(
                            seq![
                                ("user_address"@, user_address->0),
                                ("balance"@, balance->0),
                                ("credits"@, credits->0),
                                ("credit_deficit"@, credit_deficit->0),
                            ],
                        ),
                    )
                } else {
                    None
                }
            },
            _ => None,
        }
    }

    fn from_json(v: &JsonValue) -> (r: Option<Self>) {
        match v {
            JsonValue::Object(fields) => {
                let user_address: String = decode_field(fields, "user_address")?;
                let balance: Vec<u8> = decode_field(fields, "balance")?;
                let credits: String = decode_field(fields, "credits")?;
                let credit_deficit: String = decode_field(fields, "credit_deficit")?;
                Some(User { user_address, balance, credits, credit_deficit })
            },
            _ => None,
        }
    }
}

impl RoundTrip for User {
    proof fn lemma_round_trip(&self) {
        reveal_strlit("user_address");
        reveal_strlit("balance");
        reveal_strlit("credits");
        reveal_strlit("credit_deficit");
        let fields = self.json()->Object_0;
        assert(name_key(fields[0].0, 0, 0, 0) == (12nat, 'u', 'u', 'u'));
        assert(name_key(fields[1].0, 0, 0, 0) == (7nat, 'b', 'b', 'b'));
        assert(name_key(fields[2].0, 0, 0, 0) == (7nat, 'c', 'c', 'c'));
        assert(name_key(fields[3].0, 0, 0, 0) == (14nat, 'c', 'c', 'c'));
        assert forall|i: int, j: int| 0 <= i < j < fields.len() implies fields[i].0
            != fields[j].0 by {
            assert(name_key(fields[i].0, 0, 0, 0) != name_key(fields[j].0, 0, 0, 0));
        }
        lemma_fields_found(fields);
        self.user_address.lemma_round_trip();
        self.balance.lemma_round_trip();
        self.credits.lemma_round_trip();
        self.credit_deficit.lemma_round_trip();
    }
}

/// A payment of a user.
#[derive(Clone, Debug, PartialEq)]
pub struct TransactionInfo {
    pub txhash: String,
    pub value: Vec<u8>,
    pub user_address: String,
    pub receiver_address: String,
}

impl ToJson for TransactionInfo {
    open spec fn json(&self) -> Json {
        Json::Object(
            seq![
                ("txhash"@, self.txhash.json()),
                ("value"@, self.value.json()),
                ("user_address"@, self.user_address.json()),
                ("receiver_address"@, self.receiver_address.json()),
            ],
        )
    }

    fn to_json(&self) -> (v: JsonValue) {
        let mut fields: Vec<JsonField> = Vec::new();
        push_field(&mut fields, "txhash", self.txhash.to_json());
        push_field(&mut fields, "value", self.value.to_json());
        push_field(&mut fields, "user_address", self.user_address.to_json());
        push_field(&mut fields, "receiver_address", self.receiver_address.to_json());
        proof {
            assert(json_of_fields(fields@) =~= self.json()->Object_0);
        }
        JsonValue::Object(fields)
    }
}

impl FromJson for TransactionInfo {
    open spec fn absent() -> Option<Json> {
        None
    }

    fn from_absent() -> (r: Option<Self>) {
        None
    }

    open spec fn decoded(j: Json) -> Option<Json> {
        match j {
            Json::Object(fields) => {
                let txhash = field_decoded::<String>(fields, "txhash"@);
                let value = field_decoded::<Vec<u8>>(fields, "value"@);
                let user_address = field_decoded::<String>(fields, "user_address"@);
                let receiver_address = field_decoded::<String>(fields, "receiver_address"@);
                if txhash is Some
                    && value is Some
                    && user_address is Some
                    && receiver_address is Some {
                    Some(
                        Json::Object(
                            seq![
                                ("txhash"@, txhash->0),
                                ("value"@, value->0),
                                ("user_address"@, user_address->0),
                                ("receiver_address"@, receiver_address->0),
                            ],
                        ),
                    )
                } else {
                    None
                }
            },
            _ => None,
        }
    }

    fn from_json(v: &JsonValue) -> (r: Option<Self>) {
        match v {
            JsonValue::Object(fields) => {
                let txhash: String = decode_field(fields, "txhash")?;
                let value: Vec<u8> = decode_field(fields, "value")?;
                let user_address: String = decode_field(fields, "user_address")?;
                let receiver_address: String = decode_field(fields, "receiver_address")?;
                Some(TransactionInfo { txhash, value, user_address, receiver_address })
            },
            _ => None,
        }
    }
}

impl RoundTrip for TransactionInfo {
    proof fn lemma_round_trip(&self) {
        reveal_strlit("txhash");
        reveal_strlit("value");
        reveal_strlit("user_address");
        reveal_strlit("receiver_address");
        let fields = self.json()->Object_0;
        assert(name_key(fields[0].0, 0, 0, 0) == (6nat, 't', 't', 't'));
        assert(name_key(fields[1].0, 0, 0, 0) == (5nat, 'v', 'v', 'v'));
        assert(name_key(fields[2].0, 0, 0, 0) == (12nat, 'u', 'u', 'u'));
        assert(name_key(fields[3].0, 0, 0, 0) == (16nat, 'r', 'r', 'r'));
        assert forall|i: int, j: int| 0 <= i < j < fields.len() implies fields[i].0
            != fields[j].0 by {
            assert(name_key(fields[i].0, 0, 0, 0) != name_key(fields[j].0, 0, 0, 0));
        }
        lemma_fields_found(fields);
        self.txhash.lemma_round_trip();
        self.value.lemma_round_trip();
        self.user_address.lemma_round_trip();
        self.receiver_address.lemma_round_trip();
    }
}

/// Asks what a proof of an image would cost.
#[derive(Clone, Debug, PartialEq)]
pub struct EstimatedProofFeeParams {
    pub user_address: String,
    pub md5: String,
    pub proof_submit_mode: ProofSubmitMode,
}

impl ToJson for EstimatedProofFeeParams {
    open spec fn json(&self) -> Json {
        Json::Object(
            seq![
                ("user_address"@, self.user_address.json()),
                ("md5"@, self.md5.json()),
                ("proof_submit_mode"@, self.proof_submit_mode.json()),
            ],
        )
    }

    fn to_json(&self) -> (v: JsonValue) {
        let mut fields: Vec<JsonField> = Vec::new();
        push_field(&mut fields, "user_address", self.user_address.to_json());
        push_field(&mut fields, "md5", self.md5.to_json());
        push_field(&mut fields, "proof_submit_mode", self.proof_submit_mode.to_json());
        proof {
            assert(json_of_fields(fields@) =~= self.json()->Object_0);
        }
        JsonValue::Object(fields)
    }
}

/// What a proof is estimated to cost.
#[derive(Clone, Debug, PartialEq)]
pub struct EstimatedProofFee {
    pub min: Option<ethers::types::U256>,
    pub max: Option<ethers::types::U256>,
    pub msg: String,
}

impl ToJson for EstimatedProofFee {
    open spec fn json(&self) -> Json {
        Json::Object(
            seq![
                ("min"@, self.min.json()),
                ("max"@, self.max.json()),
                ("msg"@, self.msg.json()),
            ],
        )
    }

    fn to_json(&self) -> (v: JsonValue) {
        let mut fields: Vec<JsonField> = Vec::new();
        push_field(&mut fields, "min", self.min.to_json());
        push_field(&mut fields, "max", self.max.to_json());
        push_field(&mut fields, "msg", self.msg.to_json());
        proof {
            assert(json_of_fields(fields@) =~= self.json()->Object_0);
        }
        JsonValue::Object(fields)
    }
}

impl FromJson for EstimatedProofFee {
    open spec fn absent() -> Option<Json> {
        None
    }

    fn from_absent() -> (r: Option<Self>) {
        None
    }

    open spec fn decoded(j: Json) -> Option<Json> {
        match j {
            Json::Object(fields) => {
                let min = field_decoded::<Option<ethers::types::U256>>(fields, "min"@);
                let max = field_decoded::<Option<ethers::types::U256>>(fields, "max"@);
                let msg = field_decoded::<String>(fields, "msg"@);
                if min is Some
                    && max is Some
                    && msg is Some {
                    Some(
                        Json::Object(
                            seq![
                                ("min"@, min->0),
                                ("max"@, max->0),
                                ("msg"@, msg->0),
                            ],
                        ),
                    )
                } else {
                    None
                }
            },
            _ => None,
        }
    }

    fn from_json(v: &JsonValue) -> (r: Option<Self>) {
        match v {
            JsonValue::Object(fields) => {
                let min: Option<ethers::types::U256> = decode_field(fields, "min")?;
                let max: Option<ethers::types::U256> = decode_field(fields, "max")?;
                let msg: String = decode_field(fields, "msg")?;
                Some(EstimatedProofFee { min, max, msg })
            },
            _ => None,
        }
    }
}

} // verus!
