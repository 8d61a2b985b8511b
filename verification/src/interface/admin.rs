//! Payloads of the administrative requests.

use vstd::prelude::*;
use crate::interface::codec::{ToJson, push_field};
use crate::json::{Json, json_of_fields, JsonField, JsonValue};

verus! {

/// Whether the service is in maintenance.
#[derive(Clone, Debug, PartialEq)]
pub enum MaintenanceModeType {
    Disabled,
    Enabled,
}

impl MaintenanceModeType {
    /// The name of the variant, which is its wire form.
    pub open spec fn name(&self) -> Seq<char> {
        match self {
            MaintenanceModeType::Disabled => "Disabled"@,
            MaintenanceModeType::Enabled => "Enabled"@,
        }
    }

    pub fn as_str(&self) -> (s: &'static str)
        ensures
            s@ == self.name(),
    {
        match self {
            MaintenanceModeType::Disabled => "Disabled",
            MaintenanceModeType::Enabled => "Enabled",
        }
    }
}

impl ToJson for MaintenanceModeType {
    open spec fn json(&self) -> Json {
        Json::String(self.name())
    }

    fn to_json(&self) -> (v: JsonValue) {
        JsonValue::from_str(self.as_str())
    }
}

/// The kind of an administrative request.
#[derive(Clone, Debug, PartialEq)]
pub enum AdminRequestType {
    Default,
    MaintenanceMode,
    ArchiveOperation,
    ForceTaskToReprocess,
}

impl AdminRequestType {
    /// The name of the variant, which is its wire form.
    pub open spec fn name(&self) -> Seq<char> {
        match self {
            AdminRequestType::Default => "Default"@,
            AdminRequestType::MaintenanceMode => "MaintenanceMode"@,
            AdminRequestType::ArchiveOperation => "ArchiveOperation"@,
            AdminRequestType::ForceTaskToReprocess => "ForceTaskToReprocess"@,
        }
    }

    pub fn as_str(&self) -> (s: &'static str)
        ensures
            s@ == self.name(),
    {
        match self {
            AdminRequestType::Default => "Default",
            AdminRequestType::MaintenanceMode => "MaintenanceMode",
            AdminRequestType::ArchiveOperation => "ArchiveOperation",
            AdminRequestType::ForceTaskToReprocess => "ForceTaskToReprocess",
        }
    }
}

impl ToJson for AdminRequestType {
    open spec fn json(&self) -> Json {
        Json::String(self.name())
    }

    fn to_json(&self) -> (v: JsonValue) {
        JsonValue::from_str(self.as_str())
    }
}

/// The payload that switches the maintenance mode.
#[derive(Clone, Debug, PartialEq)]
pub struct SetMaintenanceModeParams {
    pub mode: MaintenanceModeType,
    pub nonce: u64,
    pub request_type: AdminRequestType,
    pub user_address: String,
}

impl ToJson for SetMaintenanceModeParams {
    open spec fn json(&self) -> Json {
        Json::Object(
            seq![
                ("mode"@, self.mode.json()),
                ("nonce"@, self.nonce.json()),
                ("request_type"@, self.request_type.json()),
                ("user_address"@, self.user_address.json()),
            ],
        )
    }

    fn to_json(&self) -> (v: JsonValue) {
        let mut fields: Vec<JsonField> = Vec::new();
        push_field(&mut fields, "mode", self.mode.to_json());
        push_field(&mut fields, "nonce", self.nonce.to_json());
        push_field(&mut fields, "request_type", self.request_type.to_json());
        push_field(&mut fields, "user_address", self.user_address.to_json());
        proof {
            assert(json_of_fields(fields@) =~= self.json()->Object_0);
        }
        JsonValue::Object(fields)
    }
}

/// The payload that sends unprovable tasks back to processing.
#[derive(Clone, Debug, PartialEq)]
pub struct ForceUnprovableToReprocessParams {
    pub task_ids: Vec<String>,
    pub nonce: u64,
    pub request_type: AdminRequestType,
    pub user_address: String,
}

impl ToJson for ForceUnprovableToReprocessParams {
    open spec fn json(&self) -> Json {
        Json::Object(
            seq![
                ("task_ids"@, self.task_ids.json()),
                ("nonce"@, self.nonce.json()),
                ("request_type"@, self.request_type.json()),
                ("user_address"@, self.user_address.json()),
            ],
        )
    }

    fn to_json(&self) -> (v: JsonValue) {
        let mut fields: Vec<JsonField> = Vec::new();
        push_field(&mut fields, "task_ids", self.task_ids.to_json());
        push_field(&mut fields, "nonce", self.nonce.to_json());
        push_field(&mut fields, "request_type", self.request_type.to_json());
        push_field(&mut fields, "user_address", self.user_address.to_json());
        proof {
            assert(json_of_fields(fields@) =~= self.json()->Object_0);
        }
        JsonValue::Object(fields)
    }
}

/// The payload that sends tasks whose dry run failed back to processing.
#[derive(Clone, Debug, PartialEq)]
pub struct ForceDryrunFailsToReprocessParams {
    pub task_ids: Vec<String>,
    pub nonce: u64,
    pub request_type: AdminRequestType,
    pub user_address: String,
}

impl ToJson for ForceDryrunFailsToReprocessParams {
    open spec fn json(&self) -> Json {
        Json::Object(
            seq![
                ("task_ids"@, self.task_ids.json()),
                ("nonce"@, self.nonce.json()),
                ("request_type"@, self.request_type.json()),
                ("user_address"@, self.user_address.json()),
            ],
        )
    }

    fn to_json(&self) -> (v: JsonValue) {
        let mut fields: Vec<JsonField> = Vec::new();
        push_field(&mut fields, "task_ids", self.task_ids.to_json());
        push_field(&mut fields, "nonce", self.nonce.to_json());
        push_field(&mut fields, "request_type", self.request_type.to_json());
        push_field(&mut fields, "user_address", self.user_address.to_json());
        proof {
            assert(json_of_fields(fields@) =~= self.json()->Object_0);
        }
        JsonValue::Object(fields)
    }
}

} // verus!
