//! Request and response shapes exchanged with the remote service.
//!
//! These are plain data carriers: the call surfaces build the request
//! values and the surrounding application marshals them onto the wire.

use vstd::prelude::*;

verus! {

/// Attributes of one entity, as reported by the remote service.
#[derive(Debug)]
pub struct HaEntityAttribute {
    pub friendly_name: Option<String>,
}

/// State of one entity, as reported by the remote service.
#[derive(Debug)]
pub struct HaEntityState {
    pub attributes: HaEntityAttribute,
}

/// Body of the device-registration call.
#[derive(Debug)]
pub struct RegisterDeviceRequest {
    pub device_id: String,
    pub app_id: String,
    pub app_name: String,
    pub app_version: String,
    pub device_name: String,
    pub manufacturer: String,
    pub model: String,
    pub os_name: String,
    pub os_version: String,
    pub supports_encryption: bool,
}

/// Webhook identity issued on successful device registration.
#[derive(Debug)]
pub struct RegisterDeviceResponse {
    pub cloud_hook_url: Option<String>,
    pub remote_ui_url: Option<String>,
    pub secret: Option<String>,
    pub webhook_id: String,
}

/// Form body of the initial code-for-token exchange.
#[derive(Debug)]
pub struct GetAccessTokenRequest {
    pub grant_type: String,
    pub code: String,
    pub client_id: String,
}

/// Success body of the code-for-token exchange.
#[derive(Debug)]
pub struct GetAccessTokenResponse {
    pub access_token: String,
    pub expires_in: u32,
    pub refresh_token: String,
    pub token_type: String,
}

/// Success body of the token-refresh exchange.  The service may rotate the
/// refresh token; when it does not, the field is absent and the previously
/// stored refresh token stays in use.
#[derive(Debug)]
pub struct RefreshAccessTokenResponse {
    pub access_token: String,
    pub expires_in: u32,
    pub refresh_token: Option<String>,
    pub token_type: String,
}

/// Error body returned by the token endpoint on a non-success status.
#[derive(Debug)]
pub struct GetAccessTokenError {
    pub error: String,
    pub error_description: String,
}

/// Envelope of a sensor-registration call.
#[derive(Debug)]
pub struct SensorRegistrationRequest {
    pub request_type: String,
    pub data: SensorRegistrationData,
}

/// Payload of a sensor-registration call.
#[derive(Debug)]
pub struct SensorRegistrationData {
    pub device_class: Option<String>,
    pub icon: String,
    pub name: String,
    pub state: String,
    pub sensor_type: String,
    pub unique_id: String,
    pub unit_of_measurement: String,
    pub attributes: std::collections::HashMap<String, String>,
}

/// Outcome of a sensor-registration call.
#[derive(Debug)]
pub struct RegisterSensorResponse {
    pub success: bool,
}

/// Envelope of a sensor-state update call.
#[derive(Debug)]
pub struct SensorUpdateRequest {
    pub request_type: String,
    pub data: SensorUpdateData,
}

/// Payload of a sensor-state update call.
#[derive(Debug)]
pub struct SensorUpdateData {
    pub icon: String,
    pub state: String,
    pub sensor_type: String,
    pub unique_id: String,
    pub attributes: std::collections::HashMap<String, String>,
}

/// Unit system advertised in the service configuration.
#[derive(Debug)]
pub struct UnitSystem {
    pub length: String,
    pub mass: String,
    pub temperature: String,
    pub volume: String,
}

/// Discovery information advertised by the service.
#[derive(Debug)]
pub struct DiscoveryInfo {
    pub base_url: String,
    pub location_name: String,
    pub requires_api_password: bool,
    pub version: String,
}

/// One event kind and how many listeners it currently has.
#[derive(Debug)]
pub struct EventObject {
    pub event: String,
    pub listener_count: u32,
}

/// Services available under one domain.
#[derive(Debug)]
pub struct ServiceObject {
    pub domain: String,
    pub services: Vec<String>,
}

/// One logbook entry.
#[derive(Debug)]
pub struct LogbookEntry {
    pub context_user_id: String,
    pub domain: String,
    pub entity_id: String,
    pub message: String,
    pub name: String,
    pub when: String,
}

/// Outcome of a configuration check.
#[derive(Debug)]
pub struct CheckConfig {
    pub errors: String,
    pub result: String,
}

} // verus!
