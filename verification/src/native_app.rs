//! Device / native-app call surface over one session.
//!
//! Besides the ensure-fresh protocol shared with the REST surface, this
//! surface keeps its own copy of the webhook identity, set locally from a
//! device-registration response.  Sensor operations require that identity
//! and fail with a configuration error before any registration happened.

use vstd::prelude::*;

use crate::errors::Error;
use crate::rest::{plan_call, spec_planned_call, HttpMethod, Outbound};
use crate::types::{
    SensorRegistrationData, SensorRegistrationRequest, SensorUpdateData, SensorUpdateRequest,
};
use crate::{spec_is_stale, spec_refresh_request, HomeAssistantAPI};
use vstd::string::StringExecFns;

verus! {

/// Stored webhook identity a native-app surface can be created from.
#[derive(Debug)]
pub struct NativeAppConfig {
    pub webhook_id: Option<String>,
    pub cloudhook_url: Option<String>,
    pub remote_ui_url: Option<String>,
    pub secret: Option<String>,
}

/// The native-app call surface: the webhook identity it has learned, if
/// any.  Like the REST surface it owns no session; the application passes
/// shared or exclusive session access per call.
#[derive(Debug)]
pub struct NativeApp {
    pub webhook_id: Option<String>,
    pub cloudhook_url: Option<String>,
    pub remote_ui_url: Option<String>,
    pub secret: Option<String>,
}

/// The envelope posted to the webhook endpoint to register one sensor.
pub fn register_sensor_request(data: SensorRegistrationData) -> (r: SensorRegistrationRequest)
    ensures
        r.request_type@ == "register_sensor"@,
        r.data == data,
{
    SensorRegistrationRequest { request_type: "register_sensor".to_owned(), data }
}

/// The envelope posted to the webhook endpoint to update sensor states.
pub fn update_sensor_request(data: SensorUpdateData) -> (r: SensorUpdateRequest)
    ensures
        r.request_type@ == "update_sensor_states"@,
        r.data == data,
{
    SensorUpdateRequest { request_type: "update_sensor_states".to_owned(), data }
}

impl NativeApp {
    /// A native-app surface with no webhook identity learned yet.
    pub fn new() -> (r: Self)
        ensures
            r.webhook_id is None,
            r.cloudhook_url is None,
            r.remote_ui_url is None,
            r.secret is None,
    {
        Self { webhook_id: None, cloudhook_url: None, remote_ui_url: None, secret: None }
    }

    /// A native-app surface resuming a previously stored webhook identity.
    pub fn from_config(config: NativeAppConfig) -> (r: Self)
        ensures
            r.webhook_id == config.webhook_id,
            r.cloudhook_url == config.cloudhook_url,
            r.remote_ui_url == config.remote_ui_url,
            r.secret == config.secret,
    {
        Self {
            webhook_id: config.webhook_id,
            cloudhook_url: config.cloudhook_url,
            remote_ui_url: config.remote_ui_url,
            secret: config.secret,
        }
    }

    /// Adopt the webhook identity of a device-registration response.  The
    /// stored secret is untouched.
    pub fn set_webhook_info(
        &mut self,
        webhook_id: String,
        cloudhook_url: Option<String>,
        remote_ui_url: Option<String>,
    )
        ensures
            final(self).webhook_id == Some(webhook_id),
            final(self).cloudhook_url == cloudhook_url,
            final(self).remote_ui_url == remote_ui_url,
            final(self).secret == old(self).secret,
    {
        self.webhook_id = Some(webhook_id);
        self.cloudhook_url = cloudhook_url;
        self.remote_ui_url = remote_ui_url;
    }

    /// Plan registering this device; the registration body is attached by
    /// the application, which adopts the returned webhook identity via
    /// [`NativeApp::set_webhook_info`].
    pub fn register_machine(&self, session: &HomeAssistantAPI, now: u64) -> (r: Result<
        Outbound,
        Error,
    >)
        ensures
            spec_planned_call(
                *session,
                now,
                r,
                HttpMethod::Post,
                session.instance_url@ + "/api/mobile_app/registrations"@,
                Seq::empty(),
            ),
    {
        let url = session.instance_url.clone().concat("/api/mobile_app/registrations");
        plan_call(session, now, HttpMethod::Post, url, Vec::new())
    }

    /// Plan registering one sensor through the stored webhook.  Without a
    /// webhook identity the call fails with a configuration error; a stale
    /// credential is refreshed first, as in every operation.
    pub fn register_sensor(&self, session: &HomeAssistantAPI, now: u64) -> (r: Result<
        Outbound,
        Error,
    >)
        ensures
            spec_is_stale(session.token, now) ==> (r matches Ok(o) && o matches
                Outbound::RefreshFirst(req) && spec_refresh_request(*session, req)),
            !spec_is_stale(session.token, now) && self.webhook_id is None ==> (r matches Err(e)
                && e matches Error::Config(m) && m@ == "expected webhook_id to exist"@),
            self.webhook_id matches Some(id) ==> spec_planned_call(
                *session,
                now,
                r,
                HttpMethod::Post,
                session.instance_url@ + "/api/webhook/"@ + id@,
                Seq::empty(),
            ),
    {
        if session.needs_refresh(now) {
            return match session.refresh_request() {
                Ok(req) => Ok(Outbound::RefreshFirst(req)),
                Err(e) => Err(e),
            };
        }
        match &self.webhook_id {
            None => Err(Error::Config("expected webhook_id to exist".to_owned())),
            Some(webhook_id) => {
                let url = session.instance_url.clone().concat("/api/webhook/").concat(
                    webhook_id.as_str(),
                );
                plan_call(session, now, HttpMethod::Post, url, Vec::new())
            },
        }
    }

    /// Plan updating sensor states through the stored webhook.  The
    /// enveloped body comes from [`update_sensor_request`]; without a
    /// webhook identity the call fails with a configuration error.
    pub fn update_sensor(&self, session: &HomeAssistantAPI, now: u64) -> (r: Result<
        Outbound,
        Error,
    >)
        ensures
            spec_is_stale(session.token, now) ==> (r matches Ok(o) && o matches
                Outbound::RefreshFirst(req) && spec_refresh_request(*session, req)),
            !spec_is_stale(session.token, now) && self.webhook_id is None ==> (r matches Err(e)
                && e matches Error::Config(m) && m@ == "missing webhook id"@),
            self.webhook_id matches Some(id) ==> spec_planned_call(
                *session,
                now,
                r,
                HttpMethod::Post,
                session.instance_url@ + "/api/webhook/"@ + id@,
                Seq::empty(),
            ),
    {
        if session.needs_refresh(now) {
            return match session.refresh_request() {
                Ok(req) => Ok(Outbound::RefreshFirst(req)),
                Err(e) => Err(e),
            };
        }
        match &self.webhook_id {
            None => Err(Error::Config("missing webhook id".to_owned())),
            Some(webhook_id) => {
                let url = session.instance_url.clone().concat("/api/webhook/").concat(
                    webhook_id.as_str(),
                );
                plan_call(session, now, HttpMethod::Post, url, Vec::new())
            },
        }
    }
}

} // verus!
