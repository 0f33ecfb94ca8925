//! General REST call surface over one session.
//!
//! Every operation follows the ensure-fresh protocol: observe the session
//! under shared access, hand back a refresh exchange first when the
//! credential is stale, and otherwise describe the remote call — method,
//! endpoint, query parameters and authorization header — built around a
//! token snapshot.  The surface holds no session state of its own; the
//! surrounding application resolves its session handle and passes shared
//! (`&`) or exclusive (`&mut`) access per call, then performs the
//! described request.

use vstd::prelude::*;

use crate::errors::Error;
use crate::{spec_is_stale, spec_refresh_request, spec_token_string};
use crate::{HomeAssistantAPI, RefreshTokenRequest, TokenPlan};
use vstd::string::StringExecFns;

verus! {

/// HTTP method of a planned call.
#[derive(Debug)]
pub enum HttpMethod {
    Get,
    Post,
}

/// A fully planned remote call: everything except the body, which the
/// application serializes and attaches.  `authorization` is the complete
/// value of the `Authorization` header.
#[derive(Debug)]
pub struct ApiRequest {
    pub method: HttpMethod,
    pub url: String,
    pub query: Vec<(String, String)>,
    pub authorization: String,
}

/// Outcome of planning one operation under shared access: a call ready to
/// issue, or a refresh exchange to drive under exclusive access first.
#[derive(Debug)]
pub enum Outbound {
    Ready(ApiRequest),
    RefreshFirst(RefreshTokenRequest),
}

/// The view of an optional pre-formatted string: its characters, or empty
/// when absent.
pub open spec fn spec_opt_view(o: Option<String>) -> Seq<char> {
    match o {
        Some(s) => s@,
        None => Seq::empty(),
    }
}

/// Query pairs contributed by one optional parameter: one pair carrying
/// the value when present, none otherwise.
pub open spec fn spec_opt_pair(key: Seq<char>, v: Option<String>) -> Seq<(Seq<char>, Seq<char>)> {
    match v {
        Some(s) => seq![(key, s@)],
        None => Seq::empty(),
    }
}

/// Query pairs contributed by one valueless flag: one pair with an empty
/// value when the flag is set, none otherwise.
pub open spec fn spec_flag_pair(key: Seq<char>, on: bool) -> Seq<(Seq<char>, Seq<char>)> {
    if on {
        seq![(key, Seq::<char>::empty())]
    } else {
        Seq::empty()
    }
}

/// Query pairs of a history request: the optional entity filter and end
/// time, the significant-changes flag, and the minimal-response flag of
/// the reduced variant.
pub open spec fn spec_history_query(
    filter_entity_id: Option<String>,
    end_time: Option<String>,
    significant_changes_only: Option<bool>,
    minimal_response: bool,
) -> Seq<(Seq<char>, Seq<char>)> {
    spec_opt_pair("filter_entity_id"@, filter_entity_id) + spec_opt_pair("end_time"@, end_time)
        + spec_flag_pair("significant_changes_only"@, significant_changes_only is Some)
        + spec_flag_pair("minimal_response"@, minimal_response)
}

/// Query pairs of a logbook request: the entity, then the optional end
/// time.
pub open spec fn spec_logbook_query(entity: Seq<char>, end_time: Option<String>) -> Seq<
    (Seq<char>, Seq<char>),
> {
    seq![("entity"@, entity)] + spec_opt_pair("end_time"@, end_time)
}

/// `q` carries exactly the query pairs `expected`, compared by view.
pub open spec fn spec_query_matches(
    q: Seq<(String, String)>,
    expected: Seq<(Seq<char>, Seq<char>)>,
) -> bool {
    &&& q.len() == expected.len()
    &&& forall|i: int|
        0 <= i < q.len() ==> (#[trigger] q[i]).0@ == expected[i].0 && q[i].1@ == expected[i].1
}

/// `r` is the right outcome of planning a call on session `s` at time
/// `now`: a refresh exchange when the credential is stale; otherwise a
/// ready call with this method, endpoint and query, whose authorization
/// header carries the session's bearer token; and a credential-missing
/// error exactly when no credential is held.
pub open spec fn spec_planned_call(
    s: HomeAssistantAPI,
    now: u64,
    r: Result<Outbound, Error>,
    method: HttpMethod,
    url: Seq<char>,
    query: Seq<(Seq<char>, Seq<char>)>,
) -> bool {
    if spec_is_stale(s.token, now) {
        r matches Ok(o) && o matches Outbound::RefreshFirst(req) && spec_refresh_request(s, req)
    } else {
        match spec_token_string(s.token) {
            Some(t) => r matches Ok(o) && o matches Outbound::Ready(a) && a.method == method
                && a.url@ == url && spec_query_matches(a.query@, query) && a.authorization@
                == "Bearer "@ + t,
            None => r == Err::<Outbound, Error>(Error::NoAuth()),
        }
    }
}

/// Shared ensure-fresh step: turn the session's token plan into a planned
/// call with the given method, endpoint and query.
pub(crate) fn plan_call(
    session: &HomeAssistantAPI,
    now: u64,
    method: HttpMethod,
    url: String,
    query: Vec<(String, String)>,
) -> (r: Result<Outbound, Error>)
    ensures
        if spec_is_stale(session.token, now) {
            r matches Ok(o) && o matches Outbound::RefreshFirst(req) && spec_refresh_request(
                *session,
                req,
            )
        } else {
            match spec_token_string(session.token) {
                Some(t) => r matches Ok(o) && o matches Outbound::Ready(a) && a.method == method
                    && a.url == url && a.query == query && a.authorization@ == "Bearer "@ + t,
                None => r == Err::<Outbound, Error>(Error::NoAuth()),
            }
        },
{
    match session.plan_token_read(now) {
        Err(e) => Err(e),
        Ok(TokenPlan::RefreshFirst(req)) => Ok(Outbound::RefreshFirst(req)),
        Ok(TokenPlan::Fresh(token)) => {
            let authorization = "Bearer ".to_owned().concat(token.as_str());
            Ok(
                Outbound::Ready(
                    ApiRequest { method, url, query, authorization },
                ),
            )
        },
    }
}

/// The general REST call surface.  It owns nothing: each operation reads
/// one session under shared access and plans one remote call.
#[derive(Debug)]
pub struct Rest {}

impl Rest {
    /// A REST surface; state lives entirely in the session it is used with.
    pub fn new() -> Rest {
        Rest {}
    }

    /// Plan the liveness check: the configuration endpoint, whose reply
    /// carries a status message.
    pub fn check(&self, session: &HomeAssistantAPI, now: u64) -> (r: Result<Outbound, Error>)
        ensures
            spec_planned_call(
                *session,
                now,
                r,
                HttpMethod::Get,
                session.instance_url@ + "/api/config"@,
                Seq::empty(),
            ),
    {
        let url = session.instance_url.clone().concat("/api/config");
        plan_call(session, now, HttpMethod::Get, url, Vec::new())
    }

    /// Plan fetching the service configuration.
    pub fn config(&self, session: &HomeAssistantAPI, now: u64) -> (r: Result<Outbound, Error>)
        ensures
            spec_planned_call(
                *session,
                now,
                r,
                HttpMethod::Get,
                session.instance_url@ + "/api/config"@,
                Seq::empty(),
            ),
    {
        let url = session.instance_url.clone().concat("/api/config");
        plan_call(session, now, HttpMethod::Get, url, Vec::new())
    }

    /// Plan fetching the discovery information.
    pub fn discovery_info(&self, session: &HomeAssistantAPI, now: u64) -> (r: Result<
        Outbound,
        Error,
    >)
        ensures
            spec_planned_call(
                *session,
                now,
                r,
                HttpMethod::Get,
                session.instance_url@ + "/api/discovery_info"@,
                Seq::empty(),
            ),
    {
        let url = session.instance_url.clone().concat("/api/discovery_info");
        plan_call(session, now, HttpMethod::Get, url, Vec::new())
    }

    /// Plan listing the event kinds and their listener counts.
    pub fn events(&self, session: &HomeAssistantAPI, now: u64) -> (r: Result<Outbound, Error>)
        ensures
            spec_planned_call(
                *session,
                now,
                r,
                HttpMethod::Get,
                session.instance_url@ + "/api/events"@,
                Seq::empty(),
            ),
    {
        let url = session.instance_url.clone().concat("/api/events");
        plan_call(session, now, HttpMethod::Get, url, Vec::new())
    }

    /// Plan listing the available services.
    pub fn services(&self, session: &HomeAssistantAPI, now: u64) -> (r: Result<Outbound, Error>)
        ensures
            spec_planned_call(
                *session,
                now,
                r,
                HttpMethod::Get,
                session.instance_url@ + "/api/services"@,
                Seq::empty(),
            ),
    {
        let url = session.instance_url.clone().concat("/api/services");
        plan_call(session, now, HttpMethod::Get, url, Vec::new())
    }

    /// Plan fetching the states of all entities.
    pub fn states(&self, session: &HomeAssistantAPI, now: u64) -> (r: Result<Outbound, Error>)
        ensures
            spec_planned_call(
                *session,
                now,
                r,
                HttpMethod::Get,
                session.instance_url@ + "/api/states"@,
                Seq::empty(),
            ),
    {
        let url = session.instance_url.clone().concat("/api/states");
        plan_call(session, now, HttpMethod::Get, url, Vec::new())
    }

    /// Plan fetching the state of one entity.
    pub fn state_of(&self, session: &HomeAssistantAPI, now: u64, entity_id: String) -> (r: Result<
        Outbound,
        Error,
    >)
        ensures
            spec_planned_call(
                *session,
                now,
                r,
                HttpMethod::Get,
                session.instance_url@ + "/api/states/"@ + entity_id@,
                Seq::empty(),
            ),
    {
        let url = session.instance_url.clone().concat("/api/states/").concat(entity_id.as_str());
        plan_call(session, now, HttpMethod::Get, url, Vec::new())
    }

    /// Plan fetching the error log.
    pub fn error_log(&self, session: &HomeAssistantAPI, now: u64) -> (r: Result<Outbound, Error>)
        ensures
            spec_planned_call(
                *session,
                now,
                r,
                HttpMethod::Get,
                session.instance_url@ + "/api/error_log"@,
                Seq::empty(),
            ),
    {
        let url = session.instance_url.clone().concat("/api/error_log");
        plan_call(session, now, HttpMethod::Get, url, Vec::new())
    }

    /// Plan fetching a camera snapshot for one camera entity.
    pub fn camera_proxy(
        &self,
        session: &HomeAssistantAPI,
        now: u64,
        camera_entity_id: String,
    ) -> (r: Result<Outbound, Error>)
        ensures
            spec_planned_call(
                *session,
                now,
                r,
                HttpMethod::Get,
                session.instance_url@ + "/api/camera_proxy/"@ + camera_entity_id@,
                Seq::empty(),
            ),
    {
        let url = session.instance_url.clone().concat("/api/camera_proxy/").concat(
            camera_entity_id.as_str(),
        );
        plan_call(session, now, HttpMethod::Get, url, Vec::new())
    }

    /// Plan posting a state change for one entity; the state body is
    /// attached by the application.
    pub fn state_change(
        &self,
        session: &HomeAssistantAPI,
        now: u64,
        entity_id: String,
    ) -> (r: Result<Outbound, Error>)
        ensures
            spec_planned_call(
                *session,
                now,
                r,
                HttpMethod::Post,
                session.instance_url@ + "/api/states/"@ + entity_id@,
                Seq::empty(),
            ),
    {
        let url = session.instance_url.clone().concat("/api/states/").concat(entity_id.as_str());
        plan_call(session, now, HttpMethod::Post, url, Vec::new())
    }

    /// Plan firing one event; the event body is attached by the
    /// application.
    pub fn event_fire(
        &self,
        session: &HomeAssistantAPI,
        now: u64,
        event_type: String,
    ) -> (r: Result<Outbound, Error>)
        ensures
            spec_planned_call(
                *session,
                now,
                r,
                HttpMethod::Post,
                session.instance_url@ + "/api/events/"@ + event_type@,
                Seq::empty(),
            ),
    {
        let url = session.instance_url.clone().concat("/api/events/").concat(event_type.as_str());
        plan_call(session, now, HttpMethod::Post, url, Vec::new())
    }

    /// Plan calling one service of one domain; the service body is
    /// attached by the application.
    pub fn service_call(
        &self,
        session: &HomeAssistantAPI,
        now: u64,
        domain: String,
        service: String,
    ) -> (r: Result<Outbound, Error>)
        ensures
            spec_planned_call(
                *session,
                now,
                r,
                HttpMethod::Post,
                session.instance_url@ + "/api/services/"@ + domain@ + "/"@ + service@,
                Seq::empty(),
            ),
    {
        let url = session
            .instance_url
            .clone()
            .concat("/api/services/")
            .concat(domain.as_str())
            .concat("/")
            .concat(service.as_str());
        plan_call(session, now, HttpMethod::Post, url, Vec::new())
    }

    /// Plan rendering a template; the template body is attached by the
    /// application.
    pub fn template_render(&self, session: &HomeAssistantAPI, now: u64) -> (r: Result<
        Outbound,
        Error,
    >)
        ensures
            spec_planned_call(
                *session,
                now,
                r,
                HttpMethod::Post,
                session.instance_url@ + "/api/template"@,
                Seq::empty(),
            ),
    {
        let url = session.instance_url.clone().concat("/api/template");
        plan_call(session, now, HttpMethod::Post, url, Vec::new())
    }

    /// Plan fetching the state history over a period.  The optional
    /// timestamp and end time arrive pre-formatted; the timestamp extends
    /// the endpoint path and the rest become query parameters.
    pub fn history_period(
        &self,
        session: &HomeAssistantAPI,
        now: u64,
        timestamp: Option<String>,
        filter_entity_id: Option<String>,
        end_time: Option<String>,
        significant_changes_only: Option<bool>,
    ) -> (r: Result<Outbound, Error>)
        ensures
            spec_planned_call(
                *session,
                now,
                r,
                HttpMethod::Get,
                session.instance_url@ + "/api/history/period"@ + spec_opt_view(timestamp),
                spec_history_query(filter_entity_id, end_time, significant_changes_only, false),
            ),
    {
        let mut url = session.instance_url.clone().concat("/api/history/period");
        match &timestamp {
            Some(ts) => {
                url = url.concat(ts.as_str());
            },
            None => {},
        }
        let mut query: Vec<(String, String)> = Vec::new();
        match filter_entity_id {
            Some(v) => {
                query.push(("filter_entity_id".to_owned(), v));
            },
            None => {},
        }
        match end_time {
            Some(v) => {
                query.push(("end_time".to_owned(), v));
            },
            None => {},
        }
        match significant_changes_only {
            Some(_) => {
                query.push(("significant_changes_only".to_owned(), String::new()));
            },
            None => {},
        }
        plan_call(session, now, HttpMethod::Get, url, query)
    }

    /// Plan the reduced-payload variant of the history fetch: the same
    /// request with the minimal-response flag always set.
    pub fn history_period_minimal(
        &self,
        session: &HomeAssistantAPI,
        now: u64,
        timestamp: Option<String>,
        filter_entity_id: Option<String>,
        end_time: Option<String>,
        significant_changes_only: Option<bool>,
    ) -> (r: Result<Outbound, Error>)
        ensures
            spec_planned_call(
                *session,
                now,
                r,
                HttpMethod::Get,
                session.instance_url@ + "/api/history/period"@ + spec_opt_view(timestamp),
                spec_history_query(filter_entity_id, end_time, significant_changes_only, true),
            ),
    {
        let mut url = session.instance_url.clone().concat("/api/history/period");
        match &timestamp {
            Some(ts) => {
                url = url.concat(ts.as_str());
            },
            None => {},
        }
        let mut query: Vec<(String, String)> = Vec::new();
        match filter_entity_id {
            Some(v) => {
                query.push(("filter_entity_id".to_owned(), v));
            },
            None => {},
        }
        match end_time {
            Some(v) => {
                query.push(("end_time".to_owned(), v));
            },
            None => {},
        }
        match significant_changes_only {
            Some(_) => {
                query.push(("significant_changes_only".to_owned(), String::new()));
            },
            None => {},
        }
        query.push(("minimal_response".to_owned(), String::new()));
        plan_call(session, now, HttpMethod::Get, url, query)
    }

    /// Plan fetching the logbook of one entity.  The optional timestamp
    /// arrives pre-formatted and extends the endpoint path; the entity and
    /// optional end time become query parameters.
    pub fn logbook(
        &self,
        session: &HomeAssistantAPI,
        now: u64,
        timestamp: Option<String>,
        entity: String,
        end_time: Option<String>,
    ) -> (r: Result<Outbound, Error>)
        ensures
            spec_planned_call(
                *session,
                now,
                r,
                HttpMethod::Get,
                session.instance_url@ + "/api/logbook"@ + spec_opt_view(timestamp),
                spec_logbook_query(entity@, end_time),
            ),
    {
        let mut url = session.instance_url.clone().concat("/api/logbook");
        match &timestamp {
            Some(ts) => {
                url = url.concat(ts.as_str());
            },
            None => {},
        }
        let mut query: Vec<(String, String)> = Vec::new();
        query.push(("entity".to_owned(), entity));
        match end_time {
            Some(v) => {
                query.push(("end_time".to_owned(), v));
            },
            None => {},
        }
        plan_call(session, now, HttpMethod::Get, url, query)
    }

    /// Plan checking the service configuration.
    pub fn check_config(&self, session: &HomeAssistantAPI, now: u64) -> (r: Result<
        Outbound,
        Error,
    >)
        ensures
            spec_planned_call(
                *session,
                now,
                r,
                HttpMethod::Post,
                session.instance_url@ + "/api/config/core/check_config"@,
                Seq::empty(),
            ),
    {
        let url = session.instance_url.clone().concat("/api/config/core/check_config");
        plan_call(session, now, HttpMethod::Post, url, Vec::new())
    }
}

} // verus!
