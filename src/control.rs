//! The compute control-plane client's own logic: which call each operation
//! makes, with what URL and credentials, and how an answer's status reads.
use vstd::prelude::*;
use crate::request::{opt_view, InstanceRequest};

verus! {

/// The four operations of the control surface.
#[derive(Debug, Clone, Copy, PartialEq, Eq, Structural)]
pub enum Operation {
    Start,
    Stop,
    Ip,
    Status,
}

/// The HTTP method of an outbound call.
#[derive(Debug, Clone, Copy, PartialEq, Eq, Structural)]
pub enum Method {
    Get,
    Post,
}

/// One bearer-authenticated call to the control plane.
#[derive(Debug, Clone)]
pub struct OutboundCall {
    pub method: Method,
    pub url: String,
    /// The value of the `Authorization` header.
    pub authorization: String,
    /// The JSON body, for the action calls.
    pub body: Option<String>,
}

/// Why no access token could be had.
#[derive(Debug, Clone, Copy, PartialEq, Eq, Structural)]
pub enum CredentialError {
    /// The metadata endpoint could not be reached.
    Unreachable,
    /// The metadata endpoint answered with a non-success status.
    Rejected(u16),
    /// The body is not JSON of the token shape.
    MalformedBody,
}

/// Why a control-plane call failed.
#[derive(Debug, Clone, Copy, PartialEq, Eq, Structural)]
pub enum ControlPlaneError {
    /// The token was refused (401 or 403).
    Unauthorized,
    /// The instance, project or zone does not exist (404).
    NotFound,
    /// The answer does not have the expected shape.
    MalformedResponse,
    /// A network-level failure, or any other non-success status.
    Transport,
}

pub const COMPUTE_PROJECTS: &'static str = "https://compute.googleapis.com/compute/v1/projects/";

pub const ZONES_SEGMENT: &'static str = "/zones/";

pub const INSTANCES_SEGMENT: &'static str = "/instances/";

pub const START_SUFFIX: &'static str = "/start";

pub const STOP_SUFFIX: &'static str = "/stop";

pub const BEARER_PREFIX: &'static str = "Bearer ";

pub const EMPTY_JSON: &'static str = "{}";

/// The fixed metadata URL that hands out the service account's token.
pub const METADATA_TOKEN_URL: &'static str =
    "http://metadata.google.internal/computeMetadata/v1/instance/service-accounts/default/token";

/// The URL of the instance resource.
pub open spec fn instance_url_of(q: InstanceRequest) -> Seq<char> {
    COMPUTE_PROJECTS@ + q.project@ + ZONES_SEGMENT@ + q.zone@ + INSTANCES_SEGMENT@ + q.name@
}

/// The URL an operation calls.
pub open spec fn operation_url_of(op: Operation, q: InstanceRequest) -> Seq<char> {
    match op {
        Operation::Start => instance_url_of(q) + START_SUFFIX@,
        Operation::Stop => instance_url_of(q) + STOP_SUFFIX@,
        _ => instance_url_of(q),
    }
}

/// The call an operation makes with a given token.
pub open spec fn call_matches(c: OutboundCall, op: Operation, q: InstanceRequest, token: Seq<
    char,
>) -> bool {
    &&& c.url@ == operation_url_of(op, q)
    &&& c.authorization@ == BEARER_PREFIX@ + token
    &&& match op {
        Operation::Start | Operation::Stop => {
            &&& c.method == Method::Post
            &&& c.body matches Some(b) && b@ == EMPTY_JSON@
        },
        _ => c.method == Method::Get && c.body is None,
    }
}

/// Whether an HTTP status is a success.
pub open spec fn is_success(status: u16) -> bool {
    200 <= status < 300
}

/// How a control-plane status reads.
pub open spec fn status_outcome(status: u16) -> Result<(), ControlPlaneError> {
    if is_success(status) {
        Ok(())
    } else if status == 401 || status == 403 {
        Err(ControlPlaneError::Unauthorized)
    } else if status == 404 {
        Err(ControlPlaneError::NotFound)
    } else {
        Err(ControlPlaneError::Transport)
    }
}

/// The credential outcome of a metadata answer.
pub open spec fn token_outcome(status: u16, token: Option<Seq<char>>) -> Result<
    Seq<char>,
    CredentialError,
> {
    if !is_success(status) {
        Err(CredentialError::Rejected(status))
    } else {
        match token {
            Some(t) => Ok(t),
            None => Err(CredentialError::MalformedBody),
        }
    }
}

/// The URL of the instance resource.
pub fn instance_url(q: &InstanceRequest) -> (r: String)
    ensures
        r@ == instance_url_of(*q),
{
    let mut url = String::from_str(COMPUTE_PROJECTS);
    url.append(q.project.as_str());
    url.append(ZONES_SEGMENT);
    url.append(q.zone.as_str());
    url.append(INSTANCES_SEGMENT);
    url.append(q.name.as_str());
    url
}

/// The value of the `Authorization` header for a token.
pub fn bearer(token: &str) -> (r: String)
    ensures
        r@ == BEARER_PREFIX@ + token@,
{
    let mut h = String::from_str(BEARER_PREFIX);
    h.append(token);
    h
}

/// The control-plane call of an operation: POST to the action endpoint with
/// an empty JSON body for start and stop, GET of the instance otherwise.
pub fn call_for(op: Operation, q: &InstanceRequest, token: &str) -> (r: OutboundCall)
    ensures
        call_matches(r, op, *q, token@),
{
    let mut url = instance_url(q);
    let authorization = bearer(token);
    match op {
        Operation::Start => {
            url.append(START_SUFFIX);
            OutboundCall {
                method: Method::Post,
                url,
                authorization,
                body: Some(String::from_str(EMPTY_JSON)),
            }
        },
        Operation::Stop => {
            url.append(STOP_SUFFIX);
            OutboundCall {
                method: Method::Post,
                url,
                authorization,
                body: Some(String::from_str(EMPTY_JSON)),
            }
        },
        _ => OutboundCall { method: Method::Get, url, authorization, body: None },
    }
}

/// Reads the status of a control-plane answer.
pub fn classify_status(status: u16) -> (r: Result<(), ControlPlaneError>)
    ensures
        r == status_outcome(status),
{
    if 200 <= status && status < 300 {
        Ok(())
    } else if status == 401 || status == 403 {
        Err(ControlPlaneError::Unauthorized)
    } else if status == 404 {
        Err(ControlPlaneError::NotFound)
    } else {
        Err(ControlPlaneError::Transport)
    }
}

/// Reads a metadata answer: its status and the `access_token` of its body,
/// `None` when the body did not hold one.
pub fn token_from_reply(status: u16, token: Option<String>) -> (r: Result<String, CredentialError>)
    ensures
        match r {
            Ok(t) => token_outcome(status, opt_view(token)) == Ok::<Seq<char>, CredentialError>(t@),
            Err(e) => token_outcome(status, opt_view(token)) == Err::<Seq<char>, CredentialError>(e),
        },
{
    if !(200 <= status && status < 300) {
        Err(CredentialError::Rejected(status))
    } else {
        match token {
            Some(t) => Ok(t),
            None => Err(CredentialError::MalformedBody),
        }
    }
}

} // verus!
