//! The per-request protocol of the four instance endpoints, as a state
//! machine: validate the payload, fetch a token, make one control-plane
//! call, hand a notice to the webhook, reply. The caller performs each
//! action and feeds back its outcome; no state outlives a request.
use vstd::prelude::*;
use crate::control::{
    call_for, classify_status, call_matches, is_success, status_outcome, ControlPlaneError, CredentialError,
    Operation, OutboundCall,
};
use crate::notify::{boot_notice, boot_notice_of, shutdown_notice, shutdown_notice_of, QUERY_NOTICE};
use crate::request::{opt_view, request_problem, InstanceRequest, ValidationError};
use crate::translate::{get_ip, network_address_of, InstanceDescription, NOT_FOUND};

verus! {

/// An HTTP reply: status code and body text.
#[derive(Debug, Clone)]
pub struct Reply {
    pub status: u16,
    pub body: String,
}

pub struct ReplyView {
    pub status: u16,
    pub body: Seq<char>,
}

impl View for Reply {
    type V = ReplyView;

    open spec fn view(&self) -> ReplyView {
        ReplyView { status: self.status, body: self.body@ }
    }
}

/// Why a request ended without success.
#[derive(Debug, Clone, Copy, PartialEq, Eq, Structural)]
pub enum HandlerError {
    Validation(ValidationError),
    Credential(CredentialError),
    ControlPlane(ControlPlaneError),
}

/// Why a webhook delivery failed; it never changes the reply.
#[derive(Debug, Clone, Copy, PartialEq, Eq, Structural)]
pub enum NotifyError {
    /// The webhook could not be reached.
    Transport,
    /// The webhook answered with a non-success status.
    Rejected(u16),
}

/// How the webhook's answer status reads: any success status delivers the
/// notice, any other rejects it.
pub fn notify_outcome(status: u16) -> (r: Result<(), NotifyError>)
    ensures
        r == if is_success(status) {
            Ok::<(), NotifyError>(())
        } else {
            Err(NotifyError::Rejected(status))
        },
{
    if 200 <= status && status < 300 {
        Ok(())
    } else {
        Err(NotifyError::Rejected(status))
    }
}

/// What the control plane answered, as the caller observed it.
#[derive(Debug, Clone)]
pub enum ControlPlaneAnswer {
    /// No answer: a network-level failure.
    Unreachable,
    /// An answer with its status and, for the queries, the description read
    /// from its body (`None` when the body did not have the expected shape).
    Answered { status: u16, description: Option<InstanceDescription> },
}

/// Where a request stands.
#[derive(Debug, Clone)]
pub enum Phase {
    /// A token is to be fetched.
    AwaitToken,
    /// The control-plane call is under way.
    AwaitControlPlane,
    /// The notice is being delivered; the reply is already decided.
    AwaitNotify(Reply),
    /// The reply has been handed out.
    Done,
}

/// One request in flight.
#[derive(Debug, Clone)]
pub struct Session {
    pub op: Operation,
    pub request: InstanceRequest,
    pub phase: Phase,
}

/// The next thing the caller does for a request.
#[derive(Debug, Clone)]
pub enum Action {
    CallControlPlane(OutboundCall),
    /// Post this notice text to the webhook, then report the outcome.
    Notify(String),
    Respond(Reply),
}

pub const INVALID_REQUEST: &'static str = "invalid request: name, project and zone are required";

pub const NO_TOKEN: &'static str = "could not obtain an access token";

pub const TOKEN_REFUSED: &'static str = "the control plane refused the access token";

pub const INSTANCE_MISSING: &'static str = "instance not found";

pub const MALFORMED_ANSWER: &'static str = "malformed control-plane response";

pub const TRANSPORT_FAILED: &'static str = "the control plane could not be reached";

/// The HTTP status of an error.
pub open spec fn error_status(e: HandlerError) -> u16 {
    match e {
        HandlerError::Validation(_) => 400,
        HandlerError::Credential(_) => 500,
        HandlerError::ControlPlane(ControlPlaneError::Unauthorized) => 502,
        HandlerError::ControlPlane(ControlPlaneError::NotFound) => 404,
        HandlerError::ControlPlane(_) => 500,
    }
}

/// The reply body of an error; it never holds the token.
pub open spec fn error_text_of(e: HandlerError) -> Seq<char> {
    match e {
        HandlerError::Validation(_) => INVALID_REQUEST@,
        HandlerError::Credential(_) => NO_TOKEN@,
        HandlerError::ControlPlane(ControlPlaneError::Unauthorized) => TOKEN_REFUSED@,
        HandlerError::ControlPlane(ControlPlaneError::NotFound) => INSTANCE_MISSING@,
        HandlerError::ControlPlane(ControlPlaneError::MalformedResponse) => MALFORMED_ANSWER@,
        HandlerError::ControlPlane(ControlPlaneError::Transport) => TRANSPORT_FAILED@,
    }
}

pub open spec fn error_reply_of(e: HandlerError) -> ReplyView {
    ReplyView { status: error_status(e), body: error_text_of(e) }
}

/// The reply body of an operation that succeeded, or its error.
pub open spec fn answer_outcome(op: Operation, a: ControlPlaneAnswer) -> Result<
    Seq<char>,
    ControlPlaneError,
> {
    match a {
        ControlPlaneAnswer::Unreachable => Err(ControlPlaneError::Transport),
        ControlPlaneAnswer::Answered { status, description } => match status_outcome(status) {
            Err(e) => Err(e),
            Ok(_) => match op {
                Operation::Start | Operation::Stop => Ok(Seq::empty()),
                Operation::Ip => match description {
                    Some(d) => Ok(
                        match network_address_of(d) {
                            Some(ip) => ip,
                            None => NOT_FOUND@,
                        },
                    ),
                    None => Err(ControlPlaneError::MalformedResponse),
                },
                Operation::Status => match description {
                    Some(d) => Ok(d.status@),
                    None => Err(ControlPlaneError::MalformedResponse),
                },
            },
        },
    }
}

/// The notice text that follows a successful operation.
pub open spec fn notice_of(op: Operation, q: InstanceRequest) -> Seq<char> {
    match op {
        Operation::Start => boot_notice_of(q.name@),
        Operation::Stop => shutdown_notice_of(q.name@),
        _ => QUERY_NOTICE@,
    }
}

/// The step taken once the notice was delivered, or failed to be.
pub open spec fn notified_step(s: Session, outcome: Result<(), NotifyError>) -> (Session, Action) {
    (Session { phase: Phase::Done, ..s }, Action::Respond(s.phase->AwaitNotify_0))
}

/// The reply of an error.
pub fn error_reply(e: HandlerError) -> (r: Reply)
    ensures
        r@ == error_reply_of(e),
{
    let text = match e {
        HandlerError::Validation(_) => INVALID_REQUEST,
        HandlerError::Credential(_) => NO_TOKEN,
        HandlerError::ControlPlane(ControlPlaneError::Unauthorized) => TOKEN_REFUSED,
        HandlerError::ControlPlane(ControlPlaneError::NotFound) => INSTANCE_MISSING,
        HandlerError::ControlPlane(ControlPlaneError::MalformedResponse) => MALFORMED_ANSWER,
        HandlerError::ControlPlane(ControlPlaneError::Transport) => TRANSPORT_FAILED,
    };
    let status: u16 = match e {
        HandlerError::Validation(_) => 400,
        HandlerError::Credential(_) => 500,
        HandlerError::ControlPlane(ControlPlaneError::Unauthorized) => 502,
        HandlerError::ControlPlane(ControlPlaneError::NotFound) => 404,
        HandlerError::ControlPlane(_) => 500,
    };
    Reply { status, body: String::from_str(text) }
}

/// The reply body of an operation that succeeded, or its error.
fn read_answer(op: Operation, a: &ControlPlaneAnswer) -> (r: Result<String, ControlPlaneError>)
    ensures
        match r {
            Ok(b) => answer_outcome(op, *a) == Ok::<Seq<char>, ControlPlaneError>(b@),
            Err(e) => answer_outcome(op, *a) == Err::<Seq<char>, ControlPlaneError>(e),
        },
{
    match a {
        ControlPlaneAnswer::Unreachable => Err(ControlPlaneError::Transport),
        ControlPlaneAnswer::Answered { status, description } => {
            match classify_status(*status) {
                Err(e) => Err(e),
                Ok(_) => match op {
                    Operation::Start | Operation::Stop => Ok(String::new()),
                    Operation::Ip => match description {
                        Some(d) => Ok(get_ip(d)),
                        None => Err(ControlPlaneError::MalformedResponse),
                    },
                    Operation::Status => match description {
                        Some(d) => Ok(d.status.clone()),
                        None => Err(ControlPlaneError::MalformedResponse),
                    },
                },
            }
        },
    }
}

/// The notice text that follows a successful operation.
pub fn notice(op: Operation, q: &InstanceRequest) -> (r: String)
    ensures
        r@ == notice_of(op, *q),
{
    match op {
        Operation::Start => boot_notice(q.name.as_str()),
        Operation::Stop => shutdown_notice(q.name.as_str()),
        _ => String::from_str(QUERY_NOTICE),
    }
}

impl Session {
    /// Opens a request: a payload with a missing or empty field is answered
    /// at once with a 400 reply and no outbound call; otherwise the session
    /// waits for a token.
    pub fn begin(op: Operation, name: Option<String>, project: Option<String>, zone: Option<
        String,
    >) -> (r: Result<Session, Reply>)
        ensures
            match r {
                Ok(s) => {
                    &&& request_problem(opt_view(name), opt_view(project), opt_view(zone)) is None
                    &&& s.op == op
                    &&& s.phase is AwaitToken
                    &&& s.request.wf()
                    &&& Some(s.request.name@) == opt_view(name)
                    &&& Some(s.request.project@) == opt_view(project)
                    &&& Some(s.request.zone@) == opt_view(zone)
                },
                Err(p) => request_problem(opt_view(name), opt_view(project), opt_view(zone)) matches Some(e)
                    && p@ == error_reply_of(HandlerError::Validation(e)),
            },
    {
        match InstanceRequest::from_fields(name, project, zone) {
            Ok(request) => Ok(Session { op, request, phase: Phase::AwaitToken }),
            Err(e) => Err(error_reply(HandlerError::Validation(e))),
        }
    }

    /// Takes the outcome of the token fetch: with a token, the control-plane
    /// call of the operation; without one, an error reply.
    pub fn on_token(self, token: Result<String, CredentialError>) -> (r: (Session, Action))
        requires
            self.phase is AwaitToken,
        ensures
            r.0.op == self.op,
            r.0.request == self.request,
            match token {
                Ok(t) => {
                    &&& r.0.phase is AwaitControlPlane
                    &&& r.1 matches Action::CallControlPlane(c) && call_matches(
                        c,
                        self.op,
                        self.request,
                        t@,
                    )
                },
                Err(e) => {
                    &&& r.0.phase is Done
                    &&& r.1 matches Action::Respond(p) && p@ == error_reply_of(
                        HandlerError::Credential(e),
                    )
                },
            },
    {
        match token {
            Ok(t) => {
                let c = call_for(self.op, &self.request, t.as_str());
                (
                    Session { op: self.op, request: self.request, phase: Phase::AwaitControlPlane },
                    Action::CallControlPlane(c),
                )
            },
            Err(e) => {
                let p = error_reply(HandlerError::Credential(e));
                (
                    Session { op: self.op, request: self.request, phase: Phase::Done },
                    Action::Respond(p),
                )
            },
        }
    }

    /// Takes the control-plane answer: on success the reply (status 200) is
    /// decided and the notice is to be sent; on failure, an error reply and
    /// no notice.
    pub fn on_control_plane(self, answer: ControlPlaneAnswer) -> (r: (Session, Action))
        requires
            self.phase is AwaitControlPlane,
        ensures
            r.0.op == self.op,
            r.0.request == self.request,
            match answer_outcome(self.op, answer) {
                Ok(body) => {
                    &&& r.0.phase matches Phase::AwaitNotify(p) && p@ == (ReplyView {
                        status: 200,
                        body,
                    })
                    &&& r.1 matches Action::Notify(t) && t@ == notice_of(self.op, self.request)
                },
                Err(e) => {
                    &&& r.0.phase is Done
                    &&& r.1 matches Action::Respond(p) && p@ == error_reply_of(
                        HandlerError::ControlPlane(e),
                    )
                },
            },
    {
        match read_answer(self.op, &answer) {
            Ok(body) => {
                let t = notice(self.op, &self.request);
                (
                    Session {
                        op: self.op,
                        request: self.request,
                        phase: Phase::AwaitNotify(Reply { status: 200, body }),
                    },
                    Action::Notify(t),
                )
            },
            Err(e) => {
                let p = error_reply(HandlerError::ControlPlane(e));
                (
                    Session { op: self.op, request: self.request, phase: Phase::Done },
                    Action::Respond(p),
                )
            },
        }
    }

    /// Takes the outcome of the notice delivery and hands out the reply that
    /// was decided before it.
    pub fn on_notified(self, outcome: Result<(), NotifyError>) -> (r: (Session, Action))
        requires
            self.phase is AwaitNotify,
        ensures
            r == notified_step(self, outcome),
    {
        match self.phase {
            Phase::AwaitNotify(p) => (
                Session { op: self.op, request: self.request, phase: Phase::Done },
                Action::Respond(p),
            ),
            _ => (Session { op: self.op, request: self.request, phase: Phase::Done }, Action::Respond(
                Reply { status: 500, body: String::new() },
            )),
        }
    }
}

/// Two reads of the power status whose descriptions report the same status
/// give the same reply body: the reply follows the description alone.
pub proof fn lemma_status_read_repeatable(
    first: InstanceDescription,
    second: InstanceDescription,
    first_status: u16,
    second_status: u16,
)
    requires
        200 <= first_status < 300,
        200 <= second_status < 300,
        first.status@ == second.status@,
    ensures
        answer_outcome(
            Operation::Status,
            ControlPlaneAnswer::Answered { status: first_status, description: Some(first) },
        ) == answer_outcome(
            Operation::Status,
            ControlPlaneAnswer::Answered { status: second_status, description: Some(second) },
        ),
        answer_outcome(
            Operation::Status,
            ControlPlaneAnswer::Answered { status: first_status, description: Some(first) },
        ) == Ok::<Seq<char>, ControlPlaneError>(first.status@),
{
}

/// Whether the notice was delivered or not, the request's reply is the one
/// decided before the notice: a webhook failure never changes it.
pub proof fn lemma_notice_outcome_never_changes_reply(
    s: Session,
    one: Result<(), NotifyError>,
    other: Result<(), NotifyError>,
)
    requires
        s.phase is AwaitNotify,
    ensures
        notified_step(s, one) == notified_step(s, other),
        notified_step(s, one).1 == Action::Respond(s.phase->AwaitNotify_0),
{
}

/// A payload without a zone is refused with a client error before any
/// outbound call: no session is opened for it.
pub proof fn lemma_missing_zone_rejected(name: Option<Seq<char>>, project: Option<Seq<char>>)
    ensures
        request_problem(name, project, None) matches Some(e) && 400 <= error_status(
            HandlerError::Validation(e),
        ) < 500,
{
}

} // verus!
