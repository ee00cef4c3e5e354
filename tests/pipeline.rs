use droprealms_api::control::{
    bearer, call_for, classify_status, instance_url, token_from_reply, ControlPlaneError,
    CredentialError, Method, Operation,
};
use droprealms_api::handler::{
    error_reply, notice, notify_outcome, Action, ControlPlaneAnswer, HandlerError, NotifyError, Phase, Session,
};
use droprealms_api::notify::{boot_notice, frame_webhook_body, shutdown_notice, webhook_body};
use droprealms_api::request::{InstanceRequest, RequestField, ValidationError};
use droprealms_api::translate::{
    get_ip, ip_text, lookup_ip, snapshot, AccessConfig, InstanceDescription, IpLookup, NetworkInterface,
};

fn s(x: &str) -> Option<String> {
    Some(x.to_string())
}

fn vm1() -> InstanceRequest {
    InstanceRequest::from_fields(s("vm-1"), s("proj-a"), s("us-central1-a")).unwrap()
}

fn description(status: &str, interfaces: Vec<NetworkInterface>) -> InstanceDescription {
    InstanceDescription { status: status.to_string(), network_interfaces: interfaces }
}

fn interface(configs: Vec<AccessConfig>) -> NetworkInterface {
    NetworkInterface { network_ip: s("10.0.0.2"), access_configs: configs }
}

fn config(nat_ip: Option<String>) -> AccessConfig {
    AccessConfig { name: s("External NAT"), nat_ip }
}

fn open(op: Operation) -> Session {
    Session::begin(op, s("vm-1"), s("proj-a"), s("us-central1-a")).unwrap()
}

fn answered(status: u16, d: Option<InstanceDescription>) -> ControlPlaneAnswer {
    ControlPlaneAnswer::Answered { status, description: d }
}

#[test]
fn start_scenario_end_to_end() {
    let session = open(Operation::Start);
    assert!(matches!(session.phase, Phase::AwaitToken));
    let (session, action) = session.on_token(Ok("tok123".to_string()));
    match action {
        Action::CallControlPlane(c) => {
            assert_eq!(c.method, Method::Post);
            assert_eq!(
                c.url,
                "https://compute.googleapis.com/compute/v1/projects/proj-a/zones/us-central1-a/instances/vm-1/start"
            );
            assert_eq!(c.authorization, "Bearer tok123");
            assert_eq!(c.body.as_deref(), Some("{}"));
        }
        _ => panic!("expected a control-plane call"),
    }
    let (session, action) = session.on_control_plane(answered(200, None));
    let mut notices = 0;
    match action {
        Action::Notify(text) => {
            notices += 1;
            assert!(text.contains("vm-1"));
            assert!(webhook_body(&text).contains("vm-1"));
        }
        _ => panic!("expected a notice"),
    }
    let (session, action) = session.on_notified(Ok(()));
    assert!(matches!(session.phase, Phase::Done));
    match action {
        Action::Respond(r) => {
            assert_eq!(r.status, 200);
            assert_eq!(r.body, "");
        }
        _ => panic!("expected a reply"),
    }
    assert_eq!(notices, 1);
}

#[test]
fn ip_without_access_configs_is_not_found() {
    let (session, _) = open(Operation::Ip).on_token(Ok("t".to_string()));
    let d = description("RUNNING", vec![interface(vec![])]);
    let (session, action) = session.on_control_plane(answered(200, Some(d)));
    assert!(matches!(action, Action::Notify(_)));
    let (_, action) = session.on_notified(Ok(()));
    match action {
        Action::Respond(r) => {
            assert_eq!(r.status, 200);
            assert_eq!(r.body, "Not found.");
        }
        _ => panic!("expected a reply"),
    }
}

#[test]
fn ip_found_is_returned() {
    let (session, action) = open(Operation::Ip).on_token(Ok("t".to_string()));
    match action {
        Action::CallControlPlane(c) => {
            assert_eq!(c.method, Method::Get);
            assert!(c.body.is_none());
            assert!(c.url.ends_with("/instances/vm-1"));
        }
        _ => panic!("expected a control-plane call"),
    }
    let d = description("RUNNING", vec![interface(vec![config(s("34.1.2.3"))])]);
    let (session, _) = session.on_control_plane(answered(200, Some(d)));
    match session.phase {
        Phase::AwaitNotify(r) => assert_eq!(r.body, "34.1.2.3"),
        _ => panic!("expected a pending reply"),
    }
}

#[test]
fn status_reply_and_repeated_read() {
    let mut bodies = vec![];
    for _ in 0..2 {
        let (session, _) = open(Operation::Status).on_token(Ok("t".to_string()));
        let d = description("TERMINATED", vec![]);
        let (session, action) = session.on_control_plane(answered(200, Some(d)));
        match action {
            Action::Notify(t) => assert_eq!(t, "Instance information obtained."),
            _ => panic!("expected a notice"),
        }
        let (_, action) = session.on_notified(Ok(()));
        match action {
            Action::Respond(r) => bodies.push(r.body),
            _ => panic!("expected a reply"),
        }
    }
    assert_eq!(bodies, vec!["TERMINATED".to_string(), "TERMINATED".to_string()]);
}

#[test]
fn notice_failure_keeps_reply() {
    for op in [Operation::Start, Operation::Stop, Operation::Ip, Operation::Status] {
        let (session, _) = open(op).on_token(Ok("t".to_string()));
        let d = description("RUNNING", vec![]);
        let (session, _) = session.on_control_plane(answered(200, Some(d)));
        let (_, ok) = session.clone().on_notified(Ok(()));
        let (_, failed) = session.on_notified(Err(NotifyError::Rejected(500)));
        match (ok, failed) {
            (Action::Respond(a), Action::Respond(b)) => {
                assert_eq!(a.status, 200);
                assert_eq!(b.status, 200);
                assert_eq!(a.body, b.body);
            }
            _ => panic!("expected replies"),
        }
    }
    let (session, _) = open(Operation::Stop).on_token(Ok("t".to_string()));
    let (session, _) = session.on_control_plane(answered(204, None));
    let (_, action) = session.on_notified(Err(NotifyError::Transport));
    assert!(matches!(action, Action::Respond(r) if r.status == 200));
}

#[test]
fn missing_zone_is_client_error() {
    for op in [Operation::Start, Operation::Stop, Operation::Ip, Operation::Status] {
        match Session::begin(op, s("vm-1"), s("proj-a"), None) {
            Err(r) => assert_eq!(r.status, 400),
            Ok(_) => panic!("a session was opened"),
        }
    }
}

#[test]
fn validation_names_first_bad_field() {
    assert_eq!(
        InstanceRequest::from_fields(None, None, None).unwrap_err(),
        ValidationError::Missing(RequestField::Name)
    );
    assert_eq!(
        InstanceRequest::from_fields(s("a"), s(""), None).unwrap_err(),
        ValidationError::Empty(RequestField::Project)
    );
    assert_eq!(
        InstanceRequest::from_fields(s("a"), s("b"), s("")).unwrap_err(),
        ValidationError::Empty(RequestField::Zone)
    );
    let q = vm1();
    assert_eq!((q.name.as_str(), q.project.as_str(), q.zone.as_str()), ("vm-1", "proj-a", "us-central1-a"));
}

#[test]
fn credential_failure_replies_without_call() {
    let (session, action) = open(Operation::Start).on_token(Err(CredentialError::Unreachable));
    assert!(matches!(session.phase, Phase::Done));
    match action {
        Action::Respond(r) => {
            assert_eq!(r.status, 500);
            assert_eq!(r.body, "could not obtain an access token");
        }
        _ => panic!("expected a reply"),
    }
}

#[test]
fn token_is_not_echoed() {
    let (session, _) = open(Operation::Start).on_token(Ok("tok123".to_string()));
    let (_, action) = session.on_control_plane(answered(401, None));
    match action {
        Action::Respond(r) => {
            assert_eq!(r.status, 502);
            assert!(!r.body.contains("tok123"));
        }
        _ => panic!("expected a reply"),
    }
}

#[test]
fn control_plane_errors_map_to_replies() {
    let cases: Vec<(ControlPlaneAnswer, u16)> = vec![
        (answered(401, None), 502),
        (answered(403, None), 502),
        (answered(404, None), 404),
        (answered(500, None), 500),
        (ControlPlaneAnswer::Unreachable, 500),
        (answered(200, None), 500),
    ];
    for (answer, status) in cases {
        let (session, _) = open(Operation::Status).on_token(Ok("t".to_string()));
        let (session, action) = session.on_control_plane(answer);
        assert!(matches!(session.phase, Phase::Done));
        match action {
            Action::Respond(r) => assert_eq!(r.status, status),
            _ => panic!("expected a reply"),
        }
    }
}

#[test]
fn classify_status_kinds() {
    assert_eq!(classify_status(200), Ok(()));
    assert_eq!(classify_status(299), Ok(()));
    assert_eq!(classify_status(401), Err(ControlPlaneError::Unauthorized));
    assert_eq!(classify_status(404), Err(ControlPlaneError::NotFound));
    assert_eq!(classify_status(503), Err(ControlPlaneError::Transport));
}

#[test]
fn error_reply_texts() {
    let r = error_reply(HandlerError::ControlPlane(ControlPlaneError::MalformedResponse));
    assert_eq!((r.status, r.body.as_str()), (500, "malformed control-plane response"));
    let r = error_reply(HandlerError::Validation(ValidationError::Missing(RequestField::Zone)));
    assert_eq!(r.status, 400);
}

#[test]
fn token_reply_reading() {
    assert_eq!(token_from_reply(200, s("abc")), Ok("abc".to_string()));
    assert_eq!(token_from_reply(403, s("abc")), Err(CredentialError::Rejected(403)));
    assert_eq!(token_from_reply(200, None), Err(CredentialError::MalformedBody));
}

#[test]
fn urls_and_headers() {
    let q = vm1();
    assert_eq!(
        instance_url(&q),
        "https://compute.googleapis.com/compute/v1/projects/proj-a/zones/us-central1-a/instances/vm-1"
    );
    assert_eq!(bearer("xyz"), "Bearer xyz");
    let c = call_for(Operation::Stop, &q, "xyz");
    assert!(c.url.ends_with("/instances/vm-1/stop"));
    assert_eq!(c.method, Method::Post);
}

#[test]
fn no_interfaces_no_address() {
    let d = description("RUNNING", vec![]);
    assert!(snapshot(&d).network_address.is_none());
    assert!(matches!(lookup_ip(&d), IpLookup::NoAccessConfig));
}

#[test]
fn config_without_address_no_address() {
    let d = description("RUNNING", vec![interface(vec![config(None)])]);
    let snap = snapshot(&d);
    assert_eq!(snap.power_status, "RUNNING");
    assert!(snap.network_address.is_none());
    let l = lookup_ip(&d);
    assert!(matches!(l, IpLookup::NoExternalAddress));
    assert_eq!(ip_text(&l), "Not found.");
}

#[test]
fn first_interface_first_config_wins() {
    let d = description(
        "RUNNING",
        vec![
            interface(vec![config(s("1.1.1.1")), config(s("2.2.2.2"))]),
            interface(vec![config(s("3.3.3.3"))]),
        ],
    );
    assert_eq!(snapshot(&d).network_address, s("1.1.1.1"));
}

#[test]
fn notice_texts() {
    assert_eq!(boot_notice("vm-1"), "vm-1 was started to boot.");
    assert_eq!(shutdown_notice("vm-1"), "vm-1 was started to shutdown.");
    assert_eq!(notice(Operation::Ip, &vm1()), "Instance information obtained.");
}

#[test]
fn webhook_body_escapes_content() {
    assert_eq!(
        webhook_body("say \"hi\"\n\u{1}\\"),
        "{\"content\":\"say \\\"hi\\\"\\n\\u0001\\\\\",\"username\":\"droprealms-api\",\"avatar_url\":\"https://github.com/google.png\"}"
    );
    assert_eq!(
        frame_webhook_body("\"x\""),
        "{\"content\":\"x\",\"username\":\"droprealms-api\",\"avatar_url\":\"https://github.com/google.png\"}"
    );
}

#[test]
fn get_ip_answers() {
    let d = description("RUNNING", vec![interface(vec![config(s("34.1.2.3"))])]);
    assert_eq!(get_ip(&d), "34.1.2.3");
    assert_eq!(get_ip(&description("RUNNING", vec![])), "Not found.");
}

#[test]
fn boot_notice_body_carries_text() {
    assert_eq!(
        webhook_body("vm-1 was started to boot."),
        "{\"content\":\"vm-1 was started to boot.\",\"username\":\"droprealms-api\",\"avatar_url\":\"https://github.com/google.png\"}"
    );
}

#[test]
fn webhook_status_reading() {
    assert_eq!(notify_outcome(204), Ok(()));
    assert_eq!(notify_outcome(200), Ok(()));
    assert_eq!(notify_outcome(500), Err(NotifyError::Rejected(500)));
    assert_eq!(notify_outcome(404), Err(NotifyError::Rejected(404)));
}
