use bpm_portal::auth::{session_user_key, session_user_value, CheckedInUser, SessionReadError};
use bpm_portal::codec::{InstanceState, TokenMode, TokenStatus};
use bpm_portal::config::{shutdown_timeout, ssl_mode_for, NegativeShutdownTimeout, ShutdownTimeout, SslMode};
use bpm_portal::definition::{DefinitionNodes, NodeEntry, NodeKind};
use bpm_portal::errors::{
    CheckInError, HomeError, ProcessStartError, ProcessUploadError, SigninError, SignupError,
};
use bpm_portal::model::{ProcessInstance, Timestamp, Token};
use bpm_portal::nav::nav_items;
use bpm_portal::processes::{
    home_redirect, instance_deleted, instance_detail_view, instance_redirect, plan_advance,
    process_deleted, process_list_line, require_found, start_event, start_outcome, upload_reply,
    validate_upload, AdvanceForm, ProcessUploadForm, new_instance_id, definition_key,
    compile_stored_definition, new_record_id,
};
use bpm_portal::variables::Variables;

const USER_TASK_BPMN: &str = r#"<definitions xmlns="http://www.omg.org/spec/BPMN/20100524/MODEL">
  <process id="approval" name="Approval">
    <startEvent id="start"/>
    <userTask id="review" name="Review"/>
    <endEvent id="end"/>
    <sequenceFlow id="f1" sourceRef="start" targetRef="review"/>
    <sequenceFlow id="f2" sourceRef="review" targetRef="end"/>
  </process>
</definitions>"#;

#[test]
fn session_value_is_read_back_as_the_same_user() {
    let id: u128 = 0x550e8400_e29b_41d4_a716_446655440000;
    let value = session_user_value(id);
    assert_eq!(value, "550e8400-e29b-41d4-a716-446655440000");
    assert_eq!(CheckedInUser::extract(Ok(Some(value))), Ok(CheckedInUser(id)));
    assert_eq!(session_user_key(), "user_id");
}

#[test]
fn missing_or_garbled_session_is_not_logged_in() {
    assert_eq!(CheckedInUser::extract(Ok(None)), Err(CheckInError::NotLoggedIn));
    assert_eq!(CheckedInUser::extract(Err(SessionReadError)), Err(CheckInError::NotLoggedIn));
    assert_eq!(
        CheckedInUser::extract(Ok(Some("not-a-uuid".to_string()))),
        Err(CheckInError::NotLoggedIn)
    );
    assert_eq!(definition_key("zz"), None);
    assert_eq!(definition_key("00000000-0000-0000-0000-00000000002a"), Some(42));
}

#[test]
fn not_logged_in_redirects_to_login() {
    let r = CheckInError::NotLoggedIn.into_response();
    assert_eq!(r.status, 303);
    let h = r.header.unwrap();
    assert_eq!(h.name, "location");
    assert_eq!(h.value, "/login");
    assert_eq!(CheckInError::NotLoggedIn.message(), "Not logged in");
}

#[test]
fn error_answers() {
    let r = HomeError::UnexpectedError("boom".into()).into_response();
    assert_eq!((r.status, r.body.as_str()), (500, "Something went wrong. Please retry later."));
    assert_eq!(SigninError::InvalidCredentials("x".into()).into_response().status, 401);
    assert_eq!(SigninError::InvalidCredentials("x".into()).message(), "Invalid email or password.");
    assert_eq!(SigninError::UnexpectedError("x".into()).into_response().status, 500);
    assert_eq!(ProcessStartError::NotFound.into_response().status, 404);
    assert_eq!(
        ProcessStartError::NotFound.message(),
        "Process definition not found, or failed to start."
    );
    assert_eq!(ProcessStartError::UnexpectedError("e".into()).into_response().status, 500);
    let up = ProcessUploadError::InvalidBpmn("no start".into()).into_response();
    assert_eq!(up.status, 400);
    assert_eq!(up.body, "The uploaded file is not valid BPMN: no start");
    assert_eq!(ProcessUploadError::UnexpectedError("e".into()).into_response().status, 500);
}

#[test]
fn duplicate_email_is_a_conflict() {
    let e = SignupError::from_insert_failure(true, "unique violation".into());
    let r = e.into_response();
    assert_eq!(r.status, 409);
    assert_eq!(r.body, "That email is already taken.");
    let e = SignupError::from_insert_failure(false, "connection reset".into());
    assert_eq!(e.into_response().status, 500);
}

#[test]
fn settings_decisions() {
    assert_eq!(shutdown_timeout(60, 0), Ok(ShutdownTimeout { secs: 60, nanos: 0 }));
    assert_eq!(shutdown_timeout(0, 0), Ok(ShutdownTimeout { secs: 0, nanos: 0 }));
    assert_eq!(shutdown_timeout(-1, 0), Err(NegativeShutdownTimeout));
    assert_eq!(shutdown_timeout(0, -5), Err(NegativeShutdownTimeout));
    assert_eq!(NegativeShutdownTimeout.message(), "graceful shutdown timeout must be positive");
    assert_eq!(ssl_mode_for(true), SslMode::Require);
    assert_eq!(ssl_mode_for(false), SslMode::Prefer);
}

#[test]
fn navigation_bar() {
    let items = nav_items();
    let got: Vec<(&str, &str, &str)> = items.iter().map(|i| (i.key, i.path, i.label)).collect();
    assert_eq!(
        got,
        vec![
            ("Home page", "/", "Home page"),
            ("processes", "/processes", "Processes"),
            ("instances", "/processes/instances", "Instances"),
            ("logout", "/logout", "Logout"),
        ]
    );
}

#[test]
fn upload_accepts_only_compiling_bpmn() {
    let ok = ProcessUploadForm { name: "Approval".into(), bpmn_xml: USER_TASK_BPMN.into() };
    assert!(validate_upload(&ok).is_ok());
    let bad = ProcessUploadForm { name: "Broken".into(), bpmn_xml: "<definitions/>".into() };
    match validate_upload(&bad) {
        Err(ProcessUploadError::InvalidBpmn(msg)) => assert!(!msg.is_empty()),
        other => panic!("expected InvalidBpmn, got {other:?}"),
    }
    let r = upload_reply(1);
    assert_eq!(r.status, 200);
    assert_eq!(r.header.unwrap().value, "/processes/upload");
    assert_eq!(r.body, "00000000-0000-0000-0000-000000000001");
}

#[test]
fn start_answers() {
    let id = new_instance_id();
    let value = definition_key(&id).unwrap();
    assert_eq!((value >> 76) & 0xF, 4);
    assert_eq!(id.len(), 36);
    assert!(id.chars().enumerate().all(|(i, c)| if [8, 13, 18, 23].contains(&i) { c == '-' } else { c.is_ascii_hexdigit() && !c.is_ascii_uppercase() }));
    assert!(start_outcome(&id, true).is_ok());
    let ev = start_event(2, &id);
    assert_eq!(ev.process_id, "00000000-0000-0000-0000-000000000002");
    assert_eq!(ev.instance_id, id);
    assert!(ev.initial_variables.is_none());
    assert!(matches!(start_outcome("abc", false), Err(ProcessStartError::NotFound)));
    let r = start_outcome("abc", true).unwrap();
    assert_eq!(r.status, 200);
    let h = r.header.unwrap();
    assert_eq!((h.name, h.value.as_str()), ("hx-redirect", "/processes/instances/abc"));
    match instance_redirect("bad\nid") {
        Err(ProcessStartError::UnexpectedError(cause)) => assert_eq!(cause, "failed to parse header value"),
        other => panic!("expected an unexpected error, got {other:?}"),
    }
    assert!(instance_redirect("caf\u{e9}").is_ok());
    assert!(matches!(require_found::<u8>(None), Err(ProcessStartError::NotFound)));
    assert!(matches!(require_found(Some(3u8)), Ok(3)));
}

fn tok(id: &str, node: &str, status: TokenStatus) -> Token {
    Token {
        id: id.into(),
        node_id: node.into(),
        status,
        mode: TokenMode::Forward,
        version: 1,
        attempt: 0,
        parallel_group_id: None,
        updated_at: None,
    }
}

fn instance(vars: Variables) -> ProcessInstance {
    ProcessInstance {
        id: "inst-1".into(),
        process_def_id: "def-1".into(),
        tenant_id: None,
        tokens: vec![tok("t1", "review", TokenStatus::Waiting), tok("t2", "start", TokenStatus::Completed)],
        variables: vars,
        state: InstanceState::Running,
        version: 1,
    }
}

#[test]
fn instance_page_marks_user_tasks() {
    let def = compile_stored_definition("d", USER_TASK_BPMN).unwrap();
    let err = compile_stored_definition("d", "<definitions/>").err().unwrap();
    assert!(err.starts_with("Failed to compile stored BPMN for d: "));
    assert!(err.len() > "Failed to compile stored BPMN for d: ".len());
    let nodes = DefinitionNodes::from_definition(&def);
    let view = instance_detail_view(&instance(Variables::new()), &nodes);
    assert_eq!(view.instance_id, "inst-1");
    assert_eq!(view.state, "Running");
    assert_eq!(view.tokens.len(), 2);
    assert_eq!(view.tokens[0].status, "Waiting");
    assert!(view.tokens[0].is_user_task);
    assert_eq!(view.tokens[1].node_id, "start");
    assert!(!view.tokens[1].is_user_task);

    let hand = DefinitionNodes::new(vec![NodeEntry { id: "review".into(), kind: NodeKind::ServiceTask }]);
    assert!(!hand.is_user_task("review"));
    assert_eq!(hand.kind_of("review"), Some(NodeKind::ServiceTask));
    assert_eq!(hand.kind_of("x"), None);
}

#[test]
fn advance_plan() {
    let inst = instance(Variables::new());
    let form = AdvanceForm { token_id: "t1".into(), need_task2: Some("yes".into()) };
    let plan = plan_advance("inst-1", &inst, &form).unwrap();
    assert!(plan.save_needed);
    assert_eq!(plan.variables.get("need_task2"), Some(&"yes".to_string()));
    assert_eq!(plan.event.node_id, "review");
    assert_eq!(plan.event.task_id, "t1");
    assert_eq!(plan.event.instance_id, "inst-1");
    assert_eq!(plan.event.variables.get("need_task2"), Some(&"yes".to_string()));

    let mut vars = Variables::new();
    vars.insert("need_task2".into(), "yes".into());
    let plan = plan_advance("inst-1", &instance(vars), &form).unwrap();
    assert!(!plan.save_needed);

    let none = AdvanceForm { token_id: "t2".into(), need_task2: None };
    let plan = plan_advance("inst-1", &inst, &none).unwrap();
    assert!(!plan.save_needed);
    assert_eq!(plan.event.variables.len(), 0);
    assert_eq!(plan.event.node_id, "start");

    let missing = AdvanceForm { token_id: "t9".into(), need_task2: None };
    assert!(matches!(plan_advance("inst-1", &inst, &missing), Err(ProcessStartError::NotFound)));
}

#[test]
fn list_and_delete_answers() {
    let line = process_list_line(5, "Approval".into(), Timestamp { unix_nanos: 0, offset_seconds: 0 });
    assert_eq!(line.id, 5);
    assert_eq!(line.name, "Approval");
    assert_eq!(line.created_at, "1970-01-01T00:00:00Z");
    let odd = process_list_line(6, "Odd".into(), Timestamp { unix_nanos: 0, offset_seconds: 30 });
    assert_eq!(odd.created_at, "1970-01-01 0:00:30.0 +00:00:30");
    let gone = process_list_line(7, "Gone".into(), Timestamp { unix_nanos: i128::MAX, offset_seconds: 0 });
    assert_eq!(gone.created_at, "");
    assert!(matches!(process_deleted(0), Err(ProcessStartError::NotFound)));
    assert_eq!(process_deleted(1).unwrap().header.unwrap().value, "/processes");
    assert!(matches!(instance_deleted(0), Err(ProcessStartError::NotFound)));
    assert_eq!(instance_deleted(2).unwrap().header.unwrap().value, "/processes/instances");
    assert_eq!(home_redirect().header.unwrap().value, "/");
}

#[test]
fn record_ids_are_version_4_uuids() {
    for _ in 0..16 {
        let id = new_record_id();
        assert_eq!((id >> 76) & 0xF, 4);
        assert_eq!((id >> 62) & 0x3, 2);
    }
}

#[test]
fn definition_nodes_hold_every_node_kind() {
    let def = compile_stored_definition("d", USER_TASK_BPMN).unwrap();
    let nodes = DefinitionNodes::from_definition(&def);
    assert_eq!(nodes.kind_of("start"), Some(NodeKind::Start));
    assert_eq!(nodes.kind_of("review"), Some(NodeKind::UserTask));
    assert_eq!(nodes.kind_of("end"), Some(NodeKind::End));
    assert_eq!(nodes.kind_of("f1"), None);
}
