use ruddy::controller::coordinator::Coordinator;
use ruddy::controller::messages::{Connect, ControllerState, CreateWorker, Job, WorkerCommand};
use ruddy::controller::worker_client::WorkerClient;
use ruddy::controller::ws::{controller_ws_action, is_create_worker_command, CommandError, ControllerWsAction};
use ruddy::websocket::WsMessage;

fn is_uuid_v4(s: &str) -> bool {
    let c: Vec<char> = s.chars().collect();
    c.len() == 36
        && c.iter().enumerate().all(|(i, ch)| {
            if [8, 13, 18, 23].contains(&i) { *ch == '-' } else { ch.is_ascii_hexdigit() && !ch.is_ascii_uppercase() }
        })
        && c[14] == '4'
        && "89ab".contains(c[19])
}

#[test]
fn initial_state_has_no_jobs() {
    let mut c = Coordinator::default();
    let out = c.handle_connect(Connect { addr: 3 });
    assert_eq!(out.len(), 1);
    assert_eq!(out[0].listener, 3);
    assert!(out[0].update.status.jobs.is_empty());
}

#[test]
fn every_listener_hears_each_join() {
    let mut c = Coordinator::default();
    c.handle_connect(Connect { addr: 10 });
    c.handle_connect(Connect { addr: 11 });
    let out = c.handle_connect(Connect { addr: 12 });
    assert_eq!(out.iter().map(|d| d.listener).collect::<Vec<_>>(), vec![10, 11, 12]);
    assert_eq!(c.send_state_update().len(), 3);
}

#[test]
fn workers_get_consecutive_ids_and_random_jobs() {
    let mut c = Coordinator::default();
    let a = c.handle_create_worker(CreateWorker {});
    let b = c.handle_create_worker(CreateWorker {});
    assert_eq!((a.worker, b.worker), (0, 1));
    assert_eq!(a.command, WorkerCommand::Create);
    assert_eq!(b.command, WorkerCommand::Create);
    assert!(is_uuid_v4(&a.job_id), "{}", a.job_id);
    assert!(is_uuid_v4(&b.job_id), "{}", b.job_id);
    assert_ne!(a.job_id, b.job_id);
}

#[test]
fn generated_ids_have_uuid_shape() {
    for _ in 0..20 {
        let id = ruddy::uuid_gen::generate_uuid();
        assert!(is_uuid_v4(&id), "{}", id);
    }
}

#[test]
fn worker_client_answers_create() {
    let mut w = WorkerClient::new("job-1".to_string());
    assert_eq!(w.handle(WorkerCommand::Create), Ok("Hi".to_string()));
    assert_eq!(w.job_id, "job-1");
}

#[test]
fn state_snapshot_keeps_jobs() {
    let s = ControllerState { jobs: vec![Job {}, Job {}] };
    assert_eq!(s.snapshot().jobs.len(), 2);
}

#[test]
fn websocket_commands() {
    let text = |s: &str| WsMessage::Text(s.to_string());
    assert!(matches!(controller_ws_action(text(r#"{"type":"COMMAND_CREATE_WORKER"}"#)), Ok(ControllerWsAction::CreateWorker)));
    assert!(matches!(controller_ws_action(text(r#"{"type":"COMMAND_OTHER"}"#)), Ok(ControllerWsAction::Ignore)));
    assert!(matches!(controller_ws_action(text(r#"{"type":5}"#)), Ok(ControllerWsAction::Ignore)));
    assert!(matches!(controller_ws_action(text(r#"{"kind":"COMMAND_CREATE_WORKER"}"#)), Ok(ControllerWsAction::Ignore)));
    assert!(matches!(controller_ws_action(text(r#"["COMMAND_CREATE_WORKER"]"#)), Ok(ControllerWsAction::Ignore)));
    assert!(matches!(controller_ws_action(text("not json")), Err(CommandError::InvalidJson)));
    assert!(matches!(controller_ws_action(WsMessage::Ping("x".into())), Ok(ControllerWsAction::Pong(p)) if p == "x"));
    assert!(matches!(controller_ws_action(WsMessage::Binary(vec![9])), Ok(ControllerWsAction::Binary(b)) if b == vec![9]));
    assert!(matches!(controller_ws_action(WsMessage::Nop), Ok(ControllerWsAction::Ignore)));
}

#[test]
fn create_worker_type_check() {
    assert!(is_create_worker_command(&Some("COMMAND_CREATE_WORKER".to_string())));
    assert!(!is_create_worker_command(&Some("command_create_worker".to_string())));
    assert!(!is_create_worker_command(&None));
}
