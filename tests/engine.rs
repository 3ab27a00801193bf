use operator::engine::{ready_sources, Action, Engine, Event, ForkOutcome, Source, WaitOutcome};
use operator::ipc::IPCMessage;
use operator::service::{Service, ServiceStatus};

fn echoer() -> Service {
    Service::new("echoer".to_string(), "/bin/echo".to_string(), Some(vec!["hi".to_string()]))
}

fn status_request(name: &str) -> IPCMessage {
    IPCMessage::Status { name: name.to_string() }
}

fn status_reply(engine: &Engine, name: &str) -> Option<(i32, ServiceStatus)> {
    match engine.handle_request(&status_request(name)) {
        Action::Reply(IPCMessage::StatusResponse(r)) => r,
        other => panic!("unexpected action {other:?}"),
    }
}

#[test]
fn echoer_runs_then_stops() {
    let mut engine = Engine::new();
    assert_eq!(engine.len(), 0);
    assert!(engine.after_fork(echoer(), ForkOutcome::Parent { child: 4242 }).is_none());
    assert_eq!(engine.len(), 1);
    assert_eq!(status_reply(&engine, "echoer"), Some((4242, ServiceStatus::Running)));
    assert_eq!(status_reply(&engine, "missing"), None);

    let action = engine.step(Event::ChildStatus { pid: 4242, outcome: WaitOutcome::Exited(0) });
    assert!(matches!(action, Action::Nothing));
    assert_eq!(status_reply(&engine, "echoer"), Some((4242, ServiceStatus::Stopped)));
    assert_eq!(status_reply(&engine, "missing"), None);
    assert_eq!(engine.get(4242).unwrap().exit_code, Some(0));
}

#[test]
fn launch_records_pid_once() {
    let mut engine = Engine::new();
    engine.record_launch(echoer(), 10);
    let rec = engine.get(10).unwrap();
    assert_eq!(rec.pid, Some(10));
    assert_eq!(rec.status, Some(ServiceStatus::Running));
    assert_eq!(rec.name, "echoer");
    assert_eq!(rec.args, Some(vec!["hi".to_string()]));
    assert_eq!(engine.len(), 1);
    assert!(engine.get(11).is_none());
}

#[test]
fn reused_pid_replaces_record() {
    let mut engine = Engine::new();
    engine.record_launch(echoer(), 10);
    engine.on_child_status(10, WaitOutcome::Exited(3));
    let other = Service::new("sleeper".to_string(), "/bin/sleep".to_string(), None);
    engine.record_launch(other, 10);
    assert_eq!(engine.len(), 1);
    let rec = engine.get(10).unwrap();
    assert_eq!(rec.name, "sleeper");
    assert_eq!(rec.status, Some(ServiceStatus::Running));
    assert_eq!(rec.exit_code, None);
    assert_eq!(status_reply(&engine, "echoer"), None);
}

#[test]
fn signaled_child_is_stopped_without_exit_code() {
    let mut engine = Engine::new();
    engine.record_launch(echoer(), 7);
    assert!(engine.on_child_status(7, WaitOutcome::Signaled(15)));
    let rec = engine.get(7).unwrap();
    assert_eq!(rec.status, Some(ServiceStatus::Stopped));
    assert_eq!(rec.exit_code, None);
}

#[test]
fn exited_child_keeps_exit_code() {
    let mut engine = Engine::new();
    engine.record_launch(echoer(), 7);
    assert!(engine.on_child_status(7, WaitOutcome::Exited(3)));
    assert_eq!(engine.get(7).unwrap().exit_code, Some(3));
}

#[test]
fn non_terminal_outcome_keeps_status() {
    let mut engine = Engine::new();
    engine.record_launch(echoer(), 7);
    engine.on_child_status(7, WaitOutcome::Suspended(19));
    engine.on_child_status(7, WaitOutcome::Continued);
    engine.on_child_status(7, WaitOutcome::StillAlive);
    assert_eq!(engine.get(7).unwrap().status, Some(ServiceStatus::Running));
}

#[test]
fn stopped_never_reverts_without_fork() {
    let mut engine = Engine::new();
    engine.record_launch(echoer(), 7);
    engine.on_child_status(7, WaitOutcome::Exited(0));
    engine.on_child_status(7, WaitOutcome::Continued);
    engine.on_child_status(7, WaitOutcome::Signaled(9));
    engine.record_launch(Service::new("b".to_string(), "/bin/true".to_string(), None), 8);
    assert_eq!(engine.get(7).unwrap().status, Some(ServiceStatus::Stopped));
}

#[test]
fn unknown_pid_is_ignored() {
    let mut engine = Engine::new();
    engine.record_launch(echoer(), 7);
    assert!(!engine.on_child_status(99, WaitOutcome::Exited(1)));
    assert_eq!(engine.len(), 1);
    assert_eq!(engine.get(7).unwrap().status, Some(ServiceStatus::Running));
}

#[test]
fn stop_known_name_terminates_its_pid() {
    let mut engine = Engine::new();
    engine.record_launch(echoer(), 31);
    let action = engine.handle_request(&IPCMessage::Stop { name: "echoer".to_string() });
    assert!(matches!(action, Action::Terminate(31)));
    engine.on_child_status(31, WaitOutcome::Signaled(15));
    assert_eq!(status_reply(&engine, "echoer"), Some((31, ServiceStatus::Stopped)));
}

#[test]
fn stop_unknown_name_does_nothing() {
    let mut engine = Engine::new();
    engine.record_launch(echoer(), 31);
    let action = engine.handle_request(&IPCMessage::Stop { name: "missing".to_string() });
    assert!(matches!(action, Action::Nothing));
}

#[test]
fn start_and_responses_are_ignored() {
    let mut engine = Engine::new();
    engine.record_launch(echoer(), 31);
    let start = engine.handle_request(&IPCMessage::Start { name: "echoer".to_string() });
    assert!(matches!(start, Action::Nothing));
    let resp = engine.step(Event::Request(IPCMessage::StatusResponse(None)));
    assert!(matches!(resp, Action::Nothing));
    assert_eq!(engine.len(), 1);
}

#[test]
fn status_on_empty_table_is_empty() {
    let engine = Engine::new();
    assert_eq!(status_reply(&engine, "echoer"), None);
    assert_eq!(engine.status(&"".to_string()), None);
}

#[test]
fn duplicate_names_answer_first_launched() {
    let mut engine = Engine::new();
    engine.record_launch(echoer(), 5);
    engine.record_launch(echoer(), 6);
    assert_eq!(engine.len(), 2);
    assert_eq!(status_reply(&engine, "echoer"), Some((5, ServiceStatus::Running)));
    let action = engine.handle_request(&IPCMessage::Stop { name: "echoer".to_string() });
    assert!(matches!(action, Action::Terminate(5)));
}

#[test]
fn child_side_of_fork_gets_service_back() {
    let mut engine = Engine::new();
    let back = engine.after_fork(echoer(), ForkOutcome::Child).unwrap();
    assert_eq!(back.name, "echoer");
    assert_eq!(back.pid, None);
    assert_eq!(engine.len(), 0);
}

#[test]
fn both_ready_sources_served_in_one_cycle() {
    assert_eq!(ready_sources(true, true), vec![Source::Pipe, Source::Control]);
    assert_eq!(ready_sources(true, false), vec![Source::Pipe]);
    assert_eq!(ready_sources(false, true), vec![Source::Control]);
    assert_eq!(ready_sources(false, false), Vec::<Source>::new());
}

#[test]
fn exit_and_request_in_same_cycle_both_handled() {
    let mut engine = Engine::new();
    engine.record_launch(echoer(), 12);
    let mut replies = Vec::new();
    for source in ready_sources(true, true) {
        let event = match source {
            Source::Pipe => Event::ChildStatus { pid: 12, outcome: WaitOutcome::Exited(0) },
            Source::Control => Event::Request(status_request("echoer")),
        };
        replies.push(engine.step(event));
    }
    assert_eq!(replies.len(), 2);
    assert!(matches!(
        replies[1],
        Action::Reply(IPCMessage::StatusResponse(Some((12, ServiceStatus::Stopped))))
    ));
}
