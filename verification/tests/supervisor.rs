//! The supervisor of the client process.

use vm_connect::rdp::{
    spawn_rdp, ClientAction, ClientEvent, ProcessStatus, RDPError, RDPErrorKind, RDPTaskInstance,
    POLL_INTERVAL_MILLIS,
};

fn launched() -> RDPTaskInstance {
    RDPTaskInstance::spawn(Ok(())).unwrap()
}

fn outcome(client: &RDPTaskInstance) -> Result<(), RDPError> {
    match client.pending() {
        ClientAction::Finish(outcome) => outcome,
        other => panic!("the supervisor has not ended: {:?}", other),
    }
}

#[test]
fn the_client_is_opened_through_the_shell_and_waited_for() {
    let command = spawn_rdp("C:\\links\\vm one.rdp".to_string());
    assert_eq!(command.program, "cmd");
    assert_eq!(command.arguments, vec!["/c", "start", "/wait", "mstsc", "C:\\links\\vm one.rdp"]);
}

#[test]
fn a_launch_that_failed_says_why() {
    let e = RDPTaskInstance::spawn(Err("program not found".to_string())).unwrap_err();
    assert_eq!(e.kind, RDPErrorKind::Spawn);
    assert_eq!(e.msg, "Failed to start RDP task, program not found");
    let e = RDPTaskInstance::spawn(Err(String::new())).unwrap_err();
    assert_eq!(e.msg, "Failed to start RDP task, ");
}

#[test]
fn a_round_looks_for_the_request_first_then_at_the_process_then_rests() {
    let client = launched();
    assert!(matches!(client.pending(), ClientAction::CheckShutdown));
    let client = client.wait_for_exit_or_task_done(ClientEvent::ShutdownChecked { requested: false });
    assert!(matches!(client.pending(), ClientAction::CheckProcess));
    let client =
        client.wait_for_exit_or_task_done(ClientEvent::ProcessChecked(ProcessStatus::Running));
    match client.pending() {
        ClientAction::Sleep { millis } => assert_eq!(millis, 100),
        other => panic!("unexpected {:?}", other),
    }
    assert_eq!(POLL_INTERVAL_MILLIS, 100);
    let client = client.wait_for_exit_or_task_done(ClientEvent::Slept);
    assert!(matches!(client.pending(), ClientAction::CheckShutdown));
    assert!(!client.is_finished());
}

#[test]
fn an_exit_ends_the_supervisor_well() {
    let client = launched()
        .wait_for_exit_or_task_done(ClientEvent::ShutdownChecked { requested: false })
        .wait_for_exit_or_task_done(ClientEvent::ProcessChecked(ProcessStatus::Exited));
    assert!(client.is_finished());
    assert!(outcome(&client).is_ok());
}

#[test]
fn a_query_that_fails_ends_the_supervisor_well() {
    let client = launched()
        .wait_for_exit_or_task_done(ClientEvent::ShutdownChecked { requested: false })
        .wait_for_exit_or_task_done(ClientEvent::ProcessChecked(ProcessStatus::Unknown));
    assert!(outcome(&client).is_ok());
}

#[test]
fn a_request_to_shut_down_kills_without_a_look_at_the_process() {
    let client =
        launched().wait_for_exit_or_task_done(ClientEvent::ShutdownChecked { requested: true });
    assert!(matches!(client.pending(), ClientAction::Kill));
    let client = client.wait_for_exit_or_task_done(ClientEvent::Killed { killed: true });
    assert!(outcome(&client).is_ok());
}

#[test]
fn a_kill_that_fails_is_the_supervisor_s_failure() {
    let client = launched()
        .wait_for_exit_or_task_done(ClientEvent::ShutdownChecked { requested: true })
        .wait_for_exit_or_task_done(ClientEvent::Killed { killed: false });
    let e = outcome(&client).unwrap_err();
    assert_eq!(e.kind, RDPErrorKind::Kill);
    assert_eq!(e.msg, "Error while trying to kill RDP task");
}

#[test]
fn a_request_after_many_rounds_is_still_seen() {
    let mut client = launched();
    let mut rested = 0u64;
    for _ in 0..25 {
        client = client
            .wait_for_exit_or_task_done(ClientEvent::ShutdownChecked { requested: false })
            .wait_for_exit_or_task_done(ClientEvent::ProcessChecked(ProcessStatus::Running));
        if let ClientAction::Sleep { millis } = client.pending() {
            rested += millis;
        }
        client = client.wait_for_exit_or_task_done(ClientEvent::Slept);
    }
    assert_eq!(rested, 2500);
    let client = client
        .wait_for_exit_or_task_done(ClientEvent::ShutdownChecked { requested: true })
        .wait_for_exit_or_task_done(ClientEvent::Killed { killed: true });
    assert!(outcome(&client).is_ok());
}

#[test]
fn the_supervisor_ignores_replies_out_of_turn() {
    let client = launched()
        .wait_for_exit_or_task_done(ClientEvent::Killed { killed: false })
        .wait_for_exit_or_task_done(ClientEvent::ProcessChecked(ProcessStatus::Exited))
        .wait_for_exit_or_task_done(ClientEvent::Slept);
    assert!(matches!(client.pending(), ClientAction::CheckShutdown));
    let done = launched()
        .wait_for_exit_or_task_done(ClientEvent::ShutdownChecked { requested: true })
        .wait_for_exit_or_task_done(ClientEvent::Killed { killed: true })
        .wait_for_exit_or_task_done(ClientEvent::Killed { killed: false });
    assert!(outcome(&done).is_ok());
}
