use crossbeam_channel::TryRecvError;
use midi_bridge::app_state::AppState;
use midi_bridge::error::BridgeError;
use midi_bridge::ipc_backend::{
    fetch_ports, has_active_port, prepare_port, render, reply, send, set_port, unset_port, Reply,
    PORT_UPDATED,
};
use midi_bridge::worker::{worker_start, worker_step, WorkerAction, WorkerEvent, WorkerState};

#[test]
fn change_is_announced_as_midi_port_updated() {
    assert_eq!(PORT_UPDATED, "midi-port-updated");
}

#[test]
fn success_is_announced_and_failure_is_not() {
    assert_eq!(reply(Ok(())), Reply { result: Ok(()), notify: true });
    assert_eq!(
        reply(Err(BridgeError::PortNotFound)),
        Reply { result: Err(String::from("not found")), notify: false }
    );
    assert_eq!(
        reply(Err(BridgeError::LockUnavailable)),
        Reply { result: Err(String::from("failed gaining sender write lock")), notify: false }
    );
    assert_eq!(
        reply(Err(BridgeError::ConnectionError(String::from("device busy")))),
        Reply { result: Err(String::from("device busy")), notify: false }
    );
}

#[test]
fn failures_cross_to_the_shell_as_text() {
    assert_eq!(render(Ok::<bool, BridgeError>(true)), Ok(true));
    assert_eq!(render(Ok::<u8, BridgeError>(7)), Ok(7));
    assert_eq!(
        render(Err::<bool, BridgeError>(BridgeError::LockUnavailable)),
        Err(String::from("failed gaining sender write lock"))
    );
    assert_eq!(
        render(Err::<(), BridgeError>(BridgeError::NoActiveBinding)),
        Err(String::from("no active port"))
    );
}

#[test]
fn fetch_ports_lists_names_and_failure_markers() {
    let state = AppState::new();
    let probes = vec![Some(String::from("IAC Driver Bus 1")), Some(String::from("USB MIDI"))];
    assert_eq!(
        fetch_ports(&state, &probes),
        vec![Ok(String::from("IAC Driver Bus 1")), Ok(String::from("USB MIDI"))]
    );
    assert_eq!(fetch_ports(&state, &vec![None]), vec![Err(())]);
    assert_eq!(fetch_ports(&state, &Vec::new()), Vec::<Result<String, ()>>::new());
}

#[test]
fn bind_send_unbind_send() {
    let state = AppState::new();
    let names = fetch_ports(
        &state,
        &vec![Some(String::from("IAC Driver Bus 1")), Some(String::from("USB MIDI"))],
    );
    assert_eq!(names, vec![Ok(String::from("IAC Driver Bus 1")), Ok(String::from("USB MIDI"))]);

    let (binding, receiver) =
        prepare_port(&state, &names, 1, String::from("USB MIDI")).expect("port is listed");
    assert_eq!(
        set_port(&state, &names, 1, binding, Ok(())),
        Reply { result: Ok(()), notify: true }
    );
    assert_eq!(has_active_port(&state), Ok(true));

    assert_eq!(send(&state, vec![0x90, 0x3C, 0x64]), Ok(()));
    let first = worker_start();
    assert_eq!(first.action, WorkerAction::Receive);
    let step = worker_step(first.next, WorkerEvent::Message(receiver.try_recv().unwrap()));
    assert_eq!(step.action, WorkerAction::Forward(vec![0x90, 0x3C, 0x64]));
    let step = worker_step(step.next, WorkerEvent::Delivered);
    assert_eq!(step.action, WorkerAction::Receive);
    assert_eq!(step.next, WorkerState::Running);

    assert_eq!(unset_port(&state), Reply { result: Ok(()), notify: true });
    assert_eq!(has_active_port(&state), Ok(false));
    assert_eq!(send(&state, vec![0x90, 0x3C, 0x64]), Err(String::from("no active port")));

    assert_eq!(receiver.try_recv(), Err(TryRecvError::Disconnected));
    let step = worker_step(step.next, WorkerEvent::QueueClosed);
    assert_eq!(step.action, WorkerAction::Close);
    assert_eq!(step.next, WorkerState::Terminated);
}

#[test]
fn prepare_port_answers_not_found_for_an_unlisted_port() {
    let state = AppState::new();
    let names = vec![Ok(String::from("IAC Driver Bus 1")), Ok(String::from("USB MIDI"))];
    assert_eq!(
        prepare_port(&state, &names, 0, String::from("USB MIDI")).err(),
        Some(String::from("not found"))
    );
    assert_eq!(
        prepare_port(&state, &names, 5, String::from("USB MIDI")).err(),
        Some(String::from("not found"))
    );
    assert_eq!(has_active_port(&state), Ok(false));
}

#[test]
fn set_port_of_unlisted_port_answers_not_found_without_announcing() {
    let state = AppState::new();
    let names = vec![Ok(String::from("IAC Driver Bus 1")), Ok(String::from("USB MIDI"))];
    let (binding, _receiver) =
        prepare_port(&state, &names, 1, String::from("USB MIDI")).expect("port is listed");
    assert_eq!(
        set_port(&state, &Vec::new(), 1, binding, Ok(())),
        Reply { result: Err(String::from("not found")), notify: false }
    );
    assert_eq!(has_active_port(&state), Ok(false));
}

#[test]
fn set_port_with_refused_connection_answers_the_reason_without_announcing() {
    let state = AppState::new();
    let names = vec![Ok(String::from("IAC Driver Bus 1")), Ok(String::from("USB MIDI"))];
    let (binding, _receiver) =
        prepare_port(&state, &names, 1, String::from("USB MIDI")).expect("port is listed");
    assert_eq!(
        set_port(&state, &names, 1, binding, Err(String::from("device busy"))),
        Reply { result: Err(String::from("device busy")), notify: false }
    );
    assert_eq!(has_active_port(&state), Ok(false));
}

#[test]
fn unset_port_is_announced_each_time_it_succeeds() {
    let state = AppState::new();
    assert_eq!(unset_port(&state), Reply { result: Ok(()), notify: true });
    assert_eq!(unset_port(&state), Reply { result: Ok(()), notify: true });
}

#[test]
fn send_with_nothing_bound_answers_no_active_port() {
    let state = AppState::new();
    assert_eq!(send(&state, vec![0xF8]), Err(String::from("no active port")));
}

#[test]
fn has_active_port_follows_the_binding() {
    let state = AppState::new();
    let names = vec![Ok(String::from("USB MIDI"))];
    assert_eq!(has_active_port(&state), Ok(false));
    let (binding, _receiver) =
        prepare_port(&state, &names, 0, String::from("USB MIDI")).expect("port is listed");
    assert_eq!(has_active_port(&state), Ok(false));
    assert_eq!(set_port(&state, &names, 0, binding, Ok(())).result, Ok(()));
    assert_eq!(has_active_port(&state), Ok(true));
}
