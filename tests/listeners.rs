use worker_control::{
    control_reply, Action, Event, Listener, Phase, PidCell, Role, CONTROL_PORT, UNSET_PID,
    WORKER_PID, WORKER_PORT,
};

fn serving(role: Role, cell: &mut PidCell) -> Listener {
    let mut listener = Listener::new(role);
    assert!(matches!(listener.step(cell, Event::BindSucceeded), Action::Idle));
    assert_eq!(listener.phase, Phase::Serving);
    listener
}

fn worker_connection(worker: &mut Listener, cell: &mut PidCell) {
    assert!(matches!(worker.step(cell, Event::Accepted), Action::Spawn));
    assert!(matches!(worker.step(cell, Event::SpawnSucceeded), Action::Idle));
}

fn control_connection(control: &mut Listener, cell: &mut PidCell) -> Vec<u8> {
    match control.step(cell, Event::Accepted) {
        Action::Reply(bytes) => bytes,
        other => panic!("expected a reply, got {:?}", other),
    }
}

#[test]
fn reply_for_unset_identifier() {
    assert_eq!(control_reply(-1), b"testing, worker_pid -1\n".to_vec());
}

#[test]
fn reply_for_worker_identifier() {
    assert_eq!(control_reply(1000), b"testing, worker_pid 1000\n".to_vec());
}

#[test]
fn reply_for_edge_values() {
    assert_eq!(control_reply(0), b"testing, worker_pid 0\n".to_vec());
    assert_eq!(control_reply(9), b"testing, worker_pid 9\n".to_vec());
    assert_eq!(control_reply(10), b"testing, worker_pid 10\n".to_vec());
    assert_eq!(
        control_reply(i32::MAX),
        b"testing, worker_pid 2147483647\n".to_vec()
    );
    assert_eq!(
        control_reply(i32::MIN),
        b"testing, worker_pid -2147483648\n".to_vec()
    );
}

#[test]
fn cell_starts_unset_and_last_write_wins() {
    let mut cell = PidCell::new();
    assert_eq!(cell.read(), UNSET_PID);
    assert_eq!(UNSET_PID, -1);
    cell.write(7);
    cell.write(42);
    assert_eq!(cell.read(), 42);
}

#[test]
fn contended_writes_leave_one_of_them() {
    let writes = [3, 1, 2];
    for order in [[3, 1, 2], [2, 3, 1], [1, 2, 3]] {
        let mut cell = PidCell::new();
        for pid in order {
            cell.write(pid);
        }
        assert_eq!(cell.read(), order[2]);
        assert!(writes.contains(&cell.read()));
    }
}

#[test]
fn ports_are_fixed() {
    assert_eq!(CONTROL_PORT, 5000);
    assert_eq!(WORKER_PORT, 5001);
    assert_eq!(Listener::new(Role::Control).port(), 5000);
    assert_eq!(Listener::new(Role::Worker).port(), 5001);
}

#[test]
fn control_before_any_worker_reports_unset() {
    let mut cell = PidCell::new();
    let mut control = serving(Role::Control, &mut cell);
    assert_eq!(
        control_connection(&mut control, &mut cell),
        b"testing, worker_pid -1\n".to_vec()
    );
}

#[test]
fn one_worker_connection_then_control() {
    let mut cell = PidCell::new();
    let mut worker = serving(Role::Worker, &mut cell);
    let mut control = serving(Role::Control, &mut cell);
    worker_connection(&mut worker, &mut cell);
    assert_eq!(
        control_connection(&mut control, &mut cell),
        b"testing, worker_pid 1000\n".to_vec()
    );
}

#[test]
fn three_worker_connections_then_control() {
    let mut cell = PidCell::new();
    let mut worker = serving(Role::Worker, &mut cell);
    let mut control = serving(Role::Control, &mut cell);
    for _ in 0..3 {
        worker_connection(&mut worker, &mut cell);
        assert_eq!(cell.read(), WORKER_PID);
    }
    assert_ne!(cell.read(), UNSET_PID);
    assert_eq!(
        control_connection(&mut control, &mut cell),
        b"testing, worker_pid 1000\n".to_vec()
    );
}

#[test]
fn worker_bind_failure_leaves_control_serving() {
    let mut cell = PidCell::new();
    let mut worker = Listener::new(Role::Worker);
    assert!(matches!(
        worker.step(&mut cell, Event::BindFailed),
        Action::ReportBindFailure
    ));
    assert_eq!(worker.phase, Phase::Failed);
    assert!(matches!(worker.step(&mut cell, Event::Accepted), Action::Idle));
    assert!(matches!(
        worker.step(&mut cell, Event::SpawnSucceeded),
        Action::Idle
    ));
    assert_eq!(cell.read(), UNSET_PID);
    let mut control = serving(Role::Control, &mut cell);
    assert_eq!(
        control_connection(&mut control, &mut cell),
        b"testing, worker_pid -1\n".to_vec()
    );
}

#[test]
fn control_survives_failed_reply() {
    let mut cell = PidCell::new();
    let mut control = serving(Role::Control, &mut cell);
    control_connection(&mut control, &mut cell);
    assert!(matches!(
        control.step(&mut cell, Event::ReplyFailed),
        Action::Idle
    ));
    assert_eq!(control.phase, Phase::Serving);
    assert!(matches!(
        control.step(&mut cell, Event::AcceptFailed),
        Action::Idle
    ));
    assert_eq!(
        control_connection(&mut control, &mut cell),
        b"testing, worker_pid -1\n".to_vec()
    );
}

#[test]
fn control_bind_failure_is_reported() {
    let mut cell = PidCell::new();
    let mut control = Listener::new(Role::Control);
    assert!(matches!(
        control.step(&mut cell, Event::BindFailed),
        Action::ReportBindFailure
    ));
    assert_eq!(control.phase, Phase::Failed);
    assert!(matches!(control.step(&mut cell, Event::Accepted), Action::Idle));
}

#[test]
fn spawn_failure_stops_worker_without_write() {
    let mut cell = PidCell::new();
    let mut worker = serving(Role::Worker, &mut cell);
    assert!(matches!(worker.step(&mut cell, Event::Accepted), Action::Spawn));
    assert!(matches!(
        worker.step(&mut cell, Event::SpawnFailed),
        Action::Abort
    ));
    assert_eq!(worker.phase, Phase::Failed);
    assert_eq!(cell.read(), UNSET_PID);
}

#[test]
fn events_before_bind_are_ignored() {
    let mut cell = PidCell::new();
    let mut worker = Listener::new(Role::Worker);
    assert!(matches!(
        worker.step(&mut cell, Event::SpawnSucceeded),
        Action::Idle
    ));
    assert!(matches!(worker.step(&mut cell, Event::Accepted), Action::Idle));
    assert_eq!(worker.phase, Phase::Starting);
    assert_eq!(cell.read(), UNSET_PID);
}

#[test]
fn control_never_writes_the_cell() {
    let mut cell = PidCell::new();
    cell.write(5);
    let mut control = serving(Role::Control, &mut cell);
    control.step(&mut cell, Event::SpawnSucceeded);
    control.step(&mut cell, Event::Accepted);
    assert_eq!(cell.read(), 5);
    assert_eq!(control.phase, Phase::Serving);
}
