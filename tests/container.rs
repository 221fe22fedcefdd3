use ssandbox::config::Config;
use ssandbox::container::{Action, Container, ContainerError, Event, Namespaces, STACK_SIZE};

fn config(uid: u64, time_limit_ms: u64) -> Config {
    let mut c = Config::default();
    c.uid = uid;
    c.working_path = "/ws".to_string();
    c.time_limit_ms = time_limit_ms;
    c
}

/// Drives a container up to the point where the status byte is read.
fn to_status(c: &mut Container, pid: i32) {
    assert_eq!(c.start(), Action::CreatePipes);
    assert_eq!(
        c.step(Event::Done),
        Action::Clone {
            namespaces: Namespaces { uts: true, ipc: true, pid: true, mount: true, user: true },
            stack_size: STACK_SIZE,
        }
    );
    assert_eq!(c.step(Event::Cloned { pid }), Action::CloseChildEnds);
    assert_eq!(c.step(Event::Done), Action::MapIds { pid });
    assert_eq!(c.step(Event::Done), Action::ApplyCGroup { uid: c.config().uid, pid });
    assert_eq!(c.step(Event::Done), Action::ReleaseGate);
    assert_eq!(c.step(Event::Done), Action::ReadStatus);
}

#[test]
fn start_succeeds_after_one_zero_byte() {
    let mut c = Container::from(config(9, 250));
    assert!(!c.has_started() && !c.has_ened());
    to_status(&mut c, 77);
    assert_eq!(c.step(Event::Bytes { data: vec![0] }), Action::StartWatcher { pid: 77, time_limit_ms: 250 });
    assert_eq!(c.step(Event::Done), Action::Finish(Ok(())));
    assert!(c.has_started());
    assert_eq!(c.pid(), Some(77));
    assert!(!c.has_ened());
}

#[test]
fn zero_time_limit_still_starts_watcher() {
    let mut c = Container::from(config(9, 0));
    to_status(&mut c, 5);
    assert_eq!(c.step(Event::Bytes { data: vec![0] }), Action::StartWatcher { pid: 5, time_limit_ms: 0 });
    assert_eq!(c.step(Event::Done), Action::Finish(Ok(())));
    assert_eq!(c.wait(), vec![Action::Reap { pid: 5 }]);
    c.mark_ended();
    assert!(c.has_ened());
    assert!(c.wait().is_empty());
}

#[test]
fn entry_error_is_returned_after_reaping() {
    let mut c = Container::from(config(3, 100));
    to_status(&mut c, 12);
    assert_eq!(c.step(Event::Bytes { data: vec![3] }), Action::ReadLength);
    assert_eq!(c.step(Event::Bytes { data: vec![5, 0, 0, 0, 0, 0, 0, 0] }), Action::ReadPayload { len: 5 });
    assert_eq!(c.step(Event::Bytes { data: b"EPERM".to_vec() }), Action::Reap { pid: 12 });
    assert!(!c.has_ened());
    assert_eq!(
        c.step(Event::Done),
        Action::Finish(Err(ContainerError::EntryError { code: 3, payload: b"EPERM".to_vec() }))
    );
    assert!(c.has_ened());
    assert!(c.terminate().is_empty());
}

#[test]
fn double_start_is_refused() {
    let mut c = Container::from(config(1, 100));
    to_status(&mut c, 40);
    c.step(Event::Bytes { data: vec![0] });
    c.step(Event::Done);
    assert_eq!(c.start(), Action::Finish(Err(ContainerError::AlreadyStarted)));
    assert_eq!(c.pid(), Some(40));
}

#[test]
fn start_while_starting_is_refused() {
    let mut c = Container::from(config(1, 100));
    assert_eq!(c.start(), Action::CreatePipes);
    assert_eq!(c.start(), Action::Finish(Err(ContainerError::AlreadyStarted)));
}

#[test]
fn clone_failure_needs_no_kill() {
    let mut c = Container::from(config(1, 100));
    c.start();
    c.step(Event::Done);
    assert_eq!(c.step(Event::Failed { errno: 1 }), Action::Finish(Err(ContainerError::ForkFailed(1))));
    assert!(!c.has_started());
    assert_eq!(c.start(), Action::CreatePipes);
}

#[test]
fn pipe_failure() {
    let mut c = Container::from(config(1, 100));
    c.start();
    assert_eq!(c.step(Event::Failed { errno: 24 }), Action::Finish(Err(ContainerError::PipeFailed(24))));
}

#[test]
fn id_map_failure_kills_child() {
    let mut c = Container::from(config(1, 100));
    c.start();
    c.step(Event::Done);
    c.step(Event::Cloned { pid: 8 });
    c.step(Event::Done);
    assert_eq!(c.step(Event::Failed { errno: 13 }), Action::Kill { pid: 8 });
    assert_eq!(c.step(Event::Done), Action::Finish(Err(ContainerError::IdMapFailed(13))));
    assert_eq!(c.start(), Action::Finish(Err(ContainerError::AlreadyStarted)));
}

#[test]
fn cgroup_failure_kills_child() {
    let mut c = Container::from(config(1, 100));
    c.start();
    c.step(Event::Done);
    c.step(Event::Cloned { pid: 8 });
    c.step(Event::Done);
    c.step(Event::Done);
    assert_eq!(c.step(Event::Failed { errno: 2 }), Action::Kill { pid: 8 });
    assert_eq!(c.step(Event::Failed { errno: 3 }), Action::Finish(Err(ContainerError::CGroupFailed(2))));
}

#[test]
fn early_eof_kills_child() {
    let mut c = Container::from(config(1, 100));
    to_status(&mut c, 6);
    assert_eq!(c.step(Event::Bytes { data: Vec::new() }), Action::Kill { pid: 6 });
    assert_eq!(c.step(Event::Done), Action::Finish(Err(ContainerError::UnexpectedEof)));
}

#[test]
fn short_length_is_eof() {
    let mut c = Container::from(config(1, 100));
    to_status(&mut c, 6);
    c.step(Event::Bytes { data: vec![2] });
    assert_eq!(c.step(Event::Bytes { data: vec![1, 0] }), Action::Kill { pid: 6 });
    assert_eq!(c.step(Event::Done), Action::Finish(Err(ContainerError::UnexpectedEof)));
}

#[test]
fn watcher_failure_is_io() {
    let mut c = Container::from(config(1, 100));
    to_status(&mut c, 6);
    c.step(Event::Bytes { data: vec![0] });
    assert_eq!(c.step(Event::Failed { errno: 11 }), Action::Kill { pid: 6 });
    assert_eq!(c.step(Event::Done), Action::Finish(Err(ContainerError::Io(11))));
}

#[test]
fn unexpected_event_is_protocol_error() {
    let mut c = Container::from(config(1, 100));
    c.start();
    assert_eq!(c.step(Event::Cloned { pid: 3 }), Action::Finish(Err(ContainerError::Protocol)));
}

#[test]
fn terminate_and_delete_are_idempotent() {
    let mut c = Container::from(config(42, 100));
    to_status(&mut c, 30);
    c.step(Event::Bytes { data: vec![0] });
    c.step(Event::Done);
    assert_eq!(c.terminate(), vec![Action::Kill { pid: 30 }, Action::Reap { pid: 30 }]);
    assert_eq!(
        c.delete(),
        vec![
            Action::Kill { pid: 30 },
            Action::Reap { pid: 30 },
            Action::DeleteCGroup { uid: 42 },
            Action::RemoveWorkspace { path: "/ws/42".to_string() },
        ]
    );
    c.mark_ended();
    assert!(c.terminate().is_empty());
    let once = c.delete();
    c.mark_ended();
    assert_eq!(c.delete(), once);
    assert_eq!(
        once,
        vec![Action::DeleteCGroup { uid: 42 }, Action::RemoveWorkspace { path: "/ws/42".to_string() }]
    );
}

#[test]
fn drop_cleans_up_started_container() {
    let mut c = Container::from(config(5, 100));
    assert!(c.drop_actions().is_empty());
    to_status(&mut c, 9);
    let d = c.drop_actions();
    assert_eq!(d.len(), 4);
    assert_eq!(d[2], Action::DeleteCGroup { uid: 5 });
    assert_eq!(d[3], Action::RemoveWorkspace { path: "/ws/5".to_string() });
}

#[test]
fn freeze_and_thaw_name_the_cgroup() {
    let c = Container::from(config(77, 100));
    assert_eq!(c.freeze(), Action::Freeze { uid: 77 });
    assert_eq!(c.thaw(), Action::Thaw { uid: 77 });
    assert!(!c.has_started());
}

#[test]
fn new_container_is_unstarted() {
    let c = Container::new();
    assert!(!c.has_started() && !c.has_ened());
    let k = c.config();
    assert_eq!(k.working_path, "/tmp/ssandbox-rs.workspace/");
    assert_eq!(k.hostname, "container");
    assert_eq!(k.target_executable, "/bin/sh");
    assert_eq!(k.time_limit_ms, 1000);
    assert_eq!(k.security_policies.len(), 2);
    assert!(k.fs.is_empty() && k.args.is_empty());
    assert!(k.stdin.is_none() && k.stdout.is_none() && k.stderr.is_none());
}

#[test]
fn config_is_kept_through_the_lifecycle() {
    let mut c = Container::from(config(21, 300));
    to_status(&mut c, 4);
    c.step(Event::Bytes { data: vec![0] });
    c.step(Event::Done);
    c.mark_ended();
    assert_eq!(c.config().uid, 21);
    assert_eq!(c.config().time_limit_ms, 300);
    assert_eq!(c.config().working_path, "/ws");
    assert_eq!(c.pid(), Some(4));
}
