use usb_reattach::launch::{after_search, after_spawn, Spawn, Startup, CONFLICT_EXIT_STATUS};

#[test]
fn daemon_serves() {
    assert_eq!(after_spawn(Spawn::Daemonized), Startup::Serve);
}

#[test]
fn held_pid_file_is_looked_into() {
    assert_eq!(after_spawn(Spawn::AlreadyRunning), Startup::Locate);
}

#[test]
fn failed_spawn_still_serves() {
    assert_eq!(after_spawn(Spawn::Failed), Startup::Serve);
}

#[test]
fn running_instance_is_given_way() {
    assert_eq!(after_search(Some(4242)), Startup::GiveWay(4242));
    assert_eq!(after_search(Some(0)), Startup::GiveWay(0));
    assert_eq!(after_search(Some(u32::MAX)), Startup::GiveWay(u32::MAX));
}

#[test]
fn failed_search_serves() {
    assert_eq!(after_search(None), Startup::Serve);
}

#[test]
fn giving_way_exits_with_status_one() {
    assert_eq!(CONFLICT_EXIT_STATUS, 1);
    assert_eq!(Startup::GiveWay(17).exit_status(), Some(1));
    assert_eq!(Startup::Serve.exit_status(), None);
    assert_eq!(Startup::Locate.exit_status(), None);
}

#[test]
fn second_launch_reports_the_pid_and_opens_no_listener() {
    let mut step = after_spawn(Spawn::AlreadyRunning);
    if step == Startup::Locate {
        step = after_search(Some(321));
    }
    assert_eq!(step, Startup::GiveWay(321));
    assert_ne!(step, Startup::Serve);
    assert_ne!(step.exit_status(), Some(0));
    assert!(step.exit_status().is_some());
}
