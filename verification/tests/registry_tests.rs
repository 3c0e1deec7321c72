use lodestone_core::config::{Flavour, MinecraftSetupConfigPrimitive};
use lodestone_core::errors::ErrorKind;
use lodestone_core::events::{CausedBy, Event, EventInner, InstanceEventKind};
use lodestone_core::instance::SupervisorAction;
use lodestone_core::registry::Registry;
use lodestone_core::state::State;

fn params(name: &str, port: u32) -> MinecraftSetupConfigPrimitive {
    MinecraftSetupConfigPrimitive {
        name: name.to_string(),
        version: "1.19.71.02".to_string(),
        flavour: Flavour::Vanilla,
        port,
        cmd_args: None,
        description: Some("a test instance".to_string()),
        fabric_loader_version: None,
        fabric_installer_version: None,
        min_ram: None,
        max_ram: None,
        auto_start: Some(false),
        restart_on_crash: Some(true),
        timeout_last_left: None,
        timeout_no_activity: None,
        start_on_connection: None,
        backup_period: None,
    }
}

fn create_registered(reg: &mut Registry, name: &str, port: u32, now: i64) -> String {
    let uuid = reg
        .create_minecraft_instance(params(name, port), now)
        .expect("creation should be admitted");
    reg.complete_create(&uuid, true).expect("provisioning settles");
    uuid
}

fn transition_of(e: &Event) -> Option<State> {
    match &e.event_inner {
        EventInner::InstanceEvent(ie) => match &ie.instance_event_inner {
            InstanceEventKind::StateTransition { to } => Some(*to),
            _ => None,
        },
        EventInner::ProgressionEvent(_) => None,
    }
}

// After a successful create the instance's port is reserved; after a
// successful remove it is free again.
#[test]
fn port_follows_create_and_remove() {
    let mut reg = Registry::new();
    assert!(!reg.is_port_in_use(25565));
    let uuid = create_registered(&mut reg, "alpha", 25565, 10);
    assert!(reg.is_port_in_use(25565));
    reg.remove_instance(&uuid).expect("stopped instance is removable");
    assert!(!reg.is_port_in_use(25565));
}

#[test]
fn failed_provisioning_rolls_back_the_port() {
    let mut reg = Registry::new();
    let uuid = reg
        .create_minecraft_instance(params("alpha", 25565), 10)
        .expect("creation should be admitted");
    assert!(reg.is_port_in_use(25565));
    assert!(reg.list_instance().is_empty());
    reg.complete_create(&uuid, false).expect("rollback succeeds");
    assert!(!reg.is_port_in_use(25565));
    assert!(reg.list_instance().is_empty());
}

// Two create calls with the same sanitized name fail the second with a
// conflict; only one instance exists afterwards.
#[test]
fn duplicate_name_conflicts() {
    let mut reg = Registry::new();
    let _uuid = create_registered(&mut reg, "alpha", 25565, 10);
    let err = reg
        .create_minecraft_instance(params("alpha", 25566), 11)
        .expect_err("same sanitized name must be refused");
    assert_eq!(err.kind, ErrorKind::Conflict);
    assert_eq!(reg.list_instance().len(), 1);
    assert!(!reg.is_port_in_use(25566));
}

#[test]
fn duplicate_port_is_resource_unavailable() {
    let mut reg = Registry::new();
    let _uuid = create_registered(&mut reg, "alpha", 25565, 10);
    let err = reg
        .create_minecraft_instance(params("beta", 25565), 11)
        .expect_err("same port must be refused");
    assert_eq!(err.kind, ErrorKind::ResourceUnavailable);
    assert_eq!(reg.list_instance().len(), 1);
}

#[test]
fn empty_sanitized_name_is_refused() {
    let mut reg = Registry::new();
    let err = reg
        .create_minecraft_instance(params("...", 25565), 10)
        .expect_err("a name that sanitizes to nothing is refused");
    assert_eq!(err.kind, ErrorKind::Conflict);
    assert!(!reg.is_port_in_use(25565));
}

// Starting an instance whose configured port is reserved by another
// active instance fails with ResourceUnavailable and leaves the
// reservation set unchanged.
#[test]
fn start_on_foreign_reservation_is_refused() {
    let mut reg = Registry::new();
    let _a = create_registered(&mut reg, "alpha", 25565, 10);
    let b = create_registered(&mut reg, "beta", 25566, 11);
    reg.set_instance_port(&b, 25565).expect("configured port moves freely");
    let err = reg
        .start_instance(&b, true, CausedBy::Unknown, 20)
        .expect_err("port is reserved by alpha");
    assert_eq!(err.kind, ErrorKind::ResourceUnavailable);
    assert!(reg.is_port_in_use(25565));
    assert!(reg.is_port_in_use(25566));
    assert_eq!(reg.get_instance_state(&b).unwrap(), State::Stopped);
}

#[test]
fn start_refused_when_host_probe_fails() {
    let mut reg = Registry::new();
    let a = create_registered(&mut reg, "alpha", 25565, 10);
    let err = reg
        .start_instance(&a, false, CausedBy::Unknown, 20)
        .expect_err("host probe found the port taken");
    assert_eq!(err.kind, ErrorKind::ResourceUnavailable);
    assert_eq!(reg.get_instance_state(&a).unwrap(), State::Stopped);
}

// Removing a running instance fails with Conflict and the instance
// remains fully intact.
#[test]
fn remove_while_running_is_refused() {
    let mut reg = Registry::new();
    let a = create_registered(&mut reg, "alpha", 25565, 10);
    let action = reg.start_instance(&a, true, CausedBy::Unknown, 20).unwrap();
    assert!(matches!(action, SupervisorAction::SpawnProcess));
    reg.process_spawned(&a, true, CausedBy::Unknown, 21).unwrap();
    reg.handle_line(&a, "[INFO] Server started. ready", CausedBy::Unknown, 22).unwrap();
    assert_eq!(reg.get_instance_state(&a).unwrap(), State::Running);
    let err = reg.remove_instance(&a).expect_err("running instance must stay");
    assert_eq!(err.kind, ErrorKind::Conflict);
    assert_eq!(reg.list_instance().len(), 1);
    assert!(reg.is_port_in_use(25565));
    assert_eq!(reg.get_instance_state(&a).unwrap(), State::Running);
    // after the process exits, removal succeeds and frees the port
    reg.handle_eof(&a, CausedBy::Unknown, 30).unwrap();
    assert_eq!(reg.get_instance_state(&a).unwrap(), State::Stopped);
    reg.remove_instance(&a).expect("stopped instance is removable");
    assert!(!reg.is_port_in_use(25565));
}

// End-to-end: create "alpha" on 25565, start, the reader observes the
// ready line, a stop command goes out, the process exits. A subscriber
// present throughout observes exactly the transitions Starting, Running,
// Stopped, in that order; the command write itself moves nothing.
#[test]
fn full_lifecycle_event_sequence() {
    let mut reg = Registry::new();
    let a = create_registered(&mut reg, "alpha", 25565, 10);
    let mut sub = reg.subscribe();
    reg.start_instance(&a, true, CausedBy::Unknown, 20).unwrap();
    reg.process_spawned(&a, true, CausedBy::Unknown, 21).unwrap();
    reg.handle_line(&a, "[INFO] Server started. in 2s", CausedBy::Unknown, 22).unwrap();
    assert_eq!(reg.get_instance_state(&a).unwrap(), State::Running);
    let action = reg.send_command(&a, "stop").unwrap();
    match action {
        SupervisorAction::WriteStdin { line } => assert_eq!(line, "stop"),
        other => panic!("unexpected action: {:?}", other),
    }
    // sending a command performs no state transition of its own
    assert_eq!(reg.get_instance_state(&a).unwrap(), State::Running);
    reg.handle_eof(&a, CausedBy::Unknown, 24).unwrap();
    assert_eq!(reg.get_instance_state(&a).unwrap(), State::Stopped);

    let mut transitions: Vec<State> = Vec::new();
    while let Some(e) = reg.poll(&mut sub) {
        if let Some(to) = transition_of(e) {
            transitions.push(to);
        }
    }
    assert_eq!(transitions, vec![State::Starting, State::Running, State::Stopped]);
}

#[test]
fn players_follow_join_and_leave_lines() {
    let mut reg = Registry::new();
    let a = create_registered(&mut reg, "alpha", 25565, 10);
    reg.start_instance(&a, true, CausedBy::Unknown, 20).unwrap();
    reg.process_spawned(&a, true, CausedBy::Unknown, 21).unwrap();
    reg.handle_line(&a, "[INFO] Server started. ok", CausedBy::Unknown, 22).unwrap();
    reg.handle_line(&a, "[INFO] Player connected: Steve, xuid: 111", CausedBy::Unknown, 23)
        .unwrap();
    reg.handle_line(&a, "[INFO] Player connected: Alex, xuid: 222", CausedBy::Unknown, 24)
        .unwrap();
    assert_eq!(reg.get_player_count(&a).unwrap(), 2);
    let names: Vec<String> =
        reg.get_player_list(&a).unwrap().into_iter().map(|p| p.name).collect();
    assert_eq!(names, vec!["Steve".to_string(), "Alex".to_string()]);
    reg.handle_line(&a, "[INFO] Player disconnected: Steve", CausedBy::Unknown, 25).unwrap();
    assert_eq!(reg.get_player_count(&a).unwrap(), 1);
    // the roster clears when the process exits
    reg.handle_eof(&a, CausedBy::Unknown, 30).unwrap();
    assert_eq!(reg.get_player_count(&a).unwrap(), 0);
}

#[test]
fn stop_requires_running_and_kill_requires_not_stopped() {
    let mut reg = Registry::new();
    let a = create_registered(&mut reg, "alpha", 25565, 10);
    let err = reg.stop_instance(&a, CausedBy::Unknown, 20).expect_err("not running yet");
    assert_eq!(err.kind, ErrorKind::Conflict);
    assert_eq!(err.detail, "Instance is not running");
    let err = reg.kill_instance(&a).expect_err("already stopped");
    assert_eq!(err.kind, ErrorKind::Conflict);
    reg.start_instance(&a, true, CausedBy::Unknown, 21).unwrap();
    reg.process_spawned(&a, true, CausedBy::Unknown, 22).unwrap();
    // killable while starting, before the ready line
    let action = reg.kill_instance(&a).unwrap();
    assert!(matches!(action, Some(SupervisorAction::KillProcess)));
    reg.handle_line(&a, "[INFO] Server started. ok", CausedBy::Unknown, 23).unwrap();
    let action = reg.stop_instance(&a, CausedBy::Unknown, 24).unwrap();
    assert!(matches!(action, SupervisorAction::WriteStdin { .. }));
    assert_eq!(reg.get_instance_state(&a).unwrap(), State::Stopping);
}

#[test]
fn send_command_needs_a_live_process() {
    let mut reg = Registry::new();
    let a = create_registered(&mut reg, "alpha", 25565, 10);
    let err = reg.send_command(&a, "list").expect_err("stopped");
    assert_eq!(err.kind, ErrorKind::Conflict);
    assert_eq!(err.detail, "Instance is not running");
    reg.start_instance(&a, true, CausedBy::Unknown, 21).unwrap();
    reg.process_spawned(&a, true, CausedBy::Unknown, 22).unwrap();
    let action = reg.send_command(&a, "list").unwrap();
    match action {
        SupervisorAction::WriteStdin { line } => assert_eq!(line, "list"),
        other => panic!("unexpected action: {:?}", other),
    }
    // a shutdown command is a plain write too: usable while Starting, and
    // it moves no state
    let action = reg.send_command(&a, "stop").unwrap();
    assert!(matches!(action, SupervisorAction::WriteStdin { .. }));
    assert_eq!(reg.get_instance_state(&a).unwrap(), State::Starting);
}

#[test]
fn unknown_ids_are_not_found() {
    let mut reg = Registry::new();
    assert_eq!(reg.get_instance_state("nope").unwrap_err().kind, ErrorKind::NotFound);
    assert_eq!(reg.remove_instance("nope").unwrap_err().kind, ErrorKind::NotFound);
    assert_eq!(reg.complete_create("nope", true).unwrap_err().kind, ErrorKind::NotFound);
    assert_eq!(
        reg.start_instance("nope", true, CausedBy::Unknown, 1).unwrap_err().kind,
        ErrorKind::NotFound
    );
}

#[test]
fn list_is_sorted_by_creation_time() {
    let mut reg = Registry::new();
    let _c = create_registered(&mut reg, "gamma", 25567, 30);
    let _a = create_registered(&mut reg, "alpha", 25565, 10);
    let _b = create_registered(&mut reg, "beta", 25566, 20);
    let infos = reg.list_instance();
    let names: Vec<String> = infos.iter().map(|i| i.name.clone()).collect();
    assert_eq!(names, vec!["alpha".to_string(), "beta".to_string(), "gamma".to_string()]);
}

#[test]
fn rename_checks_validity_and_uniqueness() {
    let mut reg = Registry::new();
    let a = create_registered(&mut reg, "alpha", 25565, 10);
    let _b = create_registered(&mut reg, "beta", 25566, 11);
    assert_eq!(
        reg.set_instance_name(&a, "beta".to_string()).unwrap_err().kind,
        ErrorKind::Conflict
    );
    assert_eq!(
        reg.set_instance_name(&a, String::new()).unwrap_err().kind,
        ErrorKind::Conflict
    );
    reg.set_instance_name(&a, "gamma".to_string()).unwrap();
    assert_eq!(reg.get_instance_name(&a).unwrap(), "gamma");
    reg.set_instance_description(&a, "new words".to_string()).unwrap();
    assert_eq!(reg.get_instance_description(&a).unwrap(), "new words");
}
