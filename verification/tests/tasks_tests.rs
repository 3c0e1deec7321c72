use lodestone_core::errors::ErrorKind;
use lodestone_core::events::{CausedBy, Event, EventInner, InstanceEvent, InstanceEventKind};
use lodestone_core::players::MinecraftJavaPlayer;
use lodestone_core::tasks::{
    event_query_match, EventQuery, EventQueryMatch, MacroExecutor, MacroExitStatus,
};

// Aborting a task that is blocked waiting (modelled as: between
// checkpoints) makes its status report Aborted at the next checkpoint,
// and later tasks run unhindered.
#[test]
fn abort_reports_aborted_at_next_checkpoint() {
    let mut ex = MacroExecutor::new();
    let pid = ex.spawn("watch.ts".to_string(), 100).unwrap();
    assert_eq!(ex.get_macro_status(pid).unwrap(), None);
    ex.abort_macro(pid).unwrap();
    // the script reaches its next cooperative checkpoint and must stop
    assert!(ex.checkpoint(pid, 105).unwrap());
    assert_eq!(
        ex.get_macro_status(pid).unwrap(),
        Some(MacroExitStatus::Aborted { time: 105 })
    );
    // a later task is unaffected
    let pid2 = ex.spawn("other.ts".to_string(), 110).unwrap();
    assert!(!ex.checkpoint(pid2, 111).unwrap());
    ex.finish(pid2, true, 112).unwrap();
    assert_eq!(
        ex.get_macro_status(pid2).unwrap(),
        Some(MacroExitStatus::Success { time: 112 })
    );
}

#[test]
fn abort_immediately_after_spawn_prevents_any_step() {
    let mut ex = MacroExecutor::new();
    let pid = ex.spawn("never.ts".to_string(), 1).unwrap();
    ex.abort_macro(pid).unwrap();
    // the runtime checks before the first step and must not start the task
    assert!(ex.checkpoint(pid, 2).unwrap());
    assert_eq!(
        ex.get_macro_status(pid).unwrap(),
        Some(MacroExitStatus::Aborted { time: 2 })
    );
}

#[test]
fn tasks_complete_exactly_once() {
    let mut ex = MacroExecutor::new();
    let pid = ex.spawn("job.ts".to_string(), 1).unwrap();
    ex.finish(pid, false, 5).unwrap();
    assert_eq!(
        ex.get_macro_status(pid).unwrap(),
        Some(MacroExitStatus::Failure { time: 5 })
    );
    assert_eq!(ex.finish(pid, true, 6).unwrap_err().kind, ErrorKind::Conflict);
    // an abort after completion is a safe no-op
    ex.abort_macro(pid).unwrap();
    assert_eq!(
        ex.get_macro_status(pid).unwrap(),
        Some(MacroExitStatus::Failure { time: 5 })
    );
}

#[test]
fn unknown_task_ids_are_errors() {
    let mut ex = MacroExecutor::new();
    assert_eq!(ex.get_macro_status(99).unwrap_err().kind, ErrorKind::NotFound);
    assert_eq!(ex.abort_macro(99).unwrap_err().kind, ErrorKind::NotFound);
    assert_eq!(ex.checkpoint(99, 1).unwrap_err().kind, ErrorKind::NotFound);
    assert_eq!(ex.finish(99, true, 1).unwrap_err().kind, ErrorKind::NotFound);
}

#[test]
fn running_list_and_history_ordering() {
    let mut ex = MacroExecutor::new();
    let p1 = ex.spawn("one.ts".to_string(), 1).unwrap();
    let p2 = ex.spawn("two.ts".to_string(), 2).unwrap();
    let p3 = ex.spawn("three.ts".to_string(), 3).unwrap();
    assert_ne!(p1, p2);
    assert_ne!(p2, p3);
    let running = ex.get_task_list();
    let names: Vec<String> = running.iter().map(|t| t.name.clone()).collect();
    assert_eq!(names, vec!["one.ts".to_string(), "two.ts".to_string(), "three.ts".to_string()]);

    ex.finish(p2, true, 10).unwrap();
    ex.finish(p1, false, 11).unwrap();
    let running = ex.get_task_list();
    let names: Vec<String> = running.iter().map(|t| t.name.clone()).collect();
    assert_eq!(names, vec!["three.ts".to_string()]);

    // history is newest completion first
    let history = ex.get_history_list();
    let names: Vec<String> = history.iter().map(|h| h.task.name.clone()).collect();
    assert_eq!(names, vec!["one.ts".to_string(), "two.ts".to_string()]);
    assert_eq!(history[0].exit_status.time(), 11);
    assert_eq!(history[1].exit_status.time(), 10);
}

fn player_change_event(joined: Vec<String>, left: Vec<String>) -> Event {
    let list: Vec<MinecraftJavaPlayer> =
        joined.iter().map(|n| MinecraftJavaPlayer::new(n.clone(), None)).collect();
    Event {
        event_inner: EventInner::InstanceEvent(InstanceEvent {
            instance_uuid: "u".to_string(),
            instance_name: "srv".to_string(),
            instance_event_inner: InstanceEventKind::PlayerChange {
                player_list: list,
                players_joined: joined,
                players_left: left,
            },
        }),
        details: String::new(),
        snowflake: 0,
        caused_by: CausedBy::System,
    }
}

#[test]
fn event_queries_match_the_right_events() {
    let joined = player_change_event(vec!["Steve".to_string()], vec![]);
    match event_query_match(&EventQuery::PlayersJoined, &joined) {
        Some(EventQueryMatch::PlayersJoined { players }) => {
            assert_eq!(players, vec!["Steve".to_string()]);
        }
        other => panic!("unexpected: {:?}", other),
    }
    assert!(event_query_match(&EventQuery::PlayersLeft, &joined).is_none());
    assert!(matches!(
        event_query_match(&EventQuery::PlayersChanged, &joined),
        Some(EventQueryMatch::PlayersChanged { .. })
    ));
    assert!(event_query_match(&EventQuery::PlayerMessage, &joined).is_none());

    let left = player_change_event(vec![], vec!["Steve".to_string()]);
    assert!(event_query_match(&EventQuery::PlayersJoined, &left).is_none());
    assert!(matches!(
        event_query_match(&EventQuery::PlayersLeft, &left),
        Some(EventQueryMatch::PlayersLeft { .. })
    ));
}

#[test]
fn event_query_names_parse() {
    assert_eq!(EventQuery::parse("playerMessage"), Some(EventQuery::PlayerMessage));
    assert_eq!(EventQuery::parse("playersJoined"), Some(EventQuery::PlayersJoined));
    assert_eq!(EventQuery::parse("playersLeft"), Some(EventQuery::PlayersLeft));
    assert_eq!(EventQuery::parse("playersChanged"), Some(EventQuery::PlayersChanged));
    assert_eq!(EventQuery::parse("somethingElse"), None);
}
