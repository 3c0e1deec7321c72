use lodestone_core::backup::{BackupInstruction, BackupScheduler};

#[test]
fn periodic_backups_fire_on_the_period() {
    let mut s = BackupScheduler::new(Some(3));
    assert!(!s.tick(true));
    assert!(!s.tick(true));
    assert!(s.tick(true)); // the third counted second reaches the period
    assert!(!s.tick(true)); // and the count starts over
    assert!(!s.tick(true));
    assert!(s.tick(true));
}

#[test]
fn ticks_count_only_while_the_instance_runs() {
    let mut s = BackupScheduler::new(Some(2));
    assert!(!s.tick(false));
    assert!(!s.tick(false));
    assert!(!s.tick(true));
    assert!(s.tick(true));
}

#[test]
fn no_period_means_no_periodic_backups() {
    let mut s = BackupScheduler::new(None);
    for _ in 0..10 {
        assert!(!s.tick(true));
    }
    // an explicit request still fires
    assert!(s.handle_instruction(BackupInstruction::BackupNow));
}

#[test]
fn paused_scheduler_reacts_only_to_resume() {
    let mut s = BackupScheduler::new(Some(1));
    assert!(!s.handle_instruction(BackupInstruction::Pause));
    assert!(!s.tick(true));
    assert!(!s.handle_instruction(BackupInstruction::BackupNow));
    assert!(!s.handle_instruction(BackupInstruction::SetPeriod(Some(9))));
    assert!(!s.handle_instruction(BackupInstruction::Resume));
    assert!(s.tick(true)); // period 1 still in force: SetPeriod was ignored
}

#[test]
fn set_period_takes_effect_when_awake() {
    let mut s = BackupScheduler::new(Some(10));
    assert!(!s.handle_instruction(BackupInstruction::SetPeriod(Some(1))));
    assert!(s.tick(true));
}
