use lodestone_core::backup::{
    backup_destination, backup_name, backup_name_from, BackupAction, BackupInstruction, BackupScheduler,
    SchedulerInput,
};
use lodestone_core::lifecycle::State;

fn tick(scheduler: &mut BackupScheduler, state: State) -> BackupAction {
    scheduler.step(SchedulerInput::Tick(state))
}

fn tell(scheduler: &mut BackupScheduler, instruction: BackupInstruction) -> BackupAction {
    scheduler.step(SchedulerInput::Instruction(instruction))
}

#[test]
fn backup_fires_every_period_while_running() {
    let mut scheduler = BackupScheduler::new(Some(3));
    let mut fired = Vec::new();
    for _ in 0..9 {
        fired.push(tick(&mut scheduler, State::Running) == BackupAction::Backup);
    }
    assert_eq!(fired, vec![false, false, true, false, false, true, false, false, true]);
}

#[test]
fn period_of_one_fires_on_every_tick() {
    let mut scheduler = BackupScheduler::new(Some(1));
    for _ in 0..5 {
        assert_eq!(tick(&mut scheduler, State::Running), BackupAction::Backup);
    }
}

#[test]
fn period_of_zero_fires_on_every_tick() {
    let mut scheduler = BackupScheduler::new(Some(0));
    for _ in 0..3 {
        assert_eq!(tick(&mut scheduler, State::Running), BackupAction::Backup);
    }
}

#[test]
fn no_period_means_no_automatic_backup() {
    let mut scheduler = BackupScheduler::new(None);
    for _ in 0..100 {
        assert_eq!(tick(&mut scheduler, State::Running), BackupAction::Idle);
    }
}

#[test]
fn ticks_count_only_while_running() {
    let mut scheduler = BackupScheduler::new(Some(2));
    assert_eq!(tick(&mut scheduler, State::Running), BackupAction::Idle);
    for state in vec![State::Stopped, State::Starting, State::Stopping] {
        for _ in 0..5 {
            assert_eq!(tick(&mut scheduler, state), BackupAction::Idle);
        }
    }
    assert_eq!(tick(&mut scheduler, State::Running), BackupAction::Backup);
}

#[test]
fn pause_silences_the_timer() {
    let mut scheduler = BackupScheduler::new(Some(2));
    assert_eq!(tell(&mut scheduler, BackupInstruction::Pause), BackupAction::Idle);
    assert!(scheduler.is_paused());
    for _ in 0..50 {
        assert_eq!(tick(&mut scheduler, State::Running), BackupAction::Idle);
    }
}

#[test]
fn resume_continues_the_count() {
    let mut scheduler = BackupScheduler::new(Some(3));
    assert_eq!(tick(&mut scheduler, State::Running), BackupAction::Idle);
    assert_eq!(tick(&mut scheduler, State::Running), BackupAction::Idle);
    tell(&mut scheduler, BackupInstruction::Pause);
    for _ in 0..10 {
        assert_eq!(tick(&mut scheduler, State::Running), BackupAction::Idle);
    }
    tell(&mut scheduler, BackupInstruction::Resume);
    assert!(!scheduler.is_paused());
    assert_eq!(tick(&mut scheduler, State::Running), BackupAction::Backup);
}

#[test]
fn second_pause_is_not_cumulative() {
    let mut scheduler = BackupScheduler::new(Some(1));
    tell(&mut scheduler, BackupInstruction::Pause);
    tell(&mut scheduler, BackupInstruction::Pause);
    tell(&mut scheduler, BackupInstruction::Resume);
    assert!(!scheduler.is_paused());
    assert_eq!(tick(&mut scheduler, State::Running), BackupAction::Backup);
}

#[test]
fn resume_without_pause_changes_nothing() {
    let mut scheduler = BackupScheduler::new(Some(2));
    assert_eq!(tell(&mut scheduler, BackupInstruction::Resume), BackupAction::Idle);
    assert!(!scheduler.is_paused());
    assert_eq!(tick(&mut scheduler, State::Running), BackupAction::Idle);
    assert_eq!(tick(&mut scheduler, State::Running), BackupAction::Backup);
}

#[test]
fn backup_now_fires_in_every_state() {
    for state in vec![State::Stopped, State::Starting, State::Running, State::Stopping] {
        let mut scheduler = BackupScheduler::new(None);
        tick(&mut scheduler, state);
        assert_eq!(tell(&mut scheduler, BackupInstruction::BackupNow), BackupAction::Backup);
    }
}

#[test]
fn backup_now_fires_while_paused() {
    let mut scheduler = BackupScheduler::new(Some(5));
    tell(&mut scheduler, BackupInstruction::Pause);
    assert_eq!(tell(&mut scheduler, BackupInstruction::BackupNow), BackupAction::Backup);
    assert!(scheduler.is_paused());
    assert_eq!(tick(&mut scheduler, State::Running), BackupAction::Idle);
}

#[test]
fn backup_now_restarts_the_count() {
    let mut scheduler = BackupScheduler::new(Some(3));
    tick(&mut scheduler, State::Running);
    tick(&mut scheduler, State::Running);
    assert_eq!(tell(&mut scheduler, BackupInstruction::BackupNow), BackupAction::Backup);
    assert_eq!(tick(&mut scheduler, State::Running), BackupAction::Idle);
    assert_eq!(tick(&mut scheduler, State::Running), BackupAction::Idle);
    assert_eq!(tick(&mut scheduler, State::Running), BackupAction::Backup);
}

#[test]
fn set_period_takes_effect_and_restarts_the_count() {
    let mut scheduler = BackupScheduler::new(Some(10));
    for _ in 0..9 {
        assert_eq!(tick(&mut scheduler, State::Running), BackupAction::Idle);
    }
    assert_eq!(tell(&mut scheduler, BackupInstruction::SetPeriod(Some(2))), BackupAction::Idle);
    assert_eq!(scheduler.period(), Some(2));
    assert_eq!(tick(&mut scheduler, State::Running), BackupAction::Idle);
    assert_eq!(tick(&mut scheduler, State::Running), BackupAction::Backup);
    tell(&mut scheduler, BackupInstruction::SetPeriod(None));
    assert_eq!(scheduler.period(), None);
    for _ in 0..20 {
        assert_eq!(tick(&mut scheduler, State::Running), BackupAction::Idle);
    }
}

#[test]
fn set_period_is_taken_while_paused() {
    let mut scheduler = BackupScheduler::new(None);
    tell(&mut scheduler, BackupInstruction::Pause);
    tell(&mut scheduler, BackupInstruction::SetPeriod(Some(1)));
    assert_eq!(scheduler.period(), Some(1));
    assert_eq!(tick(&mut scheduler, State::Running), BackupAction::Idle);
    tell(&mut scheduler, BackupInstruction::Resume);
    assert_eq!(tick(&mut scheduler, State::Running), BackupAction::Backup);
}

#[test]
fn closed_queue_ends_the_task() {
    let mut scheduler = BackupScheduler::new(Some(1));
    assert_eq!(scheduler.step(SchedulerInput::Closed), BackupAction::Exit);
}

#[test]
fn largest_period_does_not_overflow() {
    let mut scheduler = BackupScheduler::new(Some(u32::MAX));
    for _ in 0..1000 {
        assert_eq!(tick(&mut scheduler, State::Running), BackupAction::Idle);
    }
}

#[test]
fn backups_in_ticks_match_the_formula() {
    // with a period of 4 and a fresh counter, 10 ticks hold 10 / 4 = 2 backups
    let mut scheduler = BackupScheduler::new(Some(4));
    let mut backups = 0;
    for _ in 0..10 {
        if tick(&mut scheduler, State::Running) == BackupAction::Backup {
            backups += 1;
        }
    }
    assert_eq!(backups, 2);
}

#[test]
fn backup_name_renders_the_utc_time() {
    assert_eq!(backup_name(1431648000), Some("backup-2015-05-15_00-00-00".to_string()));
    assert_eq!(backup_name(0), Some("backup-1970-01-01_00-00-00".to_string()));
    assert_eq!(backup_name(1700000000), Some("backup-2023-11-14_22-13-20".to_string()));
}

#[test]
fn backup_name_agrees_with_chrono() {
    let timestamp = 1675184709;
    let text = chrono::DateTime::from_timestamp(timestamp, 0).unwrap().format("%Y-%m-%d_%H-%M-%S").to_string();
    assert_eq!(backup_name(timestamp), Some(format!("backup-{}", text)));
}

#[test]
fn backup_name_of_a_moment_without_a_date_is_none() {
    assert_eq!(backup_name(i64::MAX), None);
    assert_eq!(backup_name(i64::MIN), None);
}

#[test]
fn backup_name_from_prepends_the_word() {
    assert_eq!(backup_name_from("2023-01-31_17-05-09"), "backup-2023-01-31_17-05-09");
    assert_eq!(backup_name_from(""), "backup-");
}

#[test]
fn backup_destination_lies_under_the_backup_directory() {
    assert_eq!(backup_destination("backup-x"), "resources/worlds/backup/backup-x");
}
