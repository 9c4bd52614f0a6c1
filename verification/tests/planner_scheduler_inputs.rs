use henry::clock::now_millis;
use henry::reactive::engine::{ReactiveConfig, ReactiveEngine};
use henry::reactive::types::{Anomaly, SystemEvent};
use henry::text::{truncatable_exec, truncate_str};
use henry::agent::planner::{extract_json_array, json_slice_backwards_exec};
use henry::agent::task::TaskQueue;
use henry::agent::types::{Task, TaskStatus};
use henry::maint::backup::BackupManager;
use henry::maint::manager::JobPlan;
use henry::maint::scheduler::{advance_due, due_jobs, first_fire_times, next_fire_at, MaintScheduler, SchedulerError};
use henry::maint::types::{BackupInfo, JobType};

#[test]
fn provided_input_replaces_an_earlier_value() {
    let mut q = TaskQueue::new();
    let id = q.submit(Task::create("t-1".to_string(), "T".to_string(), "D".to_string(), "me".to_string(), 0));
    q.set_status(&id, TaskStatus::AwaitingInput).unwrap();
    q.provide_input(&id, "answer".to_string(), "yes".to_string()).unwrap();
    q.set_status(&id, TaskStatus::AwaitingInput).unwrap();
    q.provide_input(&id, "answer".to_string(), "no".to_string()).unwrap();
    q.set_status(&id, TaskStatus::AwaitingInput).unwrap();
    q.provide_input(&id, "other".to_string(), "x".to_string()).unwrap();
    let t = q.get(&id).unwrap();
    assert_eq!(t.context.user_inputs, vec![("answer".to_string(), "no".to_string()), ("other".to_string(), "x".to_string())]);
    assert_eq!(t.status, TaskStatus::Executing);
}

fn info(name: &str, size: u64) -> BackupInfo {
    BackupInfo { name: name.to_string(), path: format!("/b/{}", name), created_at: 0, size, compressed: true }
}

#[test]
fn backup_total_counts_only_archives() {
    let list = vec![
        info("henry_backup_20240101_000000.tar.gz", 100),
        info("notes.txt", 5000),
        info("henry_backup_20240102_000000.tar.gz", 50),
        info("henry_backup_x.zip", 7),
    ];
    assert_eq!(BackupManager::total_backup_size(&list), 150);
}

#[test]
fn invalid_cron_is_refused() {
    let mut s = MaintScheduler::new();
    match s.add_job("j".to_string(), "bad", "not a cron", JobType::Backup) {
        Err(SchedulerError::InvalidCron(_)) => {}
        other => panic!("unexpected {:?}", other),
    }
    assert!(s.list_jobs().is_empty());
    assert!(s.add_job("j".to_string(), "good", "0 0 * * * *", JobType::Backup).is_ok());
    assert_eq!(s.list_jobs().len(), 1);
}

#[test]
fn scheduler_start_stops_at_a_bad_expression() {
    let plans = vec![
        JobPlan { name: "backup".to_string(), cron: "0 0 3 * * *".to_string(), job_type: JobType::Backup },
        JobPlan { name: "broken".to_string(), cron: "every day".to_string(), job_type: JobType::LogRotation },
    ];
    let mut s = MaintScheduler::new();
    assert!(matches!(s.start_with(&plans), Err(SchedulerError::InvalidCron(_))));
    assert!(!s.is_running());
    assert_eq!(s.list_jobs().len(), 1);
    let mut t = MaintScheduler::new();
    let good = vec![JobPlan { name: "backup".to_string(), cron: "0 0 3 * * *".to_string(), job_type: JobType::Backup }];
    assert!(t.start_with(&good).is_ok());
    assert!(t.is_running());
}

#[test]
fn due_jobs_and_next_firing() {
    let next = vec![Some(10), None, Some(5), Some(20)];
    assert_eq!(due_jobs(&next, 10), vec![0, 2]);
    assert_eq!(next_fire_at("0 0 * * * *", 1_704_069_000_000), Some(1_704_070_800_000));
    assert_eq!(next_fire_at("0 0 * * * *", 8_210_266_876_799_999), None);
}

#[test]
fn backwards_json_slice_is_detected() {
    assert!(json_slice_backwards_exec("] then ["));
    assert!(!json_slice_backwards_exec("[1, 2]"));
    assert!(!json_slice_backwards_exec("no array"));
    assert!(!json_slice_backwards_exec("```json\n[1]\n``` ] x ["));
    assert_eq!(extract_json_array("x [1] y"), Some("[1]".to_string()));
}

#[test]
fn truncation_check_matches_the_cut() {
    assert!(truncatable_exec("short", 50));
    let long = "a".repeat(60);
    assert!(truncatable_exec(&long, 50));
    assert_eq!(truncate_str(&long, 50).len(), 50);
    // 46 ASCII bytes then a two-byte character spanning bytes 46..48: the cut at 47 splits it.
    let split = format!("{}é{}", "a".repeat(46), "b".repeat(10));
    assert!(!truncatable_exec(&split, 50));
    let whole = format!("{}é{}", "a".repeat(45), "b".repeat(10));
    assert!(truncatable_exec(&whole, 50));
}

#[test]
fn reactive_engine_tables_start_unique_and_empty() {
    let e = ReactiveEngine::new(ReactiveConfig::default());
    assert!(e.get_anomalies().is_empty());
    assert!(e.get_actions().is_empty());
}

#[test]
fn handled_anomalies_are_stored_with_their_actions() {
    let mut e = ReactiveEngine::new(ReactiveConfig::default());
    let a = Anomaly::new(SystemEvent::ContainerCrashed { name: "web".to_string(), exit_code: Some(1) });
    let id = a.id.clone();
    e.handle_anomalies_at(vec![a], now_millis());
    let anomalies = e.get_anomalies();
    assert_eq!(anomalies.len(), 1);
    assert_eq!(anomalies[0].id, id);
    let actions = e.get_actions();
    assert!(!actions.is_empty());
    assert!(actions.iter().all(|x| x.anomaly_id == id));
    assert_eq!(e.status().anomalies_detected, 1);
}

#[test]
fn module_metric_is_replaced() {
    use_metric();
}

fn use_metric() {
    let m = henry::health::ModuleHealth::new("server").with_metric("containers", "3").with_metric("uptime", "5").with_metric("containers", "4");
    assert_eq!(m.metrics, vec![("containers".to_string(), "4".to_string()), ("uptime".to_string(), "5".to_string())]);
}

#[test]
fn due_jobs_move_to_their_next_firing() {
    let plans = vec![
        JobPlan { name: "a".to_string(), cron: "0 0 * * * *".to_string(), job_type: JobType::Backup },
        JobPlan { name: "b".to_string(), cron: "0 30 * * * *".to_string(), job_type: JobType::LogRotation },
    ];
    // 2024-01-01 00:30:00 UTC
    let start = 1_704_069_000_000;
    let mut next = first_fire_times(&plans, start);
    assert_eq!(next, vec![Some(1_704_070_800_000), Some(1_704_072_600_000)]);
    let now = 1_704_070_800_000;
    let due = advance_due(&plans, &mut next, now);
    assert_eq!(due, vec![0]);
    assert_eq!(next, vec![Some(1_704_074_400_000), Some(1_704_072_600_000)]);
}
