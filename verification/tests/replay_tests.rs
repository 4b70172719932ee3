use pg_index_import::pool::{PoolConfig, PoolState};
use pg_index_import::replay::{
    outcome_of, run_batch, run_failed, summarize, worker_step, ExecutionOutcome, ItemState,
    WorkItem, WorkerEvent, WorkerOutcome, WorkerStep,
};

fn item(label: &str, statement: &str) -> WorkItem {
    WorkItem {
        label: String::from(label),
        statement: String::from(statement),
    }
}

#[test]
fn outcome_of_no_error_is_success() {
    assert!(matches!(outcome_of(None), ExecutionOutcome::Succeeded));
}

#[test]
fn outcome_of_error_keeps_the_message() {
    match outcome_of(Some(String::from("syntax error"))) {
        ExecutionOutcome::Failed(m) => assert_eq!(m, "syntax error"),
        ExecutionOutcome::Succeeded => panic!("expected a failure"),
    }
}

#[test]
fn one_malformed_statement_fails_alone() {
    // A batch of K = 4 statements of which exactly one is malformed:
    // K - 1 successes, 1 failure, and every item terminal.
    let items = vec![
        item("a.sql", "CREATE INDEX a ON t (x);"),
        item("b.sql", "CREATE INDEX b ON t (y);"),
        item("bad.sql", "CREATE INDEKS oops"),
        item("c.sql", "CREATE INDEX c ON t (z);"),
    ];
    let verdicts = vec![
        None,
        None,
        Some(String::from("syntax error at or near \"INDEKS\"")),
        None,
    ];
    let states = run_batch(&items, &verdicts);
    assert_eq!(states.len(), 4);
    for state in &states {
        assert!(matches!(
            state,
            ItemState::Succeeded | ItemState::Failed(_)
        ));
    }
    assert!(matches!(states[0], ItemState::Succeeded));
    assert!(matches!(states[1], ItemState::Succeeded));
    match &states[2] {
        ItemState::Failed(m) => assert_eq!(m, "syntax error at or near \"INDEKS\""),
        _ => panic!("expected a failure"),
    }
    assert!(matches!(states[3], ItemState::Succeeded));

    let outcomes: Vec<ExecutionOutcome> = verdicts.into_iter().map(outcome_of).collect();
    let summary = summarize(&outcomes);
    assert_eq!(summary.succeeded, 3);
    assert_eq!(summary.failed, 1);
}

#[test]
fn summarize_counts_all_success() {
    let outcomes = vec![ExecutionOutcome::Succeeded, ExecutionOutcome::Succeeded];
    let summary = summarize(&outcomes);
    assert_eq!(summary.succeeded, 2);
    assert_eq!(summary.failed, 0);
}

#[test]
fn summarize_of_empty_batch_is_all_zero() {
    let outcomes: Vec<ExecutionOutcome> = Vec::new();
    let summary = summarize(&outcomes);
    assert_eq!(summary.succeeded, 0);
    assert_eq!(summary.failed, 0);
}

#[test]
fn worker_exits_normally_on_a_drained_queue() {
    match worker_step(WorkerEvent::QueueClosed) {
        WorkerStep::Exit(WorkerOutcome::Completed) => {}
        _ => panic!("expected a normal exit"),
    }
}

#[test]
fn worker_exits_with_a_worker_level_failure_on_acquire_timeout() {
    match worker_step(WorkerEvent::AcquireFailed(String::from("pool timed out"))) {
        WorkerStep::Exit(WorkerOutcome::AcquireTimeout(m)) => assert_eq!(m, "pool timed out"),
        _ => panic!("expected a worker-level failure"),
    }
}

#[test]
fn worker_continues_past_a_failed_statement() {
    match worker_step(WorkerEvent::StatementDone(Some(String::from("bad DDL")))) {
        WorkerStep::Record(ExecutionOutcome::Failed(m)) => assert_eq!(m, "bad DDL"),
        _ => panic!("a statement failure must be recorded, not end the worker"),
    }
    match worker_step(WorkerEvent::StatementDone(None)) {
        WorkerStep::Record(ExecutionOutcome::Succeeded) => {}
        _ => panic!("a success must be recorded"),
    }
}

#[test]
fn statement_failures_do_not_fail_the_run() {
    let workers = vec![WorkerOutcome::Completed, WorkerOutcome::Completed];
    assert!(!run_failed(&workers));
}

#[test]
fn one_worker_acquire_timeout_fails_the_run() {
    let workers = vec![
        WorkerOutcome::Completed,
        WorkerOutcome::AcquireTimeout(String::from("connection pool timed out")),
        WorkerOutcome::Completed,
    ];
    assert!(run_failed(&workers));
}

#[test]
fn pool_config_is_sized_to_the_worker_count() {
    let config = PoolConfig::for_workers(7, 24);
    assert_eq!(config.max_connections, 7);
    assert_eq!(config.acquisition_timeout_hours, 24);
    assert_eq!(config.max_lifetime_hours, 48);
    assert_eq!(config.idle_timeout_hours, 24);
}

#[test]
fn pool_never_hands_out_more_than_capacity() {
    // Worker count W = 2: two acquisitions succeed, a third is refused,
    // and after a release a new acquisition succeeds again.
    let config = PoolConfig::for_workers(2, 1);
    let mut pool = PoolState::new(&config);
    assert!(pool.try_acquire());
    assert!(pool.try_acquire());
    assert_eq!(pool.checked_out, 2);
    assert!(!pool.try_acquire());
    assert_eq!(pool.checked_out, 2);
    pool.release();
    assert_eq!(pool.checked_out, 1);
    assert!(pool.try_acquire());
    assert!(!pool.try_acquire());
}
