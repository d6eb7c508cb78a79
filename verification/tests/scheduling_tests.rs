use scrapper::error::ScrapperError;
use scrapper::orchestrator::{ItemPlan, TaskOutcome, handle_task_result, run_schedule};
use scrapper::retry::{RetryQueue, backoff_delay_ms};
use scrapper::task_pool::TaskPool;
use scrapper::types::ScrapingStats;

#[test]
fn pool_spawns_below_ceiling() {
    let mut pool: TaskPool<u32> = TaskPool::new(2);
    assert_eq!(pool.submit_or_drain(10), None);
    assert_eq!(pool.submit_or_drain(11), None);
    assert_eq!(pool.len(), 2);
    assert!(!pool.is_empty());
}

#[test]
fn pool_never_exceeds_ceiling() {
    let mut pool: TaskPool<u32> = TaskPool::new(2);
    assert_eq!(pool.submit_or_drain(10), None);
    assert_eq!(pool.submit_or_drain(11), None);
    // At the ceiling the oldest slot is freed first, then the new item is
    // admitted: the in-flight count stays at the ceiling.
    assert_eq!(pool.submit_or_drain(12), Some(10));
    assert_eq!(pool.len(), 2);
    assert_eq!(pool.submit_or_drain(13), Some(11));
    assert_eq!(pool.len(), 2);
}

#[test]
fn pool_drain_returns_everything() {
    let mut pool: TaskPool<u32> = TaskPool::new(3);
    pool.submit_or_drain(1);
    pool.submit_or_drain(2);
    pool.submit_or_drain(3);
    let drained = pool.drain_all();
    assert_eq!(drained, vec![1, 2, 3]);
    assert_eq!(pool.len(), 0);
    assert!(pool.is_empty());
}

#[test]
fn retry_queue_is_last_in_first_out() {
    let mut queue: RetryQueue<u32> = RetryQueue::new(3);
    assert_eq!(queue.pop_one(), None);
    queue.push(7, 0);
    queue.push(8, 1);
    assert_eq!(queue.len(), 2);
    assert_eq!(queue.pop_one(), Some((8, 1)));
    assert_eq!(queue.pop_one(), Some((7, 0)));
    assert!(queue.is_empty());
}

#[test]
fn backoff_grows_exponentially() {
    assert_eq!(backoff_delay_ms(250, 0), 250);
    assert_eq!(backoff_delay_ms(250, 1), 500);
    assert_eq!(backoff_delay_ms(250, 2), 1000);
    assert_eq!(backoff_delay_ms(100, 3), 800);
    assert!(backoff_delay_ms(250, 1) < backoff_delay_ms(250, 2));
}

fn fresh_stats(total: usize) -> ScrapingStats {
    let mut stats = ScrapingStats::default();
    stats.total = total;
    stats
}

fn recoverable_error() -> ScrapperError {
    ScrapperError::http("https://example.com", Some(429), "rate limited")
}

fn permanent_error() -> ScrapperError {
    ScrapperError::http("https://example.com", Some(404), "not found")
}

#[test]
fn task_result_routing() {
    let mut stats = fresh_stats(5);
    let mut retries: RetryQueue<usize> = RetryQueue::new(3);

    handle_task_result(&TaskOutcome::Success, 0, &mut stats, &mut retries);
    assert_eq!(stats.success_count, 1);
    assert_eq!(retries.len(), 0);

    handle_task_result(
        &TaskOutcome::Failed(recoverable_error()),
        1,
        &mut stats,
        &mut retries,
    );
    assert_eq!(stats.recoverable_errors, 1);
    assert_eq!(stats.error_count, 1);
    assert_eq!(retries.pop_one(), Some((1, 0)));

    handle_task_result(
        &TaskOutcome::Failed(permanent_error()),
        2,
        &mut stats,
        &mut retries,
    );
    assert_eq!(stats.permanent_errors, 1);
    assert_eq!(stats.error_count, 2);
    assert_eq!(retries.len(), 0);

    handle_task_result(
        &TaskOutcome::Aborted("task fault".to_string()),
        3,
        &mut stats,
        &mut retries,
    );
    assert_eq!(stats.permanent_errors, 2);
    assert_eq!(retries.len(), 0);
}

fn recoverable_failure() -> TaskOutcome {
    TaskOutcome::Failed(recoverable_error())
}

fn plan(exists: bool, attempts: Vec<TaskOutcome>) -> ItemPlan {
    ItemPlan { exists, attempts }
}

fn padded(mut attempts: Vec<TaskOutcome>, to_len: usize) -> Vec<TaskOutcome> {
    while attempts.len() < to_len {
        attempts.push(TaskOutcome::Success);
    }
    attempts
}

#[test]
fn run_accounting_identity() {
    let max_retries = 3;
    let plans = vec![
        plan(true, padded(vec![], 4)),
        plan(false, padded(vec![TaskOutcome::Success], 4)),
        plan(false, padded(vec![TaskOutcome::Failed(permanent_error())], 4)),
        plan(
            false,
            padded(
                vec![
                    TaskOutcome::Failed(recoverable_error()),
                    TaskOutcome::Success,
                ],
                4,
            ),
        ),
        plan(false, padded(vec![TaskOutcome::Aborted("fault".to_string())], 4)),
    ];
    let stats = run_schedule(&plans, 2, max_retries);
    assert_eq!(stats.total, 5);
    assert_eq!(stats.existing, 1);
    assert_eq!(stats.success_count, 2);
    assert_eq!(stats.permanent_errors, 2);
    assert_eq!(stats.recoverable_errors, 1);
    assert_eq!(stats.error_count, 3);
    assert_eq!(
        stats.success_count + stats.permanent_errors + stats.existing,
        stats.total
    );
}

#[test]
fn skipped_item_is_never_dispatched() {
    // The item's plan holds only failures; were it ever dispatched, an
    // error counter would move. Its output already exists, so it is
    // skipped exactly once and nothing else happens.
    let record_12 = plan(
        true,
        vec![
            TaskOutcome::Failed(permanent_error()),
            TaskOutcome::Failed(permanent_error()),
            TaskOutcome::Failed(permanent_error()),
            TaskOutcome::Failed(permanent_error()),
        ],
    );
    let stats = run_schedule(&vec![record_12], 4, 3);
    assert_eq!(stats.existing, 1);
    assert_eq!(stats.total, 1);
    assert_eq!(stats.success_count, 0);
    assert_eq!(stats.error_count, 0);
    assert_eq!(stats.permanent_errors, 0);
}

#[test]
fn recoverable_item_exhausts_retries_to_permanent() {
    let always_recoverable = vec![
        TaskOutcome::Failed(recoverable_error()),
        TaskOutcome::Failed(recoverable_error()),
        TaskOutcome::Failed(recoverable_error()),
        TaskOutcome::Failed(recoverable_error()),
    ];
    let stats = run_schedule(&vec![plan(false, always_recoverable)], 1, 3);
    assert_eq!(stats.total, 1);
    assert_eq!(stats.existing, 0);
    assert_eq!(stats.success_count, 0);
    assert_eq!(stats.permanent_errors, 1);
    assert_eq!(stats.recoverable_errors, 1);
    assert_eq!(
        stats.success_count + stats.permanent_errors + stats.existing,
        stats.total
    );
}

#[test]
fn recoverable_item_succeeds_on_second_retry() {
    let attempts = padded(
        vec![
            TaskOutcome::Failed(recoverable_error()),
            TaskOutcome::Failed(recoverable_error()),
            TaskOutcome::Success,
        ],
        4,
    );
    let stats = run_schedule(&vec![plan(false, attempts)], 1, 3);
    assert_eq!(stats.success_count, 1);
    assert_eq!(stats.permanent_errors, 0);
    assert_eq!(
        stats.success_count + stats.permanent_errors + stats.existing,
        stats.total
    );
}

#[test]
fn large_mixed_run_resolves_every_record() {
    let max_retries = 3;
    let mut plans = Vec::new();
    for i in 0..40usize {
        let attempts = match i % 4 {
            0 => padded(vec![TaskOutcome::Success], 4),
            1 => padded(vec![recoverable_failure(), TaskOutcome::Success], 4),
            2 => padded(vec![TaskOutcome::Failed(permanent_error())], 4),
            _ => padded(vec![], 4),
        };
        plans.push(plan(i % 4 == 3, attempts));
    }
    let stats = run_schedule(&plans, 5, max_retries);
    assert_eq!(stats.total, 40);
    assert_eq!(stats.existing, 10);
    assert_eq!(stats.success_count, 20);
    assert_eq!(stats.permanent_errors, 10);
    assert_eq!(
        stats.success_count + stats.permanent_errors + stats.existing,
        stats.total
    );
}
