use locations::codec::FetchTilesError;
use locations::retry::{RetryPolicy, WorkerError};
use locations::status::{CounterType, ProgramStatus};
use locations::tiles::Tile;

#[test]
fn test_counters_start_at_zero() {
    let mut s = ProgramStatus::new();
    assert_eq!(s.get_and_reset(CounterType::Request), 0);
    assert_eq!(s.get_and_reset(CounterType::Ratelimit), 0);
    assert_eq!(s.get_and_reset(CounterType::Error), 0);
    assert_eq!(s.get(CounterType::Found), 0);
    assert_eq!(s.get(CounterType::Failed), 0);
    let t = s.get_last_input();
    assert_eq!((t.x, t.y, t.zoom), (0, 0, 0));
}

#[test]
fn test_interval_counters_reset_on_read() {
    let mut s = ProgramStatus::new();
    s.increment(CounterType::Request);
    s.increment(CounterType::Request);
    s.increment_count(CounterType::Error, 5);
    assert_eq!(s.get_and_reset(CounterType::Request), 2);
    assert_eq!(s.get_and_reset(CounterType::Request), 0);
    assert_eq!(s.get_and_reset(CounterType::Error), 5);
    assert_eq!(s.get_and_reset(CounterType::Error), 0);
}

#[test]
fn test_cumulative_counters_survive_sampling() {
    let mut s = ProgramStatus::new();
    s.increment_count(CounterType::Found, 7);
    s.increment(CounterType::Failed);
    s.increment(CounterType::Request);
    s.update_last_tile(Tile { x: 4, y: 5, zoom: 6 });
    let m = s.get_metrics();
    assert_eq!(m.requests, 1);
    assert_eq!(m.ratelimited, 0);
    assert_eq!(m.errors, 0);
    assert_eq!(m.found, 7);
    assert_eq!(m.failed, 1);
    assert_eq!((m.last_tile.x, m.last_tile.y, m.last_tile.zoom), (4, 5, 6));
    // Sampling reset the interval counters, not the cumulative ones.
    let m2 = s.get_metrics();
    assert_eq!(m2.requests, 0);
    assert_eq!(m2.found, 7);
    assert_eq!(m2.failed, 1);
}

#[test]
fn test_retry_always_unexpected_status() {
    // A fetch that always answers with an unexpected status: exactly three
    // attempts, three request increments, no error increment, one failed
    // increment, and the terminal error.
    let mut status = ProgramStatus::new();
    let mut policy = RetryPolicy::new(3);
    let mut attempts = 0;
    while policy.can_attempt() {
        policy.begin_attempt(&mut status);
        attempts += 1;
        let outcome: Result<Vec<String>, FetchTilesError> =
            Err(FetchTilesError::UnexpectedStatusCode(503));
        match outcome {
            Ok(_) => panic!("stub never succeeds"),
            Err(e) => policy.record_failure(&e, &mut status),
        }
    }
    let terminal = policy.give_up(&mut status);
    assert_eq!(attempts, 3);
    assert_eq!(terminal, WorkerError::MaxRetriesExceeded);
    assert_eq!(status.get_and_reset(CounterType::Request), 3);
    assert_eq!(status.get_and_reset(CounterType::Error), 0);
    assert_eq!(status.get(CounterType::Failed), 1);
    assert_eq!(status.get(CounterType::Found), 0);
}

#[test]
fn test_retry_counts_other_errors() {
    let mut status = ProgramStatus::new();
    let mut policy = RetryPolicy::new(2);
    while policy.can_attempt() {
        policy.begin_attempt(&mut status);
        policy.record_failure(&FetchTilesError::ParseError, &mut status);
    }
    let terminal = policy.give_up(&mut status);
    assert_eq!(terminal, WorkerError::MaxRetriesExceeded);
    assert_eq!(status.get_and_reset(CounterType::Request), 2);
    assert_eq!(status.get_and_reset(CounterType::Error), 2);
    assert_eq!(status.get(CounterType::Failed), 1);
}

#[test]
fn test_retry_stops_on_success() {
    let mut status = ProgramStatus::new();
    let mut policy = RetryPolicy::new(5);
    let mut delivered: Option<Vec<String>> = None;
    // Fails once with a transport error, then succeeds.
    let mut outcomes = vec![
        Ok(vec!["ff".to_string()]),
        Err(FetchTilesError::HttpError),
    ];
    while policy.can_attempt() {
        policy.begin_attempt(&mut status);
        match outcomes.pop().unwrap() {
            Ok(ids) => {
                delivered = Some(ids);
                break;
            },
            Err(e) => policy.record_failure(&e, &mut status),
        }
    }
    assert_eq!(delivered.unwrap(), vec!["ff".to_string()]);
    assert_eq!(status.get_and_reset(CounterType::Request), 2);
    assert_eq!(status.get_and_reset(CounterType::Error), 1);
    assert_eq!(status.get(CounterType::Failed), 0);
}
