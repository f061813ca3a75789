use async_repeater::schedule::InsertError;
use async_repeater::timer::MAX_TIMEOUT_NANOS;
use async_repeater::{Delay, Repeater, RepeaterEntry};
use std::collections::BTreeSet;
use std::future::poll_fn;
use std::task::{Context, Poll, Waker};
use std::time::{Duration, SystemTime};
use tokio::runtime::{Builder, Runtime};
use tokio::time::{advance, timeout, Instant};

#[derive(Debug, Clone)]
struct Job {
    id: u64,
    every: Duration,
    first: Delay,
    label: &'static str,
}

impl Job {
    fn new(id: u64, every: Duration) -> Self {
        Job { id, every, first: Delay::NoDelay, label: "" }
    }

    fn delayed(id: u64, every: Duration, first: Delay) -> Self {
        Job { id, every, first, label: "" }
    }

    fn labelled(id: u64, every: Duration, first: Delay, label: &'static str) -> Self {
        Job { id, every, first, label }
    }
}

impl RepeaterEntry for Job {
    fn interval(&self) -> Duration {
        self.every
    }

    fn delay(&self) -> Delay {
        self.first
    }

    fn key(&self) -> u64 {
        self.id
    }

    fn reset_delay(&mut self) {
        self.first = Delay::NoDelay;
    }
}

const SECOND: Duration = Duration::from_secs(1);
const SLACK: Duration = Duration::from_millis(2);

fn paused() -> Runtime {
    Builder::new_current_thread().enable_time().start_paused(true).build().unwrap()
}

fn poll_once(repeater: &mut Repeater<Job>) -> Option<Job> {
    let mut cx = Context::from_waker(Waker::noop());
    repeater.poll_next(&mut cx)
}

async fn next_due(repeater: &mut Repeater<Job>) -> Job {
    poll_fn(|cx| match repeater.poll_next(cx) {
        Some(job) => Poll::Ready(job),
        None => Poll::Pending,
    })
    .await
}

async fn next_taken(repeater: &mut Repeater<Job>) -> Job {
    poll_fn(|cx| match repeater.poll_take(cx) {
        Some(job) => Poll::Ready(job),
        None => Poll::Pending,
    })
    .await
}

fn close_to(elapsed: Duration, expected: Duration) -> bool {
    elapsed >= expected && elapsed <= expected + SLACK
}

#[test]
fn new_repeater_is_empty() {
    paused().block_on(async {
        let mut repeater = Repeater::<Job>::with_capacity(25);
        assert_eq!(repeater.len(), 0);
        assert!(repeater.is_empty());
        assert!(repeater.capacity() >= 25);
        assert!(poll_once(&mut repeater).is_none());
    });
}

#[test]
fn repeater_grows_beyond_its_capacity() {
    paused().block_on(async {
        let mut repeater = Repeater::with_capacity(2);
        for id in 0..50 {
            assert_eq!(repeater.insert(Job::delayed(id, SECOND, Delay::Relative(SECOND))), Ok(()));
        }
        assert_eq!(repeater.len(), 50);
        assert!(repeater.capacity() >= 50);
    });
}

#[test]
fn len_counts_distinct_keys() {
    paused().block_on(async {
        let mut repeater = Repeater::with_capacity(4);
        for (n, id) in [5u64, 0, 9, u64::MAX].into_iter().enumerate() {
            assert_eq!(repeater.insert(Job::delayed(id, SECOND, Delay::Relative(SECOND))), Ok(()));
            assert_eq!(repeater.len(), n + 1);
            assert!(!repeater.is_empty());
        }
        repeater.remove(&0);
        assert_eq!(repeater.len(), 3);
        repeater.remove(&0);
        assert_eq!(repeater.len(), 3);
        repeater.remove(&u64::MAX);
        assert_eq!(repeater.len(), 2);
    });
}

#[test]
fn len_follows_a_model_of_the_keys() {
    paused().block_on(async {
        let mut repeater = Repeater::with_capacity(0);
        let mut model = BTreeSet::new();
        let mut state = 0x2545_f491_4f6c_dd1du64;
        for step in 0..2_000 {
            state = state.wrapping_mul(6_364_136_223_846_793_005).wrapping_add(1_442_695_040_888_963_407);
            let key = (state >> 33) % 24;
            match (state >> 60) % 8 {
                0..=3 => {
                    let wait = Delay::Relative((1 + (state >> 20) % 50) as u32 * SECOND);
                    assert_eq!(repeater.insert(Job::delayed(key, SECOND, wait)), Ok(()));
                    model.insert(key);
                }
                4..=6 => {
                    repeater.remove(&key);
                    model.remove(&key);
                }
                _ => {
                    if step % 7 == 0 {
                        repeater.clear();
                        model.clear();
                    }
                }
            }
            assert_eq!(repeater.len(), model.len());
            assert_eq!(repeater.is_empty(), model.is_empty());
            assert!(repeater.capacity() >= model.len());
        }
        assert!(!model.is_empty());
        let mut due = BTreeSet::new();
        for _ in 0..model.len() {
            due.insert(next_taken(&mut repeater).await.id);
        }
        assert_eq!(due, model);
        assert!(repeater.is_empty());
    });
}

#[test]
fn same_key_replaces_the_entry() {
    paused().block_on(async {
        let mut repeater = Repeater::with_capacity(4);
        let wait = Delay::Relative(SECOND);
        repeater.insert(Job::labelled(1, SECOND, wait, "old")).unwrap();
        repeater.insert(Job::labelled(2, SECOND, Delay::Relative(3 * SECOND), "other")).unwrap();
        repeater.insert(Job::labelled(1, 2 * SECOND, wait, "new")).unwrap();
        assert_eq!(repeater.len(), 2);
        let job = next_due(&mut repeater).await;
        assert_eq!((job.id, job.label, job.every), (1, "new", 2 * SECOND));
        assert_eq!(repeater.len(), 2);
    });
}

#[test]
fn same_key_restarts_the_timer() {
    paused().block_on(async {
        let start = Instant::now();
        let mut repeater = Repeater::with_capacity(4);
        repeater.insert(Job::delayed(1, 60 * SECOND, Delay::Relative(5 * SECOND))).unwrap();
        advance(3 * SECOND).await;
        assert!(poll_once(&mut repeater).is_none());
        repeater.insert(Job::delayed(1, 60 * SECOND, Delay::Relative(5 * SECOND))).unwrap();
        advance(3 * SECOND).await;
        assert!(poll_once(&mut repeater).is_none());
        let job = next_due(&mut repeater).await;
        assert_eq!(job.id, 1);
        assert!(close_to(start.elapsed(), 8 * SECOND));
        assert_eq!(repeater.len(), 1);
    });
}

#[test]
fn same_key_can_shorten_the_wait() {
    paused().block_on(async {
        let start = Instant::now();
        let mut repeater = Repeater::with_capacity(4);
        repeater.insert(Job::delayed(1, 60 * SECOND, Delay::Relative(50 * SECOND))).unwrap();
        repeater.insert(Job::new(1, 60 * SECOND)).unwrap();
        let job = next_due(&mut repeater).await;
        assert_eq!(job.id, 1);
        assert!(close_to(start.elapsed(), Duration::ZERO));
    });
}

#[test]
fn entry_without_delay_is_due_at_once() {
    paused().block_on(async {
        let start = Instant::now();
        let mut repeater = Repeater::with_capacity(4);
        repeater.insert(Job::new(3, 5 * SECOND)).unwrap();
        assert_eq!(repeater.len(), 1);
        let job = next_due(&mut repeater).await;
        assert_eq!(job.id, 3);
        assert!(close_to(start.elapsed(), Duration::ZERO));
        let job = next_due(&mut repeater).await;
        assert_eq!(job.id, 3);
        assert!(close_to(start.elapsed(), 5 * SECOND));
    });
}

#[test]
fn relative_delay_then_interval() {
    paused().block_on(async {
        let start = Instant::now();
        let mut repeater = Repeater::with_capacity(1);
        repeater.insert(Job::delayed(65, SECOND, Delay::Relative(3 * SECOND))).unwrap();
        advance(Duration::from_millis(2_900)).await;
        assert!(poll_once(&mut repeater).is_none());
        for n in 3..10 {
            let job = next_due(&mut repeater).await;
            assert_eq!(job.id, 65);
            assert!(close_to(start.elapsed(), n * SECOND));
        }
        assert_eq!(repeater.len(), 1);
    });
}

#[test]
fn absolute_delay_in_the_past_uses_the_interval() {
    paused().block_on(async {
        let start = Instant::now();
        let mut repeater = Repeater::with_capacity(1);
        let passed = SystemTime::now() - 10 * SECOND;
        repeater.insert(Job::delayed(1, 2 * SECOND, Delay::Absolute(passed))).unwrap();
        assert!(poll_once(&mut repeater).is_none());
        advance(Duration::from_millis(1_900)).await;
        assert!(poll_once(&mut repeater).is_none());
        let job = next_due(&mut repeater).await;
        assert_eq!(job.id, 1);
        assert!(close_to(start.elapsed(), 2 * SECOND));
        let job = next_due(&mut repeater).await;
        assert_eq!(job.id, 1);
        assert!(close_to(start.elapsed(), 4 * SECOND));
    });
}

#[test]
fn absolute_delay_ahead_waits_until_then() {
    paused().block_on(async {
        let start = Instant::now();
        let mut repeater = Repeater::with_capacity(1);
        let ahead = SystemTime::now() + 30 * SECOND;
        repeater.insert(Job::delayed(1, SECOND, Delay::Absolute(ahead))).unwrap();
        advance(29 * SECOND).await;
        assert!(poll_once(&mut repeater).is_none());
        let job = next_due(&mut repeater).await;
        assert_eq!(job.id, 1);
        let elapsed = start.elapsed();
        assert!(elapsed > 29 * SECOND && elapsed <= 30 * SECOND + SLACK);
    });
}

#[test]
fn removed_key_is_not_delivered() {
    paused().block_on(async {
        let start = Instant::now();
        let mut repeater = Repeater::with_capacity(4);
        repeater.insert(Job::delayed(1, SECOND, Delay::Relative(SECOND))).unwrap();
        repeater.insert(Job::delayed(2, 10 * SECOND, Delay::Relative(4 * SECOND))).unwrap();
        repeater.remove(&1);
        assert_eq!(repeater.len(), 1);
        let job = next_due(&mut repeater).await;
        assert_eq!(job.id, 2);
        assert!(close_to(start.elapsed(), 4 * SECOND));
        repeater.remove(&2);
        assert!(repeater.is_empty());
        assert!(timeout(3_600 * SECOND, next_due(&mut repeater)).await.is_err());
        repeater.insert(Job::delayed(1, SECOND, Delay::Relative(SECOND))).unwrap();
        let job = next_due(&mut repeater).await;
        assert_eq!(job.id, 1);
    });
}

#[test]
fn removing_a_due_entry_cancels_it() {
    paused().block_on(async {
        let mut repeater = Repeater::with_capacity(4);
        repeater.insert(Job::new(1, SECOND)).unwrap();
        advance(SECOND).await;
        repeater.remove(&1);
        assert!(poll_once(&mut repeater).is_none());
        assert!(repeater.is_empty());
    });
}

#[test]
fn overdue_entries_can_be_removed_and_replaced() {
    paused().block_on(async {
        let start = Instant::now();
        let mut repeater = Repeater::with_capacity(4);
        for id in 0..4 {
            repeater.insert(Job::delayed(id, 50 * SECOND, Delay::Relative(SECOND))).unwrap();
        }
        advance(5 * SECOND).await;
        repeater.remove(&0);
        repeater.insert(Job::delayed(1, 50 * SECOND, Delay::Relative(2 * SECOND))).unwrap();
        assert_eq!(repeater.len(), 3);
        let first = poll_once(&mut repeater).unwrap().id;
        assert!(first == 2 || first == 3);
        repeater.remove(&(5 - first));
        repeater.insert(Job::delayed(first, 50 * SECOND, Delay::Relative(SECOND))).unwrap();
        assert_eq!(repeater.len(), 2);
        assert!(poll_once(&mut repeater).is_none());
        assert_eq!(next_due(&mut repeater).await.id, first);
        assert!(close_to(start.elapsed(), 6 * SECOND));
        assert_eq!(next_due(&mut repeater).await.id, 1);
        assert!(close_to(start.elapsed(), 7 * SECOND));
    });
}

#[test]
fn removing_an_absent_key_does_nothing() {
    paused().block_on(async {
        let mut repeater = Repeater::with_capacity(4);
        repeater.remove(&1);
        repeater.insert(Job::new(2, SECOND)).unwrap();
        repeater.remove(&1);
        assert_eq!(repeater.len(), 1);
        assert_eq!(next_due(&mut repeater).await.id, 2);
    });
}

#[test]
fn clear_removes_everything() {
    paused().block_on(async {
        let mut repeater = Repeater::with_capacity(4);
        for id in 0..10 {
            repeater.insert(Job::new(id, SECOND)).unwrap();
        }
        assert_eq!(repeater.len(), 10);
        repeater.clear();
        assert!(repeater.is_empty());
        assert_eq!(repeater.len(), 0);
        assert!(timeout(3_600 * SECOND, next_due(&mut repeater)).await.is_err());
        repeater.clear();
        assert!(repeater.is_empty());
        repeater.insert(Job::new(4, SECOND)).unwrap();
        assert_eq!(repeater.len(), 1);
        assert_eq!(next_due(&mut repeater).await.id, 4);
    });
}

#[test]
fn entries_come_due_in_order_of_their_deadlines() {
    paused().block_on(async {
        let start = Instant::now();
        let mut repeater = Repeater::with_capacity(4);
        repeater.insert(Job::delayed(0, 100 * SECOND, Delay::Relative(3 * SECOND))).unwrap();
        repeater.insert(Job::delayed(1, 100 * SECOND, Delay::Relative(SECOND))).unwrap();
        repeater.insert(Job::delayed(2, 100 * SECOND, Delay::Relative(2 * SECOND))).unwrap();
        for (id, at) in [(1, 1), (2, 2), (0, 3)] {
            let job = next_due(&mut repeater).await;
            assert_eq!(job.id, id);
            assert!(close_to(start.elapsed(), at * SECOND));
        }
    });
}

#[test]
fn wait_beyond_the_timer_is_refused() {
    paused().block_on(async {
        let mut repeater = Repeater::with_capacity(4);
        repeater.insert(Job::new(1, SECOND)).unwrap();
        let too_long = Duration::from_nanos(MAX_TIMEOUT_NANOS + 1);
        let job = Job::delayed(2, SECOND, Delay::Relative(too_long));
        assert_eq!(repeater.insert(job), Err(InsertError::OutOfRange));
        let job = Job::delayed(1, SECOND, Delay::Relative(too_long));
        assert_eq!(repeater.insert(job), Err(InsertError::OutOfRange));
        let job = Job::new(3, too_long);
        assert_eq!(repeater.insert(job), Err(InsertError::OutOfRange));
        let far = SystemTime::now() + Duration::from_secs(3 * 366 * 86_400);
        let job = Job::delayed(4, SECOND, Delay::Absolute(far));
        assert_eq!(repeater.insert(job), Err(InsertError::OutOfRange));
        assert_eq!(repeater.schedule(Job::new(5, SECOND), Duration::MAX), Err(InsertError::OutOfRange));
        assert_eq!(repeater.len(), 1);
        assert_eq!(next_due(&mut repeater).await.id, 1);
    });
}

#[test]
fn longest_wait_is_accepted() {
    paused().block_on(async {
        let mut repeater = Repeater::with_capacity(4);
        let longest = Duration::from_nanos(MAX_TIMEOUT_NANOS);
        assert_eq!(repeater.insert(Job::delayed(1, longest, Delay::Relative(longest))), Ok(()));
        assert_eq!(repeater.insert(Job::delayed(1, longest, Delay::Relative(longest))), Ok(()));
        assert_eq!(repeater.len(), 1);
        assert!(poll_once(&mut repeater).is_none());
    });
}

#[test]
fn longest_wait_is_accepted_on_a_running_clock() {
    let runtime = Builder::new_current_thread().enable_time().build().unwrap();
    runtime.block_on(async {
        let mut repeater = Repeater::with_capacity(4);
        let longest = Duration::from_nanos(MAX_TIMEOUT_NANOS);
        for id in 0..100 {
            assert_eq!(repeater.insert(Job::delayed(id, longest, Delay::Relative(longest))), Ok(()));
        }
        for id in 0..100 {
            assert_eq!(repeater.schedule(Job::new(id, longest), longest), Ok(()));
        }
        assert_eq!(repeater.len(), 100);
        assert!(poll_once(&mut repeater).is_none());
        repeater.insert(Job::new(7, longest)).unwrap();
        let job = timeout(5 * SECOND, next_due(&mut repeater)).await.unwrap();
        assert_eq!(job.id, 7);
        assert!(poll_once(&mut repeater).is_none());
        assert_eq!(repeater.len(), 100);
    });
}

#[test]
fn entries_with_one_deadline_all_come_due() {
    paused().block_on(async {
        let start = Instant::now();
        let mut repeater = Repeater::with_capacity(8);
        for id in 0..5 {
            repeater.insert(Job::delayed(id, 100 * SECOND, Delay::Relative(SECOND))).unwrap();
        }
        for round in 0..3 {
            let mut seen = Vec::new();
            for _ in 0..5 {
                seen.push(next_due(&mut repeater).await.id);
                assert!(close_to(start.elapsed(), SECOND + round * 100 * SECOND));
            }
            seen.sort();
            assert_eq!(seen, vec![0, 1, 2, 3, 4]);
            assert!(poll_once(&mut repeater).is_none());
        }
    });
}

#[test]
fn schedule_waits_as_it_is_told() {
    paused().block_on(async {
        let start = Instant::now();
        let mut repeater = Repeater::with_capacity(4);
        let job = Job::delayed(1, 10 * SECOND, Delay::Relative(50 * SECOND));
        assert_eq!(repeater.schedule(job, 2 * SECOND), Ok(()));
        let job = next_due(&mut repeater).await;
        assert_eq!(job.id, 1);
        assert!(close_to(start.elapsed(), 2 * SECOND));
        let job = next_due(&mut repeater).await;
        assert_eq!(job.id, 1);
        assert!(close_to(start.elapsed(), 12 * SECOND));
    });
}

#[test]
fn delivered_entry_has_dropped_its_delay() {
    paused().block_on(async {
        let mut repeater = Repeater::with_capacity(4);
        repeater.insert(Job::delayed(1, SECOND, Delay::Relative(SECOND))).unwrap();
        let job = next_due(&mut repeater).await;
        assert!(matches!(job.first, Delay::NoDelay));
        let mut repeater = Repeater::with_capacity(4);
        repeater.insert(Job::delayed(1, SECOND, Delay::Relative(SECOND))).unwrap();
        let job = next_taken(&mut repeater).await;
        assert!(matches!(job.first, Delay::NoDelay));
    });
}

#[test]
fn taken_entry_leaves_the_repeater() {
    paused().block_on(async {
        let start = Instant::now();
        let mut repeater = Repeater::with_capacity(4);
        repeater.insert(Job::labelled(1, SECOND, Delay::Relative(2 * SECOND), "one")).unwrap();
        repeater.insert(Job::labelled(2, SECOND, Delay::Relative(3 * SECOND), "two")).unwrap();
        let job = next_taken(&mut repeater).await;
        assert_eq!((job.id, job.label), (1, "one"));
        assert!(close_to(start.elapsed(), 2 * SECOND));
        assert_eq!(repeater.len(), 1);
        let job = next_taken(&mut repeater).await;
        assert_eq!((job.id, job.label), (2, "two"));
        assert!(close_to(start.elapsed(), 3 * SECOND));
        assert!(repeater.is_empty());
        assert!(timeout(3_600 * SECOND, next_taken(&mut repeater)).await.is_err());
    });
}

#[test]
fn taken_entry_recurs_once_it_is_inserted_again() {
    paused().block_on(async {
        let start = Instant::now();
        let mut repeater = Repeater::with_capacity(4);
        repeater.insert(Job::delayed(1, SECOND, Delay::Relative(2 * SECOND))).unwrap();
        for n in 1..5 {
            let mut job = next_taken(&mut repeater).await;
            assert!(close_to(start.elapsed(), 2 * n * SECOND));
            assert!(repeater.is_empty());
            job.first = Delay::Relative(2 * SECOND);
            repeater.insert(job).unwrap();
            assert_eq!(repeater.len(), 1);
        }
    });
}
