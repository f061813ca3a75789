//! The timer queue that keeps one slot per scheduled key, ordered by deadline.
//!
//! The queue is `tokio_util::time::DelayQueue`. What this file says of it is stated, not
//! proved: each contract says what the queue's source shows of one method. All else in
//! the library is proved from these contracts.

use crate::delay::duration_nanos;
use std::task::Context;
use std::task::Poll;
use std::time::Duration;
use tokio_util::time::delay_queue;
use tokio_util::time::DelayQueue;
use vstd::prelude::*;

verus! {

/// `tokio_util::time::DelayQueue`.
#[verifier::external_type_specification]
#[verifier::external_body]
#[verifier::reject_recursive_types(T)]
pub struct ExDelayQueue<T>(DelayQueue<T>);

/// `tokio_util::time::delay_queue::Key`, the token that names one slot of the queue.
#[verifier::external_type_specification]
#[verifier::external_body]
pub struct ExSlotToken(delay_queue::Key);

/// `std::task::Context`, which carries the waker of the task that polls.
#[verifier::external_type_specification]
#[verifier::external_body]
pub struct ExContext<'a>(Context<'a>);

/// What a queue holds: for the token of each slot, the value stored in the slot.
pub type Slots = Map<delay_queue::Key, u64>;

/// The slots that the queue holds.
pub uninterp spec fn queue_slots(q: DelayQueue<u64>) -> Slots;

/// The timeout, in nanoseconds, that each slot was last set to expire after, by the
/// `insert` that made it or by a later `reset`. The queue itself keeps the deadline which
/// that timeout gave when the call was made.
pub uninterp spec fn queue_timeouts(q: DelayQueue<u64>) -> Map<delay_queue::Key, nat>;

/// The largest number of slots that the queue accepts: 2^30 - 1.
pub const MAX_SLOTS: usize = 1_073_741_823;

/// The longest timeout that is handed to the queue, in nanoseconds: 2^35 milliseconds,
/// a little over a year.
///
/// The queue's timer tracks deadlines of up to 2^36 - 1 milliseconds ahead of its own
/// clock, which moves on only when a poll finds a deadline reached. A timeout within this
/// limit is in the timer's range as long as that clock is not a year or more behind.
pub const MAX_TIMEOUT_NANOS: u64 = 34_359_738_368_000_000;

/// Tells whether a timeout of this length may be handed to the queue.
pub fn timeout_in_range(timeout: &Duration) -> (b: bool)
    ensures
        b == (duration_nanos(*timeout) <= MAX_TIMEOUT_NANOS),
{
    timeout.as_nanos() <= MAX_TIMEOUT_NANOS as u128
}

/// What one poll of the queue found.
pub(crate) enum Polled {
    /// The slot with this token has expired and left the queue; it held this value.
    Expired(delay_queue::Key, u64),
    /// The queue holds no slot.
    Exhausted,
    /// No slot has expired yet. The polling task is woken when one does.
    Pending,
}

/// `DelayQueue::with_capacity` makes an empty queue with room for `capacity` slots. Like
/// any allocation, it fails only where the memory cannot be had.
#[verifier::external_body]
pub(crate) fn queue_with_capacity(capacity: usize) -> (q: DelayQueue<u64>)
    ensures
        queue_slots(q) == Slots::empty(),
{
    DelayQueue::with_capacity(capacity)
}

/// `DelayQueue::insert` stores `value` in a slot of its own, set to expire after `timeout`,
/// and returns the token of that slot, which names no slot that the queue held before.
///
/// It panics when the queue is full and when the deadline is beyond the timer's range:
/// see `MAX_TIMEOUT_NANOS`. It also panics outside a Tokio runtime with a timer. How far
/// the timer's clock is behind, and whether there is a runtime, cannot be said of the
/// arguments.
#[verifier::external_body]
pub(crate) fn queue_insert(q: &mut DelayQueue<u64>, value: u64, timeout: Duration) -> (token:
    delay_queue::Key)
    requires
        queue_slots(*old(q)).dom().finite(),
        queue_slots(*old(q)).len() < MAX_SLOTS,
        duration_nanos(timeout) <= MAX_TIMEOUT_NANOS,
    ensures
        !queue_slots(*old(q)).contains_key(token),
        queue_slots(*final(q)) == queue_slots(*old(q)).insert(token, value),
        queue_timeouts(*final(q)) == queue_timeouts(*old(q)).insert(
            token,
            duration_nanos(timeout),
        ),
{
    q.insert(value, timeout)
}

/// `DelayQueue::reset` sets the slot named by `token` to expire after `timeout`. The slot
/// keeps its token and its value, and no other slot is touched.
///
/// It panics when the token names no slot of the queue, and where `insert` does for the
/// deadline and the runtime.
#[verifier::external_body]
pub(crate) fn queue_reset(q: &mut DelayQueue<u64>, token: &delay_queue::Key, timeout: Duration)
    requires
        queue_slots(*old(q)).contains_key(*token),
        duration_nanos(timeout) <= MAX_TIMEOUT_NANOS,
    ensures
        queue_slots(*final(q)) == queue_slots(*old(q)),
        queue_timeouts(*final(q)) == queue_timeouts(*old(q)).insert(
            *token,
            duration_nanos(timeout),
        ),
{
    q.reset(token, timeout)
}

/// `DelayQueue::remove` takes the slot named by `token` out of the queue.
///
/// It panics when the token names no slot of the queue.
#[verifier::external_body]
pub(crate) fn queue_remove(q: &mut DelayQueue<u64>, token: &delay_queue::Key)
    requires
        queue_slots(*old(q)).contains_key(*token),
    ensures
        queue_slots(*final(q)) == queue_slots(*old(q)).remove(*token),
        queue_timeouts(*final(q)) == queue_timeouts(*old(q)).remove(*token),
{
    q.remove(token);
}

/// `DelayQueue::clear` removes every slot.
#[verifier::external_body]
pub(crate) fn queue_clear(q: &mut DelayQueue<u64>)
    ensures
        queue_slots(*final(q)) == Slots::empty(),
{
    q.clear()
}

/// `DelayQueue::len` returns the number of slots.
#[verifier::external_body]
pub(crate) fn queue_len(q: &DelayQueue<u64>) -> (n: usize)
    ensures
        n == queue_slots(*q).len(),
{
    q.len()
}

/// `DelayQueue::is_empty` tells whether the queue holds no slot.
#[verifier::external_body]
pub(crate) fn queue_is_empty(q: &DelayQueue<u64>) -> (b: bool)
    ensures
        b == (queue_slots(*q).len() == 0),
{
    q.is_empty()
}

/// `DelayQueue::capacity` returns the number of slots that the queue has room for without
/// allocating, which is no less than the number it holds.
#[verifier::external_body]
pub(crate) fn queue_capacity(q: &DelayQueue<u64>) -> (n: usize)
    ensures
        n >= queue_slots(*q).len(),
{
    q.capacity()
}

/// `DelayQueue::poll_expired` takes one expired slot out of the queue, if there is one, and
/// hands out its token and value. Otherwise the queue stays as it is: the poll reports that
/// the queue is empty, or registers the task to be woken at the next deadline.
#[verifier::external_body]
pub(crate) fn queue_poll_expired(q: &mut DelayQueue<u64>, cx: &mut Context<'_>) -> (r: Polled)
    ensures
        match r {
            Polled::Expired(token, value) => {
                &&& queue_slots(*old(q)).contains_key(token)
                &&& queue_slots(*old(q))[token] == value
                &&& queue_slots(*final(q)) == queue_slots(*old(q)).remove(token)
                &&& queue_timeouts(*final(q)) == queue_timeouts(*old(q)).remove(token)
            },
            Polled::Exhausted => {
                &&& queue_slots(*old(q)) == Slots::empty()
                &&& queue_slots(*final(q)) == queue_slots(*old(q))
                &&& queue_timeouts(*final(q)) == queue_timeouts(*old(q))
            },
            Polled::Pending => {
                &&& queue_slots(*final(q)) == queue_slots(*old(q))
                &&& queue_timeouts(*final(q)) == queue_timeouts(*old(q))
            },
        },
{
    match q.poll_expired(cx) {
        Poll::Ready(Some(expired)) => Polled::Expired(expired.key(), expired.into_inner()),
        Poll::Ready(None) => Polled::Exhausted,
        Poll::Pending => Polled::Pending,
    }
}

} // verus!
