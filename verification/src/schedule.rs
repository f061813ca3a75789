//! The schedule: what a repeater holds, as a map, and what each operation does to it.
//!
//! The contracts of the repeater are stated over the functions of this file. The proof
//! functions state what follows for any schedule.

use crate::delay::duration_nanos;
use crate::delay::initial_wait_nanos;
use crate::delay::Delay;
use crate::entry::RepeaterEntry;
use crate::timer::MAX_SLOTS;
use crate::timer::MAX_TIMEOUT_NANOS;
use std::time::SystemTime;
use vstd::prelude::*;

verus! {

/// What is scheduled: for each key the entry registered under it, and the wait, in
/// nanoseconds, that its timer was last set to.
pub type Schedule<E> = Map<u64, (E, nat)>;

/// Why an entry was not scheduled.
#[derive(Debug, Clone, Copy, PartialEq, Eq, Structural)]
pub enum InsertError {
    /// The wait before the next delivery, or the entry's interval, is longer than the
    /// timer can track.
    OutOfRange,
    /// The key is new and the timer has no slot left.
    Full,
}

/// Tells whether a schedule is one that a repeater can hold: finitely many entries, no
/// more than the timer has slots, each registered under its own key and with an interval
/// that the timer can track.
pub open spec fn valid_schedule<E: RepeaterEntry>(s: Schedule<E>) -> bool {
    &&& s.dom().finite()
    &&& s.len() <= MAX_SLOTS
    &&& forall|k: u64| #[trigger]
        s.contains_key(k) ==> s[k].0.spec_key() == k && duration_nanos(s[k].0.spec_interval())
            <= MAX_TIMEOUT_NANOS
}

/// Whether `e` can be scheduled with this wait: the error, if it cannot.
pub open spec fn schedule_verdict<E: RepeaterEntry>(s: Schedule<E>, e: E, wait: nat) -> Result<
    (),
    InsertError,
> {
    if wait > MAX_TIMEOUT_NANOS || duration_nanos(e.spec_interval()) > MAX_TIMEOUT_NANOS {
        Err(InsertError::OutOfRange)
    } else if !s.contains_key(e.spec_key()) && s.len() >= MAX_SLOTS {
        Err(InsertError::Full)
    } else {
        Ok(())
    }
}

/// The schedule after `e` was handed in to be scheduled with this wait: `e` stands under
/// its key, in place of what stood there, and nothing else has changed. A refused entry
/// leaves the schedule as it was.
pub open spec fn scheduled<E: RepeaterEntry>(s: Schedule<E>, e: E, wait: nat) -> Schedule<E> {
    if schedule_verdict(s, e, wait) is Ok {
        s.insert(e.spec_key(), (e, wait))
    } else {
        s
    }
}

/// The schedule after each of `entries` was handed in, in order, the i-th with the i-th
/// of `waits`.
pub open spec fn scheduled_all<E: RepeaterEntry>(
    s: Schedule<E>,
    entries: Seq<E>,
    waits: Seq<nat>,
) -> Schedule<E>
    recommends
        waits.len() == entries.len(),
    decreases entries.len(),
{
    if entries.len() == 0 {
        s
    } else {
        scheduled(
            scheduled_all(s, entries.drop_last(), waits.drop_last()),
            entries.last(),
            waits.last(),
        )
    }
}

/// Relates the schedules before and after `e` was inserted, and the answer given, where
/// `delay` is what the entry's `delay` returned and `now` is what the clock read.
pub open spec fn inserted<E: RepeaterEntry>(
    pre: Schedule<E>,
    post: Schedule<E>,
    r: Result<(), InsertError>,
    e: E,
    delay: Delay,
    now: SystemTime,
) -> bool {
    let wait = initial_wait_nanos(delay, e.spec_interval(), now);
    &&& call_ensures(E::delay, (&e,), delay)
    &&& r == schedule_verdict(pre, e, wait)
    &&& post == scheduled(pre, e, wait)
}

/// Some reading of the entry's delay and of the clock explains the insertion.
pub open spec fn insert_made<E: RepeaterEntry>(
    pre: Schedule<E>,
    post: Schedule<E>,
    r: Result<(), InsertError>,
    e: E,
) -> bool {
    exists|delay: Delay, now: SystemTime| #[trigger] inserted(pre, post, r, e, delay, now)
}

/// Relates the schedules before and after the entry under `k` came due and was set to
/// come due again: the entry, as its `reset_delay` left it, waits for its interval, and
/// `e` is the copy of it that was handed out. Nothing else has changed.
pub open spec fn redelivered<E: RepeaterEntry + Clone>(
    pre: Schedule<E>,
    post: Schedule<E>,
    k: u64,
    e: E,
) -> bool {
    &&& pre.contains_key(k)
    &&& post == pre.insert(k, post[k])
    &&& post[k].0.spec_key() == k
    &&& post[k].0.spec_interval() == pre[k].0.spec_interval()
    &&& post[k].1 == duration_nanos(pre[k].0.spec_interval())
    &&& cloned(post[k].0, e)
}

/// Relates the schedules before and after some entry came due and was set to come due
/// again, where `e` is the copy of it that was handed out.
pub open spec fn came_due<E: RepeaterEntry + Clone>(
    pre: Schedule<E>,
    post: Schedule<E>,
    e: E,
) -> bool {
    exists|k: u64| #[trigger] redelivered(pre, post, k, e)
}

/// Relates the schedules before and after `e` came due and was taken out: `e` is the
/// entry that stood under its key, as its `reset_delay` left it.
pub open spec fn taken<E: RepeaterEntry>(pre: Schedule<E>, post: Schedule<E>, e: E) -> bool {
    &&& pre.contains_key(e.spec_key())
    &&& e.spec_interval() == pre[e.spec_key()].0.spec_interval()
    &&& post == pre.remove(e.spec_key())
}

/// Scheduling keeps a valid schedule valid, whatever the entry and the wait.
pub proof fn law_scheduling_keeps_valid<E: RepeaterEntry>(s: Schedule<E>, e: E, wait: nat)
    requires
        valid_schedule(s),
    ensures
        valid_schedule(scheduled(s, e, wait)),
{
}

/// An entry under a key that the schedule does not hold is accepted while there is room
/// and its waits are in range: it then stands under its key with its wait, and the
/// schedule holds one entry more.
pub proof fn law_new_key_adds_one<E: RepeaterEntry>(s: Schedule<E>, e: E, wait: nat)
    requires
        valid_schedule(s),
        !s.contains_key(e.spec_key()),
        s.len() < MAX_SLOTS,
        wait <= MAX_TIMEOUT_NANOS,
        duration_nanos(e.spec_interval()) <= MAX_TIMEOUT_NANOS,
    ensures
        schedule_verdict(s, e, wait) is Ok,
        scheduled(s, e, wait).len() == s.len() + 1,
        scheduled(s, e, wait).dom() == s.dom().insert(e.spec_key()),
        scheduled(s, e, wait)[e.spec_key()] == (e, wait),
{
}

/// After entries with keys that differ from each other, and from those that the schedule
/// holds, were handed in, the schedule holds one entry more for each of them.
pub proof fn law_len_counts_keys<E: RepeaterEntry>(s: Schedule<E>, entries: Seq<E>, waits: Seq<nat>)
    requires
        valid_schedule(s),
        waits.len() == entries.len(),
        s.len() + entries.len() <= MAX_SLOTS,
        forall|i: int|
            0 <= i < entries.len() ==> {
                &&& !s.contains_key(#[trigger] entries[i].spec_key())
                &&& waits[i] <= MAX_TIMEOUT_NANOS
                &&& duration_nanos(entries[i].spec_interval()) <= MAX_TIMEOUT_NANOS
            },
        forall|i: int, j: int|
            0 <= i < j < entries.len() ==> entries[i].spec_key() != entries[j].spec_key(),
    ensures
        valid_schedule(scheduled_all(s, entries, waits)),
        scheduled_all(s, entries, waits).len() == s.len() + entries.len(),
        forall|k: u64|
            scheduled_all(s, entries, waits).contains_key(k) <==> s.contains_key(k) || exists|
                i: int,
            |
                0 <= i < entries.len() && #[trigger] entries[i].spec_key() == k,
    decreases entries.len(),
{
    if entries.len() > 0 {
        let front = entries.drop_last();
        let before = scheduled_all(s, front, waits.drop_last());
        let e = entries.last();
        law_len_counts_keys(s, front, waits.drop_last());
        assert(!before.contains_key(e.spec_key())) by {
            if before.contains_key(e.spec_key()) {
                let i = choose|i: int| 0 <= i < front.len() && #[trigger] front[i].spec_key()
                    == e.spec_key();
                assert(entries[i].spec_key() == entries[entries.len() - 1].spec_key());
            }
        }
        law_new_key_adds_one(before, e, waits.last());
        let after = scheduled_all(s, entries, waits);
        assert forall|k: u64|
            after.contains_key(k) <==> s.contains_key(k) || exists|i: int|
                0 <= i < entries.len() && #[trigger] entries[i].spec_key() == k by {
            if after.contains_key(k) && !s.contains_key(k) {
                if k == e.spec_key() {
                    assert(entries[entries.len() - 1].spec_key() == k);
                } else {
                    let i = choose|i: int| 0 <= i < front.len() && #[trigger] front[i].spec_key()
                        == k;
                    assert(entries[i].spec_key() == k);
                }
            }
            if exists|i: int| 0 <= i < entries.len() && #[trigger] entries[i].spec_key() == k {
                let i = choose|i: int| 0 <= i < entries.len() && #[trigger] entries[i].spec_key()
                    == k;
                if i < front.len() {
                    assert(front[i].spec_key() == k);
                }
            }
        }
    }
}

/// Inserting under a key that the schedule holds never adds an entry and is never
/// refused for want of room: the new entry and its wait stand in place of the old, and
/// every other key keeps what it had.
pub proof fn law_same_key_replaces<E: RepeaterEntry>(s: Schedule<E>, e: E, wait: nat)
    requires
        valid_schedule(s),
        s.contains_key(e.spec_key()),
    ensures
        scheduled(s, e, wait).len() == s.len(),
        scheduled(s, e, wait).dom() == s.dom(),
        !(schedule_verdict(s, e, wait) matches Err(InsertError::Full)),
        schedule_verdict(s, e, wait) is Ok ==> scheduled(s, e, wait)[e.spec_key()] == (e, wait),
        forall|k: u64|
            k != e.spec_key() && s.contains_key(k) ==> #[trigger] scheduled(s, e, wait)[k] == s[k],
{
    assert(scheduled(s, e, wait).dom() =~= s.dom());
}

/// Whatever the entry's delay asked for and whatever the clock read, an insertion that
/// was accepted leaves `e` under its key and adds an entry exactly when the key was new;
/// one that was refused changes nothing. No other key is touched, and an entry whose key
/// is there is never refused for want of room.
pub proof fn law_insert_touches_one_key<E: RepeaterEntry>(
    pre: Schedule<E>,
    post: Schedule<E>,
    r: Result<(), InsertError>,
    e: E,
)
    requires
        valid_schedule(pre),
        insert_made(pre, post, r, e),
    ensures
        valid_schedule(post),
        r is Ok ==> post.contains_key(e.spec_key()) && post[e.spec_key()].0 == e,
        r is Ok && pre.contains_key(e.spec_key()) ==> post.len() == pre.len(),
        r is Ok && !pre.contains_key(e.spec_key()) ==> post.len() == pre.len() + 1,
        r is Err ==> post == pre,
        pre.contains_key(e.spec_key()) ==> !(r matches Err(InsertError::Full)),
        forall|k: u64|
            k != e.spec_key() ==> (#[trigger] post.contains_key(k) <==> pre.contains_key(k)),
        forall|k: u64| k != e.spec_key() && pre.contains_key(k) ==> #[trigger] post[k] == pre[k],
{
    let (delay, now) = choose|delay: Delay, now: SystemTime| #[trigger]
        inserted(pre, post, r, e, delay, now);
    let wait = initial_wait_nanos(delay, e.spec_interval(), now);
    if pre.contains_key(e.spec_key()) {
        law_same_key_replaces(pre, e, wait);
    }
}

/// Removing a key that the schedule holds leaves one entry less; removing any other key
/// leaves the schedule as it is.
pub proof fn law_remove_takes_one<E: RepeaterEntry>(s: Schedule<E>, key: u64)
    requires
        valid_schedule(s),
    ensures
        valid_schedule(s.remove(key)),
        s.contains_key(key) ==> s.remove(key).len() == s.len() - 1,
        !s.contains_key(key) ==> s.remove(key) == s,
{
    if !s.contains_key(key) {
        assert(s.remove(key) =~= s);
    }
}

/// A key that was removed is not delivered: whatever comes due next, by either way of
/// polling, is the entry of another key, and the removed key stays out of the schedule.
pub proof fn law_removed_key_is_silent<E: RepeaterEntry + Clone>(
    s: Schedule<E>,
    key: u64,
    post: Schedule<E>,
    e: E,
)
    ensures
        !s.remove(key).contains_key(key),
        forall|k: u64| #[trigger] redelivered(s.remove(key), post, k, e) ==> k != key,
        came_due(s.remove(key), post, e) ==> !post.contains_key(key),
        taken(s.remove(key), post, e) ==> e.spec_key() != key && !post.contains_key(key),
{
    if came_due(s.remove(key), post, e) {
        let k = choose|k: u64| #[trigger] redelivered(s.remove(key), post, k, e);
        assert(k != key);
    }
}

/// An entry that came due and was scheduled again is still there, under its key, and
/// waits for its interval; the schedule holds as many entries as before.
pub proof fn law_due_entry_recurs<E: RepeaterEntry + Clone>(
    pre: Schedule<E>,
    post: Schedule<E>,
    k: u64,
    e: E,
)
    requires
        valid_schedule(pre),
        redelivered(pre, post, k, e),
    ensures
        valid_schedule(post),
        post.dom() == pre.dom(),
        post.len() == pre.len(),
        post[k].1 == duration_nanos(post[k].0.spec_interval()),
{
    assert(post.dom() =~= pre.dom());
}

/// A schedule without entries has length zero, and only such a schedule has.
pub proof fn law_empty_has_no_length<E: RepeaterEntry>(s: Schedule<E>)
    requires
        s.dom().finite(),
    ensures
        Schedule::<E>::empty().len() == 0,
        s.len() == 0 <==> s == Schedule::<E>::empty(),
{
    if s.len() == 0 {
        assert(s =~= Schedule::<E>::empty());
    }
}

} // verus!
