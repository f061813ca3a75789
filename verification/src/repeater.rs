//! The repeater: a table of entries by key, and one slot of the timer queue for each.

use crate::delay::duration_nanos;
use crate::delay::initial_wait;
use crate::entry::RepeaterEntry;
use crate::schedule::came_due;
use crate::schedule::insert_made;
use crate::schedule::inserted;
use crate::schedule::redelivered;
use crate::schedule::schedule_verdict;
use crate::schedule::scheduled;
use crate::schedule::taken;
use crate::schedule::valid_schedule;
use crate::schedule::InsertError;
use crate::schedule::Schedule;
use crate::timer::queue_capacity;
use crate::timer::queue_clear;
use crate::timer::queue_insert;
use crate::timer::queue_is_empty;
use crate::timer::queue_len;
use crate::timer::queue_poll_expired;
use crate::timer::queue_remove;
use crate::timer::queue_reset;
use crate::timer::queue_slots;
use crate::timer::queue_timeouts;
use crate::timer::queue_with_capacity;
use crate::timer::timeout_in_range;
use crate::timer::Polled;
use crate::timer::MAX_SLOTS;
use crate::timer::MAX_TIMEOUT_NANOS;
use std::collections::HashMap;
use std::task::Context;
use std::time::Duration;
use std::time::SystemTime;
use tokio_util::time::delay_queue;
use tokio_util::time::DelayQueue;
use vstd::prelude::*;

verus! {

broadcast use vstd::std_specs::hash::group_hash_axioms;

/// Repeats entries, each after its own interval.
///
/// The timers are those of Tokio: a repeater that holds entries is used inside a Tokio
/// runtime with a timer.
pub struct Repeater<E: RepeaterEntry> {
    entries: HashMap<u64, (E, delay_queue::Key)>,
    queue: DelayQueue<u64>,
}

impl<E: RepeaterEntry> View for Repeater<E> {
    type V = Schedule<E>;

    closed spec fn view(&self) -> Schedule<E> {
        Map::new(
            |k: u64| self.entries@.contains_key(k),
            |k: u64| (self.entries@[k].0, queue_timeouts(self.queue)[self.entries@[k].1]),
        )
    }
}

impl<E: RepeaterEntry> Repeater<E> {
    /// The table and the queue agree: each entry stands under its own key and owns one
    /// slot of the queue, which holds that key, and the queue has no other slot.
    pub closed spec fn wf(&self) -> bool {
        let table = self.entries@;
        let slots = queue_slots(self.queue);
        &&& slots.dom().finite()
        &&& slots.len() == table.len()
        &&& slots.len() <= MAX_SLOTS
        &&& forall|k: u64| #[trigger]
            table.contains_key(k) ==> {
                &&& table[k].0.spec_key() == k
                &&& duration_nanos(table[k].0.spec_interval()) <= MAX_TIMEOUT_NANOS
                &&& slots.contains_key(table[k].1)
                &&& slots[table[k].1] == k
            }
        &&& forall|t: delay_queue::Key| #[trigger]
            slots.contains_key(t) ==> table.contains_key(slots[t]) && table[slots[t]].1 == t
    }

    /// A well-formed repeater holds a valid schedule.
    pub proof fn lemma_valid(&self)
        requires
            self.wf(),
        ensures
            valid_schedule(self@),
    {
        assert(self@.dom() =~= self.entries@.dom());
    }

    /// Create a new repeater with room for `capacity` entries. The capacity is a hint: the
    /// repeater grows beyond it.
    pub fn with_capacity(capacity: usize) -> (r: Self)
        ensures
            r.wf(),
            r@ == Schedule::<E>::empty(),
    {
        let r = Repeater {
            entries: HashMap::with_capacity(capacity),
            queue: queue_with_capacity(capacity),
        };
        assert(r@ =~= Schedule::<E>::empty());
        r
    }

    /// Schedule `e` to come due after `wait`, and after its interval from then on.
    ///
    /// If an entry with the same key exists, `e` replaces it and the timer of that key
    /// starts anew: no key ever has two timers.
    pub fn schedule(&mut self, e: E, wait: Duration) -> (r: Result<(), InsertError>)
        requires
            old(self).wf(),
        ensures
            final(self).wf(),
            r == schedule_verdict(old(self)@, e, duration_nanos(wait)),
            final(self)@ == scheduled(old(self)@, e, duration_nanos(wait)),
    {
        let key = e.key();
        let interval = e.interval();
        if !timeout_in_range(&wait) || !timeout_in_range(&interval) {
            return Err(InsertError::OutOfRange);
        }
        proof {
            assert(self@.dom() =~= self.entries@.dom());
        }
        let ghost table = self.entries@;
        let ghost view = self@;
        let held = match self.entries.get(&key) {
            Some(pair) => Some(pair.1),
            None => None,
        };
        match held {
            Some(token) => {
                queue_reset(&mut self.queue, &token, wait);
                self.entries.insert(key, (e, token));
                proof {
                    assert(self.entries@.dom() =~= table.dom());
                    assert(self@ =~= view.insert(key, (e, duration_nanos(wait))));
                }
            },
            None => {
                if queue_len(&self.queue) >= MAX_SLOTS {
                    return Err(InsertError::Full);
                }
                let token = queue_insert(&mut self.queue, key, wait);
                self.entries.insert(key, (e, token));
                proof {
                    assert(self@ =~= view.insert(key, (e, duration_nanos(wait))));
                }
            },
        }
        Ok(())
    }

    /// Insert entry into repeater.
    ///
    /// If entry with same key already exists, it will be replaced, and the repetition
    /// starts anew. The wait before the first delivery is what the entry's delay asks for
    /// at the time of the call: see `initial_wait`.
    pub fn insert(&mut self, e: E) -> (r: Result<(), InsertError>)
        requires
            old(self).wf(),
        ensures
            final(self).wf(),
            insert_made(old(self)@, final(self)@, r, e),
    {
        let delay = e.delay();
        let now = SystemTime::now();
        let wait = initial_wait(delay, e.interval(), now);
        let r = self.schedule(e, wait);
        proof {
            assert(inserted(old(self)@, self@, r, e, delay, now));
        }
        r
    }

    /// Remove entry with key from repeater. A key that is not there is left alone.
    pub fn remove(&mut self, key: &u64)
        requires
            old(self).wf(),
        ensures
            final(self).wf(),
            final(self)@ == old(self)@.remove(*key),
    {
        let ghost view = self@;
        match self.entries.remove(key) {
            Some(pair) => {
                let token = pair.1;
                queue_remove(&mut self.queue, &token);
            },
            None => {},
        }
        proof {
            assert(self@ =~= view.remove(*key));
        }
    }

    /// Clear the repeater. This removes all entries.
    pub fn clear(&mut self)
        requires
            old(self).wf(),
        ensures
            final(self).wf(),
            final(self)@ == Schedule::<E>::empty(),
            final(self)@.len() == 0,
    {
        queue_clear(&mut self.queue);
        self.entries.clear();
        proof {
            assert(self@ =~= Schedule::<E>::empty());
        }
    }

    /// Number of entries in the repeater.
    pub fn len(&self) -> (n: usize)
        requires
            self.wf(),
        ensures
            n == self@.len(),
    {
        proof {
            assert(self@.dom() =~= self.entries@.dom());
        }
        queue_len(&self.queue)
    }

    /// Return true if repeater is empty.
    pub fn is_empty(&self) -> (b: bool)
        requires
            self.wf(),
        ensures
            b == (self@.len() == 0),
    {
        proof {
            assert(self@.dom() =~= self.entries@.dom());
        }
        queue_is_empty(&self.queue)
    }

    /// Number of entries that the timer has room for before it allocates, which is no
    /// less than the number it holds.
    pub fn capacity(&self) -> (n: usize)
        requires
            self.wf(),
        ensures
            n >= self@.len(),
    {
        proof {
            assert(self@.dom() =~= self.entries@.dom());
        }
        queue_capacity(&self.queue)
    }

    /// Poll for an entry that has come due and take it out of the repeater.
    ///
    /// The entry leaves the schedule: to repeat it, insert it again. Its `reset_delay` has
    /// been called. `None` says that nothing is due yet; the task that owns `cx` is woken
    /// when something is.
    pub fn poll_take(&mut self, cx: &mut Context<'_>) -> (r: Option<E>)
        requires
            old(self).wf(),
        ensures
            final(self).wf(),
            match r {
                Some(e) => taken(old(self)@, final(self)@, e),
                None => final(self)@ == old(self)@,
            },
    {
        let ghost view = self@;
        let polled = queue_poll_expired(&mut self.queue, cx);
        let ghost found = polled;
        let ghost met = self@;
        proof {
            assert(self.polled(polled));
            assert(met.dom() =~= view.dom());
        }
        let r = self.take_polled(polled);
        proof {
            match found {
                Polled::Expired(_, key) => assert(self@ =~= view.remove(key)),
                _ => assert(self@ =~= view),
            }
        }
        r
    }

    /// The table and the queue as a poll of the queue leaves them: they agree, but that
    /// the slot which the poll found expired is gone from the queue, while the entry that
    /// owned it still stands in the table.
    spec fn polled(&self, polled: Polled) -> bool {
        match polled {
            Polled::Expired(token, key) => self.wf_but(token, key),
            _ => self.wf(),
        }
    }
}

impl<E: RepeaterEntry + Clone> Repeater<E> {
    /// Poll for an entry that has come due.
    ///
    /// An entry that is handed out has been scheduled again, to come due after its
    /// interval: the delay plays no part in that. Its `reset_delay` has been called.
    /// `None` says that nothing is due yet; the task that owns `cx` is woken when
    /// something is.
    ///
    /// Entries come due in the order of their deadlines, which the timer keeps to the
    /// millisecond. Among entries with one deadline the timer picks, in no order that it
    /// promises; each of them comes due once.
    pub fn poll_next(&mut self, cx: &mut Context<'_>) -> (r: Option<E>)
        requires
            old(self).wf(),
        ensures
            final(self).wf(),
            match r {
                Some(e) => came_due(old(self)@, final(self)@, e),
                None => final(self)@ == old(self)@,
            },
    {
        let ghost view = self@;
        let polled = queue_poll_expired(&mut self.queue, cx);
        let ghost found = polled;
        let ghost met = self@;
        proof {
            assert(self.polled(polled));
            assert(met.dom() =~= view.dom());
        }
        let r = self.redeliver_polled(polled);
        proof {
            match found {
                Polled::Expired(_, key) => {
                    assert(self@ =~= view.insert(key, self@[key]));
                    assert(redelivered(view, self@, key, r.unwrap()));
                    assert(came_due(view, self@, r.unwrap()));
                },
                _ => assert(self@ =~= view),
            }
        }
        r
    }

    /// Settle the table after a poll of the queue, for an entry that is to recur: the
    /// entry whose slot has expired gets a slot of its own again, set to expire after the
    /// entry's interval, and a copy of the entry is handed out, after its `reset_delay`
    /// was called. A poll that found nothing leaves everything as it is.
    fn redeliver_polled(&mut self, polled: Polled) -> (r: Option<E>)
        requires
            old(self).polled(polled),
        ensures
            final(self).wf(),
            match polled {
                Polled::Expired(_, key) => {
                    &&& r is Some
                    &&& redelivered(old(self)@, final(self)@, key, r.unwrap())
                },
                _ => r is None && final(self)@ == old(self)@,
            },
    {
        let ghost met = self@;
        match polled {
            Polled::Expired(_, key) => {
                match self.entries.remove(&key) {
                    Some(pair) => {
                        let mut entry = pair.0;
                        entry.reset_delay();
                        let wait = entry.interval();
                        let token = queue_insert(&mut self.queue, key, wait);
                        let out = entry.clone();
                        self.entries.insert(key, (entry, token));
                        proof {
                            assert(self@ =~= met.insert(key, (entry, duration_nanos(wait))));
                            assert(redelivered(met, self@, key, out));
                        }
                        Some(out)
                    },
                    None => {
                        // The table holds the key of every slot that has expired.
                        assert(false);
                        None
                    },
                }
            },
            _ => None,
        }
    }
}

impl<E: RepeaterEntry> Repeater<E> {
    /// Well-formed, but that the entry under `key` has lost its slot, which `token` named.
    spec fn wf_but(&self, token: delay_queue::Key, key: u64) -> bool {
        let table = self.entries@;
        let slots = queue_slots(self.queue);
        &&& slots.dom().finite()
        &&& slots.len() + 1 == table.len()
        &&& slots.len() < MAX_SLOTS
        &&& table.contains_key(key)
        &&& table[key].1 == token
        &&& !slots.contains_key(token)
        &&& forall|k: u64| #[trigger]
            table.contains_key(k) ==> {
                &&& table[k].0.spec_key() == k
                &&& duration_nanos(table[k].0.spec_interval()) <= MAX_TIMEOUT_NANOS
                &&& k != key ==> slots.contains_key(table[k].1) && slots[table[k].1] == k
            }
        &&& forall|t: delay_queue::Key| #[trigger]
            slots.contains_key(t) ==> table.contains_key(slots[t]) && table[slots[t]].1 == t
    }

    /// Settle the table after a poll of the queue, for an entry that is to leave: the
    /// entry whose slot has expired is taken out of the table and handed out, after its
    /// `reset_delay` was called. A poll that found nothing leaves everything as it is.
    fn take_polled(&mut self, polled: Polled) -> (r: Option<E>)
        requires
            old(self).polled(polled),
        ensures
            final(self).wf(),
            match polled {
                Polled::Expired(_, key) => {
                    &&& r matches Some(e) && e.spec_key() == key
                    &&& taken(old(self)@, final(self)@, r.unwrap())
                },
                _ => r is None && final(self)@ == old(self)@,
            },
    {
        let ghost met = self@;
        match polled {
            Polled::Expired(_, key) => {
                match self.entries.remove(&key) {
                    Some(pair) => {
                        let mut entry = pair.0;
                        entry.reset_delay();
                        proof {
                            assert(self@ =~= met.remove(key));
                        }
                        Some(entry)
                    },
                    None => {
                        // The table holds the key of every slot that has expired.
                        assert(false);
                        None
                    },
                }
            },
            _ => None,
        }
    }
}

} // verus!
