//! The decisions of the task that owns a repeater: what each message does to it, and what
//! is to be done in answer.
//!
//! The task itself, its channel and the handler that it calls are not here. Whoever runs
//! the task hands each message to `Actor::on_message`, polls `Actor::poll_due` beside the
//! channel, and carries out the effect that comes back.

use crate::delay::duration_nanos;
use crate::delay::initial_wait;
use crate::delay::initial_wait_nanos;
use crate::delay::Delay;
use crate::entry::RepeaterEntry;
use crate::repeater::Repeater;
use crate::schedule::came_due;
use crate::schedule::schedule_verdict;
use crate::schedule::scheduled;
use crate::schedule::valid_schedule;
use crate::schedule::InsertError;
use crate::schedule::Schedule;
use std::task::Context;
use std::time::SystemTime;
use vstd::prelude::*;

verus! {

/// What a handle asks of the repeater's task.
#[derive(Debug)]
pub enum Message<E> {
    /// Schedule this entry.
    Insert(E),
    /// Drop the entry with this key.
    Remove(u64),
    /// Drop all entries.
    Clear,
    /// End the task.
    Stop,
    /// Report the number of entries.
    Len,
    /// Report whether there is no entry.
    IsEmpty,
}

/// When an entry that asks for no delay is first delivered.
#[derive(Debug, Clone, Copy, PartialEq, Eq, Structural)]
pub enum ZeroDelay {
    /// With the next turn of the task, once its timer, set to no wait, has fired.
    NextCycle,
    /// At once, as part of the insertion: the timer is set to the interval.
    AtOnce,
}

/// What the task is to do in answer to a message.
#[derive(Debug)]
pub enum Effect<E> {
    /// Nothing.
    Nothing,
    /// Hand this entry to the handler.
    Deliver(E),
    /// Answer with this number of entries.
    Len(usize),
    /// Answer whether there is no entry.
    IsEmpty(bool),
    /// The entry was not scheduled.
    Rejected(InsertError),
    /// End the task: nothing is delivered from here on.
    Stopped,
}

/// A repeater as its task holds it, with the policy for entries without a delay and the
/// mark that says whether the task has been stopped.
pub struct Actor<E: RepeaterEntry + Clone> {
    core: Repeater<E>,
    policy: ZeroDelay,
    stopped: bool,
}

/// Relates the schedules before and after the insertion of `e` by a running task, and
/// the effect, where `delay` is what the entry's `delay` returned, `now` what the clock
/// read, and `kept` the entry as it was stored.
///
/// Under `ZeroDelay::AtOnce` an entry without a delay is delivered at once: `kept` is `e`
/// as its `reset_delay` left it, it waits for its interval, and a copy of it is handed
/// out. Any other entry is stored as it came and waits as its delay says.
pub open spec fn insertion<E: RepeaterEntry + Clone>(
    policy: ZeroDelay,
    pre: Schedule<E>,
    post: Schedule<E>,
    out: Effect<E>,
    e: E,
    delay: Delay,
    now: SystemTime,
    kept: E,
) -> bool {
    let at_once = policy == ZeroDelay::AtOnce && delay is NoDelay;
    let wait = if at_once {
        duration_nanos(e.spec_interval())
    } else {
        initial_wait_nanos(delay, e.spec_interval(), now)
    };
    &&& call_ensures(E::delay, (&e,), delay)
    &&& kept.spec_key() == e.spec_key()
    &&& kept.spec_interval() == e.spec_interval()
    &&& !at_once ==> kept == e
    &&& post == scheduled(pre, kept, wait)
    &&& match schedule_verdict(pre, kept, wait) {
        Ok(_) => if at_once {
            out matches Effect::Deliver(copy) && cloned(kept, copy)
        } else {
            out is Nothing
        },
        Err(error) => out matches Effect::Rejected(reason) && reason == error,
    }
}

/// Some reading of the entry's delay and of the clock explains the insertion.
pub open spec fn insertion_made<E: RepeaterEntry + Clone>(
    policy: ZeroDelay,
    pre: Schedule<E>,
    post: Schedule<E>,
    out: Effect<E>,
    e: E,
) -> bool {
    exists|delay: Delay, now: SystemTime, kept: E| #[trigger]
        insertion(policy, pre, post, out, e, delay, now, kept)
}

/// What a message does to the schedule of a running task, and the effect.
pub open spec fn handled<E: RepeaterEntry + Clone>(
    policy: ZeroDelay,
    pre: Schedule<E>,
    post: Schedule<E>,
    out: Effect<E>,
    message: Message<E>,
) -> bool {
    match message {
        Message::Insert(e) => insertion_made(policy, pre, post, out, e),
        Message::Remove(key) => post == pre.remove(key) && out is Nothing,
        Message::Clear => post == Schedule::<E>::empty() && out is Nothing,
        Message::Stop => post == pre && out is Stopped,
        Message::Len => {
            &&& post == pre
            &&& out matches Effect::Len(n) && n == pre.len()
        },
        Message::IsEmpty => {
            &&& post == pre
            &&& out matches Effect::IsEmpty(b) && b == (pre.len() == 0)
        },
    }
}

/// What the task does with what its channel gave, a message or, once every handle is
/// gone, `None`: the schedules before and after, whether the task is stopped afterwards,
/// and the effect.
///
/// A stopped task changes nothing and answers `Stopped`. A running task stops when it is
/// told to and when the channel has closed; every other message does what `handled` says.
pub open spec fn received_by<E: RepeaterEntry + Clone>(
    policy: ZeroDelay,
    was_stopped: bool,
    pre: Schedule<E>,
    post: Schedule<E>,
    is_stopped: bool,
    out: Effect<E>,
    received: Option<Message<E>>,
) -> bool {
    if was_stopped {
        is_stopped && post == pre && out is Stopped
    } else {
        match received {
            Some(message) => {
                &&& is_stopped == (message is Stop)
                &&& handled(policy, pre, post, out, message)
            },
            None => is_stopped && post == pre && out is Stopped,
        }
    }
}

/// What one poll of the task for a due entry gives: an entry only while the task runs,
/// and then as `came_due` says.
pub open spec fn polled_by<E: RepeaterEntry + Clone>(
    was_stopped: bool,
    pre: Schedule<E>,
    post: Schedule<E>,
    r: Option<E>,
) -> bool {
    match r {
        Some(e) => !was_stopped && came_due(pre, post, e),
        None => post == pre,
    }
}

/// `Stop`, and the closing of the channel, end a running task and leave the schedule as
/// it is.
pub proof fn law_stop_ends_the_task<E: RepeaterEntry + Clone>(
    policy: ZeroDelay,
    pre: Schedule<E>,
    post: Schedule<E>,
    is_stopped: bool,
    out: Effect<E>,
    received: Option<Message<E>>,
)
    requires
        received is None || received == Some(Message::<E>::Stop),
        received_by(policy, false, pre, post, is_stopped, out, received),
    ensures
        is_stopped,
        post == pre,
        out is Stopped,
{
}

/// A stopped task stays stopped and delivers nothing, whatever it receives and however
/// often it is polled: its schedule does not change.
pub proof fn law_stopped_task_is_silent<E: RepeaterEntry + Clone>(
    policy: ZeroDelay,
    pre: Schedule<E>,
    post: Schedule<E>,
    is_stopped: bool,
    out: Effect<E>,
    received: Option<Message<E>>,
    polled: Schedule<E>,
    r: Option<E>,
)
    requires
        received_by(policy, true, pre, post, is_stopped, out, received),
        polled_by(true, pre, polled, r),
    ensures
        is_stopped,
        post == pre,
        !(out is Deliver),
        r is None,
        polled == pre,
{
}

impl<E: RepeaterEntry + Clone> View for Actor<E> {
    type V = Schedule<E>;

    closed spec fn view(&self) -> Schedule<E> {
        self.core@
    }
}

impl<E: RepeaterEntry + Clone> Actor<E> {
    /// The repeater inside is well-formed.
    pub closed spec fn wf(&self) -> bool {
        self.core.wf()
    }

    /// Whether the task has been stopped.
    pub closed spec fn stopped(&self) -> bool {
        self.stopped
    }

    /// The policy for entries without a delay.
    pub closed spec fn policy(&self) -> ZeroDelay {
        self.policy
    }

    /// A well-formed actor holds a valid schedule.
    pub proof fn lemma_valid(&self)
        requires
            self.wf(),
        ensures
            valid_schedule(self@),
    {
        self.core.lemma_valid();
    }

    /// A running task around this repeater.
    pub fn new(core: Repeater<E>, policy: ZeroDelay) -> (actor: Self)
        requires
            core.wf(),
        ensures
            actor.wf(),
            actor@ == core@,
            actor.policy() == policy,
            !actor.stopped(),
    {
        Actor { core, policy, stopped: false }
    }

    /// Tells whether the task has been stopped.
    pub fn is_stopped(&self) -> (b: bool)
        ensures
            b == self.stopped(),
    {
        self.stopped
    }

    /// Take in what the channel gave: a message, or `None` when every handle is gone.
    ///
    /// What happens is what `received_by` says.
    pub fn on_message(&mut self, received: Option<Message<E>>) -> (out: Effect<E>)
        requires
            old(self).wf(),
        ensures
            final(self).wf(),
            final(self).policy() == old(self).policy(),
            received_by(
                old(self).policy(),
                old(self).stopped(),
                old(self)@,
                final(self)@,
                final(self).stopped(),
                out,
                received,
            ),
    {
        if self.stopped {
            return Effect::Stopped;
        }
        match received {
            None => {
                self.stopped = true;
                Effect::Stopped
            },
            Some(Message::Stop) => {
                self.stopped = true;
                Effect::Stopped
            },
            Some(Message::Insert(e)) => self.insert(e),
            Some(Message::Remove(key)) => {
                self.core.remove(&key);
                Effect::Nothing
            },
            Some(Message::Clear) => {
                self.core.clear();
                Effect::Nothing
            },
            Some(Message::Len) => Effect::Len(self.core.len()),
            Some(Message::IsEmpty) => Effect::IsEmpty(self.core.is_empty()),
        }
    }

    /// Schedule `e` as the policy says.
    fn insert(&mut self, e: E) -> (out: Effect<E>)
        requires
            old(self).wf(),
        ensures
            final(self).wf(),
            final(self).policy() == old(self).policy(),
            final(self).stopped() == old(self).stopped(),
            insertion_made(old(self).policy(), old(self)@, final(self)@, out, e),
    {
        let ghost pre = self@;
        let delay = e.delay();
        let at_once = match (self.policy, delay) {
            (ZeroDelay::AtOnce, Delay::NoDelay) => true,
            _ => false,
        };
        if at_once {
            let mut kept = e;
            kept.reset_delay();
            let copy = kept.clone();
            let wait = kept.interval();
            let out = match self.core.schedule(kept, wait) {
                Ok(_) => Effect::Deliver(copy),
                Err(error) => Effect::Rejected(error),
            };
            proof {
                let now: SystemTime = arbitrary();
                assert(insertion(self.policy, pre, self@, out, e, delay, now, kept));
            }
            out
        } else {
            let now = SystemTime::now();
            let wait = initial_wait(delay, e.interval(), now);
            let out = match self.core.schedule(e, wait) {
                Ok(_) => Effect::Nothing,
                Err(error) => Effect::Rejected(error),
            };
            proof {
                assert(insertion(self.policy, pre, self@, out, e, delay, now, e));
            }
            out
        }
    }

    /// Poll for an entry that has come due, to hand it to the handler.
    ///
    /// A running task answers as `Repeater::poll_next` does: the entry has been scheduled
    /// again. A stopped task does not look at its timers and delivers nothing.
    pub fn poll_due(&mut self, cx: &mut Context<'_>) -> (r: Option<E>)
        requires
            old(self).wf(),
        ensures
            final(self).wf(),
            final(self).policy() == old(self).policy(),
            final(self).stopped() == old(self).stopped(),
            polled_by(old(self).stopped(), old(self)@, final(self)@, r),
    {
        if self.stopped {
            None
        } else {
            self.core.poll_next(cx)
        }
    }
}

} // verus!
