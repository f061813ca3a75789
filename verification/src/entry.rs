//! What a value must offer to be repeated.

use crate::delay::Delay;
use std::time::Duration;
use vstd::prelude::*;

verus! {

/// An entry of the repeater: a value with a key, an interval and, if it wants one, a delay
/// before its first delivery.
///
/// The key and the interval belong to the value: two calls on one value give the same
/// answer, and `reset_delay` changes neither. The repeater relies on this. It is proved of
/// an implementation that is verified, and taken on trust of any other.
pub trait RepeaterEntry {
    /// The key of the entry, as contracts speak of it. A verified implementation defines
    /// it as what `key` returns; left alone, it is a number of which nothing is known.
    open spec fn spec_key(&self) -> u64 {
        arbitrary()
    }

    /// The interval of the entry, as contracts speak of it. A verified implementation
    /// defines it as what `interval` returns.
    open spec fn spec_interval(&self) -> Duration {
        arbitrary()
    }

    /// Duration after which the entry is repeated.
    fn interval(&self) -> (d: Duration)
        ensures
            d == self.spec_interval(),
    ;

    /// Duration after which the first repetition is run: the delay that the entry declares.
    ///
    /// If not implemented, it returns `Delay::NoDelay`: the repetition starts at once.
    fn delay(&self) -> (d: Delay)
        ensures
            d is NoDelay || d == self.spec_delay(),
    {
        Delay::NoDelay
    }

    /// The delay that the entry declares, as contracts speak of it: no delay, unless an
    /// implementation says otherwise. An implementation whose `delay` returns a delay of
    /// its own declares that delay here. `delay` may always answer with no delay, as it
    /// does where it is not implemented.
    open spec fn spec_delay(&self) -> Delay {
        Delay::NoDelay
    }

    /// Identifies the entry. Only the key is stored in the timer queue, not the entry.
    fn key(&self) -> (k: u64)
        ensures
            k == self.spec_key(),
    ;

    /// Called once the delay has been consumed, so that the entry does not ask for it
    /// again when it is inserted anew. If not implemented, it does nothing.
    fn reset_delay(&mut self)
        ensures
            final(self).spec_key() == old(self).spec_key(),
            final(self).spec_interval() == old(self).spec_interval(),
    {
    }
}

} // verus!
