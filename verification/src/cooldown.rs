//! A timer that gates an action: once fired, the action is not ready again
//! until an interval has passed.

use vstd::prelude::*;
use crate::time::{Duration, Timestamp};

verus! {

/// When an action was last fired, and how long it then rests.
#[derive(Clone, Copy, Debug, PartialEq, Eq, Structural)]
pub struct Cooldown {
    /// When the action was last fired; `None` until it first is.
    pub last_emit: Option<Timestamp>,
    /// How long the action rests after it was fired.
    pub cooldown: Duration,
}

impl Cooldown {
    /// A cooldown of the given interval that has not fired yet.
    pub open spec fn spec_with_duration(value: Duration) -> Cooldown {
        Cooldown { last_emit: None, cooldown: value }
    }

    /// Whether the action is ready at `now`: it never fired, or the interval
    /// has passed since it last did.
    pub open spec fn spec_is_over(&self, now: Timestamp) -> bool {
        match self.last_emit {
            Some(last) => now.spec_since(last).nanos >= self.cooldown.nanos,
            None => true,
        }
    }

    /// The cooldown after the action fired at `now`.
    pub open spec fn spec_reset(self, now: Timestamp) -> Cooldown {
        Cooldown { last_emit: Some(now), cooldown: self.cooldown }
    }

    /// A cooldown of the given interval that has not fired yet, so that the
    /// action is ready at once.
    #[verifier::when_used_as_spec(spec_with_duration)]
    pub fn with_duration(value: Duration) -> (fresh: Cooldown)
        ensures
            fresh == Cooldown::spec_with_duration(value),
    {
        Cooldown { last_emit: None, cooldown: value }
    }

    /// Whether the action is ready at `now`.
    #[verifier::when_used_as_spec(spec_is_over)]
    pub fn is_over(&self, now: Timestamp) -> (ready: bool)
        ensures
            ready == self.spec_is_over(now),
    {
        match self.last_emit {
            Some(last) => now.since(last).nanos >= self.cooldown.nanos,
            None => true,
        }
    }

    /// Records that the action fired at `now`.
    pub fn reset(&mut self, now: Timestamp)
        ensures
            *final(self) == old(self).spec_reset(now),
    {
        self.last_emit = Some(now);
    }
}

/// A cooldown that never fired is over at any time.
pub proof fn lemma_unfired_is_over(interval: Duration, now: Timestamp)
    ensures
        Cooldown::spec_with_duration(interval).spec_is_over(now),
{
}

/// Right after a reset, a cooldown with an interval is not over; once the
/// interval has passed it is, and stays so.
pub proof fn lemma_reset_then_over(cooldown: Cooldown, now: Timestamp, later: Timestamp)
    ensures
        cooldown.cooldown.nanos > 0 ==> !cooldown.spec_reset(now).spec_is_over(now),
        later.nanos >= now.nanos + cooldown.cooldown.nanos ==> cooldown.spec_reset(now).spec_is_over(
            later,
        ),
        now.nanos <= later.nanos < now.nanos + cooldown.cooldown.nanos ==> !cooldown.spec_reset(
            now,
        ).spec_is_over(later),
{
}

} // verus!
