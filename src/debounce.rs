use vstd::prelude::*;

verus! {

/// Minimum time, in milliseconds, between two accepted commands.
pub const DEBOUNCE_MS: u64 = 300;

/// Whether a command at `now` is let through, given the time of the last accepted one.
pub open spec fn admits(last: Option<u64>, now: u64) -> bool {
    match last {
        None => true,
        Some(t) => now >= t && now - t >= DEBOUNCE_MS,
    }
}

/// Drops commands that follow the last accepted command too closely.
pub struct Debouncer {
    last_accepted: Option<u64>,
}

impl View for Debouncer {
    type V = Option<u64>;

    /// The time of the last accepted command, if any was accepted.
    closed spec fn view(&self) -> Option<u64> {
        self.last_accepted
    }
}

impl Debouncer {
    /// A debouncer that has accepted nothing yet, so its first command passes.
    pub fn new() -> (r: Debouncer)
        ensures
            r@ is None,
    {
        Debouncer { last_accepted: None }
    }

    /// Accepts a command at `now` (milliseconds) iff at least `DEBOUNCE_MS` have passed
    /// since the last accepted one; only an accepted command moves the reference time.
    pub fn allow(&mut self, now: u64) -> (r: bool)
        ensures
            r == admits(old(self)@, now),
            final(self)@ == if r { Some(now) } else { old(self)@ },
    {
        let pass = match self.last_accepted {
            None => true,
            Some(t) => now >= t && now - t >= DEBOUNCE_MS,
        };
        if pass {
            self.last_accepted = Some(now);
        }
        pass
    }
}

/// After a first command at `t1`, a command at `t2` passes iff `t2 - t1 >= DEBOUNCE_MS`;
/// when it is dropped, a command at `t3` is still measured from `t1`, not from `t2`.
pub proof fn lemma_rejection_keeps_reference(t1: u64, t2: u64, t3: u64)
    requires
        t1 <= t2,
    ensures
        admits(None, t1),
        admits(Some(t1), t2) <==> t2 - t1 >= DEBOUNCE_MS,
        !admits(Some(t1), t2) ==> (admits(Some(t1), t3) <==> (t3 >= t1 && t3 - t1
            >= DEBOUNCE_MS)),
{
}

} // verus!
