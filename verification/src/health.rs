use vstd::prelude::*;

verus! {

/// A per-component boolean health flag.
///
/// A read returns exactly the last value written. Exclusive access through
/// `&mut` gives writes the atomicity that acquire/release ordering (or a
/// lock) provides in a shared-memory setting: no read ever observes a
/// partially applied or stale write.
pub struct HealthState {
    healthy: bool,
}

/// The value a flag holds after a sequence of writes is applied in order:
/// the last write, or the initial value when there was none.
pub open spec fn value_after_writes(initial: bool, writes: Seq<bool>) -> bool {
    if writes.len() == 0 {
        initial
    } else {
        writes.last()
    }
}

impl HealthState {
    /// The stored health value: the last value written, or the initial
    /// value if nothing has been written yet.
    pub closed spec fn is_healthy(&self) -> bool {
        self.healthy
    }

    /// Creates a flag holding `initial`.
    pub fn new(initial: bool) -> (s: HealthState)
        ensures
            s.is_healthy() == initial,
    {
        HealthState { healthy: initial }
    }

    /// Reads the flag: the result is the last value written.
    pub fn read(&self) -> (r: bool)
        ensures
            r == self.is_healthy(),
    {
        self.healthy
    }

    /// Writes the flag: a read issued after this write observes `value`
    /// until the next write. Writing the value already stored leaves the
    /// flag unchanged.
    pub fn write(&mut self, value: bool)
        ensures
            final(self).is_healthy() == value,
            old(self).is_healthy() == value ==> *final(self) == *old(self),
    {
        self.healthy = value;
    }

    /// Applies a whole sequence of writes in order. Afterwards the flag
    /// holds the last value of the sequence: a read issued after the
    /// writes complete observes the most recent write, never an earlier
    /// one.
    pub fn write_all(&mut self, writes: &Vec<bool>)
        ensures
            final(self).is_healthy() == value_after_writes(old(self).is_healthy(), writes@),
    {
        let n: usize = writes.len();
        let mut i: usize = 0;
        while i < n
            invariant
                n == writes@.len(),
                i <= n,
                self.is_healthy() == value_after_writes(old(self).is_healthy(), writes@.take(i as int)),
            decreases n - i,
        {
            self.write(writes[i]);
            proof {
                assert(writes@.take(i + 1).last() == writes@[i as int]);
            }
            i = i + 1;
        }
        proof {
            assert(writes@.take(n as int) =~= writes@);
        }
    }
}

} // verus!
