use vstd::prelude::*;

verus! {

/// Hands out strictly increasing 1-based test-point numbers on demand.
///
/// The counter starts at zero, grows by exactly one on each call to
/// [`TapWriter::next`], and is never reset or decremented. Its abstract
/// value, reached through `@`, is the number of `next` calls made so far.
pub struct TapWriter {
    counter: usize,
}

impl View for TapWriter {
    type V = nat;

    closed spec fn view(&self) -> nat {
        self.counter as nat
    }
}

impl TapWriter {
    /// A fresh generator: `count` reports zero until `next` is called.
    pub fn new() -> (w: Self)
        ensures
            w@ == 0,
    {
        TapWriter { counter: 0 }
    }

    /// Increments the counter by exactly one and returns the new value;
    /// the first call returns 1. The counter must not yet have reached the
    /// integer's maximum: keeping test counts below that bound is a
    /// caller-facing constraint, practically unreachable in a test run.
    pub fn next(&mut self) -> (n: usize)
        requires
            old(self)@ < usize::MAX,
        ensures
            final(self)@ == old(self)@ + 1,
            n == final(self)@,
    {
        self.counter = self.counter + 1;
        self.counter
    }

    /// The current counter value, without changing it: 0 on a fresh
    /// generator, otherwise the value the latest `next` call returned.
    pub fn count(&self) -> (n: usize)
        ensures
            n == self@,
    {
        self.counter
    }
}

} // verus!
