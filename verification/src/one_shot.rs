//! One-shot completion signal.
//!
//! External operations (an image decode, a scheduler timer) report their
//! completion through a pair of mutually exclusive callbacks, each of which
//! may fire at most once but whose host gives no ordering guarantee beyond
//! "one of them fires first". [`OneShot`] turns that into sequential control
//! flow: the first [`OneShot::fire`] resolves the signal and every later
//! fire is a no-op, so a double fire can neither panic nor overwrite the
//! resolution. The waiting side collects the resolution with
//! [`OneShot::take`].

use vstd::prelude::*;

verus! {

/// Single-producer/single-consumer signal that resolves at most once.
#[derive(Debug)]
pub struct OneShot<T> {
    /// Whether some fire has already been accepted.
    pub fired: bool,
    /// The accepted resolution, until the consumer takes it.
    pub value: Option<T>,
}

impl<T> OneShot<T> {
    /// A value is only ever present once the signal has fired.
    pub open spec fn wf(self) -> bool {
        self.value is Some ==> self.fired
    }

    /// The transition taken by [`OneShot::fire`].
    pub open spec fn spec_fire(self, value: T) -> (OneShot<T>, bool) {
        if self.fired {
            (self, false)
        } else {
            (OneShot { fired: true, value: Some(value) }, true)
        }
    }

    pub fn new() -> (r: OneShot<T>)
        ensures
            !r.fired,
            r.value is None,
            r.wf(),
    {
        OneShot { fired: false, value: None }
    }

    /// Offer a resolution. The first offer is accepted and stored; every
    /// later offer is refused and changes nothing.
    pub fn fire(&mut self, value: T) -> (accepted: bool)
        ensures
            (*final(self), accepted) == old(self).spec_fire(value),
            accepted == !old(self).fired,
            final(self).fired,
            accepted ==> final(self).value == Some(value),
            !accepted ==> *final(self) == *old(self),
            old(self).wf() ==> final(self).wf(),
    {
        if self.fired {
            false
        } else {
            self.fired = true;
            self.value = Some(value);
            true
        }
    }

    pub fn is_fired(&self) -> (r: bool)
        ensures
            r == self.fired,
    {
        self.fired
    }

    /// Collect the resolution, leaving the signal fired but empty, so a
    /// resolution is consumed exactly once.
    pub fn take(&mut self) -> (r: Option<T>)
        ensures
            r == old(self).value,
            final(self).value is None,
            final(self).fired == old(self).fired,
            final(self).wf(),
    {
        self.value.take()
    }
}

/// Law: whichever of two offers comes first wins. On an unfired signal, the
/// first fire is accepted; the second fire (the other callback of the pair)
/// is refused, changes nothing, and the stored resolution is still the
/// first one.
pub proof fn lemma_first_fire_wins<T>(s: OneShot<T>, first: T, second: T)
    requires
        !s.fired,
    ensures
        ({
            let (s1, a1) = s.spec_fire(first);
            let (s2, a2) = s1.spec_fire(second);
            &&& a1
            &&& !a2
            &&& s2 == s1
            &&& s2.value == Some(first)
        }),
{
}

} // verus!
