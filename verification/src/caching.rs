use vstd::prelude::*;
use crate::focus::damage_report;

verus! {

/// What an applet last produced (its window or its tree view), kept until
/// the applet reports a change, with whether a change is pending.
pub struct Cache<T> {
    value: T,
    damaged: bool,
}

impl<T> Cache<T> {
    pub closed spec fn spec_value(self) -> T {
        self.value
    }

    /// A change is pending: the kept value may be stale.
    pub closed spec fn pending(self) -> bool {
        self.damaged
    }

    /// Keeps `value`, stale until it is first refreshed.
    pub fn new(value: T) -> (cache: Cache<T>)
        ensures
            cache.spec_value() == value,
            cache.pending(),
    {
        Cache { value, damaged: true }
    }

    /// The applet reports a change: returns whether the parent must hear
    /// of it (only when no change was pending).
    pub fn damage(&mut self) -> (notify: bool)
        ensures
            final(self).spec_value() == old(self).spec_value(),
            (notify, final(self).pending()) == damage_report(old(self).pending()),
    {
        let notify = !self.damaged;
        self.damaged = true;
        notify
    }

    /// Starts a read: returns whether the kept value must be recomputed,
    /// and from now on no change is pending.
    pub fn take_pending(&mut self) -> (refresh: bool)
        ensures
            refresh == old(self).pending(),
            !final(self).pending(),
            final(self).spec_value() == old(self).spec_value(),
    {
        let refresh = self.damaged;
        self.damaged = false;
        refresh
    }

    /// Keeps a freshly computed value.
    pub fn refresh(&mut self, value: T)
        ensures
            final(self).spec_value() == value,
            final(self).pending() == old(self).pending(),
    {
        self.value = value;
    }

    /// Marks the kept value stale without reporting it (the applet is
    /// still changing).
    pub fn mark_pending(&mut self)
        ensures
            final(self).spec_value() == old(self).spec_value(),
            final(self).pending(),
    {
        self.damaged = true;
    }

    pub fn value(&self) -> (v: &T)
        ensures
            *v == self.spec_value(),
    {
        &self.value
    }

    /// Reads the kept value, as a cached applet reads its window: when a
    /// change is pending, `draw` (the applet drawing itself now) is called
    /// and its result kept, and otherwise it is not called; then
    /// `still_changing` (whether the applet still has changes) is called,
    /// and the value stays stale exactly when it says so. Returns the kept
    /// value.
    pub fn read<F: FnOnce() -> T, G: FnOnce() -> bool>(&mut self, draw: F, still_changing: G) -> (v: &T)
        requires
            draw.requires(()),
            still_changing.requires(()),
        ensures
            old(self).pending() ==> draw.ensures((), final(self).spec_value()),
            !old(self).pending() ==> final(self).spec_value() == old(self).spec_value(),
            still_changing.ensures((), final(self).pending()),
            *v == final(self).spec_value(),
    {
        if self.take_pending() {
            let fresh = draw();
            self.refresh(fresh);
        }
        if still_changing() {
            self.mark_pending();
        }
        &self.value
    }
}

} // verus!
