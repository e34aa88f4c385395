use vstd::prelude::*;
use std::rc::Rc;
use crate::event::Event;
use crate::observable::DefaultObservable;
use crate::observer::Observer;

verus! {

/// Teardown behavior run when a subscription is released. `runs()` counts how
/// often the behavior has run, and `run` must run it; the library guarantees
/// it runs exactly once per subscription, however the release is triggered.
pub trait Teardown: Sized {
    spec fn runs(&self) -> nat;

    fn run(&mut self)
        ensures
            final(self).runs() == old(self).runs() + 1,
    ;
}

/// The default teardown: nothing to release, runs silently.
pub struct NoTeardown {
    count: Ghost<nat>,
}

impl NoTeardown {
    pub fn new() -> (r: Self)
        ensures
            r.runs() == 0,
    {
        NoTeardown { count: Ghost(0nat) }
    }
}

impl Teardown for NoTeardown {
    closed spec fn runs(&self) -> nat {
        self.count@
    }

    fn run(&mut self) {
        self.count = Ghost(self.count@ + 1);
    }
}

/// A recording teardown: counts its runs in plain data a caller can read
/// back, so release behavior is observable.
pub struct RecordingTeardown {
    marks: Vec<bool>,
}

impl RecordingTeardown {
    pub fn new() -> (r: Self)
        ensures
            r.runs() == 0,
    {
        RecordingTeardown { marks: Vec::new() }
    }

    /// How often this teardown behavior has run.
    pub fn count(&self) -> (r: usize)
        ensures
            r as nat == self.runs(),
    {
        self.marks.len()
    }
}

impl Teardown for RecordingTeardown {
    closed spec fn runs(&self) -> nat {
        self.marks@.len()
    }

    fn run(&mut self) {
        self.marks.push(true);
    }
}

/// One observer's attachment to one observable. `released()` says whether the
/// attachment has been torn down; `teardowns()` counts how often the teardown
/// behavior has run for this subscription. A well-formed subscription has run
/// it exactly once when released and never before.
pub trait Subscription: Sized {
    spec fn wf(&self) -> bool;

    spec fn released(&self) -> bool;

    spec fn teardowns(&self) -> nat;

    /// The teardown behavior of a well-formed subscription runs exactly once
    /// over its life: exactly when the subscription is released.
    proof fn lemma_teardown_once(&self)
        requires
            self.wf(),
        ensures
            self.teardowns() == if self.released() {
                1nat
            } else {
                0nat
            },
    ;

    /// Releases the attachment. The first call runs the teardown behavior
    /// once; any later call is a no-op that changes nothing.
    fn unsubscribe(&mut self)
        requires
            old(self).wf(),
        ensures
            final(self).wf(),
            final(self).released(),
            old(self).released() ==> *final(self) == *old(self),
            !old(self).released() ==> final(self).teardowns() == old(self).teardowns() + 1,
    ;
}

/// The concrete subscription handed out by the baseline observable: it binds
/// the observable it was made by (held through a shared reference, since the
/// observable may serve other subscriptions) to the one observer it delivered
/// to (owned, since an observer is claimed by exactly one subscription), and
/// it owns a teardown behavior that it runs exactly once, on the first
/// `unsubscribe`, whether the caller issues that call itself or an owning
/// scope (such as `subscribe_scoped`) issues it when the scope closes.
pub struct DefaultSubscription<T: Copy, E: Copy, Obs: Observer<T, E>, D: Teardown> {
    observable: Rc<DefaultObservable<T, E>>,
    observer: Obs,
    teardown: D,
    done: bool,
    base: Ghost<nat>,
}

impl<T: Copy, E: Copy, Obs: Observer<T, E>, D: Teardown> DefaultSubscription<T, E, Obs, D> {
    /// The observable this subscription is an attachment to.
    pub closed spec fn source(&self) -> DefaultObservable<T, E> {
        *self.observable
    }

    /// The observer this subscription holds, in its current state.
    pub closed spec fn held_observer(&self) -> Obs {
        self.observer
    }

    /// The teardown behavior this subscription owns, in its current state.
    pub closed spec fn held_teardown(&self) -> D {
        self.teardown
    }

    /// A fresh, still-attached subscription binding `observable` to
    /// `observer`, with `teardown` as its release behavior.
    pub fn new(observable: Rc<DefaultObservable<T, E>>, observer: Obs, teardown: D) -> (r: Self)
        ensures
            r.source() == *observable,
            r.held_observer() == observer,
            r.wf(),
            !r.released(),
            r.teardowns() == 0,
    {
        DefaultSubscription {
            observable,
            observer,
            base: Ghost(teardown.runs()),
            teardown,
            done: false,
        }
    }

    /// Whether this subscription has already been released.
    pub fn is_released(&self) -> (r: bool)
        ensures
            r == self.released(),
    {
        self.done
    }

    /// The held observer, for inspection.
    pub fn observer_ref(&self) -> (r: &Obs)
        ensures
            *r == self.held_observer(),
    {
        &self.observer
    }

    /// The owned teardown behavior, for inspection.
    pub fn teardown_ref(&self) -> (r: &D)
        ensures
            *r == self.held_teardown(),
    {
        &self.teardown
    }
}

impl<T: Copy, E: Copy, Obs: Observer<T, E>, D: Teardown> Subscription for DefaultSubscription<
    T,
    E,
    Obs,
    D,
> {
    closed spec fn wf(&self) -> bool {
        self.teardown.runs() == self.base@ + if self.done {
            1nat
        } else {
            0nat
        }
    }

    closed spec fn released(&self) -> bool {
        self.done
    }

    closed spec fn teardowns(&self) -> nat {
        (self.teardown.runs() - self.base@) as nat
    }

    proof fn lemma_teardown_once(&self) {
    }

    fn unsubscribe(&mut self)
        ensures
            final(self).held_observer() == old(self).held_observer(),
            final(self).source() == old(self).source(),
            !old(self).released() ==> final(self).held_teardown().runs() == old(
                self,
            ).held_teardown().runs() + 1,
    {
        if !self.done {
            self.done = true;
            self.teardown.run();
        }
    }
}

/// Work done while a subscription is held open by `subscribe_scoped`. The
/// body receives the live subscription — the observer's own handle, through
/// which it can cancel — and may release it early or leave it alone; either
/// way the owning scope releases it when the body returns.
pub trait ScopeBody<T: Copy, E: Copy, Obs: Observer<T, E>, D: Teardown>: Sized {
    fn run(&mut self, sub: &mut DefaultSubscription<T, E, Obs, D>)
        requires
            old(sub).wf(),
        ensures
            final(sub).wf(),
            final(sub).held_observer() == old(sub).held_observer(),
            final(sub).source() == old(sub).source(),
    ;
}

/// A scope body that cancels its subscription at once: the teardown runs
/// here, and the owning scope's closing release is then a no-op.
pub struct ReleaseEarly;

impl<T: Copy, E: Copy, Obs: Observer<T, E>, D: Teardown> ScopeBody<T, E, Obs, D> for ReleaseEarly {
    fn run(&mut self, sub: &mut DefaultSubscription<T, E, Obs, D>) {
        sub.unsubscribe();
    }
}

/// A scope body that does nothing: release is left entirely to the owning
/// scope.
pub struct HoldOpen;

impl<T: Copy, E: Copy, Obs: Observer<T, E>, D: Teardown> ScopeBody<T, E, Obs, D> for HoldOpen {
    fn run(&mut self, _sub: &mut DefaultSubscription<T, E, Obs, D>) {
    }
}

} // verus!
