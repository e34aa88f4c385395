use vstd::prelude::*;
use std::rc::Rc;
use crate::event::Event;
use crate::event::delivered_of;
use crate::event::has_terminal;
use crate::event::is_terminal;
use crate::event::lemma_delivered_cut;
use crate::event::lemma_delivered_prefix;
use crate::event::valid_delivery;
use crate::observer::NoOpComplete;
use crate::observer::NoOpError;
use crate::observer::NoOpNext;
use crate::observer::NoOpStart;
use crate::observer::Observer;
use crate::observer::SimpleObserver;
use crate::subscription::DefaultSubscription;
use crate::subscription::NoTeardown;
use crate::subscription::ScopeBody;
use crate::subscription::Subscription;
use crate::subscription::Teardown;

verus! {

/// A producer of values. `delivered()` is the event sequence one `subscribe`
/// call pushes to its observer: every subscriber receives exactly that
/// sequence, appended to whatever it had already received, so any two
/// subscribers get their own full, identical copy of the stream. `held_by`
/// reads the observer a subscription of this observable holds, so the
/// contracts below can speak of its state after delivery.
pub trait Observable: Sized {
    type Item;

    type Error;

    type Observer: Observer<Self::Item, Self::Error>;

    type SubscriptionType: Subscription;

    spec fn delivered(&self) -> Seq<Event<Self::Item, Self::Error>>;

    spec fn held_by(s: &Self::SubscriptionType) -> Self::Observer;

    /// What an observable delivers is always lawful: at most one terminal
    /// signal, and no event after it.
    proof fn lemma_delivery_lawful(&self)
        ensures
            valid_delivery(self.delivered()),
    ;

    /// Registers the observer and pushes the delivery to it: it is started
    /// exactly once, before any event of this delivery, then receives the
    /// delivery in order. The returned subscription is fresh and
    /// still-attached, and holds the observer; the shared handle the caller
    /// passes in is how the subscription keeps its observable alive.
    fn subscribe(self: Rc<Self>, observer: Self::Observer) -> (s: Self::SubscriptionType)
        ensures
            Self::held_by(&s).received() == observer.received() + (*self).delivered(),
            Self::held_by(&s).starts() == observer.starts() + 1,
            Self::held_by(&s).received_at_start() == observer.received(),
            s.wf(),
            !s.released(),
            s.teardowns() == 0,
    ;

    /// Removes the observer from the active set, if it is tracked. The
    /// baseline is permissive: it tracks no active set, so this never faults
    /// and never changes what the observable delivers.
    fn unsubscribe(&mut self, observer: &Self::Observer)
        ensures
            final(self).delivered() == old(self).delivered(),
    ;
}

/// The baseline concrete observable: it replays a fixed script of events,
/// synchronously, to each observer that subscribes. Delivery is gated by the
/// terminal rule: anything the script holds after its first terminal signal
/// is suppressed, never pushed.
pub struct DefaultObservable<T, E> {
    events: Vec<Event<T, E>>,
}

impl<T: Copy, E: Copy> DefaultObservable<T, E> {
    /// The full event sequence this observable's producer issues, before the
    /// terminal gate is applied.
    pub closed spec fn script(&self) -> Seq<Event<T, E>> {
        self.events@
    }

    /// An observable that will issue exactly `events`, in order.
    pub fn new(events: Vec<Event<T, E>>) -> (r: Self)
        ensures
            r.script() == events@,
    {
        DefaultObservable { events }
    }

    /// Registers any observer, with a caller-chosen teardown behavior for
    /// the subscription. The observer is started exactly once, before any
    /// event of this delivery, then receives exactly the gated delivery of
    /// this observable's script: the script itself if no event is terminal,
    /// else the prefix through the first terminal. The returned subscription
    /// binds this observable (through the consumed shared handle) to the
    /// delivered-to observer, which it holds.
    pub fn subscribe_observer<Obs: Observer<T, E>, D: Teardown>(
        self: Rc<Self>,
        observer: Obs,
        teardown: D,
    ) -> (s: DefaultSubscription<T, E, Obs, D>)
        ensures
            s.source() == *self,
            s.held_observer().received() == observer.received() + delivered_of((*self).script()),
            s.held_observer().starts() == observer.starts() + 1,
            s.held_observer().received_at_start() == observer.received(),
            s.wf(),
            !s.released(),
            s.teardowns() == 0,
    {
        let mut obs = observer;
        let ghost base = obs.received();
        let ghost s = (*self).script();
        let ghost n0 = obs.starts();
        obs.start();
        let mut i: usize = 0;
        let mut done = false;
        while i < self.events.len() && !done
            invariant
                i <= self.events.len(),
                s == (*self).script(),
                obs.starts() == n0 + 1,
                obs.received_at_start() == base,
                !done ==> !has_terminal(s.take(i as int)) && obs.received() == base + s.take(
                    i as int,
                ),
                done ==> obs.received() == base + delivered_of(s),
            decreases self.events.len() - i,
        {
            let ev = self.events[i];
            match ev {
                Event::Next(v) => {
                    obs.next(v);
                },
                Event::Complete => {
                    obs.complete();
                    done = true;
                },
                Event::Error(err) => {
                    obs.error(err);
                    done = true;
                },
            }
            proof {
                let j = i as int;
                assert(obs.received() == base + s.take(j) + seq![s[j]]);
                assert(base + s.take(j) + seq![s[j]] =~= base + s.take(j + 1));
                if done {
                    lemma_delivered_cut(s, j);
                } else {
                    assert(!has_terminal(s.take(j + 1))) by {
                        if has_terminal(s.take(j + 1)) {
                            let k = choose|k: int|
                                0 <= k < s.take(j + 1).len() && #[trigger] is_terminal(
                                    s.take(j + 1)[k],
                                );
                            if k < j {
                                assert(is_terminal(s.take(j)[k]));
                            } else {
                                assert(s.take(j + 1)[k] == s[j]);
                            }
                        }
                    };
                }
            }
            i = i + 1;
        }
        proof {
            if !done {
                assert(s.take(i as int) =~= s);
                lemma_delivered_prefix(s);
            }
        }
        DefaultSubscription::new(self, obs, teardown)
    }

    /// Scoped acquisition with guaranteed release: subscribes the observer,
    /// runs the caller's body with the live subscription — the observer's
    /// own handle, through which the body may cancel — and releases the
    /// subscription when the body returns, whether or not the body released
    /// it already. The returned subscription has run its teardown behavior
    /// exactly once, on every exit path.
    pub fn subscribe_scoped<Obs: Observer<T, E>, D: Teardown, B: ScopeBody<T, E, Obs, D>>(
        self: Rc<Self>,
        observer: Obs,
        teardown: D,
        body: &mut B,
    ) -> (s: DefaultSubscription<T, E, Obs, D>)
        ensures
            s.source() == *self,
            s.held_observer().received() == observer.received() + delivered_of((*self).script()),
            s.held_observer().starts() == observer.starts() + 1,
            s.held_observer().received_at_start() == observer.received(),
            s.wf(),
            s.released(),
            s.teardowns() == 1,
    {
        let mut sub = self.subscribe_observer(observer, teardown);
        body.run(&mut sub);
        sub.unsubscribe();
        proof {
            sub.lemma_teardown_once();
        }
        sub
    }
}

impl<T: Copy, E: Copy> Observable for DefaultObservable<T, E> {
    type Item = T;

    type Error = E;

    type Observer = SimpleObserver<T, E, NoOpStart, NoOpNext<T>, NoOpComplete, NoOpError<E>>;

    type SubscriptionType = DefaultSubscription<
        T,
        E,
        SimpleObserver<T, E, NoOpStart, NoOpNext<T>, NoOpComplete, NoOpError<E>>,
        NoTeardown,
    >;

    open spec fn delivered(&self) -> Seq<Event<T, E>> {
        delivered_of(self.script())
    }

    open spec fn held_by(s: &Self::SubscriptionType) -> Self::Observer {
        s.held_observer()
    }

    proof fn lemma_delivery_lawful(&self) {
        lemma_delivered_prefix(self.script());
    }

    fn subscribe(self: Rc<Self>, observer: Self::Observer) -> (s: Self::SubscriptionType) {
        self.subscribe_observer(observer, NoTeardown::new())
    }

    fn unsubscribe(&mut self, _observer: &Self::Observer) {
    }
}

/// Multicast isolation: two subscriptions driven by the same script each
/// receive their own full copy of the same delivery. If each observer's log
/// grew by the script's gated delivery, the fresh parts of the two logs are
/// equal, whatever either observer had received before.
pub proof fn lemma_multicast_isolation<T, E>(
    script: Seq<Event<T, E>>,
    a_before: Seq<Event<T, E>>,
    a_after: Seq<Event<T, E>>,
    b_before: Seq<Event<T, E>>,
    b_after: Seq<Event<T, E>>,
)
    requires
        a_after == a_before + delivered_of(script),
        b_after == b_before + delivered_of(script),
    ensures
        a_after.skip(a_before.len() as int) == b_after.skip(b_before.len() as int),
{
    assert(a_after.skip(a_before.len() as int) =~= delivered_of(script));
    assert(b_after.skip(b_before.len() as int) =~= delivered_of(script));
}

} // verus!
