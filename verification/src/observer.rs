use vstd::prelude::*;
use crate::event::Event;

verus! {

/// Behavior run when a stream starts delivering to an observer. `starts()`
/// counts how often the behavior has run; `on_start` must run it.
pub trait StartHandler: Sized {
    spec fn starts(&self) -> nat;

    fn on_start(&mut self)
        ensures
            final(self).starts() == old(self).starts() + 1,
    ;
}

/// Behavior run for each item an observer receives. `seen()` is the sequence
/// of items the behavior has handled; `on_next` must hand it the item.
pub trait NextHandler<T>: Sized {
    spec fn seen(&self) -> Seq<T>;

    fn on_next(&mut self, value: T)
        ensures
            final(self).seen() == old(self).seen().push(value),
    ;
}

/// Behavior run when a stream completes successfully. `completions()` counts
/// how often the behavior has run.
pub trait CompleteHandler: Sized {
    spec fn completions(&self) -> nat;

    fn on_complete(&mut self)
        ensures
            final(self).completions() == old(self).completions() + 1,
    ;
}

/// Behavior run when a stream ends with a failure payload. `seen()` is the
/// sequence of payloads the behavior has handled.
pub trait ErrorHandler<E>: Sized {
    spec fn seen(&self) -> Seq<E>;

    fn on_error(&mut self, err: E)
        ensures
            final(self).seen() == old(self).seen().push(err),
    ;
}

/// The safe default for the start slot: runs silently, never faults.
pub struct NoOpStart {
    count: Ghost<nat>,
}

impl NoOpStart {
    pub fn new() -> (r: Self)
        ensures
            r.starts() == 0,
    {
        NoOpStart { count: Ghost(0nat) }
    }
}

impl StartHandler for NoOpStart {
    closed spec fn starts(&self) -> nat {
        self.count@
    }

    fn on_start(&mut self) {
        self.count = Ghost(self.count@ + 1);
    }
}

/// The safe default for the item slot: accepts every item silently.
pub struct NoOpNext<T> {
    hist: Ghost<Seq<T>>,
}

impl<T> NoOpNext<T> {
    pub fn new() -> (r: Self)
        ensures
            r.seen() == Seq::<T>::empty(),
    {
        NoOpNext { hist: Ghost(Seq::empty()) }
    }
}

impl<T> NextHandler<T> for NoOpNext<T> {
    closed spec fn seen(&self) -> Seq<T> {
        self.hist@
    }

    fn on_next(&mut self, value: T) {
        let ghost v = value;
        self.hist = Ghost(self.hist@.push(v));
    }
}

/// The safe default for the completion slot: runs silently, never faults.
pub struct NoOpComplete {
    count: Ghost<nat>,
}

impl NoOpComplete {
    pub fn new() -> (r: Self)
        ensures
            r.completions() == 0,
    {
        NoOpComplete { count: Ghost(0nat) }
    }
}

impl CompleteHandler for NoOpComplete {
    closed spec fn completions(&self) -> nat {
        self.count@
    }

    fn on_complete(&mut self) {
        self.count = Ghost(self.count@ + 1);
    }
}

/// The safe default for the error slot: accepts every payload silently.
pub struct NoOpError<E> {
    hist: Ghost<Seq<E>>,
}

impl<E> NoOpError<E> {
    pub fn new() -> (r: Self)
        ensures
            r.seen() == Seq::<E>::empty(),
    {
        NoOpError { hist: Ghost(Seq::empty()) }
    }
}

impl<E> ErrorHandler<E> for NoOpError<E> {
    closed spec fn seen(&self) -> Seq<E> {
        self.hist@
    }

    fn on_error(&mut self, err: E) {
        let ghost e = err;
        self.hist = Ghost(self.hist@.push(e));
    }
}


/// A recording start callback: counts its runs in plain data a caller can
/// read back.
pub struct RecordingStart {
    marks: Vec<bool>,
}

impl RecordingStart {
    pub fn new() -> (r: Self)
        ensures
            r.starts() == 0,
    {
        RecordingStart { marks: Vec::new() }
    }

    /// How often the stream has been started on this callback.
    pub fn count(&self) -> (r: usize)
        ensures
            r as nat == self.starts(),
    {
        self.marks.len()
    }
}

impl StartHandler for RecordingStart {
    closed spec fn starts(&self) -> nat {
        self.marks@.len()
    }

    fn on_start(&mut self) {
        self.marks.push(true);
    }
}

/// A recording item callback: keeps every item it is handed, in order, in a
/// plain vector a caller can read back.
pub struct RecordingNext<T> {
    items: Vec<T>,
}

impl<T> RecordingNext<T> {
    pub fn new() -> (r: Self)
        ensures
            r.seen() == Seq::<T>::empty(),
    {
        RecordingNext { items: Vec::new() }
    }

    /// The items handed to this callback so far, in order.
    pub fn items_ref(&self) -> (r: &Vec<T>)
        ensures
            r@ == self.seen(),
    {
        &self.items
    }
}

impl<T> NextHandler<T> for RecordingNext<T> {
    closed spec fn seen(&self) -> Seq<T> {
        self.items@
    }

    fn on_next(&mut self, value: T) {
        self.items.push(value);
    }
}

/// A recording completion callback: counts its runs in plain data a caller
/// can read back.
pub struct RecordingComplete {
    marks: Vec<bool>,
}

impl RecordingComplete {
    pub fn new() -> (r: Self)
        ensures
            r.completions() == 0,
    {
        RecordingComplete { marks: Vec::new() }
    }

    /// How often completion has been signalled to this callback.
    pub fn count(&self) -> (r: usize)
        ensures
            r as nat == self.completions(),
    {
        self.marks.len()
    }
}

impl CompleteHandler for RecordingComplete {
    closed spec fn completions(&self) -> nat {
        self.marks@.len()
    }

    fn on_complete(&mut self) {
        self.marks.push(true);
    }
}

/// A recording error callback: keeps every failure payload it is handed, in
/// order, in a plain vector a caller can read back.
pub struct RecordingError<E> {
    errs: Vec<E>,
}

impl<E> RecordingError<E> {
    pub fn new() -> (r: Self)
        ensures
            r.seen() == Seq::<E>::empty(),
    {
        RecordingError { errs: Vec::new() }
    }

    /// The failure payloads handed to this callback so far, in order.
    pub fn errors_ref(&self) -> (r: &Vec<E>)
        ensures
            r@ == self.seen(),
    {
        &self.errs
    }
}

impl<E> ErrorHandler<E> for RecordingError<E> {
    closed spec fn seen(&self) -> Seq<E> {
        self.errs@
    }

    fn on_error(&mut self, err: E) {
        self.errs.push(err);
    }
}

/// A consumer of a push-based event sequence. `received()` is the history of
/// events delivered to it, in order: each delivery method appends exactly the
/// event it was handed. `starts()` counts start notifications, and
/// `received_at_start()` is what the observer had received when the latest
/// start notification ran, so a delivery whose start came first leaves it at
/// the pre-delivery history.
pub trait Observer<T, E>: Sized {
    spec fn received(&self) -> Seq<Event<T, E>>;

    spec fn starts(&self) -> nat;

    spec fn received_at_start(&self) -> Seq<Event<T, E>>;

    /// Invoked once per subscription, before any item is delivered. In the
    /// synchronous baseline every delivery completes inside `subscribe`
    /// before control returns, and cancellation cannot interrupt a delivery
    /// already in progress, so the subscription handle is not passed here:
    /// it is returned by `subscribe` itself, and under `subscribe_scoped`
    /// the scope body receives the live handle and may cancel through it.
    fn start(&mut self)
        ensures
            final(self).received() == old(self).received(),
            final(self).starts() == old(self).starts() + 1,
            final(self).received_at_start() == old(self).received(),
    ;

    /// Invoked once per item, in the order the producer issued them.
    fn next(&mut self, value: T)
        ensures
            final(self).received() == old(self).received().push(Event::Next(value)),
            final(self).starts() == old(self).starts(),
            final(self).received_at_start() == old(self).received_at_start(),
    ;

    /// Invoked at most once, when the stream ends successfully.
    fn complete(&mut self)
        ensures
            final(self).received() == old(self).received().push(Event::Complete),
            final(self).starts() == old(self).starts(),
            final(self).received_at_start() == old(self).received_at_start(),
    ;

    /// Invoked at most once, when the stream ends with a failure.
    fn error(&mut self, err: E)
        ensures
            final(self).received() == old(self).received().push(Event::Error(err)),
            final(self).starts() == old(self).starts(),
            final(self).received_at_start() == old(self).received_at_start(),
    ;
}

/// A concrete observer assembled from plain callback values, one slot per
/// signal, each defaulting to a no-op handler when left unspecified. Its
/// start count is its start slot's own run count, and each delivery method
/// hands the event to the matching slot, so the stored behaviors demonstrably
/// run: the handler models below advance in step with the event history.
pub struct SimpleObserver<T, E, S, N, C, F> {
    start_fn: S,
    next_fn: N,
    complete_fn: C,
    error_fn: F,
    log: Ghost<Seq<Event<T, E>>>,
    at_start: Ghost<Seq<Event<T, E>>>,
}

impl<T, E, S: StartHandler, N: NextHandler<T>, C: CompleteHandler, F: ErrorHandler<E>> SimpleObserver<
    T,
    E,
    S,
    N,
    C,
    F,
> {
    /// The items the stored item callback has handled.
    pub closed spec fn next_handled(&self) -> Seq<T> {
        self.next_fn.seen()
    }

    /// How often the stored completion callback has run.
    pub closed spec fn completions_handled(&self) -> nat {
        self.complete_fn.completions()
    }

    /// The failure payloads the stored error callback has handled.
    pub closed spec fn errors_handled(&self) -> Seq<E> {
        self.error_fn.seen()
    }


    /// The start slot, in its current state.
    pub fn start_slot(&self) -> (r: &S)
        ensures
            r.starts() == self.starts(),
    {
        &self.start_fn
    }

    /// The item slot, in its current state.
    pub fn next_slot(&self) -> (r: &N)
        ensures
            r.seen() == self.next_handled(),
    {
        &self.next_fn
    }

    /// The completion slot, in its current state.
    pub fn complete_slot(&self) -> (r: &C)
        ensures
            r.completions() == self.completions_handled(),
    {
        &self.complete_fn
    }

    /// The error slot, in its current state.
    pub fn error_slot(&self) -> (r: &F)
        ensures
            r.seen() == self.errors_handled(),
    {
        &self.error_fn
    }

    /// Builds an observer with every callback slot filled by the caller.
    pub fn with_handlers(start: S, next: N, complete: C, error: F) -> (r: Self)
        ensures
            r.received() == Seq::<Event<T, E>>::empty(),
            r.received_at_start() == Seq::<Event<T, E>>::empty(),
            r.starts() == start.starts(),
            r.next_handled() == next.seen(),
            r.completions_handled() == complete.completions(),
            r.errors_handled() == error.seen(),
    {
        SimpleObserver {
            start_fn: start,
            next_fn: next,
            complete_fn: complete,
            error_fn: error,
            log: Ghost(Seq::empty()),
            at_start: Ghost(Seq::empty()),
        }
    }
}

impl<T, E, N: NextHandler<T>> SimpleObserver<T, E, NoOpStart, N, NoOpComplete, NoOpError<E>> {
    /// Builds an observer that cares only about items: `start`, `complete`
    /// and `error` are filled with no-op defaults, so delivering those
    /// signals to it is safe and silent.
    pub fn new(next: N) -> (r: Self)
        ensures
            r.received() == Seq::<Event<T, E>>::empty(),
            r.received_at_start() == Seq::<Event<T, E>>::empty(),
            r.starts() == 0,
            r.next_handled() == next.seen(),
            r.completions_handled() == 0,
            r.errors_handled() == Seq::<E>::empty(),
    {
        SimpleObserver::with_handlers(NoOpStart::new(), next, NoOpComplete::new(), NoOpError::new())
    }
}

impl<T, E> Default for SimpleObserver<T, E, NoOpStart, NoOpNext<T>, NoOpComplete, NoOpError<E>> {
    /// An observer with every callback left at a no-op default.
    fn default() -> (r: Self)
        ensures
            r.received() == Seq::<Event<T, E>>::empty(),
            r.received_at_start() == Seq::<Event<T, E>>::empty(),
            r.starts() == 0,
            r.next_handled() == Seq::<T>::empty(),
            r.completions_handled() == 0,
            r.errors_handled() == Seq::<E>::empty(),
    {
        SimpleObserver::with_handlers(
            NoOpStart::new(),
            NoOpNext::new(),
            NoOpComplete::new(),
            NoOpError::new(),
        )
    }
}

impl<T, E, S: StartHandler, N: NextHandler<T>, C: CompleteHandler, F: ErrorHandler<E>> Observer<
    T,
    E,
> for SimpleObserver<T, E, S, N, C, F> {
    closed spec fn received(&self) -> Seq<Event<T, E>> {
        self.log@
    }

    closed spec fn starts(&self) -> nat {
        self.start_fn.starts()
    }

    closed spec fn received_at_start(&self) -> Seq<Event<T, E>> {
        self.at_start@
    }

    fn start(&mut self)
        ensures
            final(self).next_handled() == old(self).next_handled(),
            final(self).completions_handled() == old(self).completions_handled(),
            final(self).errors_handled() == old(self).errors_handled(),
    {
        self.at_start = Ghost(self.log@);
        self.start_fn.on_start();
    }

    fn next(&mut self, value: T)
        ensures
            final(self).next_handled() == old(self).next_handled().push(value),
            final(self).completions_handled() == old(self).completions_handled(),
            final(self).errors_handled() == old(self).errors_handled(),
    {
        let ghost v = value;
        self.next_fn.on_next(value);
        self.log = Ghost(self.log@.push(Event::Next(v)));
    }

    fn complete(&mut self)
        ensures
            final(self).completions_handled() == old(self).completions_handled() + 1,
            final(self).next_handled() == old(self).next_handled(),
            final(self).errors_handled() == old(self).errors_handled(),
    {
        self.complete_fn.on_complete();
        self.log = Ghost(self.log@.push(Event::Complete));
    }

    fn error(&mut self, err: E)
        ensures
            final(self).errors_handled() == old(self).errors_handled().push(err),
            final(self).next_handled() == old(self).next_handled(),
            final(self).completions_handled() == old(self).completions_handled(),
    {
        let ghost e = err;
        self.error_fn.on_error(err);
        self.log = Ghost(self.log@.push(Event::Error(e)));
    }
}

} // verus!
