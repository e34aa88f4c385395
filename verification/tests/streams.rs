use std::rc::Rc;

use rxcore::event::Event;
use rxcore::observable::DefaultObservable;
use rxcore::observable::Observable;
use rxcore::observer::NoOpComplete;
use rxcore::observer::NoOpError;
use rxcore::observer::NoOpNext;
use rxcore::observer::NoOpStart;
use rxcore::observer::Observer;
use rxcore::observer::RecordingComplete;
use rxcore::observer::RecordingError;
use rxcore::observer::RecordingNext;
use rxcore::observer::RecordingStart;
use rxcore::observer::SimpleObserver;
use rxcore::subscription::DefaultSubscription;
use rxcore::subscription::HoldOpen;
use rxcore::subscription::NoTeardown;
use rxcore::subscription::RecordingTeardown;
use rxcore::subscription::ReleaseEarly;
use rxcore::subscription::Subscription;

type DefaultedObserver = SimpleObserver<
    u8,
    &'static str,
    NoOpStart,
    NoOpNext<u8>,
    NoOpComplete,
    NoOpError<&'static str>,
>;

type RecordingObserver = SimpleObserver<
    u8,
    &'static str,
    RecordingStart,
    RecordingNext<u8>,
    RecordingComplete,
    RecordingError<&'static str>,
>;

fn recording_observer() -> RecordingObserver {
    SimpleObserver::with_handlers(
        RecordingStart::new(),
        RecordingNext::new(),
        RecordingComplete::new(),
        RecordingError::new(),
    )
}

#[test]
fn items_arrive_in_producer_order() {
    let script: Vec<Event<u8, &'static str>> =
        vec![Event::Next(1), Event::Next(2), Event::Next(3)];
    let obs = Rc::new(DefaultObservable::new(script));
    let s = obs.subscribe_observer(recording_observer(), NoTeardown::new());
    let held = s.observer_ref();
    assert_eq!(*held.next_slot().items_ref(), vec![1, 2, 3]);
    assert_eq!(held.complete_slot().count(), 0);
    assert_eq!(held.error_slot().errors_ref().len(), 0);
}

#[test]
fn complete_ends_the_stream() {
    let script: Vec<Event<u8, &'static str>> =
        vec![Event::Next(4), Event::Complete, Event::Next(5), Event::Next(6)];
    let obs = Rc::new(DefaultObservable::new(script));
    let s = obs.subscribe_observer(recording_observer(), NoTeardown::new());
    let held = s.observer_ref();
    assert_eq!(*held.next_slot().items_ref(), vec![4]);
    assert_eq!(held.complete_slot().count(), 1);
    assert_eq!(held.error_slot().errors_ref().len(), 0);
}

#[test]
fn error_ends_the_stream() {
    let script: Vec<Event<u8, &'static str>> =
        vec![Event::Next(7), Event::Error("boom"), Event::Next(8), Event::Complete];
    let obs = Rc::new(DefaultObservable::new(script));
    let s = obs.subscribe_observer(recording_observer(), NoTeardown::new());
    let held = s.observer_ref();
    assert_eq!(*held.next_slot().items_ref(), vec![7]);
    assert_eq!(*held.error_slot().errors_ref(), vec!["boom"]);
    assert_eq!(held.complete_slot().count(), 0);
}

#[test]
fn start_runs_exactly_once_per_subscription() {
    let script: Vec<Event<u8, &'static str>> = vec![Event::Next(9), Event::Complete];
    let obs = Rc::new(DefaultObservable::new(script));
    let s = obs.subscribe_observer(recording_observer(), NoTeardown::new());
    let held = s.observer_ref();
    assert_eq!(held.start_slot().count(), 1);
    assert_eq!(*held.next_slot().items_ref(), vec![9]);
    assert_eq!(held.complete_slot().count(), 1);
}

#[test]
fn empty_script_delivers_nothing() {
    let script: Vec<Event<u8, &'static str>> = Vec::new();
    let obs = Rc::new(DefaultObservable::new(script));
    let s = obs.subscribe_observer(recording_observer(), NoTeardown::new());
    let held = s.observer_ref();
    assert_eq!(held.start_slot().count(), 1);
    assert_eq!(held.next_slot().items_ref().len(), 0);
    assert_eq!(held.complete_slot().count(), 0);
    assert_eq!(held.error_slot().errors_ref().len(), 0);
}

#[test]
fn immediate_completion_delivers_no_items() {
    let script: Vec<Event<u8, &'static str>> = vec![Event::Complete, Event::Next(1)];
    let obs = Rc::new(DefaultObservable::new(script));
    let s = obs.subscribe_observer(recording_observer(), NoTeardown::new());
    let held = s.observer_ref();
    assert_eq!(held.next_slot().items_ref().len(), 0);
    assert_eq!(held.complete_slot().count(), 1);
}

#[test]
fn two_observers_each_get_the_full_stream() {
    let script: Vec<Event<u8, &'static str>> =
        vec![Event::Next(10), Event::Next(20), Event::Complete];
    let obs = Rc::new(DefaultObservable::new(script));
    let sa = Rc::clone(&obs).subscribe_observer(recording_observer(), NoTeardown::new());
    let sb = Rc::clone(&obs).subscribe_observer(recording_observer(), NoTeardown::new());
    assert_eq!(*sa.observer_ref().next_slot().items_ref(), vec![10, 20]);
    assert_eq!(*sb.observer_ref().next_slot().items_ref(), vec![10, 20]);
    assert_eq!(sa.observer_ref().complete_slot().count(), 1);
    assert_eq!(sb.observer_ref().complete_slot().count(), 1);
}

#[test]
fn demo_second_observer_completes_silently() {
    let script: Vec<Event<u8, &'static str>> = vec![Event::Next(255), Event::Complete];
    let obs = Rc::new(DefaultObservable::new(script));
    let sa = Rc::clone(&obs).subscribe_observer(recording_observer(), NoTeardown::new());
    let sb = Rc::clone(&obs).subscribe_observer(
        SimpleObserver::new(RecordingNext::new()),
        NoTeardown::new(),
    );
    assert_eq!(*sa.observer_ref().next_slot().items_ref(), vec![255]);
    assert_eq!(sa.observer_ref().complete_slot().count(), 1);
    assert_eq!(*sb.observer_ref().next_slot().items_ref(), vec![255]);
}

#[test]
fn defaulted_callbacks_are_silent_no_ops() {
    let mut o: SimpleObserver<
        u8,
        &'static str,
        NoOpStart,
        RecordingNext<u8>,
        NoOpComplete,
        NoOpError<&'static str>,
    > = SimpleObserver::new(RecordingNext::new());
    Observer::start(&mut o);
    Observer::complete(&mut o);
    Observer::error(&mut o, "ignored");
    Observer::next(&mut o, 42);
    assert_eq!(*o.next_slot().items_ref(), vec![42]);
}

#[test]
fn fully_defaulted_observer_accepts_a_stream() {
    let script: Vec<Event<u8, &'static str>> =
        vec![Event::Next(1), Event::Error("late"), Event::Next(2)];
    let obs = Rc::new(DefaultObservable::new(script));
    let o: DefaultedObserver = Default::default();
    let mut s = obs.subscribe(o);
    assert!(!s.is_released());
    s.unsubscribe();
    assert!(s.is_released());
}

#[test]
fn unsubscribe_twice_runs_teardown_once() {
    let script: Vec<Event<u8, &'static str>> = Vec::new();
    let obs = Rc::new(DefaultObservable::new(script));
    let o: DefaultedObserver = Default::default();
    let mut s = DefaultSubscription::new(obs, o, RecordingTeardown::new());
    assert!(!s.is_released());
    assert_eq!(s.teardown_ref().count(), 0);
    s.unsubscribe();
    assert_eq!(s.teardown_ref().count(), 1);
    s.unsubscribe();
    assert_eq!(s.teardown_ref().count(), 1);
    assert!(s.is_released());
}

#[test]
fn scope_exit_without_explicit_release_tears_down_once() {
    let script: Vec<Event<u8, &'static str>> = vec![Event::Next(3), Event::Complete];
    let obs = Rc::new(DefaultObservable::new(script));
    let mut body = HoldOpen;
    let s = obs.subscribe_scoped(recording_observer(), RecordingTeardown::new(), &mut body);
    assert!(s.is_released());
    assert_eq!(s.teardown_ref().count(), 1);
    assert_eq!(*s.observer_ref().next_slot().items_ref(), vec![3]);
}

#[test]
fn early_release_in_scope_still_tears_down_once() {
    let script: Vec<Event<u8, &'static str>> = vec![Event::Next(4), Event::Complete];
    let obs = Rc::new(DefaultObservable::new(script));
    let o: DefaultedObserver = Default::default();
    let mut body = ReleaseEarly;
    let s = obs.subscribe_scoped(o, RecordingTeardown::new(), &mut body);
    assert!(s.is_released());
    assert_eq!(s.teardown_ref().count(), 1);
}

#[test]
fn observable_unsubscribe_is_a_permissive_no_op() {
    let script: Vec<Event<u8, &'static str>> = vec![Event::Next(5), Event::Complete];
    let mut obs = DefaultObservable::new(script);
    let o: DefaultedObserver = Default::default();
    obs.unsubscribe(&o);
    obs.unsubscribe(&o);
    let shared = Rc::new(obs);
    let _s1 = Rc::clone(&shared).subscribe(o);
    let s2 = shared.subscribe_observer(recording_observer(), NoTeardown::new());
    assert_eq!(*s2.observer_ref().next_slot().items_ref(), vec![5]);
}

#[test]
fn subscription_keeps_its_observer() {
    let script: Vec<Event<u8, &'static str>> = vec![Event::Next(6), Event::Complete];
    let obs = Rc::new(DefaultObservable::new(script));
    let s = obs.subscribe_observer(recording_observer(), NoTeardown::new());
    assert_eq!(*s.observer_ref().next_slot().items_ref(), vec![6]);
    assert!(!s.is_released());
}
