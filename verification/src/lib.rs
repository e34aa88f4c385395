//! A minimal push-based reactive stream core: an `Observable` delivers a
//! sequence of items and at most one terminal signal to each subscribed
//! `Observer`, and every subscription is torn down exactly once, whether the
//! caller releases it explicitly or leaves release to its owning scope.

pub mod event;
pub mod observer;
pub mod subscription;
pub mod observable;
