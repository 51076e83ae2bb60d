//! A value that is fresh only for a while after each update.

use vstd::prelude::*;

use crossbeam_utils::atomic::AtomicCell;
use std::time::{Duration, Instant};

verus! {

#[verifier::external_type_specification]
#[verifier::external_body]
#[verifier::reject_recursive_types(T)]
pub struct ExAtomicCell<T>(AtomicCell<T>);

#[verifier::external_type_specification]
#[verifier::external_body]
pub struct ExInstant(Instant);

/// Relies on crossbeam's `AtomicCell::new`: a cell that holds `val`. What a cell holds
/// may change under any reader, so nothing is stated of it.
pub assume_specification<T>[ AtomicCell::<T>::new ](val: T) -> AtomicCell<T>;

/// Relies on crossbeam's `AtomicCell::store`: replaces what the cell holds, in one step.
pub assume_specification<T>[ AtomicCell::<T>::store ](cell: &AtomicCell<T>, val: T);

/// Relies on crossbeam's `AtomicCell::load`: reads what the cell holds, never a
/// half-written value.
pub assume_specification<T: Copy>[ AtomicCell::<T>::load ](cell: &AtomicCell<T>) -> T;

/// Relies on `Instant::now`: the current instant of a monotonic clock.
pub assume_specification[ Instant::now ]() -> Instant;

/// Relies on `Instant::elapsed`: the time since `origin` on the same clock.
pub assume_specification[ Instant::elapsed ](origin: &Instant) -> Duration;

/// Relies on `Duration::as_nanos`: the whole length of `d` in nanoseconds.
pub assume_specification[ Duration::as_nanos ](d: &Duration) -> u128;

/// A count of nanoseconds, held to the largest `u64` (some 584 years).
pub fn clamp_nanos(n: u128) -> (r: u64)
    ensures
        r == if n > u64::MAX {
            u64::MAX as int
        } else {
            n as int
        },
{
    if n > u64::MAX as u128 {
        u64::MAX
    } else {
        n as u64
    }
}

/// The expiry of a value freshened at `now` to stay fresh for `valid`, both in
/// nanoseconds on the value's clock; one that would pass the end of the clock stays
/// at its end.
pub open spec fn expiry_after(now: u64, valid: u64) -> u64 {
    if now + valid > u64::MAX {
        u64::MAX
    } else {
        (now + valid) as u64
    }
}

/// Whether a value that expires at `expiry` is still fresh at `now`.
pub open spec fn fresh_until(expiry: u64, now: u64) -> bool {
    now < expiry
}

/// The expiry of a value freshened at `now` for `valid` nanoseconds.
pub fn expiry_from(now: u64, valid: u64) -> (r: u64)
    ensures
        r == expiry_after(now, valid),
{
    now.saturating_add(valid)
}

/// Whether a value that expires at `expiry` is still fresh at `now`.
pub fn is_fresh(expiry: u64, now: u64) -> (r: bool)
    ensures
        r == fresh_until(expiry, now),
{
    now < expiry
}

/// A value that is fresh for a set time after each call of `freshen`, and stale
/// otherwise, from the moment it is made. Its expiry sits in an atomic cell, so
/// readers on one thread never wait for, nor see half of, an update made on another.
pub struct Perishable<T> {
    value: T,
    origin: Instant,
    expiry: AtomicCell<u64>,
}

impl<T> Perishable<T> {
    /// The value held.
    pub closed spec fn value(&self) -> T {
        self.value
    }

    /// Holds `t`, stale until first freshened.
    pub fn new(t: T) -> (r: Perishable<T>)
        ensures
            r.value() == t,
    {
        Perishable { value: t, origin: Instant::now(), expiry: AtomicCell::new(0) }
    }

    /// The nanoseconds since the value was made, on its own clock.
    pub fn now(&self) -> u64 {
        clamp_nanos(self.origin.elapsed().as_nanos())
    }

    /// Makes the value fresh for `valid_duration` from now, and hands it out for use.
    pub fn freshen(&self, valid_duration: Duration) -> (r: &T)
        ensures
            *r == self.value(),
    {
        self.freshen_at(self.now(), valid_duration)
    }

    /// Makes the value fresh for `valid_duration` from `now`, a time on the value's
    /// clock, and hands it out for use.
    pub fn freshen_at(&self, now: u64, valid_duration: Duration) -> (r: &T)
        ensures
            *r == self.value(),
    {
        self.expiry.store(expiry_from(now, clamp_nanos(valid_duration.as_nanos())));
        &self.value
    }

    /// The value, if it is fresh now.
    pub fn fresh(&self) -> (r: Option<&T>)
        ensures
            r matches Some(v) ==> *v == self.value(),
    {
        self.fresh_at(self.now())
    }

    /// The value, if it is fresh at `now`, a time on the value's clock.
    pub fn fresh_at(&self, now: u64) -> (r: Option<&T>)
        ensures
            r matches Some(v) ==> *v == self.value(),
    {
        if is_fresh(self.expiry.load(), now) {
            Some(&self.value)
        } else {
            None
        }
    }

    /// `f` applied to the value, if it is fresh now.
    pub fn map<U, F: FnMut(&T) -> U>(&self, f: F) -> (r: Option<U>)
        requires
            call_requires(f, (&self.value(),)),
        ensures
            r matches Some(u) ==> call_ensures(f, (&self.value(),), u),
    {
        let mut f = f;
        match self.fresh() {
            Some(v) => Some(f(v)),
            None => None,
        }
    }
}

/// A value freshened at `now` for a positive time is fresh at that moment, and stale
/// from the moment that time has passed on.
pub proof fn lemma_freshened_value_expires(now: u64, valid: u64, later: u64)
    requires
        valid > 0,
        now < u64::MAX,
    ensures
        fresh_until(expiry_after(now, valid), now),
        now + valid <= later ==> !fresh_until(expiry_after(now, valid), later),
{
}

} // verus!
