//! Timestamp representation and utilities.
//!
//! An [`Instant`] is one moment of a process-local monotonic clock, held as
//! a nanosecond counter relative to an unspecified epoch. The type is a plain
//! value: it is copied, compared, and combined with [`Duration`]s, and every
//! contract below is stated over the counter's mathematical value.

use core::cmp::Ordering;
use core::time::Duration;
use vstd::prelude::*;
use vstd::std_specs::cmp::PartialOrdSpec;

verus! {

/// The total nanosecond count contained by a `Duration`.
///
/// `Duration` is opaque to the verifier, so this spec function serves as its
/// mathematical view; the trusted specifications of `Duration::from_nanos`
/// and `Duration::as_nanos` below tie the two together.
pub uninterp spec fn duration_nanos(d: Duration) -> nat;

/// Relies on `core::time::Duration::from_nanos`: it creates the duration
/// containing exactly the given number of nanoseconds.
pub assume_specification[ Duration::from_nanos ](nanos: u64) -> (d: Duration)
    ensures
        duration_nanos(d) == nanos as nat,
;

/// Relies on `core::time::Duration::as_nanos`: it returns the total number
/// of nanoseconds contained by the duration.
pub assume_specification[ Duration::as_nanos ](d: &Duration) -> (n: u128)
    ensures
        n as nat == duration_nanos(*d),
;

/// An opaque representation of the moment of an interrupt event.
///
/// Useful only when used together with the [`Duration`] type: instants are
/// compared with each other and shifted by durations, and their numeric
/// origin carries no meaning outside the producing process.
#[derive(Debug, Clone, Copy, Eq, PartialEq, Structural, Ord, Hash)]
pub struct Instant {
    nanos: u128,
}

impl View for Instant {
    type V = nat;

    closed spec fn view(&self) -> nat {
        self.nanos as nat
    }
}

impl PartialOrd for Instant {
    fn partial_cmp(&self, other: &Instant) -> (r: Option<Ordering>) {
        if self.nanos < other.nanos {
            Some(Ordering::Less)
        } else if self.nanos == other.nanos {
            Some(Ordering::Equal)
        } else {
            Some(Ordering::Greater)
        }
    }
}

impl vstd::std_specs::cmp::PartialOrdSpecImpl for Instant {
    open spec fn obeys_partial_cmp_spec() -> bool {
        true
    }

    closed spec fn partial_cmp_spec(&self, other: &Instant) -> Option<Ordering> {
        if self.nanos < other.nanos {
            Some(Ordering::Less)
        } else if self.nanos == other.nanos {
            Some(Ordering::Equal)
        } else {
            Some(Ordering::Greater)
        }
    }
}

/// The nanoseconds elapsed from `earlier` to `later`, narrowed to the 64-bit
/// range that `Duration::from_nanos` accepts.
pub open spec fn spec_elapsed_nanos(later: nat, earlier: nat) -> nat
    recommends
        earlier <= later,
{
    ((later - earlier) % 0x1_0000_0000_0000_0000) as nat
}

impl Instant {
    /// Builds the instant whose counter stands `nanos` nanoseconds past the
    /// process-local epoch.
    ///
    /// An instant normally comes from a monotonic clock sample taken by the
    /// event source; this constructor builds one directly from a counter
    /// value.
    pub fn from_nanos(nanos: u128) -> (r: Instant)
        ensures
            r@ == nanos as nat,
    {
        Instant { nanos }
    }

    /// Returns the internal representation.
    ///
    /// This is exposed primarily for logging and debugging. Relying on the
    /// returned value or its scale for computation is discouraged.
    pub fn into_inner(self) -> (n: u128)
        ensures
            n as nat == self@,
    {
        self.nanos
    }

    /// Returns the elapsed time from `earlier` to `self`.
    ///
    /// The 128-bit counter difference is narrowed to the 64-bit nanosecond
    /// range accepted by `Duration::from_nanos`; the narrowing is lossy only
    /// for gaps beyond roughly 584 years, far past any single process run.
    pub fn duration_since(&self, earlier: Instant) -> (d: Duration)
        requires
            earlier@ <= self@,
        ensures
            duration_nanos(d) == spec_elapsed_nanos(self@, earlier@),
    {
        let diff: u128 = self.nanos - earlier.nanos;
        proof {
            assert(diff as u64 == diff % 0x1_0000_0000_0000_0000) by (bit_vector);
        }
        Duration::from_nanos(#[verifier::truncate] (diff as u64))
    }

    /// Fallible form of [`Instant::duration_since`]: returns `None` exactly
    /// when `earlier` is in fact later than `self`, instead of demanding the
    /// operands in order.
    pub fn checked_duration_since(&self, earlier: Instant) -> (r: Option<Duration>)
        ensures
            r is Some <==> earlier@ <= self@,
            r matches Some(d) ==> duration_nanos(d) == spec_elapsed_nanos(self@, earlier@),
    {
        if earlier.nanos <= self.nanos {
            Some(self.duration_since(earlier))
        } else {
            None
        }
    }

    /// Returns the instant advanced forward by `rhs`, the named form of
    /// `self + rhs`.
    pub fn add(self, rhs: Duration) -> (r: Instant)
        requires
            self@ + duration_nanos(rhs) <= u128::MAX,
        ensures
            r == spec_advanced(self, duration_nanos(rhs)),
            r@ == self@ + duration_nanos(rhs),
    {
        let n: u128 = rhs.as_nanos();
        Instant { nanos: self.nanos + n }
    }

    /// Advances `self` forward by `rhs` in place, the named form of
    /// `self += rhs`.
    pub fn add_assign(&mut self, rhs: Duration)
        requires
            old(self)@ + duration_nanos(rhs) <= u128::MAX,
        ensures
            *final(self) == spec_advanced(*old(self), duration_nanos(rhs)),
            final(self)@ == old(self)@ + duration_nanos(rhs),
    {
        let moved: Instant = (*self).add(rhs);
        *self = moved;
    }

    /// Returns the instant moved backward by `rhs`, the named form of
    /// `self - rhs` for a duration operand.
    pub fn sub(self, rhs: Duration) -> (r: Instant)
        requires
            duration_nanos(rhs) <= self@,
        ensures
            r == spec_receded(self, duration_nanos(rhs)),
            r@ == self@ - duration_nanos(rhs),
    {
        let n: u128 = rhs.as_nanos();
        Instant { nanos: self.nanos - n }
    }

    /// Moves `self` backward by `rhs` in place, the named form of
    /// `self -= rhs`.
    pub fn sub_assign(&mut self, rhs: Duration)
        requires
            duration_nanos(rhs) <= old(self)@,
        ensures
            *final(self) == spec_receded(*old(self), duration_nanos(rhs)),
            final(self)@ == old(self)@ - duration_nanos(rhs),
    {
        let moved: Instant = (*self).sub(rhs);
        *self = moved;
    }

    /// The elapsed time from `rhs` to `self`, the named form of
    /// `self - rhs` for an instant operand; its contract is identical to
    /// that of [`Instant::duration_since`].
    pub fn sub_instant(self, rhs: Instant) -> (d: Duration)
        requires
            rhs@ <= self@,
        ensures
            duration_nanos(d) == spec_elapsed_nanos(self@, rhs@),
    {
        self.duration_since(rhs)
    }

    /// Fallible form of [`Instant::add`]: returns `None` exactly when the
    /// advanced counter would not fit the 128-bit range.
    pub fn checked_add(self, rhs: Duration) -> (r: Option<Instant>)
        ensures
            r is Some <==> self@ + duration_nanos(rhs) <= u128::MAX,
            r matches Some(i) ==> i == spec_advanced(self, duration_nanos(rhs))
                && i@ == self@ + duration_nanos(rhs),
    {
        let n: u128 = rhs.as_nanos();
        match self.nanos.checked_add(n) {
            Some(total) => Some(Instant { nanos: total }),
            None => None,
        }
    }

    /// Fallible form of [`Instant::sub`]: returns `None` exactly when `rhs`
    /// exceeds the instant's own counter, where the plain subtraction would
    /// underflow.
    pub fn checked_sub(self, rhs: Duration) -> (r: Option<Instant>)
        ensures
            r is Some <==> duration_nanos(rhs) <= self@,
            r matches Some(i) ==> i == spec_receded(self, duration_nanos(rhs))
                && i@ == self@ - duration_nanos(rhs),
    {
        let n: u128 = rhs.as_nanos();
        match self.nanos.checked_sub(n) {
            Some(rest) => Some(Instant { nanos: rest }),
            None => None,
        }
    }
}

/// The instant `a` advanced forward by `n` nanoseconds: the mathematical
/// result of [`Instant::add`] and its in-place form.
pub closed spec fn spec_advanced(a: Instant, n: nat) -> Instant
    recommends
        a@ + n <= u128::MAX,
{
    Instant { nanos: (a@ + n) as u128 }
}

/// The instant `a` moved backward by `n` nanoseconds: the mathematical
/// result of [`Instant::sub`] and its in-place form.
pub closed spec fn spec_receded(a: Instant, n: nat) -> Instant
    recommends
        n <= a@,
{
    Instant { nanos: (a@ - n) as u128 }
}

/// Round trip: advancing an instant by a duration and then moving the result
/// back by the same duration restores the instant, and the other way round,
/// whenever neither step leaves the counter's 128-bit range.
pub proof fn lemma_round_trip(a: Instant, d: Duration)
    ensures
        a@ + duration_nanos(d) <= u128::MAX ==> spec_receded(
            spec_advanced(a, duration_nanos(d)),
            duration_nanos(d),
        ) == a,
        duration_nanos(d) <= a@ ==> spec_advanced(
            spec_receded(a, duration_nanos(d)),
            duration_nanos(d),
        ) == a,
{
}

/// Consistency of the subtraction forms: for instants `a >= b`, any duration
/// meeting the contract of [`Instant::duration_since`] and any meeting the
/// contract of [`Instant::sub_instant`] carry the same nanosecond count.
pub proof fn lemma_sub_forms_agree(a: Instant, b: Instant, d1: Duration, d2: Duration)
    requires
        b@ <= a@,
        duration_nanos(d1) == spec_elapsed_nanos(a@, b@),
        duration_nanos(d2) == spec_elapsed_nanos(a@, b@),
    ensures
        duration_nanos(d1) == duration_nanos(d2),
{
}

/// Order-monotonic arithmetic: advancing an instant by a non-zero duration
/// yields a strictly greater instant, and moving it backward yields a
/// strictly smaller one, whenever the counter stays in range.
pub proof fn lemma_arith_strictly_ordered(a: Instant, d: Duration)
    requires
        duration_nanos(d) > 0,
    ensures
        a@ + duration_nanos(d) <= u128::MAX ==> spec_advanced(
            a,
            duration_nanos(d),
        ).partial_cmp_spec(&a) == Some(Ordering::Greater),
        duration_nanos(d) <= a@ ==> spec_receded(a, duration_nanos(d)).partial_cmp_spec(&a)
            == Some(Ordering::Less),
{
}

/// The total order on instants is exactly the numeric order of their
/// counters, and two instants are equal exactly when their counters are.
pub proof fn lemma_order_matches_counter(a: Instant, b: Instant)
    ensures
        (a == b) <==> a@ == b@,
        (a.partial_cmp_spec(&b) == Some(Ordering::Less)) <==> a@ < b@,
        (a.partial_cmp_spec(&b) == Some(Ordering::Equal)) <==> a@ == b@,
        (a.partial_cmp_spec(&b) == Some(Ordering::Greater)) <==> a@ > b@,
{
}

/// Boundary: moving an instant backward by a duration that carries the
/// instant's whole counter value lands on the zero instant, the epoch.
pub proof fn lemma_sub_whole_counter_is_epoch(a: Instant, d: Duration)
    requires
        duration_nanos(d) == a@,
    ensures
        spec_receded(a, duration_nanos(d))@ == 0,
{
}

} // verus!
