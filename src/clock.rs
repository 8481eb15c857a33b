use vstd::prelude::*;
use vstd::std_specs::cmp::PartialOrdSpec;

verus! {

/// A hybrid logical clock.
///
/// Clocks are ordered by `physical` first and by `logical` among equal
/// `physical` values. The logical counter saturates at `u32::MAX`: an
/// advance that would pass it leaves the counter at `u32::MAX`.
#[derive(Debug, Clone, Copy, PartialEq, Eq, Structural, Ord)]
pub struct HybridLogicalClock {
    /// The physical component, a wall-clock reading.
    pub physical: u64,
    /// The logical component, which orders events that share one physical value.
    pub logical: u32,
}

/// The larger of two physical readings.
pub open spec fn max_u64(a: u64, b: u64) -> u64 {
    if a >= b { a } else { b }
}

/// The larger of two logical counters.
pub open spec fn max_u32(a: u32, b: u32) -> u32 {
    if a >= b { a } else { b }
}

/// A logical counter advanced by `n`, held at `u32::MAX` when it would pass it.
pub open spec fn saturating_advance(l: u32, n: u32) -> u32 {
    if l + n > u32::MAX { u32::MAX } else { (l + n) as u32 }
}

impl HybridLogicalClock {
    /// Lexicographic order on `(physical, logical)`: `self` comes strictly
    /// before `other`.
    pub open spec fn precedes(self, other: Self) -> bool {
        self.physical < other.physical || (self.physical == other.physical && self.logical
            < other.logical)
    }

    /// The three-way comparison of two clocks.
    pub open spec fn compare(self, other: Self) -> core::cmp::Ordering {
        if self.precedes(other) {
            core::cmp::Ordering::Less
        } else if self == other {
            core::cmp::Ordering::Equal
        } else {
            core::cmp::Ordering::Greater
        }
    }

    /// Same physical value, different logical value.
    pub open spec fn concurrent_with(self, other: Self) -> bool {
        self.physical == other.physical && self.logical != other.logical
    }

    /// The clock that results from receiving `received` when the physical
    /// time reading is `now`.
    ///
    /// The physical part becomes the largest of the three readings. When `now`
    /// is strictly ahead of both the clock and the received timestamp, the
    /// logical counter is the clock's own plus one; otherwise the new physical
    /// value ties an earlier event and the logical counter goes one past the
    /// larger of the two counters.
    pub open spec fn updated(self, received: Self, now: u64) -> Self {
        Self {
            physical: max_u64(max_u64(self.physical, received.physical), now),
            logical: if now > self.physical && now > received.physical {
                saturating_advance(self.logical, 1)
            } else {
                saturating_advance(max_u32(self.logical, received.logical), 1)
            },
        }
    }

    /// A clock with the given physical time and a logical counter of zero.
    pub fn new(physical: u64) -> (r: Self)
        ensures
            r.physical == physical,
            r.logical == 0,
    {
        Self { physical, logical: 0 }
    }

    /// A clock with both components given, taken as they are.
    pub fn new_with_both_physical_and_logical_clock_time(physical: u64, logical: u32) -> (r: Self)
        ensures
            r.physical == physical,
            r.logical == logical,
    {
        Self { physical, logical }
    }

    /// Same physical value and different logical value.
    pub fn is_concurrent(&self, other: &Self) -> (r: bool)
        ensures
            r == self.concurrent_with(*other),
    {
        self.physical == other.physical && self.logical != other.logical
    }

    /// Receives the timestamp `received` while the physical time reads `now`.
    ///
    /// The physical part becomes the largest of the clock's own, the received
    /// one and `now`. Unless `now` is strictly ahead of both, the logical
    /// counter goes past both the clock's and the received counter, so the
    /// clock then comes after both; the counter saturates at `u32::MAX`.
    pub fn update(&mut self, received: &Self, now: u64)
        ensures
            *final(self) == old(self).updated(*received, now),
            final(self).physical >= old(self).physical,
            final(self).physical >= received.physical,
            final(self).physical >= now,
            final(self).physical == old(self).physical || final(self).physical
                == received.physical || final(self).physical == now,
            (final(self).physical == old(self).physical || final(self).physical
                == received.physical) && max_u32(old(self).logical, received.logical) < u32::MAX
                ==> final(self).logical > max_u32(old(self).logical, received.logical),
    {
        let ahead = now > self.physical && now > received.physical;
        let highest = if self.physical >= received.physical {
            self.physical
        } else {
            received.physical
        };
        self.physical = if highest >= now {
            highest
        } else {
            now
        };
        if ahead {
            self.logical = self.logical.saturating_add(1);
        } else {
            let counter = if self.logical >= received.logical {
                self.logical
            } else {
                received.logical
            };
            self.logical = counter.saturating_add(1);
        }
    }

    /// Advances the logical counter by `ticks`, leaving the physical part as
    /// it is; the counter saturates at `u32::MAX`.
    pub fn add_logical_ticks(&mut self, ticks: u32)
        ensures
            final(self).physical == old(self).physical,
            final(self).logical == saturating_advance(old(self).logical, ticks),
    {
        self.logical = self.logical.saturating_add(ticks);
    }
}

impl PartialOrd for HybridLogicalClock {
    fn partial_cmp(&self, other: &Self) -> (r: Option<core::cmp::Ordering>) {
        if self.physical < other.physical {
            Some(core::cmp::Ordering::Less)
        } else if self.physical > other.physical {
            Some(core::cmp::Ordering::Greater)
        } else if self.logical < other.logical {
            Some(core::cmp::Ordering::Less)
        } else if self.logical > other.logical {
            Some(core::cmp::Ordering::Greater)
        } else {
            Some(core::cmp::Ordering::Equal)
        }
    }
}

impl vstd::std_specs::cmp::PartialOrdSpecImpl for HybridLogicalClock {
    open spec fn obeys_partial_cmp_spec() -> bool {
        true
    }

    open spec fn partial_cmp_spec(&self, other: &Self) -> Option<core::cmp::Ordering> {
        Some(self.compare(*other))
    }
}

/// The order on clocks is a strict total order, and `a < b` holds exactly
/// when `(a.physical, a.logical)` comes before `(b.physical, b.logical)`
/// lexicographically.
pub proof fn lemma_order_total(a: HybridLogicalClock, b: HybridLogicalClock, c: HybridLogicalClock)
    ensures
        a.precedes(b) && b.precedes(c) ==> a.precedes(c),
        (a.precedes(b) || a == b) && (b.precedes(a) || b == a) ==> a == b,
        !(a.precedes(b) && b.precedes(a)),
        !a.precedes(a),
        a.precedes(b) || a == b || b.precedes(a),
        (a.partial_cmp_spec(&b) == Some(core::cmp::Ordering::Less)) <==> (a.physical < b.physical
            || (a.physical == b.physical && a.logical < b.logical)),
        (a.partial_cmp_spec(&b) == Some(core::cmp::Ordering::Equal)) <==> a == b,
        (a.partial_cmp_spec(&b) == Some(core::cmp::Ordering::Greater)) <==> b.precedes(a),
{
}

/// A clock that receives a timestamp comes, after the update, strictly after
/// both its own earlier value and the received timestamp, unless the logical
/// counter has reached `u32::MAX`.
pub proof fn lemma_update_orders_after_inputs(
    c: HybridLogicalClock,
    received: HybridLogicalClock,
    now: u64,
)
    requires
        max_u32(c.logical, received.logical) < u32::MAX,
    ensures
        c.precedes(c.updated(received, now)),
        received.precedes(c.updated(received, now)),
{
}

/// Concurrency is symmetric.
pub proof fn lemma_concurrent_symmetric(a: HybridLogicalClock, b: HybridLogicalClock)
    ensures
        a.concurrent_with(b) == b.concurrent_with(a),
{
}

/// Concurrent clocks share their physical value.
pub proof fn lemma_concurrent_implies_same_physical(a: HybridLogicalClock, b: HybridLogicalClock)
    ensures
        a.concurrent_with(b) ==> a.physical == b.physical,
{
}

} // verus!
