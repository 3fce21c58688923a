//! Local and coordinated clocks.
//!
//! Every node keeps a local monotonic millisecond clock that starts at zero
//! when the process starts. Gates derive the shared *coordinated* clock from
//! it by adding an offset computed from the coordinator's beacons.
use vstd::prelude::*;

verus! {

/// A point of the local monotonic clock, in milliseconds since the process
/// started.
#[derive(Debug, Copy, Clone, PartialEq, Eq, Structural)]
pub struct LocalInstant(pub i32);

impl View for LocalInstant {
    type V = i32;

    open spec fn view(&self) -> i32 {
        self.0
    }
}

impl LocalInstant {
    pub fn from_millis(ms: i32) -> (r: Self)
        ensures
            r@ == ms,
    {
        LocalInstant(ms)
    }

    /// The local instant of an elapsed millisecond count, as long as the
    /// count still fits the clock's range.
    pub fn checked_from_elapsed_millis(ms: u128) -> (r: Option<Self>)
        ensures
            r matches Some(t) ==> t@ == ms,
            r is Some <==> ms < i32::MAX as u128,
    {
        if ms < i32::MAX as u128 {
            Some(LocalInstant(ms as i32))
        } else {
            None
        }
    }

    pub fn as_millis(&self) -> (r: i32)
        ensures
            r == self@,
    {
        self.0
    }
}

impl Default for LocalInstant {
    fn default() -> (r: Self)
        ensures
            r@ == 0,
    {
        LocalInstant(0)
    }
}

/// A point of the coordinated clock, in milliseconds of the coordinator's
/// time base. On the coordinator it equals the local clock; on gates it is
/// the local clock plus the synchronization offset.
#[derive(Debug, Copy, Clone, PartialEq, Eq, Structural)]
pub struct CoordinatedInstant(pub i32);

impl View for CoordinatedInstant {
    type V = i32;

    open spec fn view(&self) -> i32 {
        self.0
    }
}

impl CoordinatedInstant {
    pub fn from_millis(ms: i32) -> (r: Self)
        ensures
            r@ == ms,
    {
        CoordinatedInstant(ms)
    }

    pub fn as_millis(&self) -> (r: i32)
        ensures
            r == self@,
    {
        self.0
    }
}

impl Default for CoordinatedInstant {
    fn default() -> (r: Self)
        ensures
            r@ == 0,
    {
        CoordinatedInstant(0)
    }
}

/// The difference between the coordinator's clock and the local clock at the
/// moment of synchronization, in milliseconds.
#[derive(Debug, Copy, Clone, PartialEq, Eq, Structural)]
pub struct LocalOffset(pub i32);

impl View for LocalOffset {
    type V = i32;

    open spec fn view(&self) -> i32 {
        self.0
    }
}

impl LocalOffset {
    pub fn from_millis(ms: i32) -> (r: Self)
        ensures
            r@ == ms,
    {
        LocalOffset(ms)
    }

    pub fn as_millis(&self) -> (r: i32)
        ensures
            r == self@,
    {
        self.0
    }
}

impl Default for LocalOffset {
    fn default() -> (r: Self)
        ensures
            r@ == 0,
    {
        LocalOffset(0)
    }
}

#[verifier::external_type_specification]
#[verifier::external_body]
pub struct ExInstant(std::time::Instant);

/// Relies on std::time::Instant::now: a reading of the OS monotonic clock.
/// Nothing can be promised of the value read.
pub assume_specification[ std::time::Instant::now ]() -> std::time::Instant;

/// Relies on std::time::Instant::checked_duration_since: the elapsed time
/// from `earlier` to `this`, or None when `earlier` is the later of the two.
pub assume_specification[ std::time::Instant::checked_duration_since ](
    this: &std::time::Instant,
    earlier: std::time::Instant,
) -> Option<std::time::Duration>;

/// Relies on std::time::Duration::as_millis: the duration in whole
/// milliseconds.
pub assume_specification[ std::time::Duration::as_millis ](
    d: &std::time::Duration,
) -> u128;

/// The local monotonic clock: reports milliseconds elapsed since it was
/// created. Readings fail once the elapsed time no longer fits an `i32`
/// count of milliseconds (after roughly 24 days).
pub struct LocalClock {
    start: std::time::Instant,
}

impl Default for LocalClock {
    fn default() -> Self {
        LocalClock { start: std::time::Instant::now() }
    }
}

impl LocalClock {
    /// Milliseconds since the clock was created. The reading is taken from
    /// the OS clock, so only its range can be promised: a successful reading
    /// is nonnegative and below `i32::MAX`.
    pub fn now(&self) -> (r: Option<LocalInstant>)
        ensures
            r matches Some(t) ==> 0 <= t@ < i32::MAX,
    {
        let n = std::time::Instant::now();
        match n.checked_duration_since(self.start) {
            None => None,
            Some(d) => LocalInstant::checked_from_elapsed_millis(d.as_millis()),
        }
    }
}

/// The coordinated time that corresponds to a local reading under a given
/// offset: exactly `local + offset`, or None when that sum does not fit the
/// millisecond range.
pub fn coordinated_from_local(local: LocalInstant, offset: LocalOffset) -> (r: Option<
    CoordinatedInstant,
>)
    ensures
        r matches Some(t) ==> t@ == local@ + offset@,
        r is Some <==> i32::MIN <= local@ + offset@ <= i32::MAX,
{
    let sum: i64 = local.0 as i64 + offset.0 as i64;
    if i32::MIN as i64 <= sum && sum <= i32::MAX as i64 {
        Some(CoordinatedInstant(sum as i32))
    } else {
        None
    }
}

/// The coordinated clock of a synchronized gate: a local clock plus the
/// offset computed from the coordinator's beacons.
pub struct CoordinatedClock<'a> {
    clock: &'a LocalClock,
    offset: LocalOffset,
}

impl<'a> CoordinatedClock<'a> {
    pub closed spec fn spec_offset(&self) -> i32 {
        self.offset@
    }

    pub fn new(clock: &'a LocalClock, offset: LocalOffset) -> (r: Self)
        ensures
            r.spec_offset() == offset@,
    {
        CoordinatedClock { clock, offset }
    }

    /// The current coordinated time: the local reading plus the stored
    /// offset. None when the local clock fails or the sum leaves the
    /// millisecond range. The local reading itself cannot be promised, only
    /// that the result is the stored offset plus a reading in the local
    /// clock's range.
    pub fn now(&self) -> (r: Option<CoordinatedInstant>)
        ensures
            r matches Some(t) ==> 0 <= t@ - self.spec_offset() < i32::MAX,
    {
        match self.clock.now() {
            None => None,
            Some(t) => coordinated_from_local(t, self.offset),
        }
    }
}

/// The synchronization offset derived from one beacon exchange: the
/// coordinator's clock reading minus the local clock reading taken at the
/// same moment.
pub fn calculate_clock_offset(coordinator_time: LocalInstant, local_time: LocalInstant) -> (r:
    LocalOffset)
    requires
        i32::MIN <= coordinator_time@ - local_time@ <= i32::MAX,
    ensures
        r@ == coordinator_time@ - local_time@,
{
    let c: i64 = coordinator_time.as_millis() as i64;
    let l: i64 = local_time.as_millis() as i64;
    LocalOffset::from_millis((c - l) as i32)
}

/// Adding the computed offset to the local reading reconstructs the
/// coordinator's reading: `calculate_clock_offset(c, l) + l == c`.
pub proof fn lemma_clock_offset_round_trip(c: LocalInstant, l: LocalInstant)
    requires
        i32::MIN <= c@ - l@ <= i32::MAX,
    ensures
        (c@ - l@) + l@ == c@,
{
}

} // verus!
