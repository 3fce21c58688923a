//! The transport's observed state: what a node has learned from received
//! beacons, and how long that knowledge stays fresh.
//!
//! The background worker that owns the socket feeds every received datagram
//! through [`crate::svc::race_node::parse_datagram`] and folds the result in
//! with [`NodesState::apply_message`]; the foreground state machine reads
//! through the accessors. All freshness is expressed against a wall-clock
//! millisecond count supplied by the caller, so that every rule here is a
//! function of its arguments.
use vstd::prelude::*;

use crate::app::gates::Gate;
use crate::app::gates::Gates;
use crate::hal::gate::GateState;
use crate::svc::clock::CoordinatedInstant;
use crate::svc::race_node::GateBeacon;
use crate::svc::race_node::RaceNodeMessage;

verus! {

/// How long a received coordinator time stays fresh, in wall milliseconds.
/// Deliberately tighter than a beacon period, so that loss is detected
/// before race times drift.
pub const COORDINATOR_BEACON_TIMEOUT_MS: u64 = 50;

/// How long the coordinator's own time, written locally each tick, stays
/// fresh.
pub const OWN_COORDINATOR_TIME_TTL_MS: u64 = 100;

/// A value with an expiration: reads at or before the expiration yield the
/// value, later reads yield nothing.
#[derive(Debug, Copy, Clone, PartialEq, Eq, Structural)]
pub struct ExpOpt<T> {
    pub value: Option<T>,
    pub expiration: Option<u64>,
}

/// What reading an expiring value at wall time `now_ms` yields.
pub open spec fn spec_read_at<T>(e: ExpOpt<T>, now_ms: u64) -> Option<T> {
    match e.expiration {
        Some(x) => if x < now_ms {
            None
        } else {
            e.value
        },
        None => e.value,
    }
}

impl<T> Default for ExpOpt<T> {
    fn default() -> (r: Self)
        ensures
            r.value is None,
            r.expiration is None,
    {
        ExpOpt { value: None, expiration: None }
    }
}

impl<T> ExpOpt<T> {
    pub fn new_with_expiration(value: T, expiration_ms: u64) -> (r: Self)
        ensures
            r == (ExpOpt { value: Some(value), expiration: Some(expiration_ms) }),
    {
        ExpOpt { value: Some(value), expiration: Some(expiration_ms) }
    }

    pub fn new_with_duration(value: T, duration_ms: u64, now_ms: u64) -> (r: Self)
        requires
            now_ms + duration_ms <= u64::MAX,
        ensures
            r == (ExpOpt {
                value: Some(value),
                expiration: Some((now_ms + duration_ms) as u64),
            }),
    {
        ExpOpt::new_with_expiration(value, now_ms + duration_ms)
    }

    /// The value, unless it has expired by wall time `now_ms`.
    pub fn into_option(self, now_ms: u64) -> (r: Option<T>)
        ensures
            r == spec_read_at(self, now_ms),
    {
        let expired = match self.expiration {
            Some(x) => x < now_ms,
            None => false,
        };
        if expired {
            None
        } else {
            self.value
        }
    }
}

/// A value set at wall time `set_at` with time-to-live `ttl_ms` reads back
/// through `set_at + ttl_ms` and is gone after that.
pub proof fn lemma_freshness_window<T>(value: T, ttl_ms: u64, set_at: u64, read_at: u64)
    requires
        set_at + ttl_ms <= u64::MAX,
    ensures
        spec_read_at(
            ExpOpt { value: Some(value), expiration: Some((set_at + ttl_ms) as u64) },
            read_at,
        ) == if read_at <= set_at + ttl_ms {
            Some(value)
        } else {
            None::<T>
        },
{
}

/// Freshness of an observed coordinator beacon: `apply_message` stores the
/// beacon's time with expiration `set_at + COORDINATOR_BEACON_TIMEOUT_MS`,
/// and `coordinator_time` reads through `spec_read_at`; so the time reads
/// back at every wall time within the beacon timeout of its arrival and at
/// none after.
pub proof fn lemma_coordinator_time_freshness(
    t: CoordinatedInstant,
    set_at: u64,
    read_at: u64,
)
    requires
        set_at + COORDINATOR_BEACON_TIMEOUT_MS <= u64::MAX,
    ensures
        spec_read_at(
            ExpOpt {
                value: Some(t),
                expiration: Some((set_at + COORDINATOR_BEACON_TIMEOUT_MS) as u64),
            },
            read_at,
        ) == if read_at <= set_at + COORDINATOR_BEACON_TIMEOUT_MS {
            Some(t)
        } else {
            None::<CoordinatedInstant>
        },
{
    lemma_freshness_window(t, COORDINATOR_BEACON_TIMEOUT_MS, set_at, read_at);
}

/// What a node has observed from its peers: the last coordinator time with
/// its freshness window, the wall time the last coordinator beacon arrived,
/// and its gate table.
#[derive(Debug, Copy, Clone)]
pub struct NodesState {
    pub coordinator_time: ExpOpt<CoordinatedInstant>,
    pub coordinator_beacon_time: Option<u64>,
    pub gates: Gates,
}

impl Default for NodesState {
    fn default() -> (r: Self)
        ensures
            r.coordinator_time.value is None,
            r.coordinator_time.expiration is None,
            r.coordinator_beacon_time is None,
            r.gates@.len() == 4,
            forall|i: int|
                0 <= i < 4 ==> !(#[trigger] r.gates@[i]).active
                    && r.gates@[i].last_activation_time is None
                    && r.gates@[i].last_beacon_time is None,
    {
        NodesState {
            coordinator_time: ExpOpt::default(),
            coordinator_beacon_time: None,
            gates: Gates::default(),
        }
    }
}

/// A node's gate table after one gate beacon lands: the slot the beacon's address
/// reports into takes what the beacon says, stamped with the coordinated
/// time the table's owner knew at arrival. A beacon from an address with no
/// slot changes nothing.
pub open spec fn spec_gates_after(
    g: Seq<Gate>,
    b: GateBeacon,
    stamp: Option<CoordinatedInstant>,
) -> Seq<Gate> {
    if 1 <= b.addr@ <= 4 {
        g.update(
            b.addr@ - 1,
            Gate {
                active: b.state == GateState::Active,
                last_activation_time: b.last_activation_time,
                last_beacon_time: stamp,
            },
        )
    } else {
        g
    }
}

/// Fold one received gate beacon into a node's gate table.
pub fn update_gate(gates: &mut Gates, gate: &GateBeacon, coordinated_time: Option<
    CoordinatedInstant,
>)
    ensures
        final(gates)@ =~= spec_gates_after(old(gates)@, *gate, coordinated_time),
{
    let is_active = match gate.state {
        GateState::Active => true,
        GateState::Inactive => false,
    };
    if let Some(slot) = gates.get_mut_from_addr(gate.addr) {
        slot.active = is_active;
        slot.last_activation_time = gate.last_activation_time;
        slot.last_beacon_time = coordinated_time;
    }
}

impl NodesState {
    /// Fold one received message in, at wall time `now_ms`:
    /// a coordinator beacon renews the coordinator time for
    /// `COORDINATOR_BEACON_TIMEOUT_MS` and records its arrival; a gate
    /// beacon updates that gate's slot, stamped with the coordinator time
    /// known right now.
    pub fn apply_message(&mut self, msg: &RaceNodeMessage, now_ms: u64)
        requires
            now_ms + COORDINATOR_BEACON_TIMEOUT_MS <= u64::MAX,
        ensures
            match *msg {
                RaceNodeMessage::GateBeacon(b) => {
                    &&& final(self).gates@ =~= spec_gates_after(
                        old(self).gates@,
                        b,
                        spec_read_at(old(self).coordinator_time, now_ms),
                    )
                    &&& final(self).coordinator_time == old(self).coordinator_time
                    &&& final(self).coordinator_beacon_time == old(self).coordinator_beacon_time
                },
                RaceNodeMessage::CoordinatorBeacon(b) => {
                    &&& final(self).coordinator_time == (ExpOpt {
                        value: Some(b.time),
                        expiration: Some((now_ms + COORDINATOR_BEACON_TIMEOUT_MS) as u64),
                    })
                    &&& final(self).coordinator_beacon_time == Some(now_ms)
                    &&& final(self).gates@ =~= old(self).gates@
                },
            },
    {
        match msg {
            RaceNodeMessage::GateBeacon(beacon) => {
                let stamp = self.coordinator_time.into_option(now_ms);
                update_gate(&mut self.gates, beacon, stamp);
            },
            RaceNodeMessage::CoordinatorBeacon(beacon) => {
                self.coordinator_time = ExpOpt::new_with_duration(
                    beacon.time,
                    COORDINATOR_BEACON_TIMEOUT_MS,
                    now_ms,
                );
                self.coordinator_beacon_time = Some(now_ms);
            },
        }
    }

    /// Record this node's own coordinator time, at wall time `now_ms`. Only
    /// the coordinator calls this, so that its own reads of
    /// `coordinator_time` see what remote gates would see.
    pub fn set_coordinator_time(&mut self, t: CoordinatedInstant, now_ms: u64)
        requires
            now_ms + OWN_COORDINATOR_TIME_TTL_MS <= u64::MAX,
        ensures
            final(self).coordinator_time == (ExpOpt {
                value: Some(t),
                expiration: Some((now_ms + OWN_COORDINATOR_TIME_TTL_MS) as u64),
            }),
            final(self).coordinator_beacon_time == old(self).coordinator_beacon_time,
            final(self).gates@ =~= old(self).gates@,
    {
        self.coordinator_time = ExpOpt::new_with_duration(t, OWN_COORDINATOR_TIME_TTL_MS, now_ms);
    }

    /// The last coordinator time, unless it has expired by wall time
    /// `now_ms`.
    pub fn coordinator_time(&self, now_ms: u64) -> (r: Option<CoordinatedInstant>)
        ensures
            r == spec_read_at(self.coordinator_time, now_ms),
    {
        self.coordinator_time.into_option(now_ms)
    }

    /// Wall milliseconds since the last coordinator beacon arrived;
    /// `u64::MAX` when none arrived yet or the wall clock reads earlier than
    /// the arrival.
    pub fn time_since_coordinator_beacon(&self, now_ms: u64) -> (r: u64)
        ensures
            match self.coordinator_beacon_time {
                None => r == u64::MAX,
                Some(t) => if now_ms >= t {
                    r == now_ms - t
                } else {
                    r == u64::MAX
                },
            },
    {
        match self.coordinator_beacon_time {
            None => u64::MAX,
            Some(t) => {
                if now_ms >= t {
                    now_ms - t
                } else {
                    u64::MAX
                }
            },
        }
    }
}

} // verus!
