//! The table of gates as observed by the coordinator.
use vstd::prelude::*;

use crate::svc::clock::CoordinatedInstant;
use crate::svc::race_node::NodeAddress;

verus! {

broadcast use vstd::array::group_array_axioms;

/// A gate stays alive this long after its last beacon, in milliseconds.
pub const GATE_ALIVE_TIMEOUT_MS: i32 = 1000;

/// One slot of a node's gate table: what that gate's last beacon reported,
/// and when (in coordinated time) that beacon arrived.
#[derive(Debug, Copy, Clone, PartialEq, Eq, Structural)]
pub struct Gate {
    pub active: bool,
    pub last_activation_time: Option<CoordinatedInstant>,
    pub last_beacon_time: Option<CoordinatedInstant>,
}

impl Default for Gate {
    fn default() -> (r: Self)
        ensures
            r.active == false,
            r.last_activation_time is None,
            r.last_beacon_time is None,
    {
        Gate { active: false, last_activation_time: None, last_beacon_time: None }
    }
}

impl Gate {
    /// A gate is alive exactly when its last beacon arrived less than
    /// `GATE_ALIVE_TIMEOUT_MS` before `now`.
    pub fn is_alive(&self, now: CoordinatedInstant) -> (r: bool)
        ensures
            r == (self.last_beacon_time matches Some(t) && now@ - t@
                < GATE_ALIVE_TIMEOUT_MS as int),
    {
        match self.last_beacon_time {
            None => false,
            Some(t) => {
                let diff: i64 = now.as_millis() as i64 - t.as_millis() as i64;
                diff < GATE_ALIVE_TIMEOUT_MS as i64
            },
        }
    }

    pub fn is_active(&self) -> (r: bool)
        ensures
            r == self.active,
    {
        self.active
    }
}

/// The four gate slots, indexed by node address minus one. Slot 0 belongs to
/// the start gate, slot 3 to the finish gate.
#[derive(Debug, Copy, Clone)]
pub struct Gates {
    items: [Gate; 4],
}

impl PartialEq for Gates {
    fn eq(&self, other: &Gates) -> (r: bool) {
        let r = self.items[0] == other.items[0] && self.items[1] == other.items[1]
            && self.items[2] == other.items[2] && self.items[3] == other.items[3];
        proof {
            if r {
                assert(self.items@ =~= other.items@);
            }
        }
        r
    }
}

impl vstd::std_specs::cmp::PartialEqSpecImpl for Gates {
    open spec fn obeys_eq_spec() -> bool {
        true
    }

    open spec fn eq_spec(&self, other: &Gates) -> bool {
        self@ =~= other@
    }
}

impl View for Gates {
    type V = Seq<Gate>;

    closed spec fn view(&self) -> Seq<Gate> {
        self.items@
    }
}

/// Every gate table has exactly four slots.
pub broadcast proof fn lemma_gates_len(g: Gates)
    ensures
        #[trigger] g@.len() == 4,
{
}

/// The table of a node that has heard from no gate yet.
pub open spec fn spec_gates_empty_view() -> Seq<Gate> {
    Seq::new(
        4,
        |i: int| Gate { active: false, last_activation_time: None, last_beacon_time: None },
    )
}

impl Default for Gates {
    fn default() -> (r: Self)
        ensures
            r@ =~= spec_gates_empty_view(),
    {
        let g = Gate::default();
        let r = Gates { items: [g, g, g, g] };
        proof {
            assert(r@ =~= spec_gates_empty_view());
        }
        r
    }
}

impl Gates {
    pub fn new(items: [Gate; 4]) -> (r: Self)
        ensures
            r@ == items@,
    {
        Gates { items }
    }

    /// The slot of the start gate.
    pub fn start_gate(&self) -> (r: &Gate)
        ensures
            *r == self@[0],
    {
        &self.items[0]
    }

    /// The slot of the finish gate.
    pub fn finish_gate(&self) -> (r: &Gate)
        ensures
            *r == self@[3],
    {
        &self.items[3]
    }

    /// The slot at a given index.
    pub fn gate_at(&self, i: usize) -> (r: &Gate)
        requires
            i < 4,
        ensures
            *r == self@[i as int],
    {
        &self.items[i]
    }

    /// The slot a node address reports into: address minus one. The
    /// coordinator and the reserved addresses past the table have none.
    pub fn get_mut_from_addr(&mut self, addr: NodeAddress) -> (r: Option<&mut Gate>)
        ensures
            (addr@ == 0 || addr@ > 4) ==> r is None && *final(self) == *old(self),
            1 <= addr@ <= 4 ==> (r matches Some(g) && *g == old(self)@[addr@ - 1] && final(self)@
                =~= old(self)@.update(addr@ - 1, *final(g))),
    {
        match addr.as_gate_index() {
            None => None,
            Some(index) => {
                if index < 4 {
                    Some(&mut self.items[index])
                } else {
                    None
                }
            },
        }
    }
}

} // verus!
