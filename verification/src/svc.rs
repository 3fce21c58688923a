//! Node services: clocks, clock synchronization, the beacon protocol, the
//! transport's observed state and the push fan-out.
pub mod clock;
pub mod fanout;
pub mod race_node;
pub mod transport;

use vstd::prelude::*;

use crate::app::SystemState;

pub use clock::calculate_clock_offset;
pub use clock::CoordinatedClock;
pub use clock::CoordinatedInstant;
pub use clock::LocalClock;
pub use clock::LocalInstant;
pub use clock::LocalOffset;
pub use race_node::RaceNode;

verus! {

/// The web front end a coordinator hands its snapshots to.
pub trait HttpServer {
    fn set_system_state(&self, status: &SystemState);
}

} // verus!
